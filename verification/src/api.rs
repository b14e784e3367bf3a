//! The API builder: the operations that the plugin exposes to the host, by
//! name.

use vstd::prelude::*;
use vstd::string::StringExecFns;

use crate::bridge::{routed, Reply};
use crate::client::{Client, Heap};
use crate::config::Config;
use crate::failure::Failure;
use crate::setup::{after_setup, setup, setup_outcome};

verus! {

/// An operation that the host can call.
#[derive(Debug, Clone, Copy, PartialEq, Eq, Structural)]
pub enum Operation {
    /// Configures the plugin.
    Setup,
}

impl Operation {
    /// The name under which the host finds the operation.
    pub open spec fn name(self) -> Seq<char> {
        match self {
            Operation::Setup => seq!['s', 'e', 't', 'u', 'p'],
        }
    }
}

/// One row of the table handed to the host: a name, and the callable under
/// that name, which is an operation bridged over a handle.
#[derive(Debug, PartialEq, Eq)]
pub struct ApiEntry {
    /// The key in the host's table.
    pub name: String,
    /// What the callable runs.
    pub operation: Operation,
    /// The handle that the callable holds.
    pub client: Client,
}

/// Whether `api` is the table that `client` builds: every operation once,
/// under its name, bridged over an alias of `client`, and nothing else. No
/// key occurs twice in it.
pub open spec fn is_api_table(api: Seq<ApiEntry>, client: &Client) -> bool {
    &&& api.len() == 1
    &&& api[0].operation == Operation::Setup
    &&& api[0].name@ == Operation::Setup.name()
    &&& api[0].client.aliases(client)
}

impl Client {
    /// One call of the bridged setup operation: sets the plugin up from
    /// `parsed` and routes the outcome.
    pub fn setup(&self, heap: &mut Heap, parsed: Result<Config, Failure>) -> (reply: Reply<()>)
        requires
            old(heap).holds(self),
        ensures
            final(heap)@ == old(heap)@.update(
                self@,
                after_setup(old(heap).state_of(self), parsed),
            ),
            routed(setup_outcome(parsed), reply),
    {
        self.create_fn(setup).call(heap, Ok(parsed))
    }

    /// The table of exposed operations, for the host to register once.
    /// Every callable in it shares this handle's state.
    pub fn build_api(&self) -> (api: Vec<ApiEntry>)
        ensures
            is_api_table(api@, self),
    {
        proof {
            reveal_strlit("setup");
        }
        let name = String::from_str("setup");
        assert(name@ =~= Operation::Setup.name());
        let mut api = Vec::new();
        api.push(ApiEntry { name, operation: Operation::Setup, client: *self });
        api
    }
}

impl ApiEntry {
    /// One call from the host of the callable in this row, with what the
    /// configuration parser made of the host's arguments.
    pub fn call(&self, heap: &mut Heap, parsed: Result<Config, Failure>) -> (reply: Reply<()>)
        requires
            old(heap).holds(&self.client),
        ensures
            match self.operation {
                Operation::Setup => {
                    &&& final(heap)@ == old(heap)@.update(
                        self.client@,
                        after_setup(old(heap).state_of(&self.client), parsed),
                    )
                    &&& routed(setup_outcome(parsed), reply)
                },
            },
    {
        match self.operation {
            Operation::Setup => self.client.setup(heap, parsed),
        }
    }
}

} // verus!
