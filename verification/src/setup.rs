//! The setup operation.

use vstd::prelude::*;

use crate::client::{Client, Heap};
use crate::config::Config;
use crate::failure::Failure;
use crate::state::StateView;

verus! {

/// The state that a setup call leaves behind. A parsed configuration is
/// applied and the setup flag raised, whether or not setup ran before; a
/// failed parse changes nothing.
pub open spec fn after_setup(before: StateView, parsed: Result<Config, Failure>) -> StateView {
    match parsed {
        Ok(config) => before.with_notes_dir(config.notes_dir@).with_setup_done(),
        Err(_) => before,
    }
}

/// How a setup call ends: well, or in the failure of the parse.
pub open spec fn setup_outcome(parsed: Result<Config, Failure>) -> Result<(), Failure> {
    match parsed {
        Ok(_) => Ok(()),
        Err(failure) => Err(failure),
    }
}

/// Sets the plugin up from what the configuration parser made of the host's
/// arguments. Only the state that `client` refers to can change.
pub fn setup(client: &Client, heap: &mut Heap, parsed: Result<Config, Failure>) -> (outcome: Result<(), Failure>)
    requires
        old(heap).holds(client),
    ensures
        final(heap)@ == old(heap)@.update(
            client@,
            after_setup(old(heap).state_of(client), parsed),
        ),
        outcome == setup_outcome(parsed),
{
    match parsed {
        Ok(config) => {
            client.set_config(heap, config);
            client.did_setup(heap);
            Ok(())
        },
        Err(failure) => {
            Err(failure)
        },
    }
}

} // verus!
