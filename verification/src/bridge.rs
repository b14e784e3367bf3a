//! The function bridge: what the host gets back from an exposed operation.

use vstd::prelude::*;

use crate::client::{Client, Heap};
use crate::failure::Failure;

verus! {

/// What a bridged call hands to the host, and what it tells the user.
#[derive(Debug, PartialEq, Eq)]
pub struct Reply<R> {
    /// The host's view of the call: a value, or the host's own error.
    pub result: Result<R, nvim_oxi::Error>,
    /// The message for the user, where a failure was absorbed. The caller
    /// shows it once; nothing else is shown.
    pub message: Option<String>,
}

/// The routing policy. A value goes back as it is. An error that the host
/// raised goes back to the host as it is, and the user is told nothing. Any
/// other failure is absorbed: the host gets the default of the return type,
/// as if the call had succeeded, and the user gets the description.
pub open spec fn routed<R: Default>(outcome: Result<R, Failure>, reply: Reply<R>) -> bool {
    match outcome {
        Ok(value) => reply.result == Ok::<R, nvim_oxi::Error>(value) && reply.message is None,
        Err(Failure::Host(raised)) => {
            reply.result == Err::<R, nvim_oxi::Error>(raised) && reply.message is None
        },
        Err(Failure::Domain(description)) => {
            &&& reply.result matches Ok(value) && call_ensures(R::default, (), value)
            &&& reply.message == Some(description)
        },
    }
}

/// Routes the outcome of an operation.
pub fn route<R: Default>(outcome: Result<R, Failure>) -> (reply: Reply<R>)
    ensures
        routed(outcome, reply),
{
    match outcome {
        Ok(value) => Reply { result: Ok(value), message: None },
        Err(Failure::Host(raised)) => Reply { result: Err(raised), message: None },
        Err(Failure::Domain(description)) => {
            Reply { result: Ok(R::default()), message: Some(description) }
        },
    }
}

/// An operation made callable for the host: the operation, and the handle
/// to the state that its calls work on.
pub struct Bridge<F> {
    /// The handle that each call passes to the operation.
    pub client: Client,
    /// The operation.
    pub fun: F,
}

impl Client {
    /// Bridges `fun`. The bridge holds an alias of this handle, so its
    /// calls work on the state that this handle refers to.
    pub fn create_fn<F>(&self, fun: F) -> (bridge: Bridge<F>)
        ensures
            bridge.client.aliases(self),
            bridge.fun == fun,
    {
        Bridge { client: *self, fun }
    }
}

impl<F> Bridge<F> {
    /// One call from the host. `decoded` is what decoding made of the
    /// host's arguments. Where that is a failure, the operation is not run
    /// and the failure is routed. Otherwise the operation runs once, on an
    /// alias of the bridge's handle and the decoded arguments, and its
    /// outcome is routed; what it did to the heap stays done, also where it
    /// failed.
    pub fn call<A, R>(&self, heap: &mut Heap, decoded: Result<A, Failure>) -> (reply: Reply<R>)
        where
            F: Fn(&Client, &mut Heap, A) -> Result<R, Failure>,
            R: Default,
        requires
            forall|memory: &mut Heap, args: A|
                *memory == *old(heap) && decoded == Ok::<A, Failure>(args) ==> call_requires(
                    self.fun,
                    (&self.client, memory, args),
                ),
        ensures
            match decoded {
                Ok(args) => exists|memory: &mut Heap, outcome: Result<R, Failure>|
                    {
                        &&& *memory == *old(heap)
                        &&& *final(memory) == *final(heap)
                        &&& call_ensures(self.fun, (&self.client, memory, args), outcome)
                        &&& routed(outcome, reply)
                    },
                Err(failure) => {
                    &&& *final(heap) == *old(heap)
                    &&& routed(Err::<R, Failure>(failure), reply)
                },
            },
    {
        let outcome = match decoded {
            Ok(args) => {
                let alias = self.client;
                (self.fun)(&alias, heap, args)
            },
            Err(failure) => Err(failure),
        };
        route(outcome)
    }
}

} // verus!
