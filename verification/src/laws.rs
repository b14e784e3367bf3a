//! What holds of the plugin's states, of the handles to them and of the
//! bridge, whatever the calls.

use vstd::prelude::*;

use crate::bridge::{routed, Reply};
use crate::client::{Client, Heap};
use crate::config::Config;
use crate::failure::Failure;
use crate::setup::after_setup;
use crate::state::StateView;

verus! {

/// Two handles to one state observe each other's writes: what is written
/// through one is what the other reads, at once. A handle to another state
/// sees no change.
pub proof fn lemma_aliases_observe_writes(
    heap: Heap,
    writer: Client,
    reader: Client,
    written: StateView,
)
    requires
        heap.holds(&writer),
        heap.holds(&reader),
    ensures
        writer.aliases(&reader) ==> heap@.update(writer@, written)[reader@] == written,
        !writer.aliases(&reader) ==> heap@.update(writer@, written)[reader@] == heap.state_of(
            &reader,
        ),
{
}

/// A state allocated for a new handle is shared with no handle that was
/// there before, and allocating it changes no state that was there before.
pub proof fn lemma_new_state_is_unshared(heap: Heap, held: Client)
    requires
        heap.holds(&held),
    ensures
        held@ != heap@.len(),
        heap@.push(StateView::initial())[held@] == heap.state_of(&held),
        heap@.push(StateView::initial())[heap@.len() as int] == StateView::initial(),
{
}

/// A fresh state is not set up. A setup call that gets a configuration
/// leaves the state set up, with that configuration's notes directory,
/// whatever the state was before. A setup call that gets a failure leaves
/// the state as it was.
pub proof fn lemma_setup_transitions(before: StateView, parsed: Result<Config, Failure>)
    ensures
        !StateView::initial().did_setup,
        parsed matches Ok(config) ==> after_setup(before, parsed) == (StateView {
            did_setup: true,
            notes_dir: config.notes_dir@,
        }),
        parsed is Err ==> after_setup(before, parsed) == before,
{
}

/// Once set up, always set up: no operation on a state lowers the flag.
pub proof fn lemma_configured_is_terminal(
    before: StateView,
    dir: Seq<char>,
    parsed: Result<Config, Failure>,
)
    requires
        before.did_setup,
    ensures
        before.with_notes_dir(dir).did_setup,
        before.with_setup_done().did_setup,
        after_setup(before, parsed).did_setup,
{
}

/// A notes directory that was written is the one that is read, and writing
/// it leaves the setup flag alone. Raising the flag leaves the notes
/// directory alone, and raising it twice is raising it once.
pub proof fn lemma_writes_are_read_back(before: StateView, dir: Seq<char>)
    ensures
        before.with_notes_dir(dir).notes_dir == dir,
        before.with_notes_dir(dir).did_setup == before.did_setup,
        before.with_setup_done().notes_dir == before.notes_dir,
        before.with_setup_done().with_setup_done() == before.with_setup_done(),
{
}

/// The user is told of a failure exactly when it was absorbed, and then the
/// host sees no error; the host sees an error exactly when the host raised
/// it, and then the user is told nothing.
pub proof fn lemma_routing_tells_one_side<R: Default>(
    outcome: Result<R, Failure>,
    reply: Reply<R>,
)
    requires
        routed(outcome, reply),
    ensures
        reply.message is Some <==> outcome matches Err(Failure::Domain(_)),
        reply.result is Err <==> outcome matches Err(Failure::Host(_)),
        !(reply.message is Some && reply.result is Err),
{
}

} // verus!
