//! The client facade: handles to the plugin's state, and the heap that the
//! states live on.

use vstd::prelude::*;
use vstd::string::StringExecFns;

use crate::config::Config;
use crate::note::NoteRef;
use crate::state::{State, StateView};

verus! {

/// The path of the file called `filename` inside the directory `dir`.
pub open spec fn joined(dir: Seq<char>, filename: Seq<char>) -> Seq<char> {
    dir + seq!['/'] + filename
}

/// The memory that clients share: every state that was allocated, each in
/// a slot of its own. A state keeps its slot for as long as the heap lives.
#[derive(Debug)]
pub struct Heap {
    states: Vec<State>,
}

impl View for Heap {
    type V = Seq<StateView>;

    /// The states on the heap, by slot.
    closed spec fn view(&self) -> Seq<StateView> {
        Seq::new(self.states@.len(), |slot: int| self.states@[slot]@)
    }
}

/// A handle to one state on a heap. It owns no state: a copy of a handle is
/// another handle to the same state.
#[derive(Debug, Clone, Copy, PartialEq, Eq)]
pub struct Client {
    slot: usize,
}

impl View for Client {
    type V = int;

    /// The slot of the state that the handle refers to.
    closed spec fn view(&self) -> int {
        self.slot as int
    }
}

impl Heap {
    /// A heap on which nothing is allocated.
    pub fn new() -> (heap: Heap)
        ensures
            heap@ == Seq::<StateView>::empty(),
    {
        let heap = Heap { states: Vec::new() };
        heap
    }

    /// Whether `client` refers to a state on this heap.
    pub open spec fn spec_holds(&self, client: &Client) -> bool {
        0 <= client@ < self@.len()
    }

    /// Whether `client` refers to a state on this heap.
    #[verifier::when_used_as_spec(spec_holds)]
    pub fn holds(&self, client: &Client) -> (held: bool)
        ensures
            held == self.spec_holds(client),
    {
        client.slot < self.states.len()
    }

    /// The state that `client` refers to.
    pub open spec fn state_of(&self, client: &Client) -> StateView
        recommends
            self.holds(client),
    {
        self@[client@]
    }
}

impl Client {
    /// Allocates a fresh state on `heap` and returns the first handle to
    /// it. No handle that the heap held refers to the new state, and every
    /// state that was there stays as it is.
    pub fn new(heap: &mut Heap) -> (client: Client)
        ensures
            client@ == old(heap)@.len(),
            final(heap)@ == old(heap)@.push(StateView::initial()),
    {
        let slot = heap.states.len();
        heap.states.push(State::new());
        Client { slot }
    }

    /// Whether `self` and `other` refer to the same state of a heap.
    pub open spec fn aliases(&self, other: &Client) -> bool {
        self@ == other@
    }

    /// A copy of the configured notes directory.
    pub fn notes_dir(&self, heap: &Heap) -> (dir: String)
        requires
            heap.holds(self),
        ensures
            dir@ == heap.state_of(self).notes_dir,
    {
        heap.states[self.slot].get_notes_dir()
    }

    /// Whether a setup call has completed.
    pub fn already_setup(&self, heap: &Heap) -> (flag: bool)
        requires
            heap.holds(self),
        ensures
            flag == heap.state_of(self).did_setup,
    {
        heap.states[self.slot].get_setup_flag()
    }

    /// Where the file of `note_ref` lies: the notes directory, a slash, and
    /// the file name as it stands, be it empty or itself made of several
    /// components. Nothing changes.
    pub fn path_for(&self, heap: &Heap, note_ref: &NoteRef) -> (path: String)
        requires
            heap.holds(self),
        ensures
            path@ == joined(heap.state_of(self).notes_dir, note_ref@),
    {
        proof {
            reveal_strlit("/");
        }
        let fname = note_ref.filename();
        self.notes_dir(heap).concat("/").concat(fname.as_str())
    }

    /// Records that setup has completed. Doing so twice changes nothing
    /// more. No other state on the heap changes.
    pub fn did_setup(&self, heap: &mut Heap)
        requires
            old(heap).holds(self),
        ensures
            final(heap)@ == old(heap)@.update(self@, old(heap).state_of(self).with_setup_done()),
    {
        heap.states[self.slot].mark_setup_done();
    }

    /// Takes the notes directory from `config`; the previous one is
    /// dropped. No other state on the heap changes.
    pub fn set_config(&self, heap: &mut Heap, config: Config)
        requires
            old(heap).holds(self),
        ensures
            final(heap)@ == old(heap)@.update(
                self@,
                old(heap).state_of(self).with_notes_dir(config.notes_dir@),
            ),
    {
        heap.states[self.slot].set_notes_dir(config.notes_dir);
    }
}

} // verus!
