//! The state store: the configuration that the plugin keeps between calls.

use vstd::prelude::*;
use vstd::string::StringExecFns;

verus! {

/// What a [`State`] holds, as plain mathematical values.
pub struct StateView {
    /// Whether a setup call has completed.
    pub did_setup: bool,
    /// The directory in which notes are looked up.
    pub notes_dir: Seq<char>,
}

/// The notes directory of a state that no setup has touched: the directory
/// the process runs in.
pub open spec fn initial_notes_dir() -> Seq<char> {
    seq!['.', '/']
}

impl StateView {
    /// The state of a freshly loaded plugin.
    pub open spec fn initial() -> StateView {
        StateView { did_setup: false, notes_dir: initial_notes_dir() }
    }

    /// This state with its notes directory replaced by `dir`.
    pub open spec fn with_notes_dir(self, dir: Seq<char>) -> StateView {
        StateView { notes_dir: dir, ..self }
    }

    /// This state with the setup flag raised.
    pub open spec fn with_setup_done(self) -> StateView {
        StateView { did_setup: true, ..self }
    }
}

/// The plugin's mutable configuration. It validates nothing and touches
/// nothing outside itself.
#[derive(Debug)]
pub struct State {
    did_setup: bool,
    notes_dir: String,
}

impl View for State {
    type V = StateView;

    closed spec fn view(&self) -> StateView {
        StateView { did_setup: self.did_setup, notes_dir: self.notes_dir@ }
    }
}

impl State {
    /// A state with the setup flag down and the initial notes directory.
    pub fn new() -> (state: State)
        ensures
            state@ == StateView::initial(),
    {
        proof {
            reveal_strlit("./");
        }
        let notes_dir = String::from_str("./");
        assert(notes_dir@ =~= initial_notes_dir());
        State { did_setup: false, notes_dir }
    }

    /// A copy of the notes directory.
    pub fn get_notes_dir(&self) -> (dir: String)
        ensures
            dir@ == self@.notes_dir,
    {
        self.notes_dir.clone()
    }

    /// The setup flag.
    pub fn get_setup_flag(&self) -> (flag: bool)
        ensures
            flag == self@.did_setup,
    {
        self.did_setup
    }

    /// Replaces the notes directory, whatever it was.
    pub fn set_notes_dir(&mut self, dir: String)
        ensures
            final(self)@ == old(self)@.with_notes_dir(dir@),
    {
        self.notes_dir = dir;
    }

    /// Raises the setup flag, whatever it was.
    pub fn mark_setup_done(&mut self)
        ensures
            final(self)@ == old(self)@.with_setup_done(),
    {
        self.did_setup = true;
    }
}

impl Default for State {
    fn default() -> (state: State)
        ensures
            state@ == StateView::initial(),
    {
        State::new()
    }
}

} // verus!
