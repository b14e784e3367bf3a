//! References to notes.

use vstd::prelude::*;

verus! {

/// A reference to a note, resolved as far as the name of its file.
#[derive(Debug, PartialEq, Eq)]
pub struct NoteRef {
    filename: String,
}

impl View for NoteRef {
    type V = Seq<char>;

    /// The name of the note's file.
    closed spec fn view(&self) -> Seq<char> {
        self.filename@
    }
}

impl NoteRef {
    /// A reference to the note kept in the file called `filename`.
    pub fn new(filename: String) -> (note_ref: NoteRef)
        ensures
            note_ref@ == filename@,
    {
        NoteRef { filename }
    }

    /// A copy of the name of the note's file.
    pub fn filename(&self) -> (filename: String)
        ensures
            filename@ == self@,
    {
        self.filename.clone()
    }
}

} // verus!
