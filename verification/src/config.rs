//! The settings that a setup call supplies.

use vstd::prelude::*;

verus! {

/// Validated settings, as the configuration parser hands them over.
#[derive(Debug, PartialEq, Eq)]
pub struct Config {
    /// The directory in which notes are looked up.
    pub notes_dir: String,
}

impl Config {
    /// Settings that name `notes_dir` as the notes directory.
    pub fn new(notes_dir: String) -> (config: Config)
        ensures
            config.notes_dir == notes_dir,
    {
        Config { notes_dir }
    }
}

} // verus!
