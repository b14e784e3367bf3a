//! Plugin state and host bridge for a note-taking editor plugin.
//!
//! The library keeps the plugin's configuration on a heap that handles
//! share, offers typed access to it, and decides what the host sees when an
//! exposed operation fails: an error raised by the host is handed back to
//! it, every other failure becomes a message for the user and a default
//! result.

pub mod api;
pub mod bridge;
pub mod client;
pub mod config;
pub mod failure;
pub mod laws;
pub mod note;
pub mod setup;
pub mod state;

pub use api::{is_api_table, ApiEntry, Operation};
pub use bridge::{route, routed, Bridge, Reply};
pub use client::{joined, Client, Heap};
pub use config::Config;
pub use failure::Failure;
pub use note::NoteRef;
pub use setup::{after_setup, setup_outcome};
pub use state::{initial_notes_dir, State, StateView};
