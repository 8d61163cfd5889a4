//! The core of a modal text editor: a document with a cursor in it, a prompt
//! for the name of a file to open or to save to, and a log of status
//! messages.
//!
//! The editor is a state machine. A front end turns what the user does into
//! an [`Input`]; [`State::accept_input`] applies it. The editor does no
//! input or output of its own: when a prompt is confirmed it answers with a
//! [`FileRequest`], which the driver carries out and reports back on with
//! [`State::finish_save`] or [`State::finish_open`]. A failed file operation
//! becomes a message to show, never an error to the driver, so the session
//! goes on.
//!
//! `model` says in mathematical terms what every step does, `state` does it,
//! and `laws` holds what follows for every run of inputs. `keys` decides
//! what a key press means and `ui` what a front end has to offer and what it
//! is to show.

pub mod error;
pub mod file;
pub mod input;
pub mod keys;
pub mod laws;
pub mod model;
pub mod state;
pub mod text;
pub mod ui;

pub use crate::error::EditorError;
pub use crate::file::FileRequest;
pub use crate::input::{Input, InputDestination};
pub use crate::state::State;
pub use crate::ui::Ui;
