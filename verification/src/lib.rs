//! Core logic of the radi podcast recorder: recording/upload state machine,
//! Recent-panel bookkeeping, LISTEN response interpretation, sidecar
//! metadata handling and the text shown by the terminal UI.
pub mod app;
pub mod clock;
pub mod config;
pub mod scan;
pub mod size;
pub mod upload;
pub mod text;
pub mod tui;

use vstd::prelude::*;

verus! {

} // verus!
