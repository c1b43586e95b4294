//! The platform-independent half of a terminal multiplexer frontend.
//!
//! Everything here turns plain values into plain values: commands waiting for
//! the core, text for the command line, the rows of the quick-connect panel,
//! the sidebar, what a window does on an event. Widgets, sockets and the core
//! itself live with the caller.
use vstd::prelude::*;

pub mod cli;
pub mod client;
pub mod command_queue;
pub mod json;
pub mod laws;
pub mod linux;
pub mod seqs;
pub mod text;
pub mod text_map;
pub mod workspace_id;

verus! {

} // verus!
