//! What the operations of the library promise, stated on what goes in and what
//! comes out.
//!
//! Each module speaks of one part of it. A statement here names the fields, the
//! words and the numbers that a caller sees, so that it can be read without the
//! definitions that the operation is built from.
pub mod answers;
pub mod attention;
pub mod cli;
pub mod connections;
pub mod contrast;
pub mod core_calls;
pub mod display;
pub mod events;
pub mod json;
pub mod merging;
pub mod panel;
pub mod preferences;
pub mod preferences_words;
pub mod queue;
pub mod selection;
pub mod sidebar;
pub mod state;
pub mod tasks;
pub mod text;
pub mod window;
pub mod window_flow;
pub mod window_render;
pub mod wire;
