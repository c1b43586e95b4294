//! The command line: what a command asks of the core and what it prints.
use vstd::prelude::*;

pub mod command;
pub mod format;
pub mod routing;
pub mod state;

verus! {

} // verus!
