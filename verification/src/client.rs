//! Values exchanged with the core and the calls made to it.
use vstd::prelude::*;

pub mod abi;
pub mod attention;
pub mod call;
pub mod config;
pub mod error;
pub mod event;
pub mod gather;
pub mod query;
pub mod request;
pub mod runtime;
pub mod snapshot;
pub mod types;

verus! {

} // verus!
