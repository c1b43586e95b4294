//! Bytes and text on their way to a terminal surface.
use vstd::prelude::*;

pub mod contrast;
pub mod font_registry;
pub mod style_parser;
pub mod styled_text;

verus! {

} // verus!
