//! The bar that names the pane input goes to.
use vstd::prelude::*;

use crate::text::number::{decimal, push_decimal};

verus! {

/// The bar, by its label.
#[derive(Debug)]
pub struct InputBar {
    label: String,
}

impl View for InputBar {
    type V = Seq<char>;

    closed spec fn view(&self) -> Seq<char> {
        self.label@
    }
}

/// The label for a pane.
pub open spec fn target_label(pane: Option<u32>) -> Seq<char> {
    match pane {
        Some(id) => "@"@ + decimal(id as nat),
        None => "@?"@,
    }
}

impl InputBar {
    /// A bar without a pane.
    pub fn new() -> (r: Self)
        ensures
            r@ == target_label(None),
    {
        InputBar { label: "@?".to_owned() }
    }

    /// Names the pane that input goes to.
    pub fn set_target(&mut self, pane: Option<u32>)
        ensures
            final(self)@ == target_label(pane),
    {
        self.label = match pane {
            Some(id) => {
                let mut text = "@".to_owned();
                push_decimal(&mut text, id as u64);
                text
            },
            None => "@?".to_owned(),
        };
    }

    /// What the bar shows.
    pub fn label(&self) -> (r: &str)
        ensures
            r@ == self@,
    {
        self.label.as_str()
    }
}

impl Default for InputBar {
    fn default() -> (r: Self)
        ensures
            r@ == target_label(None),
    {
        InputBar::new()
    }
}

} // verus!
