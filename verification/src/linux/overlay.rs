//! What floats above the terminal: the button to the latest line, the marks
//! of commands, the search in a pane and the offer to go back.
use vstd::prelude::*;

use crate::linux::window_activity::{CommandMarks, JumpLatest};
use crate::text::opt_view;

verus! {

/// The layer above the terminal.
#[derive(Debug)]
pub struct OverlayLayer {
    pub jump_latest: bool,
    pub jump_label: String,
    pub jump_unseen: u32,
    pub disconnect: bool,
    pub search_highlight: bool,
    pub pane_find: bool,
    pub last_seen: bool,
    pub command_ok: Option<String>,
    pub command_fail: Option<String>,
}

/// The view of an [`OverlayLayer`].
pub struct OverlayView {
    pub jump_latest: bool,
    pub jump_label: Seq<char>,
    pub jump_unseen: u32,
    pub disconnect: bool,
    pub search_highlight: bool,
    pub pane_find: bool,
    pub last_seen: bool,
    pub command_ok: Option<Seq<char>>,
    pub command_fail: Option<Seq<char>>,
}

impl View for OverlayLayer {
    type V = OverlayView;

    open spec fn view(&self) -> OverlayView {
        OverlayView {
            jump_latest: self.jump_latest,
            jump_label: self.jump_label@,
            jump_unseen: self.jump_unseen,
            disconnect: self.disconnect,
            search_highlight: self.search_highlight,
            pane_find: self.pane_find,
            last_seen: self.last_seen,
            command_ok: opt_view(self.command_ok),
            command_fail: opt_view(self.command_fail),
        }
    }
}

/// A layer that shows nothing.
pub open spec fn empty_overlay() -> OverlayView {
    OverlayView {
        jump_latest: false,
        jump_label: "↓"@,
        jump_unseen: 0,
        disconnect: false,
        search_highlight: false,
        pane_find: false,
        last_seen: false,
        command_ok: None,
        command_fail: None,
    }
}

impl OverlayLayer {
    /// A layer that shows nothing.
    pub fn new() -> (r: Self)
        ensures
            r@ == empty_overlay(),
    {
        OverlayLayer {
            jump_latest: false,
            jump_label: "↓".to_owned(),
            jump_unseen: 0,
            disconnect: false,
            search_highlight: false,
            pane_find: false,
            last_seen: false,
            command_ok: None,
            command_fail: None,
        }
    }

    /// Shows the commands behind the marks; a mark without a command is
    /// hidden.
    pub fn show_marks(&mut self, marks: CommandMarks)
        ensures
            final(self)@ == (OverlayView {
                command_ok: opt_view(marks.ok),
                command_fail: opt_view(marks.fail),
                ..old(self)@
            }),
    {
        self.command_ok = marks.ok;
        self.command_fail = marks.fail;
    }

    /// Takes in a click on the button to the latest line: no line is unseen.
    pub fn jumped(&mut self)
        ensures
            final(self)@ == (OverlayView { jump_unseen: 0, ..old(self)@ }),
    {
        self.jump_unseen = 0;
    }

    /// Shows or hides the button to the latest line.
    pub fn show_jump(&mut self, jump: JumpLatest)
        ensures
            final(self)@ == (OverlayView {
                jump_latest: jump.visible,
                jump_label: match jump.label {
                    Some(label) => label@,
                    None => old(self)@.jump_label,
                },
                search_highlight: old(self)@.search_highlight && !jump.hide_highlight,
                ..old(self)@
            }),
    {
        self.jump_latest = jump.visible;
        if jump.hide_highlight {
            self.search_highlight = false;
        }
        if let Some(label) = jump.label {
            self.jump_label = label;
        }
    }
}

impl Default for OverlayLayer {
    fn default() -> (r: Self)
        ensures
            r@ == empty_overlay(),
    {
        OverlayLayer::new()
    }
}

} // verus!
