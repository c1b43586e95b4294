//! Tasks: what the core is asked to do, and with which pane or tab.
use vstd::prelude::*;

use crate::client::call::{c_text, ffi_task, CLayoutNode, CTaskView};
use crate::client::types::{ClientLayout, ClientTask};

verus! {

/// A task has the type `type_`, names this pane, tab and direction, and no
/// name.
pub open spec fn asks(t: CTaskView, type_: int, pane: u32, tab: u32, dir: int) -> bool {
    t.type_ == type_ && t.target_pane == pane && t.target_tab == tab && t.dir == dir
        && t.name is None
}

/// Each task is asked for by its own number, with the pane or the tab it is
/// about and nothing else.
pub proof fn law_each_task_has_its_number(pane_id: u32, tab_id: u32)
    ensures
        asks(ffi_task(ClientTask::NewTab), 1, 0, 0, 0),
        asks(ffi_task((ClientTask::SwitchTab { tab_id })), 2, 0, tab_id, 0),
        asks(ffi_task((ClientTask::ClosePane { pane_id })), 3, pane_id, 0, 0),
        asks(ffi_task((ClientTask::CloseTab { tab_id })), 4, 0, tab_id, 0),
        asks(ffi_task((ClientTask::SplitPane { pane_id, horizontal: true })), 5, pane_id, 0, 1),
        asks(ffi_task((ClientTask::SplitPane { pane_id, horizontal: false })), 5, pane_id, 0, 2),
        asks(ffi_task(ClientTask::NextPane), 6, 0, 0, 0),
        asks(ffi_task(ClientTask::PreviousPane), 7, 0, 0, 0),
        asks(ffi_task((ClientTask::SwitchPane { pane_id })), 8, pane_id, 0, 0),
        asks(ffi_task((ClientTask::TogglePaneFullscreen { pane_id })), 9, pane_id, 0, 0),
        asks(ffi_task((ClientTask::BreakPane { pane_id })), 10, pane_id, 0, 0),
        asks(ffi_task(ClientTask::RefreshTabs), 11, 0, 0, 0),
        asks(ffi_task((ClientTask::RequestPaneSnapshot { pane_id })), 12, pane_id, 0, 0),
        asks(ffi_task(ClientTask::Detach), 13, 0, 0, 0),
        asks(ffi_task(ClientTask::Shutdown), 14, 0, 0, 0),
{
}

/// A text goes to the core as it is; one with a NUL in it, which C cannot
/// hold, goes as an empty one.
pub proof fn law_texts_go_as_they_are(s: Seq<char>)
    ensures
        (forall|i: int| 0 <= i < s.len() ==> s[i] != '\0') ==> c_text(s) == s,
        (exists|i: int| 0 <= i < s.len() && s[i] == '\0') ==> c_text(s).len() == 0,
{
}

/// A layout node is a split, side by side or one above the other, or a pane.
pub proof fn law_layout_nodes_are_splits_or_panes(node: CLayoutNode)
    ensures
        node.type_ == 2 || node.type_ == 3 ==> (node.tree() matches ClientLayout::Split {
            horizontal,
            ratio,
            first,
            second,
        } && {
            &&& horizontal == (node.type_ == 2)
            &&& ratio == node.ratio
            &&& node.first matches Some(n) ==> *first == n.tree()
            &&& node.second matches Some(n) ==> *second == n.tree()
            &&& node.first is None ==> *first == (ClientLayout::Leaf { pane_id: 0 })
            &&& node.second is None ==> *second == (ClientLayout::Leaf { pane_id: 0 })
        }),
        node.type_ != 2 && node.type_ != 3 ==> node.tree() == (ClientLayout::Leaf {
            pane_id: node.pane_id,
        }),
{
}

} // verus!
