//! The calls made to the core, as values.
//!
//! The core is reached through a C interface. What is asked of it is decided
//! here; the caller performs the call and hands the answer back.
use vstd::prelude::*;

use crate::client::abi::{
    BACKEND_STATUS_DISCONNECTED, DIR_HORIZONTAL, DIR_VERTICAL, LAYOUT_SPLIT_H, LAYOUT_SPLIT_V,
    STATE_BACKEND_STATUS, TASK_BREAK_PANE, TASK_CLOSE_PANE, TASK_CLOSE_TAB, TASK_DETACH,
    TASK_NEW_TAB, TASK_NEXT_PANE, TASK_PREV_PANE, TASK_REFRESH_TABS, TASK_RENAME_TAB,
    TASK_RENAME_WORKSPACE, TASK_REQUEST_PANE_SNAPSHOT, TASK_SHUTDOWN, TASK_SPLIT_PANE,
    TASK_SWITCH_PANE, TASK_SWITCH_TAB, TASK_TOGGLE_PANE_FULLSCREEN,
};
use crate::client::types::{
    ClientEvent, ClientLayout, ClientPane, ClientResizeAxis, ClientTab, ClientTask,
};
use crate::text::{chars_of, opt_view};

verus! {

/// Room for events in one poll.
pub const EVENT_CAPACITY: usize = 64;

/// Room for tabs in one query.
pub const TAB_CAPACITY: usize = 32;

/// Room for panes in one query.
pub const PANE_CAPACITY: usize = 64;

/// Room for the output of one pane.
pub const PANE_OUTPUT_CAPACITY: usize = 262144;

/// A task in the form in which the core takes it.
#[derive(Debug, Clone, PartialEq, Eq)]
pub struct CTask {
    pub type_: u32,
    pub target_pane: u32,
    pub target_tab: u32,
    pub dir: u32,
    pub name: Option<String>,
}

/// The view of a [`CTask`].
pub struct CTaskView {
    pub type_: u32,
    pub target_pane: u32,
    pub target_tab: u32,
    pub dir: u32,
    pub name: Option<Seq<char>>,
}

impl View for CTask {
    type V = CTaskView;

    open spec fn view(&self) -> CTaskView {
        CTaskView {
            type_: self.type_,
            target_pane: self.target_pane,
            target_tab: self.target_tab,
            dir: self.dir,
            name: opt_view(self.name),
        }
    }
}

/// One call of the C interface.
#[derive(Debug, Clone, PartialEq, Eq)]
pub enum CoreCall {
    Execute { task: CTask },
    ExecuteWorkspace { workspace_id: String, task: CTask },
    SendInput { pane_id: u32, data: Vec<u8> },
    SendInputQuiet { pane_id: u32, data: Vec<u8> },
    WorkspaceSendInput { workspace_id: String, pane_id: u32, data: Vec<u8> },
    WorkspaceSendInputQuiet { workspace_id: String, pane_id: u32, data: Vec<u8> },
    ResizeClient { cols: u16, rows: u16 },
    ResizePane { pane_id: u32, cols: u16, rows: u16 },
    WorkspaceResizeClient { workspace_id: String, cols: u16, rows: u16 },
    WorkspaceResizePane { workspace_id: String, pane_id: u32, cols: u16, rows: u16 },
    WorkspaceResizePaneAxis { workspace_id: String, pane_id: u32, axis: u32, size: u16 },
    WorkspaceActivate { workspace_id: String },
    WorkspaceClose { workspace_id: String },
    /// Nothing is called; the answer is success.
    Nothing,
}

/// The view of a [`CoreCall`].
pub enum CoreCallView {
    Execute { task: CTaskView },
    ExecuteWorkspace { workspace_id: Seq<char>, task: CTaskView },
    SendInput { pane_id: u32, data: Seq<u8> },
    SendInputQuiet { pane_id: u32, data: Seq<u8> },
    WorkspaceSendInput { workspace_id: Seq<char>, pane_id: u32, data: Seq<u8> },
    WorkspaceSendInputQuiet { workspace_id: Seq<char>, pane_id: u32, data: Seq<u8> },
    ResizeClient { cols: u16, rows: u16 },
    ResizePane { pane_id: u32, cols: u16, rows: u16 },
    WorkspaceResizeClient { workspace_id: Seq<char>, cols: u16, rows: u16 },
    WorkspaceResizePane { workspace_id: Seq<char>, pane_id: u32, cols: u16, rows: u16 },
    WorkspaceResizePaneAxis { workspace_id: Seq<char>, pane_id: u32, axis: u32, size: u16 },
    WorkspaceActivate { workspace_id: Seq<char> },
    WorkspaceClose { workspace_id: Seq<char> },
    Nothing,
}

impl View for CoreCall {
    type V = CoreCallView;

    open spec fn view(&self) -> CoreCallView {
        match *self {
            CoreCall::Execute { task } => CoreCallView::Execute { task: task@ },
            CoreCall::ExecuteWorkspace { workspace_id, task } => CoreCallView::ExecuteWorkspace {
                workspace_id: workspace_id@,
                task: task@,
            },
            CoreCall::SendInput { pane_id, data } => CoreCallView::SendInput {
                pane_id,
                data: data@,
            },
            CoreCall::SendInputQuiet { pane_id, data } => CoreCallView::SendInputQuiet {
                pane_id,
                data: data@,
            },
            CoreCall::WorkspaceSendInput { workspace_id, pane_id, data } =>
                CoreCallView::WorkspaceSendInput {
                workspace_id: workspace_id@,
                pane_id,
                data: data@,
            },
            CoreCall::WorkspaceSendInputQuiet { workspace_id, pane_id, data } =>
                CoreCallView::WorkspaceSendInputQuiet {
                workspace_id: workspace_id@,
                pane_id,
                data: data@,
            },
            CoreCall::ResizeClient { cols, rows } => CoreCallView::ResizeClient { cols, rows },
            CoreCall::ResizePane { pane_id, cols, rows } => CoreCallView::ResizePane {
                pane_id,
                cols,
                rows,
            },
            CoreCall::WorkspaceResizeClient { workspace_id, cols, rows } =>
                CoreCallView::WorkspaceResizeClient { workspace_id: workspace_id@, cols, rows },
            CoreCall::WorkspaceResizePane { workspace_id, pane_id, cols, rows } =>
                CoreCallView::WorkspaceResizePane {
                workspace_id: workspace_id@,
                pane_id,
                cols,
                rows,
            },
            CoreCall::WorkspaceResizePaneAxis { workspace_id, pane_id, axis, size } =>
                CoreCallView::WorkspaceResizePaneAxis {
                workspace_id: workspace_id@,
                pane_id,
                axis,
                size,
            },
            CoreCall::WorkspaceActivate { workspace_id } => CoreCallView::WorkspaceActivate {
                workspace_id: workspace_id@,
            },
            CoreCall::WorkspaceClose { workspace_id } => CoreCallView::WorkspaceClose {
                workspace_id: workspace_id@,
            },
            CoreCall::Nothing => CoreCallView::Nothing,
        }
    }
}

/// A string as the C interface gets it: one with a NUL inside becomes empty.
pub open spec fn c_text(s: Seq<char>) -> Seq<char> {
    if s.contains('\0') {
        Seq::<char>::empty()
    } else {
        s
    }
}

/// Returns a string as the C interface gets it.
pub fn cstring(value: &str) -> (r: String)
    ensures
        r@ == c_text(value@),
{
    let v = chars_of(value);
    let mut i: usize = 0;
    while i < v.len()
        invariant
            i <= v.len(),
            v@ == value@,
            forall|j: int| 0 <= j < i ==> v@[j] != '\0',
        decreases v.len() - i,
    {
        if v[i] == '\0' {
            return String::new();
        }
        i += 1;
    }
    value.to_owned()
}

/// Returns an optional string as the C interface gets it.
pub fn cstring_opt(value: Option<&str>) -> (r: Option<String>)
    ensures
        opt_view(r) == match value {
            Some(s) => Some(c_text(s@)),
            None => None,
        },
{
    match value {
        Some(s) => Some(cstring(s)),
        None => None,
    }
}

/// A task without a name.
pub open spec fn plain_task(type_: u32, pane: u32, tab: u32, dir: u32) -> CTaskView {
    CTaskView { type_, target_pane: pane, target_tab: tab, dir, name: None }
}

/// The number of a split direction.
pub open spec fn direction(horizontal: bool) -> u32 {
    if horizontal {
        DIR_HORIZONTAL
    } else {
        DIR_VERTICAL
    }
}

/// A frontend task in the form in which the core takes it.
pub open spec fn ffi_task(task: ClientTask) -> CTaskView {
    match task {
        ClientTask::NewTab => plain_task(TASK_NEW_TAB, 0, 0, 0),
        ClientTask::SwitchTab { tab_id } => plain_task(TASK_SWITCH_TAB, 0, tab_id, 0),
        ClientTask::ClosePane { pane_id } => plain_task(TASK_CLOSE_PANE, pane_id, 0, 0),
        ClientTask::CloseTab { tab_id } => plain_task(TASK_CLOSE_TAB, 0, tab_id, 0),
        ClientTask::SplitPane { pane_id, horizontal } => plain_task(
            TASK_SPLIT_PANE,
            pane_id,
            0,
            direction(horizontal),
        ),
        ClientTask::NextPane => plain_task(TASK_NEXT_PANE, 0, 0, 0),
        ClientTask::PreviousPane => plain_task(TASK_PREV_PANE, 0, 0, 0),
        ClientTask::SwitchPane { pane_id } => plain_task(TASK_SWITCH_PANE, pane_id, 0, 0),
        ClientTask::TogglePaneFullscreen { pane_id } => plain_task(
            TASK_TOGGLE_PANE_FULLSCREEN,
            pane_id,
            0,
            0,
        ),
        ClientTask::BreakPane { pane_id } => plain_task(TASK_BREAK_PANE, pane_id, 0, 0),
        ClientTask::RefreshTabs => plain_task(TASK_REFRESH_TABS, 0, 0, 0),
        ClientTask::RequestPaneSnapshot { pane_id } => plain_task(
            TASK_REQUEST_PANE_SNAPSHOT,
            pane_id,
            0,
            0,
        ),
        ClientTask::Detach => plain_task(TASK_DETACH, 0, 0, 0),
        ClientTask::Shutdown => plain_task(TASK_SHUTDOWN, 0, 0, 0),
    }
}

/// Translates a frontend task.
pub fn task_to_ffi(task: ClientTask) -> (r: CTask)
    ensures
        r@ == ffi_task(task),
{
    let (type_, target_pane, target_tab, dir): (u32, u32, u32, u32) = match task {
        ClientTask::NewTab => (TASK_NEW_TAB, 0, 0, 0),
        ClientTask::SwitchTab { tab_id } => (TASK_SWITCH_TAB, 0, tab_id, 0),
        ClientTask::ClosePane { pane_id } => (TASK_CLOSE_PANE, pane_id, 0, 0),
        ClientTask::CloseTab { tab_id } => (TASK_CLOSE_TAB, 0, tab_id, 0),
        ClientTask::SplitPane { pane_id, horizontal } => (
            TASK_SPLIT_PANE,
            pane_id,
            0,
            if horizontal {
                DIR_HORIZONTAL
            } else {
                DIR_VERTICAL
            },
        ),
        ClientTask::NextPane => (TASK_NEXT_PANE, 0, 0, 0),
        ClientTask::PreviousPane => (TASK_PREV_PANE, 0, 0, 0),
        ClientTask::SwitchPane { pane_id } => (TASK_SWITCH_PANE, pane_id, 0, 0),
        ClientTask::TogglePaneFullscreen { pane_id } => (
            TASK_TOGGLE_PANE_FULLSCREEN,
            pane_id,
            0,
            0,
        ),
        ClientTask::BreakPane { pane_id } => (TASK_BREAK_PANE, pane_id, 0, 0),
        ClientTask::RefreshTabs => (TASK_REFRESH_TABS, 0, 0, 0),
        ClientTask::RequestPaneSnapshot { pane_id } => (TASK_REQUEST_PANE_SNAPSHOT, pane_id, 0, 0),
        ClientTask::Detach => (TASK_DETACH, 0, 0, 0),
        ClientTask::Shutdown => (TASK_SHUTDOWN, 0, 0, 0),
    };
    CTask { type_, target_pane, target_tab, dir, name: None }
}

/// Different tasks are told apart by the core.
pub proof fn law_task_translation_injective(a: ClientTask, b: ClientTask)
    requires
        ffi_task(a) == ffi_task(b),
    ensures
        a == b,
{
}

/// Copies bytes.
pub fn copy_bytes(data: &Vec<u8>) -> (r: Vec<u8>)
    ensures
        r@ == data@,
{
    let mut out: Vec<u8> = Vec::new();
    let mut i: usize = 0;
    while i < data.len()
        invariant
            i <= data.len(),
            out@ == data@.take(i as int),
        decreases data.len() - i,
    {
        out.push(data[i]);
        assert(data@.take(i + 1) =~= data@.take(i as int).push(data@[i as int]));
        i += 1;
    }
    assert(data@.take(data@.len() as int) =~= data@);
    out
}

/// How many entries of a buffer were filled.
pub fn copied_count(count: i32, capacity: usize) -> (r: usize)
    ensures
        r == if count <= 0 {
            0
        } else if count < capacity {
            count as int
        } else {
            capacity as int
        },
{
    if count <= 0 {
        0
    } else if (count as usize) < capacity {
        count as usize
    } else {
        capacity
    }
}

/// A position of the core: negative when there is none. Of a larger number the
/// lower half is taken.
pub fn offset_reply(offset: i64) -> (r: Option<u32>)
    ensures
        r == if offset >= 0 {
            Some((offset % 0x1_0000_0000) as u32)
        } else {
            None
        },
{
    if offset >= 0 {
        Some((offset % 0x1_0000_0000) as u32)
    } else {
        None
    }
}

/// A line number of the core: negative when there is none.
pub fn line_seq_reply(seq: i64) -> (r: Option<u64>)
    ensures
        r == if seq >= 0 {
            Some(seq as u64)
        } else {
            None
        },
{
    if seq >= 0 {
        Some(seq as u64)
    } else {
        None
    }
}

/// A tab as the core writes it into a buffer.
#[derive(Debug, Clone, PartialEq, Eq)]
pub struct CTab {
    pub id: u32,
    pub name: String,
    pub is_active: i32,
}

/// A pane as the core writes it into a buffer.
#[derive(Debug, Clone, Copy, PartialEq, Eq)]
pub struct CPane {
    pub id: u32,
    pub cols: u16,
    pub rows: u16,
    pub is_active: i32,
}

/// The tab that a buffer entry stands for.
pub open spec fn tab_of(c: CTab) -> ClientTab {
    ClientTab { id: c.id, name: c.name, is_active: c.is_active != 0 }
}

/// Copies the filled tabs of a buffer.
pub fn tabs_reply(buffer: &Vec<CTab>, count: i32) -> (r: Vec<ClientTab>)
    requires
        buffer.len() == TAB_CAPACITY,
    ensures
        count <= 0 ==> r.len() == 0,
        0 < count < TAB_CAPACITY ==> r.len() == count,
        count >= TAB_CAPACITY ==> r.len() == TAB_CAPACITY,
        forall|i: int| 0 <= i < r.len() ==> #[trigger] r@[i] == tab_of(buffer@[i]),
{
    let n: usize = copied_count(count, TAB_CAPACITY);
    let mut out: Vec<ClientTab> = Vec::new();
    let mut i: usize = 0;
    while i < n
        invariant
            i <= n <= buffer.len(),
            out.len() == i,
            forall|j: int| 0 <= j < i ==> #[trigger] out@[j] == tab_of(buffer@[j]),
        decreases n - i,
    {
        out.push(
            ClientTab {
                id: buffer[i].id,
                name: buffer[i].name.clone(),
                is_active: buffer[i].is_active != 0,
            },
        );
        i += 1;
    }
    out
}

/// A buffer entry and a pane agree; a pane from the core has no title.
pub open spec fn pane_matches(p: ClientPane, c: CPane) -> bool {
    p.id == c.id && p.cols == c.cols && p.rows == c.rows && p.is_active == (c.is_active != 0)
        && p.title@ == Seq::<char>::empty()
}

/// Copies the filled panes of a buffer.
pub fn panes_reply(buffer: &Vec<CPane>, count: i32) -> (r: Vec<ClientPane>)
    requires
        buffer.len() == PANE_CAPACITY,
    ensures
        count <= 0 ==> r.len() == 0,
        0 < count < PANE_CAPACITY ==> r.len() == count,
        count >= PANE_CAPACITY ==> r.len() == PANE_CAPACITY,
        forall|i: int| 0 <= i < r.len() ==> pane_matches(#[trigger] r@[i], buffer@[i]),
{
    let n: usize = copied_count(count, PANE_CAPACITY);
    let mut out: Vec<ClientPane> = Vec::new();
    let mut i: usize = 0;
    while i < n
        invariant
            i <= n <= buffer.len(),
            out.len() == i,
            forall|j: int| 0 <= j < i ==> pane_matches(#[trigger] out@[j], buffer@[j]),
        decreases n - i,
    {
        out.push(
            ClientPane {
                id: buffer[i].id,
                cols: buffer[i].cols,
                rows: buffer[i].rows,
                is_active: buffer[i].is_active != 0,
                title: String::new(),
            },
        );
        i += 1;
    }
    out
}

/// A layout node as the core writes it; a missing child is `None`.
pub struct CLayoutNode {
    pub type_: u32,
    pub pane_id: u32,
    pub ratio: u32,
    pub first: Option<Box<CLayoutNode>>,
    pub second: Option<Box<CLayoutNode>>,
}

impl CLayoutNode {
    /// The tree that the node stands for; a missing child is pane 0.
    pub open spec fn tree(self) -> ClientLayout
        decreases self,
    {
        if self.type_ == LAYOUT_SPLIT_H || self.type_ == LAYOUT_SPLIT_V {
            ClientLayout::Split {
                horizontal: self.type_ == LAYOUT_SPLIT_H,
                ratio: self.ratio,
                first: Box::new(
                    match self.first {
                        Some(n) => n.tree(),
                        None => ClientLayout::Leaf { pane_id: 0 },
                    },
                ),
                second: Box::new(
                    match self.second {
                        Some(n) => n.tree(),
                        None => ClientLayout::Leaf { pane_id: 0 },
                    },
                ),
            }
        } else {
            ClientLayout::Leaf { pane_id: self.pane_id }
        }
    }
}

/// Copies a layout tree.
pub fn clone_layout(node: &CLayoutNode) -> (r: ClientLayout)
    ensures
        r == node.tree(),
    decreases *node,
{
    if node.type_ == LAYOUT_SPLIT_H || node.type_ == LAYOUT_SPLIT_V {
        let first = match &node.first {
            Some(n) => clone_layout(n),
            None => ClientLayout::Leaf { pane_id: 0 },
        };
        let second = match &node.second {
            Some(n) => clone_layout(n),
            None => ClientLayout::Leaf { pane_id: 0 },
        };
        ClientLayout::Split {
            horizontal: node.type_ == LAYOUT_SPLIT_H,
            ratio: node.ratio,
            first: Box::new(first),
            second: Box::new(second),
        }
    } else {
        ClientLayout::Leaf { pane_id: node.pane_id }
    }
}

/// The client's side of one handle of the core.
#[derive(Debug)]
pub struct FfiClient {
    last_status: u32,
}

impl FfiClient {
    /// The last backend status that was seen.
    pub closed spec fn status(&self) -> u32 {
        self.last_status
    }

    /// Takes over a handle; there is none when construction failed.
    pub fn from_raw(handle_is_null: bool) -> (r: Option<FfiClient>)
        ensures
            r is Some <==> !handle_is_null,
            r matches Some(c) ==> c.status() == BACKEND_STATUS_DISCONNECTED,
    {
        if handle_is_null {
            None
        } else {
            Some(FfiClient { last_status: BACKEND_STATUS_DISCONNECTED })
        }
    }

    /// Returns the last backend status that was seen.
    pub fn status_code(&self) -> (r: u32)
        ensures
            r == self.status(),
    {
        self.last_status
    }

    /// Takes over one event; a status event is remembered.
    pub fn copy_event(&mut self, event: ClientEvent) -> (r: ClientEvent)
        ensures
            r == event,
            final(self).status() == if event.type_ == STATE_BACKEND_STATUS {
                event.pane_id
            } else {
                old(self).status()
            },
    {
        if event.type_ == STATE_BACKEND_STATUS {
            self.last_status = event.pane_id;
        }
        event
    }

    /// Runs a task in the active workspace.
    pub fn execute_task(task: ClientTask) -> (r: CoreCall)
        ensures
            r@ == (CoreCallView::Execute { task: ffi_task(task) }),
    {
        CoreCall::Execute { task: task_to_ffi(task) }
    }

    /// Runs a task in a workspace.
    pub fn execute_workspace_task(workspace_id: &str, task: ClientTask) -> (r: CoreCall)
        ensures
            r@ == (CoreCallView::ExecuteWorkspace {
                workspace_id: c_text(workspace_id@),
                task: ffi_task(task),
            }),
    {
        CoreCall::ExecuteWorkspace { workspace_id: cstring(workspace_id), task: task_to_ffi(task) }
    }

    /// Makes a tab with an optional name.
    pub fn new_workspace_tab(workspace_id: &str, name: Option<&str>) -> (r: CoreCall)
        ensures
            r@ == (CoreCallView::ExecuteWorkspace {
                workspace_id: c_text(workspace_id@),
                task: CTaskView {
                    type_: TASK_NEW_TAB,
                    target_pane: 0,
                    target_tab: 0,
                    dir: 0,
                    name: match name {
                        Some(s) => Some(c_text(s@)),
                        None => None,
                    },
                },
            }),
    {
        CoreCall::ExecuteWorkspace {
            workspace_id: cstring(workspace_id),
            task: CTask {
                type_: TASK_NEW_TAB,
                target_pane: 0,
                target_tab: 0,
                dir: 0,
                name: cstring_opt(name),
            },
        }
    }

    /// Renames a workspace.
    pub fn rename_workspace(workspace_id: &str, name: &str) -> (r: CoreCall)
        ensures
            r@ == (CoreCallView::ExecuteWorkspace {
                workspace_id: c_text(workspace_id@),
                task: CTaskView {
                    type_: TASK_RENAME_WORKSPACE,
                    target_pane: 0,
                    target_tab: 0,
                    dir: 0,
                    name: Some(c_text(name@)),
                },
            }),
    {
        CoreCall::ExecuteWorkspace {
            workspace_id: cstring(workspace_id),
            task: CTask {
                type_: TASK_RENAME_WORKSPACE,
                target_pane: 0,
                target_tab: 0,
                dir: 0,
                name: Some(cstring(name)),
            },
        }
    }

    /// Renames a tab.
    pub fn rename_workspace_tab(workspace_id: &str, tab_id: u32, name: &str) -> (r: CoreCall)
        ensures
            r@ == (CoreCallView::ExecuteWorkspace {
                workspace_id: c_text(workspace_id@),
                task: CTaskView {
                    type_: TASK_RENAME_TAB,
                    target_pane: 0,
                    target_tab: tab_id,
                    dir: 0,
                    name: Some(c_text(name@)),
                },
            }),
    {
        CoreCall::ExecuteWorkspace {
            workspace_id: cstring(workspace_id),
            task: CTask {
                type_: TASK_RENAME_TAB,
                target_pane: 0,
                target_tab: tab_id,
                dir: 0,
                name: Some(cstring(name)),
            },
        }
    }

    /// Writes input to a pane of a workspace; empty input calls nothing.
    pub fn send_workspace_input(workspace_id: &str, pane_id: u32, data: Vec<u8>) -> (r: CoreCall)
        ensures
            r@ == if data@.len() == 0 {
                CoreCallView::Nothing
            } else {
                CoreCallView::WorkspaceSendInput {
                    workspace_id: c_text(workspace_id@),
                    pane_id,
                    data: data@,
                }
            },
    {
        if data.len() == 0 {
            CoreCall::Nothing
        } else {
            CoreCall::WorkspaceSendInput { workspace_id: cstring(workspace_id), pane_id, data }
        }
    }

    /// Writes input without touching the attention state; empty input calls
    /// nothing.
    pub fn send_workspace_input_quiet(
        workspace_id: &str,
        pane_id: u32,
        data: Vec<u8>,
    ) -> (r: CoreCall)
        ensures
            r@ == if data@.len() == 0 {
                CoreCallView::Nothing
            } else {
                CoreCallView::WorkspaceSendInputQuiet {
                    workspace_id: c_text(workspace_id@),
                    pane_id,
                    data: data@,
                }
            },
    {
        if data.len() == 0 {
            CoreCall::Nothing
        } else {
            CoreCall::WorkspaceSendInputQuiet { workspace_id: cstring(workspace_id), pane_id, data }
        }
    }

    /// Writes input to a pane of the active workspace.
    pub fn send_input(pane_id: u32, data: Vec<u8>) -> (r: CoreCall)
        ensures
            r@ == if data@.len() == 0 {
                CoreCallView::Nothing
            } else {
                CoreCallView::SendInput { pane_id, data: data@ }
            },
    {
        if data.len() == 0 {
            CoreCall::Nothing
        } else {
            CoreCall::SendInput { pane_id, data }
        }
    }

    /// Writes input to a pane of the active workspace without touching the
    /// attention state.
    pub fn send_input_quiet(pane_id: u32, data: Vec<u8>) -> (r: CoreCall)
        ensures
            r@ == if data@.len() == 0 {
                CoreCallView::Nothing
            } else {
                CoreCallView::SendInputQuiet { pane_id, data: data@ }
            },
    {
        if data.len() == 0 {
            CoreCall::Nothing
        } else {
            CoreCall::SendInputQuiet { pane_id, data }
        }
    }

    /// Resizes the client of a workspace.
    pub fn resize_workspace_client(workspace_id: &str, cols: u16, rows: u16) -> (r: CoreCall)
        ensures
            r@ == (CoreCallView::WorkspaceResizeClient {
                workspace_id: c_text(workspace_id@),
                cols,
                rows,
            }),
    {
        CoreCall::WorkspaceResizeClient { workspace_id: cstring(workspace_id), cols, rows }
    }

    /// Resizes a pane of a workspace.
    pub fn resize_workspace_pane(
        workspace_id: &str,
        pane_id: u32,
        cols: u16,
        rows: u16,
    ) -> (r: CoreCall)
        ensures
            r@ == (CoreCallView::WorkspaceResizePane {
                workspace_id: c_text(workspace_id@),
                pane_id,
                cols,
                rows,
            }),
    {
        CoreCall::WorkspaceResizePane { workspace_id: cstring(workspace_id), pane_id, cols, rows }
    }

    /// Resizes a pane of a workspace along one axis.
    pub fn resize_workspace_pane_axis(
        workspace_id: &str,
        pane_id: u32,
        axis: ClientResizeAxis,
        size: u16,
    ) -> (r: CoreCall)
        ensures
            r@ == (CoreCallView::WorkspaceResizePaneAxis {
                workspace_id: c_text(workspace_id@),
                pane_id,
                axis: direction(axis == ClientResizeAxis::Horizontal),
                size,
            }),
    {
        let axis: u32 = match axis {
            ClientResizeAxis::Horizontal => DIR_HORIZONTAL,
            ClientResizeAxis::Vertical => DIR_VERTICAL,
        };
        CoreCall::WorkspaceResizePaneAxis {
            workspace_id: cstring(workspace_id),
            pane_id,
            axis,
            size,
        }
    }

    /// Makes a workspace the active one.
    pub fn activate_workspace(id: &str) -> (r: CoreCall)
        ensures
            r@ == (CoreCallView::WorkspaceActivate { workspace_id: c_text(id@) }),
    {
        CoreCall::WorkspaceActivate { workspace_id: cstring(id) }
    }

    /// Closes a workspace.
    pub fn close_workspace(id: &str) -> (r: CoreCall)
        ensures
            r@ == (CoreCallView::WorkspaceClose { workspace_id: c_text(id@) }),
    {
        CoreCall::WorkspaceClose { workspace_id: cstring(id) }
    }

    /// Runs a task that is already in the form in which the core takes it.
    pub fn execute(task: CTask) -> (r: CoreCall)
        ensures
            r@ == (CoreCallView::Execute { task: task@ }),
    {
        CoreCall::Execute { task }
    }

    /// Resizes the client of the active workspace.
    pub fn resize_client(cols: u16, rows: u16) -> (r: CoreCall)
        ensures
            r@ == (CoreCallView::ResizeClient { cols, rows }),
    {
        CoreCall::ResizeClient { cols, rows }
    }

    /// Resizes a pane of the active workspace.
    pub fn resize_pane(pane_id: u32, cols: u16, rows: u16) -> (r: CoreCall)
        ensures
            r@ == (CoreCallView::ResizePane { pane_id, cols, rows }),
    {
        CoreCall::ResizePane { pane_id, cols, rows }
    }
}

} // verus!
