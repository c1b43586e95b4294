//! The calls of the core that ask for something, and what their answers give.
use vstd::prelude::*;

use crate::client::call::{
    c_text, clone_layout, copied_count, cstring, CLayoutNode, FfiClient, PANE_CAPACITY,
    PANE_OUTPUT_CAPACITY, TAB_CAPACITY,
};
use crate::client::config::{
    client_target_json, intent_name, intent_word, next_step, target_json, ClientAttentionConfig,
    ConfigTransaction,
};
use crate::client::error::{answer_of, reply_view, ReplyError, ReplyErrorView};
use crate::client::request::{
    attention_json, attention_text, open_request_json, open_request_text, patch_json, patch_text,
};
use crate::client::runtime::{check_code, failed_with, filled};
use crate::client::types::{
    ClientJsonPatchOperation, ClientLayout, ClientOpenIntent, ClientOpenRequest, ClientTarget,
};
use crate::json::read::{
    as_elements, as_string, elements_in, field, field_of, indexed, string_in, value_or_null,
};
use crate::text::{opt_view, views};

verus! {

/// How long the core may look for something, in milliseconds.
pub const DISCOVERY_TIMEOUT_MS: u32 = 10000;

/// A function of the core.
#[derive(Debug, Clone, Copy, PartialEq, Eq, Structural)]
pub enum CFunction {
    ConfigDescribe,
    ConfigValidate,
    ConfigBegin,
    ConfigPatch,
    ConfigCommit,
    ConfigCancel,
    ConfigReload,
    ConfigEvents,
    AttentionConfigure,
    HerdrProbe,
    Detach,
    Shutdown,
    WorkspaceList,
    Candidates,
    Open,
    OpenTarget,
    WorktreeCreate,
    RuntimeList,
    GetTabs,
    WorkspaceGetTabs,
    GetPanes,
    WorkspaceGetPanes,
    GetLayout,
    WorkspaceGetLayout,
    GetPaneOutput,
    WorkspaceGetPaneOutput,
    TakePaneReply,
    PaneViewport,
    SetPaneViewport,
    HistoryMaxOffset,
    CommandMarks,
    LatestLineSeq,
    ViewportForSeq,
    LastLines,
    SearchAll,
    ReportPaneColours,
    ReportAllPaneColours,
    AttentionSnapshot,
    TakeNotifications,
    ActivityRecords,
    TakeActivityEvents,
    AttentionVisible,
    AttentionAcknowledge,
    AttentionProcessName,
    AttentionMute,
    DiscoverSshHosts,
    ListDir,
    DiscoverWorkspaces,
    DiscoverTmuxSessions,
    DiscoverSshTmuxPanes,
    WorkspaceCreate,
    StatusSnapshot,
    StatusSubscriptionActive,
    TrafficDown,
    TrafficUp,
}

/// An argument of a call.
#[derive(Debug, Clone, PartialEq, Eq)]
pub enum CArg {
    Text(String),
    /// A text that is not given.
    Absent,
    Number(u64),
}

/// The view of a [`CArg`].
pub enum CArgView {
    Text(Seq<char>),
    Absent,
    Number(u64),
}

impl View for CArg {
    type V = CArgView;

    open spec fn view(&self) -> CArgView {
        match *self {
            CArg::Text(text) => CArgView::Text(text@),
            CArg::Absent => CArgView::Absent,
            CArg::Number(n) => CArgView::Number(n),
        }
    }
}

/// A call: the function and its arguments in order. The handle comes before
/// them where the function takes one.
#[derive(Debug, Clone, PartialEq, Eq)]
pub struct CCall {
    pub function: CFunction,
    pub args: Vec<CArg>,
}

/// The view of a [`CCall`].
pub struct CCallView {
    pub function: CFunction,
    pub args: Seq<CArgView>,
}

impl View for CCall {
    type V = CCallView;

    open spec fn view(&self) -> CCallView {
        CCallView {
            function: self.function,
            args: Seq::new(self.args@.len(), |i: int| self.args@[i]@),
        }
    }
}

/// A text as an argument.
pub open spec fn text_arg(s: Seq<char>) -> CArgView {
    CArgView::Text(c_text(s))
}

/// A text that may be missing as an argument.
pub open spec fn opt_arg(s: Option<&str>) -> CArgView {
    match s {
        Some(t) => text_arg(t@),
        None => CArgView::Absent,
    }
}

fn text(s: &str) -> (r: CArg)
    ensures
        r@ == text_arg(s@),
{
    CArg::Text(cstring(s))
}

fn opt_text(s: Option<&str>) -> (r: CArg)
    ensures
        r@ == opt_arg(s),
{
    match s {
        Some(t) => text(t),
        None => CArg::Absent,
    }
}

impl FfiClient {
    /// Asks for the configuration.
    pub fn config_describe() -> (r: CCall)
        ensures
            r@ == (CCallView {
                function: CFunction::ConfigDescribe,
                args: Seq::<CArgView>::empty(),
            }),
    {
        let r = CCall {
            function: CFunction::ConfigDescribe,
            args: Vec::new(),
        };
        assert(r@.args =~= Seq::<CArgView>::empty());
        r
    }

    /// Has the configuration in a file checked, or the one in use.
    pub fn config_validate(path: Option<&str>) -> (r: CCall)
        ensures
            r@ == (CCallView {
                function: CFunction::ConfigValidate,
                args: seq![opt_arg(path)],
            }),
    {
        let r = CCall {
            function: CFunction::ConfigValidate,
            args: vec![opt_text(path)],
        };
        assert(r@.args =~= seq![opt_arg(path)]);
        r
    }

    /// Begins a transaction on the configuration.
    pub fn config_begin() -> (r: CCall)
        ensures
            r@ == (CCallView {
                function: CFunction::ConfigBegin,
                args: Seq::<CArgView>::empty(),
            }),
    {
        let r = CCall {
            function: CFunction::ConfigBegin,
            args: Vec::new(),
        };
        assert(r@.args =~= Seq::<CArgView>::empty());
        r
    }

    /// Applies a patch to the draft of a transaction.
    pub fn config_patch(transaction: &str, patch: &Vec<ClientJsonPatchOperation>) -> (r: CCall)
        ensures
            r@ == (CCallView {
                function: CFunction::ConfigPatch,
                args: seq![text_arg(transaction@), text_arg(patch_json(patch@))],
            }),
    {
        let r = CCall {
            function: CFunction::ConfigPatch,
            args: vec![text(transaction), text(patch_text(patch).as_str())],
        };
        assert(r@.args =~= seq![text_arg(transaction@), text_arg(patch_json(patch@))]);
        r
    }

    /// Commits a transaction.
    pub fn config_commit(transaction: &str) -> (r: CCall)
        ensures
            r@ == (CCallView {
                function: CFunction::ConfigCommit,
                args: seq![text_arg(transaction@)],
            }),
    {
        let r = CCall {
            function: CFunction::ConfigCommit,
            args: vec![text(transaction)],
        };
        assert(r@.args =~= seq![text_arg(transaction@)]);
        r
    }

    /// Cancels a transaction.
    pub fn config_cancel(transaction: &str) -> (r: CCall)
        ensures
            r@ == (CCallView {
                function: CFunction::ConfigCancel,
                args: seq![text_arg(transaction@)],
            }),
    {
        let r = CCall {
            function: CFunction::ConfigCancel,
            args: vec![text(transaction)],
        };
        assert(r@.args =~= seq![text_arg(transaction@)]);
        r
    }

    /// Has the configuration read anew from disk.
    pub fn config_reload() -> (r: CCall)
        ensures
            r@ == (CCallView {
                function: CFunction::ConfigReload,
                args: Seq::<CArgView>::empty(),
            }),
    {
        let r = CCall {
            function: CFunction::ConfigReload,
            args: Vec::new(),
        };
        assert(r@.args =~= Seq::<CArgView>::empty());
        r
    }

    /// Takes the events of the configuration.
    pub fn config_events() -> (r: CCall)
        ensures
            r@ == (CCallView {
                function: CFunction::ConfigEvents,
                args: Seq::<CArgView>::empty(),
            }),
    {
        let r = CCall {
            function: CFunction::ConfigEvents,
            args: Vec::new(),
        };
        assert(r@.args =~= Seq::<CArgView>::empty());
        r
    }

    /// Sets when attention is called for.
    pub fn configure_attention(config: &ClientAttentionConfig) -> (r: CCall)
        ensures
            r@ == (CCallView {
                function: CFunction::AttentionConfigure,
                args: seq![text_arg(attention_json(*config))],
            }),
    {
        let r = CCall {
            function: CFunction::AttentionConfigure,
            args: vec![text(attention_text(config).as_str())],
        };
        assert(r@.args =~= seq![text_arg(attention_json(*config))]);
        r
    }

    /// Asks for the state of a pane's stream.
    pub fn herdr_probe(workspace_id: &str, pane_id: u32) -> (r: CCall)
        ensures
            r@ == (CCallView {
                function: CFunction::HerdrProbe,
                args: seq![text_arg(workspace_id@), CArgView::Number(pane_id as u64)],
            }),
    {
        let r = CCall {
            function: CFunction::HerdrProbe,
            args: vec![text(workspace_id), CArg::Number(pane_id as u64)],
        };
        assert(r@.args =~= seq![text_arg(workspace_id@), CArgView::Number(pane_id as u64)]);
        r
    }

    /// Detaches the control client.
    pub fn detach() -> (r: CCall)
        ensures
            r@ == (CCallView {
                function: CFunction::Detach,
                args: Seq::<CArgView>::empty(),
            }),
    {
        let r = CCall {
            function: CFunction::Detach,
            args: Vec::new(),
        };
        assert(r@.args =~= Seq::<CArgView>::empty());
        r
    }

    /// Shuts all workspaces down; the handle stays.
    pub fn shutdown() -> (r: CCall)
        ensures
            r@ == (CCallView {
                function: CFunction::Shutdown,
                args: Seq::<CArgView>::empty(),
            }),
    {
        let r = CCall {
            function: CFunction::Shutdown,
            args: Vec::new(),
        };
        assert(r@.args =~= Seq::<CArgView>::empty());
        r
    }

    /// Asks for the workspaces.
    pub fn workspace_list() -> (r: CCall)
        ensures
            r@ == (CCallView {
                function: CFunction::WorkspaceList,
                args: Seq::<CArgView>::empty(),
            }),
    {
        let r = CCall {
            function: CFunction::WorkspaceList,
            args: Vec::new(),
        };
        assert(r@.args =~= Seq::<CArgView>::empty());
        r
    }

    /// Asks for the candidates of the catalogue.
    pub fn candidates(recent_limit: u32) -> (r: CCall)
        ensures
            r@ == (CCallView {
                function: CFunction::Candidates,
                args: seq![CArgView::Number(recent_limit as u64)],
            }),
    {
        let r = CCall {
            function: CFunction::Candidates,
            args: vec![CArg::Number(recent_limit as u64)],
        };
        assert(r@.args =~= seq![CArgView::Number(recent_limit as u64)]);
        r
    }

    /// Opens a candidate.
    pub fn open(request: &ClientOpenRequest) -> (r: CCall)
        ensures
            r@ == (CCallView {
                function: CFunction::Open,
                args: seq![text_arg(open_request_json(*request))],
            }),
    {
        let r = CCall {
            function: CFunction::Open,
            args: vec![text(open_request_text(request).as_str())],
        };
        assert(r@.args =~= seq![text_arg(open_request_json(*request))]);
        r
    }

    /// Opens a target.
    pub fn open_target(target: &ClientTarget, intent: ClientOpenIntent) -> (r: CCall)
        ensures
            r@ == (CCallView {
                function: CFunction::OpenTarget,
                args: seq![text_arg(target_json(*target)), text_arg(intent_word(intent))],
            }),
    {
        let r = CCall {
            function: CFunction::OpenTarget,
            args: vec![
                text(client_target_json(target).as_str()),
                text(intent_name(intent)),
            ],
        };
        assert(r@.args =~= seq![text_arg(target_json(*target)), text_arg(intent_word(intent))]);
        r
    }

    /// Creates a worktree and opens it.
    pub fn create_native_worktree(
        source_workspace_id: &str,
        branch: &str,
        path: &str,
        base: Option<&str>,
        label: Option<&str>,
    ) -> (r: CCall)
        ensures
            r@ == (CCallView {
                function: CFunction::WorktreeCreate,
                args: seq![
                    text_arg(source_workspace_id@),
                    text_arg(branch@),
                    text_arg(path@),
                    opt_arg(base),
                    opt_arg(label),
                ],
            }),
    {
        let r = CCall {
            function: CFunction::WorktreeCreate,
            args: vec![
                text(source_workspace_id),
                text(branch),
                text(path),
                opt_text(base),
                opt_text(label),
            ],
        };
        assert(r@.args =~= seq![
            text_arg(source_workspace_id@),
            text_arg(branch@),
            text_arg(path@),
            opt_arg(base),
            opt_arg(label),
        ]);
        r
    }

    /// Asks for the runtimes.
    pub fn runtime_list() -> (r: CCall)
        ensures
            r@ == (CCallView {
                function: CFunction::RuntimeList,
                args: Seq::<CArgView>::empty(),
            }),
    {
        let r = CCall {
            function: CFunction::RuntimeList,
            args: Vec::new(),
        };
        assert(r@.args =~= Seq::<CArgView>::empty());
        r
    }

    /// Asks for the tabs of the active workspace.
    pub fn get_tabs() -> (r: CCall)
        ensures
            r@ == (CCallView {
                function: CFunction::GetTabs,
                args: seq![CArgView::Number(TAB_CAPACITY as u64)],
            }),
    {
        let r = CCall {
            function: CFunction::GetTabs,
            args: vec![CArg::Number(TAB_CAPACITY as u64)],
        };
        assert(r@.args =~= seq![CArgView::Number(TAB_CAPACITY as u64)]);
        r
    }

    /// Asks for the tabs of a workspace.
    pub fn get_workspace_tabs(workspace_id: &str) -> (r: CCall)
        ensures
            r@ == (CCallView {
                function: CFunction::WorkspaceGetTabs,
                args: seq![text_arg(workspace_id@), CArgView::Number(TAB_CAPACITY as u64)],
            }),
    {
        let r = CCall {
            function: CFunction::WorkspaceGetTabs,
            args: vec![text(workspace_id), CArg::Number(TAB_CAPACITY as u64)],
        };
        assert(r@.args =~= seq![text_arg(workspace_id@), CArgView::Number(TAB_CAPACITY as u64)]);
        r
    }

    /// Asks for the panes of a tab.
    pub fn get_panes(tab_id: u32) -> (r: CCall)
        ensures
            r@ == (CCallView {
                function: CFunction::GetPanes,
                args: seq![
                    CArgView::Number(tab_id as u64),
                    CArgView::Number(PANE_CAPACITY as u64),
                ],
            }),
    {
        let r = CCall {
            function: CFunction::GetPanes,
            args: vec![CArg::Number(tab_id as u64), CArg::Number(PANE_CAPACITY as u64)],
        };
        assert(r@.args =~= seq![
            CArgView::Number(tab_id as u64),
            CArgView::Number(PANE_CAPACITY as u64),
        ]);
        r
    }

    /// Asks for the panes of a tab of a workspace.
    pub fn get_workspace_panes(workspace_id: &str, tab_id: u32) -> (r: CCall)
        ensures
            r@ == (CCallView {
                function: CFunction::WorkspaceGetPanes,
                args: seq![
                    text_arg(workspace_id@),
                    CArgView::Number(tab_id as u64),
                    CArgView::Number(PANE_CAPACITY as u64),
                ],
            }),
    {
        let r = CCall {
            function: CFunction::WorkspaceGetPanes,
            args: vec![
                text(workspace_id),
                CArg::Number(tab_id as u64),
                CArg::Number(PANE_CAPACITY as u64),
            ],
        };
        assert(r@.args =~= seq![
            text_arg(workspace_id@),
            CArgView::Number(tab_id as u64),
            CArgView::Number(PANE_CAPACITY as u64),
        ]);
        r
    }

    /// Asks for the layout of a tab.
    pub fn get_layout(tab_id: u32) -> (r: CCall)
        ensures
            r@ == (CCallView {
                function: CFunction::GetLayout,
                args: seq![CArgView::Number(tab_id as u64)],
            }),
    {
        let r = CCall {
            function: CFunction::GetLayout,
            args: vec![CArg::Number(tab_id as u64)],
        };
        assert(r@.args =~= seq![CArgView::Number(tab_id as u64)]);
        r
    }

    /// Asks for the layout of a tab of a workspace.
    pub fn get_workspace_layout(workspace_id: &str, tab_id: u32) -> (r: CCall)
        ensures
            r@ == (CCallView {
                function: CFunction::WorkspaceGetLayout,
                args: seq![text_arg(workspace_id@), CArgView::Number(tab_id as u64)],
            }),
    {
        let r = CCall {
            function: CFunction::WorkspaceGetLayout,
            args: vec![text(workspace_id), CArg::Number(tab_id as u64)],
        };
        assert(r@.args =~= seq![text_arg(workspace_id@), CArgView::Number(tab_id as u64)]);
        r
    }

    /// Asks for the output of a pane.
    pub fn get_pane_output(pane_id: u32) -> (r: CCall)
        ensures
            r@ == (CCallView {
                function: CFunction::GetPaneOutput,
                args: seq![
                    CArgView::Number(pane_id as u64),
                    CArgView::Number(PANE_OUTPUT_CAPACITY as u64),
                ],
            }),
    {
        let r = CCall {
            function: CFunction::GetPaneOutput,
            args: vec![
                CArg::Number(pane_id as u64),
                CArg::Number(PANE_OUTPUT_CAPACITY as u64),
            ],
        };
        assert(r@.args =~= seq![
            CArgView::Number(pane_id as u64),
            CArgView::Number(PANE_OUTPUT_CAPACITY as u64),
        ]);
        r
    }

    /// Asks for the output of a pane of a workspace.
    pub fn get_workspace_pane_output(workspace_id: &str, pane_id: u32) -> (r: CCall)
        ensures
            r@ == (CCallView {
                function: CFunction::WorkspaceGetPaneOutput,
                args: seq![
                    text_arg(workspace_id@),
                    CArgView::Number(pane_id as u64),
                    CArgView::Number(PANE_OUTPUT_CAPACITY as u64),
                ],
            }),
    {
        let r = CCall {
            function: CFunction::WorkspaceGetPaneOutput,
            args: vec![
                text(workspace_id),
                CArg::Number(pane_id as u64),
                CArg::Number(PANE_OUTPUT_CAPACITY as u64),
            ],
        };
        assert(r@.args =~= seq![
            text_arg(workspace_id@),
            CArgView::Number(pane_id as u64),
            CArgView::Number(PANE_OUTPUT_CAPACITY as u64),
        ]);
        r
    }

    /// Takes what the parser of a pane replies.
    pub fn take_workspace_pane_reply(workspace_id: &str, pane_id: u32) -> (r: CCall)
        ensures
            r@ == (CCallView {
                function: CFunction::TakePaneReply,
                args: seq![text_arg(workspace_id@), CArgView::Number(pane_id as u64)],
            }),
    {
        let r = CCall {
            function: CFunction::TakePaneReply,
            args: vec![text(workspace_id), CArg::Number(pane_id as u64)],
        };
        assert(r@.args =~= seq![text_arg(workspace_id@), CArgView::Number(pane_id as u64)]);
        r
    }

    /// Asks where the view of a pane stands.
    pub fn workspace_pane_viewport(workspace_id: &str, pane_id: u32) -> (r: CCall)
        ensures
            r@ == (CCallView {
                function: CFunction::PaneViewport,
                args: seq![text_arg(workspace_id@), CArgView::Number(pane_id as u64)],
            }),
    {
        let r = CCall {
            function: CFunction::PaneViewport,
            args: vec![text(workspace_id), CArg::Number(pane_id as u64)],
        };
        assert(r@.args =~= seq![text_arg(workspace_id@), CArgView::Number(pane_id as u64)]);
        r
    }

    /// Moves the view of a pane.
    pub fn set_workspace_pane_viewport(workspace_id: &str, pane_id: u32, offset: u32) -> (r: CCall)
        ensures
            r@ == (CCallView {
                function: CFunction::SetPaneViewport,
                args: seq![
                    text_arg(workspace_id@),
                    CArgView::Number(pane_id as u64),
                    CArgView::Number(offset as u64),
                ],
            }),
    {
        let r = CCall {
            function: CFunction::SetPaneViewport,
            args: vec![
                text(workspace_id),
                CArg::Number(pane_id as u64),
                CArg::Number(offset as u64),
            ],
        };
        assert(r@.args =~= seq![
            text_arg(workspace_id@),
            CArgView::Number(pane_id as u64),
            CArgView::Number(offset as u64),
        ]);
        r
    }

    /// Asks how far back the view of a pane can go.
    pub fn workspace_pane_history_max_offset(
        workspace_id: &str,
        pane_id: u32,
        rows: u32,
    ) -> (r: CCall)
        ensures
            r@ == (CCallView {
                function: CFunction::HistoryMaxOffset,
                args: seq![
                    text_arg(workspace_id@),
                    CArgView::Number(pane_id as u64),
                    CArgView::Number(rows as u64),
                ],
            }),
    {
        let r = CCall {
            function: CFunction::HistoryMaxOffset,
            args: vec![
                text(workspace_id),
                CArg::Number(pane_id as u64),
                CArg::Number(rows as u64),
            ],
        };
        assert(r@.args =~= seq![
            text_arg(workspace_id@),
            CArgView::Number(pane_id as u64),
            CArgView::Number(rows as u64),
        ]);
        r
    }

    /// Asks for the marks of the commands in a pane.
    pub fn workspace_pane_command_marks(workspace_id: &str, pane_id: u32) -> (r: CCall)
        ensures
            r@ == (CCallView {
                function: CFunction::CommandMarks,
                args: seq![text_arg(workspace_id@), CArgView::Number(pane_id as u64)],
            }),
    {
        let r = CCall {
            function: CFunction::CommandMarks,
            args: vec![text(workspace_id), CArg::Number(pane_id as u64)],
        };
        assert(r@.args =~= seq![text_arg(workspace_id@), CArgView::Number(pane_id as u64)]);
        r
    }

    /// Asks for the number of the latest line of a pane.
    pub fn workspace_pane_latest_line_seq(workspace_id: &str, pane_id: u32) -> (r: CCall)
        ensures
            r@ == (CCallView {
                function: CFunction::LatestLineSeq,
                args: seq![text_arg(workspace_id@), CArgView::Number(pane_id as u64)],
            }),
    {
        let r = CCall {
            function: CFunction::LatestLineSeq,
            args: vec![text(workspace_id), CArg::Number(pane_id as u64)],
        };
        assert(r@.args =~= seq![text_arg(workspace_id@), CArgView::Number(pane_id as u64)]);
        r
    }

    /// Asks where the view of a pane must stand to show a line.
    pub fn workspace_pane_viewport_for_seq(workspace_id: &str, pane_id: u32, seq: u64) -> (r: CCall)
        ensures
            r@ == (CCallView {
                function: CFunction::ViewportForSeq,
                args: seq![
                    text_arg(workspace_id@),
                    CArgView::Number(pane_id as u64),
                    CArgView::Number(seq),
                ],
            }),
    {
        let r = CCall {
            function: CFunction::ViewportForSeq,
            args: vec![
                text(workspace_id),
                CArg::Number(pane_id as u64),
                CArg::Number(seq),
            ],
        };
        assert(r@.args =~= seq![
            text_arg(workspace_id@),
            CArgView::Number(pane_id as u64),
            CArgView::Number(seq),
        ]);
        r
    }

    /// Asks for the last lines of a pane.
    pub fn workspace_pane_last_n_lines(workspace_id: &str, pane_id: u32, n: u32) -> (r: CCall)
        ensures
            r@ == (CCallView {
                function: CFunction::LastLines,
                args: seq![
                    text_arg(workspace_id@),
                    CArgView::Number(pane_id as u64),
                    CArgView::Number(n as u64),
                ],
            }),
    {
        let r = CCall {
            function: CFunction::LastLines,
            args: vec![
                text(workspace_id),
                CArg::Number(pane_id as u64),
                CArg::Number(n as u64),
            ],
        };
        assert(r@.args =~= seq![
            text_arg(workspace_id@),
            CArgView::Number(pane_id as u64),
            CArgView::Number(n as u64),
        ]);
        r
    }

    /// Searches all workspaces.
    pub fn search_all(query: &str) -> (r: CCall)
        ensures
            r@ == (CCallView {
                function: CFunction::SearchAll,
                args: seq![text_arg(query@)],
            }),
    {
        let r = CCall {
            function: CFunction::SearchAll,
            args: vec![text(query)],
        };
        assert(r@.args =~= seq![text_arg(query@)]);
        r
    }

    /// Reports the colours of a pane.
    pub fn report_pane_colours(pane_id: u32, fg_hex: &str, bg_hex: &str) -> (r: CCall)
        ensures
            r@ == (CCallView {
                function: CFunction::ReportPaneColours,
                args: seq![
                    CArgView::Number(pane_id as u64),
                    text_arg(fg_hex@),
                    text_arg(bg_hex@),
                ],
            }),
    {
        let r = CCall {
            function: CFunction::ReportPaneColours,
            args: vec![CArg::Number(pane_id as u64), text(fg_hex), text(bg_hex)],
        };
        assert(r@.args =~= seq![CArgView::Number(pane_id as u64), text_arg(fg_hex@), text_arg(bg_hex@)]);
        r
    }

    /// Reports the colours of all panes.
    pub fn report_all_pane_colours(fg_hex: &str, bg_hex: &str) -> (r: CCall)
        ensures
            r@ == (CCallView {
                function: CFunction::ReportAllPaneColours,
                args: seq![text_arg(fg_hex@), text_arg(bg_hex@)],
            }),
    {
        let r = CCall {
            function: CFunction::ReportAllPaneColours,
            args: vec![text(fg_hex), text(bg_hex)],
        };
        assert(r@.args =~= seq![text_arg(fg_hex@), text_arg(bg_hex@)]);
        r
    }

    /// Asks for what goes on in all workspaces.
    pub fn activity_snapshot() -> (r: CCall)
        ensures
            r@ == (CCallView {
                function: CFunction::AttentionSnapshot,
                args: Seq::<CArgView>::empty(),
            }),
    {
        let r = CCall {
            function: CFunction::AttentionSnapshot,
            args: Vec::new(),
        };
        assert(r@.args =~= Seq::<CArgView>::empty());
        r
    }

    /// Takes the notifications.
    pub fn take_activity_notifications() -> (r: CCall)
        ensures
            r@ == (CCallView {
                function: CFunction::TakeNotifications,
                args: Seq::<CArgView>::empty(),
            }),
    {
        let r = CCall {
            function: CFunction::TakeNotifications,
            args: Vec::new(),
        };
        assert(r@.args =~= Seq::<CArgView>::empty());
        r
    }

    /// Asks for the records of activity.
    pub fn activity_records() -> (r: CCall)
        ensures
            r@ == (CCallView {
                function: CFunction::ActivityRecords,
                args: Seq::<CArgView>::empty(),
            }),
    {
        let r = CCall {
            function: CFunction::ActivityRecords,
            args: Vec::new(),
        };
        assert(r@.args =~= Seq::<CArgView>::empty());
        r
    }

    /// Takes the events of activity.
    pub fn take_activity_events() -> (r: CCall)
        ensures
            r@ == (CCallView {
                function: CFunction::TakeActivityEvents,
                args: Seq::<CArgView>::empty(),
            }),
    {
        let r = CCall {
            function: CFunction::TakeActivityEvents,
            args: Vec::new(),
        };
        assert(r@.args =~= Seq::<CArgView>::empty());
        r
    }

    /// Says that a pane became visible.
    pub fn workspace_attention_on_became_visible(workspace_id: &str, pane_id: u32) -> (r: CCall)
        ensures
            r@ == (CCallView {
                function: CFunction::AttentionVisible,
                args: seq![text_arg(workspace_id@), CArgView::Number(pane_id as u64)],
            }),
    {
        let r = CCall {
            function: CFunction::AttentionVisible,
            args: vec![text(workspace_id), CArg::Number(pane_id as u64)],
        };
        assert(r@.args =~= seq![text_arg(workspace_id@), CArgView::Number(pane_id as u64)]);
        r
    }

    /// Says that the user has seen a pane.
    pub fn workspace_attention_acknowledge(workspace_id: &str, pane_id: u32) -> (r: CCall)
        ensures
            r@ == (CCallView {
                function: CFunction::AttentionAcknowledge,
                args: seq![text_arg(workspace_id@), CArgView::Number(pane_id as u64)],
            }),
    {
        let r = CCall {
            function: CFunction::AttentionAcknowledge,
            args: vec![text(workspace_id), CArg::Number(pane_id as u64)],
        };
        assert(r@.args =~= seq![text_arg(workspace_id@), CArgView::Number(pane_id as u64)]);
        r
    }

    /// Says which program runs in a pane.
    pub fn workspace_attention_set_process_name(
        workspace_id: &str,
        pane_id: u32,
        name: Option<&str>,
    ) -> (r: CCall)
        ensures
            r@ == (CCallView {
                function: CFunction::AttentionProcessName,
                args: seq![
                    text_arg(workspace_id@),
                    CArgView::Number(pane_id as u64),
                    opt_arg(name),
                ],
            }),
    {
        let r = CCall {
            function: CFunction::AttentionProcessName,
            args: vec![text(workspace_id), CArg::Number(pane_id as u64), opt_text(name)],
        };
        assert(r@.args =~= seq![
            text_arg(workspace_id@),
            CArgView::Number(pane_id as u64),
            opt_arg(name),
        ]);
        r
    }

    /// Silences a pane for a time.
    pub fn workspace_attention_mute(workspace_id: &str, pane_id: u32, seconds: u64) -> (r: CCall)
        ensures
            r@ == (CCallView {
                function: CFunction::AttentionMute,
                args: seq![
                    text_arg(workspace_id@),
                    CArgView::Number(pane_id as u64),
                    CArgView::Number(seconds),
                ],
            }),
    {
        let r = CCall {
            function: CFunction::AttentionMute,
            args: vec![
                text(workspace_id),
                CArg::Number(pane_id as u64),
                CArg::Number(seconds),
            ],
        };
        assert(r@.args =~= seq![
            text_arg(workspace_id@),
            CArgView::Number(pane_id as u64),
            CArgView::Number(seconds),
        ]);
        r
    }

    /// Asks for the hosts that SSH knows; `config_path` names its configuration where it is not
    /// the usual one.
    pub fn discover_ssh_hosts(config_path: Option<&str>) -> (r: CCall)
        ensures
            r@ == (CCallView {
                function: CFunction::DiscoverSshHosts,
                args: seq![opt_arg(config_path)],
            }),
    {
        let r = CCall {
            function: CFunction::DiscoverSshHosts,
            args: vec![opt_text(config_path)],
        };
        assert(r@.args =~= seq![opt_arg(config_path)]);
        r
    }

    /// Asks for the entries of a directory.
    pub fn list_dir(runtime_type: &str, target: Option<&str>, path: &str) -> (r: CCall)
        ensures
            r@ == (CCallView {
                function: CFunction::ListDir,
                args: seq![
                    text_arg(runtime_type@),
                    opt_arg(target),
                    CArgView::Absent,
                    text_arg(path@),
                    CArgView::Number(DISCOVERY_TIMEOUT_MS as u64),
                ],
            }),
    {
        let r = CCall {
            function: CFunction::ListDir,
            args: vec![
                text(runtime_type),
                opt_text(target),
                CArg::Absent,
                text(path),
                CArg::Number(DISCOVERY_TIMEOUT_MS as u64),
            ],
        };
        assert(r@.args =~= seq![
            text_arg(runtime_type@),
            opt_arg(target),
            CArgView::Absent,
            text_arg(path@),
            CArgView::Number(DISCOVERY_TIMEOUT_MS as u64),
        ]);
        r
    }

    /// Asks for what can be attached to.
    pub fn discover_existing(
        runtime_type: &str,
        target: Option<&str>,
        socket: Option<&str>,
    ) -> (r: CCall)
        ensures
            r@ == (CCallView {
                function: CFunction::DiscoverWorkspaces,
                args: seq![
                    text_arg(runtime_type@),
                    opt_arg(target),
                    opt_arg(socket),
                    CArgView::Absent,
                    CArgView::Number(DISCOVERY_TIMEOUT_MS as u64),
                ],
            }),
    {
        let r = CCall {
            function: CFunction::DiscoverWorkspaces,
            args: vec![
                text(runtime_type),
                opt_text(target),
                opt_text(socket),
                CArg::Absent,
                CArg::Number(DISCOVERY_TIMEOUT_MS as u64),
            ],
        };
        assert(r@.args =~= seq![
            text_arg(runtime_type@),
            opt_arg(target),
            opt_arg(socket),
            CArgView::Absent,
            CArgView::Number(DISCOVERY_TIMEOUT_MS as u64),
        ]);
        r
    }

    /// Asks for the tmux sessions behind a socket.
    pub fn discover_tmux_sessions(
        transport_type: &str,
        target: Option<&str>,
        socket: Option<&str>,
    ) -> (r: CCall)
        ensures
            r@ == (CCallView {
                function: CFunction::DiscoverTmuxSessions,
                args: seq![
                    text_arg(transport_type@),
                    opt_arg(target),
                    opt_arg(socket),
                    CArgView::Absent,
                    CArgView::Number(DISCOVERY_TIMEOUT_MS as u64),
                ],
            }),
    {
        let r = CCall {
            function: CFunction::DiscoverTmuxSessions,
            args: vec![
                text(transport_type),
                opt_text(target),
                opt_text(socket),
                CArg::Absent,
                CArg::Number(DISCOVERY_TIMEOUT_MS as u64),
            ],
        };
        assert(r@.args =~= seq![
            text_arg(transport_type@),
            opt_arg(target),
            opt_arg(socket),
            CArgView::Absent,
            CArgView::Number(DISCOVERY_TIMEOUT_MS as u64),
        ]);
        r
    }

    /// Asks for the panes of a tmux session behind SSH.
    pub fn discover_ssh_tmux_panes(
        target: &str,
        socket: Option<&str>,
        session: &str,
        config_path: Option<&str>,
    ) -> (r: CCall)
        ensures
            r@ == (CCallView {
                function: CFunction::DiscoverSshTmuxPanes,
                args: seq![
                    text_arg(target@),
                    opt_arg(socket),
                    text_arg(session@),
                    opt_arg(config_path),
                    CArgView::Number(DISCOVERY_TIMEOUT_MS as u64),
                ],
            }),
    {
        let r = CCall {
            function: CFunction::DiscoverSshTmuxPanes,
            args: vec![
                text(target),
                opt_text(socket),
                text(session),
                opt_text(config_path),
                CArg::Number(DISCOVERY_TIMEOUT_MS as u64),
            ],
        };
        assert(r@.args =~= seq![
            text_arg(target@),
            opt_arg(socket),
            text_arg(session@),
            opt_arg(config_path),
            CArgView::Number(DISCOVERY_TIMEOUT_MS as u64),
        ]);
        r
    }

    /// Creates a workspace.
    pub fn create_workspace(
        runtime_type: &str,
        target: Option<&str>,
        socket: Option<&str>,
        session: &str,
        directory: &str,
    ) -> (r: CCall)
        ensures
            r@ == (CCallView {
                function: CFunction::WorkspaceCreate,
                args: seq![
                    text_arg(runtime_type@),
                    opt_arg(target),
                    opt_arg(socket),
                    CArgView::Absent,
                    text_arg(session@),
                    text_arg(directory@),
                    CArgView::Number(DISCOVERY_TIMEOUT_MS as u64),
                ],
            }),
    {
        let r = CCall {
            function: CFunction::WorkspaceCreate,
            args: vec![
                text(runtime_type),
                opt_text(target),
                opt_text(socket),
                CArg::Absent,
                text(session),
                text(directory),
                CArg::Number(DISCOVERY_TIMEOUT_MS as u64),
            ],
        };
        assert(r@.args =~= seq![
            text_arg(runtime_type@),
            opt_arg(target),
            opt_arg(socket),
            CArgView::Absent,
            text_arg(session@),
            text_arg(directory@),
            CArgView::Number(DISCOVERY_TIMEOUT_MS as u64),
        ]);
        r
    }

    /// Asks for the status line.
    pub fn status_snapshot_json(
        runtime_type: &str,
        target: Option<&str>,
        socket: Option<&str>,
        session: &str,
    ) -> (r: CCall)
        ensures
            r@ == (CCallView {
                function: CFunction::StatusSnapshot,
                args: seq![
                    text_arg(runtime_type@),
                    opt_arg(target),
                    opt_arg(socket),
                    text_arg(session@),
                ],
            }),
    {
        let r = CCall {
            function: CFunction::StatusSnapshot,
            args: vec![
                text(runtime_type),
                opt_text(target),
                opt_text(socket),
                text(session),
            ],
        };
        assert(r@.args =~= seq![
            text_arg(runtime_type@),
            opt_arg(target),
            opt_arg(socket),
            text_arg(session@),
        ]);
        r
    }

    /// Asks for the bytes that came in and that went out.
    pub fn traffic_bytes() -> (r: (CCall, CCall))
        ensures
            r.0@ == (CCallView {
                function: CFunction::TrafficDown,
                args: Seq::<CArgView>::empty(),
            }),
            r.1@ == (CCallView {
                function: CFunction::TrafficUp,
                args: Seq::<CArgView>::empty(),
            }),
    {
        let down = CCall { function: CFunction::TrafficDown, args: Vec::new() };
        let up = CCall { function: CFunction::TrafficUp, args: Vec::new() };
        assert(down@.args =~= Seq::<CArgView>::empty());
        assert(up@.args =~= Seq::<CArgView>::empty());
        (down, up)
    }

    /// Asks whether the core pushes changes of the status line.
    pub fn status_subscription_active() -> (r: CCall)
        ensures
            r@ == (CCallView {
                function: CFunction::StatusSubscriptionActive,
                args: Seq::<CArgView>::empty(),
            }),
    {
        let r = CCall { function: CFunction::StatusSubscriptionActive, args: Vec::new() };
        assert(r@.args =~= Seq::<CArgView>::empty());
        r
    }

    /// Takes the list of runtimes by way of a handle for queries alone; there
    /// is nothing to ask where no such handle could be made.
    pub fn discover_runtimes(handle_is_null: bool) -> (r: Result<CCall, String>)
        ensures
            match r {
                Ok(call) => !handle_is_null && call@ == (CCallView {
                    function: CFunction::RuntimeList,
                    args: Seq::<CArgView>::empty(),
                }),
                Err(text) => handle_is_null && text@ == "Core FFI handle construction failed"@,
            },
    {
        match FfiClient::connected(handle_is_null) {
            Ok(_) => Ok(FfiClient::runtime_list()),
            Err(text) => Err(text),
        }
    }
}

// ---------------------------------------------------------------------------
// Answers.
// ---------------------------------------------------------------------------

/// The part of a value that holds what a function was asked for.
pub open spec fn wanted_part(function: CFunction, value: Seq<char>) -> Seq<char> {
    match function {
        CFunction::ConfigDescribe | CFunction::ConfigValidate | CFunction::ConfigPatch =>
            value_or_null(field_of(value, "data"@)),
        CFunction::ConfigEvents => value_or_null(
            field_of(value_or_null(field_of(value, "data"@)), "events"@),
        ),
        CFunction::WorkspaceList | CFunction::DiscoverWorkspaces => value_or_null(
            field_of(value, "workspaces"@),
        ),
        CFunction::Candidates => value_or_null(field_of(value, "candidates"@)),
        CFunction::RuntimeList => value_or_null(field_of(value, "runtimes"@)),
        CFunction::CommandMarks => value_or_null(field_of(value, "marks"@)),
        CFunction::LastLines => value_or_null(field_of(value, "lines"@)),
        CFunction::SearchAll => value_or_null(field_of(value, "hits"@)),
        CFunction::DiscoverSshHosts => value_or_null(field_of(value, "hosts"@)),
        CFunction::ListDir => value_or_null(field_of(value, "entries"@)),
        CFunction::DiscoverTmuxSessions => value_or_null(field_of(value, "sessions"@)),
        CFunction::DiscoverSshTmuxPanes => value_or_null(field_of(value, "panes"@)),
        _ => value,
    }
}

/// Returns the part of a value that holds what a function was asked for.
pub fn part(function: CFunction, value: String) -> (r: String)
    ensures
        r@ == wanted_part(function, value@),
{
    let v = value.as_str();
    match function {
        CFunction::ConfigDescribe | CFunction::ConfigValidate | CFunction::ConfigPatch => indexed(
            v,
            "data",
        ),
        CFunction::ConfigEvents => indexed(indexed(v, "data").as_str(), "events"),
        CFunction::WorkspaceList | CFunction::DiscoverWorkspaces => indexed(v, "workspaces"),
        CFunction::Candidates => indexed(v, "candidates"),
        CFunction::RuntimeList => indexed(v, "runtimes"),
        CFunction::CommandMarks => indexed(v, "marks"),
        CFunction::LastLines => indexed(v, "lines"),
        CFunction::SearchAll => indexed(v, "hits"),
        CFunction::DiscoverSshHosts => indexed(v, "hosts"),
        CFunction::ListDir => indexed(v, "entries"),
        CFunction::DiscoverTmuxSessions => indexed(v, "sessions"),
        CFunction::DiscoverSshTmuxPanes => indexed(v, "panes"),
        _ => value,
    }
}

/// Reads an answer: the part of it that holds what the function was asked for,
/// as JSON text.
pub fn answer(function: CFunction, text: Option<&str>) -> (r: Result<String, ReplyError>)
    ensures
        reply_view(r) == (match answer_of(text) {
            Ok(value) => Ok(wanted_part(function, value)),
            Err(error) => Err(error),
        }),
{
    match FfiClient::discovery_json(text) {
        Ok(value) => Ok(part(function, value)),
        Err(error) => Err(error),
    }
}

/// The text that an answer names in its data.
pub open spec fn named_in(value: Seq<char>, name: Seq<char>) -> Option<Seq<char>> {
    string_in(value_or_null(field_of(value_or_null(field_of(value, "data"@)), name)))
}

/// What an answer names in its data, or that it does not.
pub open spec fn named_reply(text: Option<&str>, name: Seq<char>, missing: Seq<char>) -> Result<
    Seq<char>,
    ReplyErrorView,
> {
    match answer_of(text) {
        Ok(value) => match named_in(value, name) {
            Some(found) => Ok(found),
            None => Err(ReplyErrorView::Transport(missing)),
        },
        Err(error) => Err(error),
    }
}

/// Returns what an answer names, or the error that it does not.
pub fn named(found: Option<String>, missing: &str) -> (r: Result<String, ReplyError>)
    ensures
        reply_view(r) == (match found {
            Some(text) => Ok(text@),
            None => Err(ReplyErrorView::Transport(missing@)),
        }),
{
    match found {
        Some(text) => Ok(text),
        None => Err(ReplyError::Transport(missing.to_owned())),
    }
}

fn read_named(text: Option<&str>, name: &str, missing: &str) -> (r: Result<String, ReplyError>)
    ensures
        reply_view(r) == named_reply(text, name@, missing@),
{
    match FfiClient::discovery_json(text) {
        Ok(value) => {
            let data = indexed(value.as_str(), "data");
            named(as_string(indexed(data.as_str(), name).as_str()), missing)
        },
        Err(error) => Err(error),
    }
}

/// Reads the answer to the beginning of a transaction: its name.
pub fn begun(text: Option<&str>) -> (r: Result<String, ReplyError>)
    ensures
        reply_view(r) == named_reply(
            text,
            "transaction"@,
            "Core config begin returned no transaction"@,
        ),
{
    read_named(text, "transaction", "Core config begin returned no transaction")
}

/// Reads the answer to a commit: the new revision.
pub fn committed(text: Option<&str>) -> (r: Result<String, ReplyError>)
    ensures
        reply_view(r) == named_reply(text, "revision"@, "Core config commit returned no revision"@),
{
    read_named(text, "revision", "Core config commit returned no revision")
}

/// Reads the answer to a reload: the new revision.
pub fn reloaded(text: Option<&str>) -> (r: Result<String, ReplyError>)
    ensures
        reply_view(r) == named_reply(text, "revision"@, "Core config reload returned no revision"@),
{
    read_named(text, "revision", "Core config reload returned no revision")
}

/// Reads the answer to a probe as JSON text; nothing where it failed or holds
/// no probe.
pub fn probed(text: Option<&str>) -> (r: Option<String>)
    ensures
        opt_view(r) == (match answer_of(text) {
            Ok(value) => field_of(value, "probe"@),
            Err(_) => None,
        }),
{
    match FfiClient::discovery_json(text) {
        Ok(value) => field(value.as_str(), "probe"),
        Err(_) => None,
    }
}

/// A list in an answer, by views.
pub open spec fn list_reply(text: Option<&str>, name: Seq<char>) -> Result<
    Seq<Seq<char>>,
    ReplyErrorView,
> {
    match answer_of(text) {
        Ok(value) => Ok(elements_in(field_of(value, name))),
        Err(error) => Err(error),
    }
}

/// A list or an error by views.
pub open spec fn list_view(r: Result<Vec<String>, ReplyError>) -> Result<
    Seq<Seq<char>>,
    ReplyErrorView,
> {
    match r {
        Ok(list) => Ok(views(list@)),
        Err(error) => Err(error@),
    }
}

fn read_list(text: Option<&str>, name: &str) -> (r: Result<Vec<String>, ReplyError>)
    ensures
        list_view(r) == list_reply(text, name@),
{
    match FfiClient::discovery_json(text) {
        Ok(value) => Ok(as_elements(&field(value.as_str(), name))),
        Err(error) => Err(error),
    }
}

/// Reads the records of activity, each as JSON text; a missing list is empty.
pub fn records(text: Option<&str>) -> (r: Result<Vec<String>, ReplyError>)
    ensures
        list_view(r) == list_reply(text, "records"@),
{
    read_list(text, "records")
}

/// Reads the events of activity, each as JSON text; a missing list is empty.
pub fn activity_events(text: Option<&str>) -> (r: Result<Vec<String>, ReplyError>)
    ensures
        list_view(r) == list_reply(text, "events"@),
{
    read_list(text, "events")
}

/// Names a new workspace: by the name that the core gives it, else by the one
/// that was asked for.
pub fn created_name(given: Option<String>, session: &str) -> (r: String)
    ensures
        r@ == (match given {
            Some(name) => name@,
            None => session@,
        }),
{
    match given {
        Some(name) => name,
        None => session.to_owned(),
    }
}

/// Reads the answer to the creation of a workspace: its name.
pub fn created(text: Option<&str>, session: &str) -> (r: Result<String, ReplyError>)
    ensures
        reply_view(r) == (match answer_of(text) {
            Ok(value) => match string_in(value_or_null(field_of(value, "session"@))) {
                Some(name) => Ok(name),
                None => Ok(session@),
            },
            Err(error) => Err(error),
        }),
{
    match FfiClient::discovery_json(text) {
        Ok(value) => {
            let given = as_string(indexed(value.as_str(), "session").as_str());
            Ok(created_name(given, session))
        },
        Err(error) => Err(error),
    }
}

/// Checks the code of an activation.
pub fn activated(code: i32) -> (r: Result<(), String>)
    ensures
        match r {
            Ok(_) => code == 0,
            Err(text) => code != 0 && text@ == failed_with(
                "Core workspace activation"@,
                code as int,
            ),
        },
{
    check_code("Core workspace activation", code)
}

/// Checks the code of closing a workspace.
pub fn workspace_closed(code: i32) -> (r: Result<(), String>)
    ensures
        match r {
            Ok(_) => code == 0,
            Err(text) => code != 0 && text@ == failed_with("Core workspace close"@, code as int),
        },
{
    check_code("Core workspace close", code)
}

/// Checks the code of setting when attention is called for.
pub fn attention_configured(code: i32) -> (r: Result<(), String>)
    ensures
        match r {
            Ok(_) => code == 0,
            Err(text) => code != 0 && text@ == failed_with(
                "Core attention configuration"@,
                code as int,
            ),
        },
{
    check_code("Core attention configuration", code)
}

/// Takes a layout where the core wrote one.
pub fn layout_reply(code: i32, root: &CLayoutNode) -> (r: Option<ClientLayout>)
    ensures
        r == if code == 0 {
            Some(root.tree())
        } else {
            None
        },
{
    if code == 0 {
        Some(clone_layout(root))
    } else {
        None
    }
}

/// Takes the bytes that the core wrote into a buffer.
pub fn output_reply(buffer: Vec<u8>, count: i32) -> (r: Vec<u8>)
    ensures
        r@ == buffer@.take(filled(count, buffer@.len() as int)),
{
    let n: usize = copied_count(count, buffer.len());
    let mut out = buffer;
    out.truncate(n);
    assert(out@ =~= buffer@.take(n as int));
    out
}

/// The call of a step of a transaction; there is none once it failed.
pub open spec fn step_call(
    step: ConfigTransaction,
    patch: Seq<ClientJsonPatchOperation>,
) -> Option<CCallView> {
    match step {
        ConfigTransaction::Begin => Some(
            CCallView { function: CFunction::ConfigBegin, args: Seq::<CArgView>::empty() },
        ),
        ConfigTransaction::Patch { transaction } => Some(
            CCallView {
                function: CFunction::ConfigPatch,
                args: seq![text_arg(transaction@), text_arg(patch_json(patch))],
            },
        ),
        ConfigTransaction::Commit { transaction } => Some(
            CCallView { function: CFunction::ConfigCommit, args: seq![text_arg(transaction@)] },
        ),
        ConfigTransaction::Cancel { transaction, .. } => Some(
            CCallView { function: CFunction::ConfigCancel, args: seq![text_arg(transaction@)] },
        ),
        ConfigTransaction::Describe => Some(
            CCallView { function: CFunction::ConfigDescribe, args: Seq::<CArgView>::empty() },
        ),
        ConfigTransaction::Failed { .. } => None,
    }
}

/// Returns the call of a step of a transaction.
pub fn transaction_call(step: &ConfigTransaction, patch: &Vec<ClientJsonPatchOperation>) -> (r:
    Option<CCall>)
    ensures
        match r {
            Some(call) => step_call(*step, patch@) == Some(call@),
            None => step_call(*step, patch@) is None,
        },
{
    match step {
        ConfigTransaction::Begin => Some(FfiClient::config_begin()),
        ConfigTransaction::Patch { transaction } => Some(
            FfiClient::config_patch(transaction.as_str(), patch),
        ),
        ConfigTransaction::Commit { transaction } => Some(
            FfiClient::config_commit(transaction.as_str()),
        ),
        ConfigTransaction::Cancel { transaction, .. } => Some(
            FfiClient::config_cancel(transaction.as_str()),
        ),
        ConfigTransaction::Describe => Some(FfiClient::config_describe()),
        ConfigTransaction::Failed { .. } => None,
    }
}

/// Whatever is committed or cancelled is the transaction that was begun.
pub proof fn law_transaction_is_the_one_begun(
    begun: String,
    patched: Result<String, String>,
    committed: Result<String, String>,
    patch: Seq<ClientJsonPatchOperation>,
)
    ensures
        ({
            let s1 = next_step(ConfigTransaction::Begin, Ok(begun));
            let s2 = next_step(s1, patched);
            let s3 = next_step(s2, committed);
            let named = |step: ConfigTransaction|
                step_call(step, patch) matches Some(call) && call.args[0] == text_arg(begun@);
            &&& named(s1)
            &&& named(s2)
            &&& committed is Err && patched is Ok ==> named(s3)
        }),
{
}

} // verus!
