//! Starting the window and running its event loop.
//!
//! The decisions of the start, what a key press leads to, and the order of
//! the steps of one turn of the loop.
use vstd::prelude::*;
use vstd::string::*;

use crate::client::call::c_text;
use crate::client::config::ClientTmuxConfig;
use crate::client::call::FfiClient;
use crate::client::runtime::{ConnectCall, ConnectCallView};
use crate::client::event::topology_event;
use crate::client::types::{ClientSearchHit, ClientWorkspaceEvent};
use crate::linux::panel_rows::PanelTab;
use crate::linux::window_actions::Action;
use crate::linux::window_layout::{view_of, workspace};
use crate::linux::workspace_sidebar_model::{ViewStore, WorkspaceView};
use crate::seqs::{find, lemma_first_where, lemma_no_first};
use crate::text::find::{contains, contains_chars};
use crate::text::{chars_of, opt_view, same, trim, trimmed};
use crate::workspace_id::{id_view, parse_workspace_id, parsed_id, WorkspaceId};

verus! {

// ---------------------------------------------------------------------------
// The start.
// ---------------------------------------------------------------------------

/// A setting without white space around it; nothing where nothing is left.
pub open spec fn setting(s: Seq<char>) -> Option<Seq<char>> {
    if trimmed(s).len() == 0 {
        None
    } else {
        Some(trimmed(s))
    }
}

fn read_setting(s: &str) -> (r: Option<String>)
    ensures
        opt_view(r) == setting(s@),
{
    let text = trim(s);
    if text.as_str().is_empty() {
        None
    } else {
        Some(text)
    }
}

/// How the window connects: the calls to try in turn, and the socket that the
/// first workspace is reached through.
#[derive(Debug)]
pub struct Startup {
    pub attempts: Vec<ConnectCall>,
    pub socket: Option<String>,
}

/// The call for a shell on this machine.
pub open spec fn local_call() -> ConnectCallView {
    ConnectCallView::NewConnect {
        runtime: c_text("local"@),
        socket: None,
        session: None,
        ssh_alias: None,
        start_directory: Some(c_text(""@)),
    }
}

/// The call for a tmux server.
pub open spec fn tmux_call(socket: Seq<char>, session: Option<Seq<char>>) -> ConnectCallView {
    ConnectCallView::NewConnect {
        runtime: c_text("tmux"@),
        socket: Some(c_text(socket)),
        session: match session {
            Some(s) => Some(c_text(s)),
            None => None,
        },
        ssh_alias: None,
        start_directory: None,
    }
}

/// The views of calls.
pub open spec fn call_views(calls: Seq<ConnectCall>) -> Seq<ConnectCallView> {
    Seq::new(calls.len(), |i: int| calls[i]@)
}

/// Returns how the window connects: to tmux where a socket is configured, with
/// a local shell to fall back to, else to a local shell.
pub fn startup(tmux: &ClientTmuxConfig) -> (r: Startup)
    ensures
        opt_view(r.socket) == setting(tmux.socket@),
        call_views(r.attempts@) == (match setting(tmux.socket@) {
            Some(socket) => seq![
                tmux_call(socket, setting(tmux.default_session@)),
                local_call(),
            ],
            None => seq![local_call()],
        }),
{
    let socket = read_setting(tmux.socket.as_str());
    let session = read_setting(tmux.default_session.as_str());
    let mut attempts: Vec<ConnectCall> = Vec::new();
    if let Some(name) = &socket {
        let wanted: Option<&str> = match &session {
            Some(s) => Some(s.as_str()),
            None => None,
        };
        attempts.push(FfiClient::new_connect("tmux", Some(name.as_str()), wanted, None, None));
    }
    attempts.push(FfiClient::new_connect("local", None, None, None, Some("")));
    proof {
        match setting(tmux.socket@) {
            Some(s) => {
                assert(call_views(attempts@) =~= seq![
                    tmux_call(s, setting(tmux.default_session@)),
                    local_call(),
                ]);
            },
            None => {
                assert(call_views(attempts@) =~= seq![local_call()]);
            },
        }
    }
    Startup { attempts, socket }
}

/// The key of the workspace that the window starts with: the active one, else
/// the first.
pub open spec fn startup_key(store: ViewStore) -> Option<Seq<char>> {
    match store.active_workspace_id {
        Some(id) => Some(id@),
        None => if store.views@.len() > 0 {
            Some(store.views@[0].key@)
        } else {
            None
        },
    }
}

/// Returns the workspace that the window starts with.
pub fn startup_workspace(store: &ViewStore) -> (r: Option<WorkspaceId>)
    ensures
        id_view(r) == (match startup_key(*store) {
            Some(key) => parsed_id(key),
            None => None,
        }),
{
    match &store.active_workspace_id {
        Some(id) => parse_workspace_id(id.as_str()),
        None => {
            if store.views.len() > 0 {
                parse_workspace_id(store.views[0].key.as_str())
            } else {
                None
            }
        },
    }
}

/// The name of a runtime that is driven by tmux.
pub open spec fn is_tmux_runtime(runtime: Seq<char>) -> bool {
    runtime == "tmux"@ || runtime == "ssh"@ || runtime == "tmux-ssh"@
}

/// Tells whether a workspace is driven by tmux.
pub fn uses_tmux(views: &Vec<WorkspaceView>, key: &str) -> (r: bool)
    ensures
        r == (match view_of(views@, key@) {
            Some(view) => match view.workspace {
                Some(w) => is_tmux_runtime(w.runtime@),
                None => false,
            },
            None => false,
        }),
{
    match workspace(views, key) {
        Some(view) => match &view.workspace {
            Some(w) => {
                let runtime = w.runtime.as_str();
                same(runtime, "tmux") || same(runtime, "ssh") || same(runtime, "tmux-ssh")
            },
            None => false,
        },
        None => false,
    }
}

/// Returns how many workspaces may be open before the user is reminded; at
/// least one.
pub fn capacity_limit(max_slots: u32) -> (r: u32)
    ensures
        r == if max_slots == 0 {
            1
        } else {
            max_slots as int
        },
{
    if max_slots == 0 {
        1
    } else {
        max_slots
    }
}

/// Returns the tab that the badge of the status bar opens: what wants
/// attention where something is blocked, else the workspaces.
pub fn badge_tab(blocked: usize) -> (r: PanelTab)
    ensures
        r == if blocked > 0 {
            PanelTab::Attention
        } else {
            PanelTab::Workspaces
        },
{
    if blocked > 0 {
        PanelTab::Attention
    } else {
        PanelTab::Workspaces
    }
}

// ---------------------------------------------------------------------------
// Keys.
// ---------------------------------------------------------------------------

/// What a key press leads to.
#[derive(Debug, Clone, Copy, PartialEq, Eq)]
pub enum KeyOutcome {
    /// The key is left to the terminal.
    Proceed,
    /// The window closes for good.
    Quit,
    OpenPanel(PanelTab),
    OpenPaneFind,
    Run(Action),
}

/// Returns what a key press leads to. `action` is what the key is bound to,
/// and `find_key` tells whether it is the key for the search in a pane. A key
/// that is bound to nothing is left to the terminal.
pub fn press_key(action: Option<Action>, find_key: bool) -> (r: KeyOutcome)
    ensures
        r == (match action {
            None => KeyOutcome::Proceed,
            Some(Action::Quit) => KeyOutcome::Quit,
            Some(Action::QuickConnect) => KeyOutcome::OpenPanel(PanelTab::Workspaces),
            Some(Action::Search) => KeyOutcome::OpenPanel(PanelTab::Search),
            Some(other) => if find_key {
                KeyOutcome::OpenPaneFind
            } else {
                KeyOutcome::Run(other)
            },
        }),
{
    match action {
        None => KeyOutcome::Proceed,
        Some(Action::Quit) => KeyOutcome::Quit,
        Some(Action::QuickConnect) => KeyOutcome::OpenPanel(PanelTab::Workspaces),
        Some(Action::Search) => KeyOutcome::OpenPanel(PanelTab::Search),
        Some(other) => {
            if find_key {
                KeyOutcome::OpenPaneFind
            } else {
                KeyOutcome::Run(other)
            }
        },
    }
}

// ---------------------------------------------------------------------------
// The loop.
// ---------------------------------------------------------------------------

/// A step of one turn of the loop.
#[derive(Debug, Clone, Copy, PartialEq, Eq, Structural)]
pub enum PollStep {
    SshProbes,
    LocalProbes,
    Reconnect,
    WarnCapacity,
    Events,
    RefreshWorkspaces,
    Notifications,
    PaneOutputs,
    WindowSize,
    SurfaceInput,
    FlushCommands,
    Status,
    ConnectionSummary,
    CommandMarks,
    JumpLatest,
    Sidebar,
    AttentionChrome,
}

/// The steps of one turn, in order.
pub open spec fn turn() -> Seq<PollStep> {
    seq![
        PollStep::SshProbes,
        PollStep::LocalProbes,
        PollStep::Reconnect,
        PollStep::WarnCapacity,
        PollStep::Events,
        PollStep::RefreshWorkspaces,
        PollStep::Notifications,
        PollStep::PaneOutputs,
        PollStep::WindowSize,
        PollStep::SurfaceInput,
        PollStep::FlushCommands,
        PollStep::Status,
        PollStep::ConnectionSummary,
        PollStep::CommandMarks,
        PollStep::JumpLatest,
        PollStep::Sidebar,
        PollStep::AttentionChrome,
    ]
}

/// Returns the steps of one turn of the loop.
pub fn poll_turn() -> (r: Vec<PollStep>)
    ensures
        r@ == turn(),
{
    vec![
        PollStep::SshProbes,
        PollStep::LocalProbes,
        PollStep::Reconnect,
        PollStep::WarnCapacity,
        PollStep::Events,
        PollStep::RefreshWorkspaces,
        PollStep::Notifications,
        PollStep::PaneOutputs,
        PollStep::WindowSize,
        PollStep::SurfaceInput,
        PollStep::FlushCommands,
        PollStep::Status,
        PollStep::ConnectionSummary,
        PollStep::CommandMarks,
        PollStep::JumpLatest,
        PollStep::Sidebar,
        PollStep::AttentionChrome,
    ]
}

/// One step is taken before another in every turn.
pub open spec fn goes_before(a: PollStep, b: PollStep) -> bool {
    forall|i: int, j: int|
        0 <= i < turn().len() && 0 <= j < turn().len() && #[trigger] turn()[i] == a
            && #[trigger] turn()[j] == b ==> i < j
}

/// Input is written only after the topology, the output and the sizes of the
/// turn are taken in, so that it reaches a pane that was just attached; and it
/// is sent within the turn that took it in.
pub proof fn law_input_follows_what_the_core_reported()
    ensures
        goes_before(PollStep::Events, PollStep::RefreshWorkspaces),
        goes_before(PollStep::RefreshWorkspaces, PollStep::PaneOutputs),
        goes_before(PollStep::PaneOutputs, PollStep::SurfaceInput),
        goes_before(PollStep::WindowSize, PollStep::SurfaceInput),
        goes_before(PollStep::SurfaceInput, PollStep::FlushCommands),
{
}

/// Some event of a turn asks for a fresh look at the topology.
pub open spec fn any_topology(events: Seq<ClientWorkspaceEvent>) -> bool {
    exists|i: int| 0 <= i < events.len() && topology_event((#[trigger] events[i]).event.type_)
}

/// Tells whether the status bar of the turn is to be refreshed at once: where
/// any event was one of the topology.
pub fn is_structural(events: &Vec<ClientWorkspaceEvent>) -> (r: bool)
    ensures
        r == any_topology(events@),
{
    let mut i: usize = 0;
    while i < events.len()
        invariant
            i <= events.len(),
            forall|j: int|
                0 <= j < i ==> !topology_event((#[trigger] events@[j]).event.type_),
        decreases events.len() - i,
    {
        if events[i].event.is_topology() {
            return true;
        }
        i += 1;
    }
    false
}

/// What the loop remembers of closing the window: whether it is to close at
/// the end of a turn, and whether closing ends the program.
#[derive(Debug, Clone, Copy, PartialEq, Eq, Structural)]
pub struct ClosingState {
    pub pending_close: bool,
    pub quit_requested: bool,
}

impl ClosingState {
    /// Nothing is to close.
    pub fn new() -> (r: Self)
        ensures
            r == (ClosingState { pending_close: false, quit_requested: false }),
    {
        ClosingState { pending_close: false, quit_requested: false }
    }

    /// Takes in whether the rule for the last pane closes the window. Only the
    /// end of a turn takes a request to close back.
    pub fn mark_pending_close_if_session_ended(&mut self, close: bool)
        ensures
            *final(self) == (ClosingState {
                pending_close: old(self).pending_close || close,
                ..*old(self)
            }),
    {
        if close {
            self.pending_close = true;
        }
    }

    /// Ends a turn, and tells whether the window is closed now. A request to
    /// close is carried out once and ends the program.
    pub fn end_turn(&mut self) -> (r: bool)
        ensures
            r == old(self).pending_close,
            *final(self) == (ClosingState {
                pending_close: false,
                quit_requested: old(self).quit_requested || old(self).pending_close,
            }),
    {
        let close = self.pending_close;
        if close {
            self.pending_close = false;
            self.quit_requested = true;
        }
        close
    }
}

/// Returns how many tabs the workspace in front has; none where it is not
/// known. The rule for the last pane decides by it whether the window closes.
pub fn session_tabs(store: &ViewStore, key: &str) -> (r: usize)
    ensures
        r == match view_of(store.views@, key@) {
            Some(view) => view.tabs@.len(),
            None => 0,
        },
{
    match workspace(&store.views, key) {
        Some(view) => view.tabs.len(),
        None => 0,
    }
}

/// Returns the row of the first line that holds a text.
pub fn line_holding(lines: &Vec<String>, text: &str) -> (r: Option<usize>)
    ensures
        match r {
            Some(i) => i < lines@.len() && contains(lines@[i as int]@, text@) && forall|j: int|
                0 <= j < i ==> !contains((#[trigger] lines@[j])@, text@),
            None => forall|j: int|
                0 <= j < lines@.len() ==> !contains((#[trigger] lines@[j])@, text@),
        },
{
    let wanted = chars_of(text);
    let mut i: usize = 0;
    while i < lines.len()
        invariant
            i <= lines.len(),
            wanted@ == text@,
            forall|j: int| 0 <= j < i ==> !contains((#[trigger] lines@[j])@, text@),
        decreases lines.len() - i,
    {
        let letters = chars_of(lines[i].as_str());
        if contains_chars(&letters, &wanted) {
            return Some(i);
        }
        i += 1;
    }
    None
}

/// The hit lies in the given pane.
pub open spec fn hit_in(workspace: Seq<char>, pane: u32) -> spec_fn(ClientSearchHit) -> bool {
    |h: ClientSearchHit| h.workspace_id@ == workspace && h.pane_id == pane
}

/// Returns the line of the first hit in a pane; nothing is searched for an
/// empty query.
pub fn find_in_pane(query: &str, hits: &Vec<ClientSearchHit>, workspace: &str, pane: u32) -> (r:
    Option<u64>)
    ensures
        r == if query@.len() == 0 {
            None
        } else {
            match find(hits@, hit_in(workspace@, pane)) {
                Some(h) => Some(h.seq),
                None => None,
            }
        },
{
    if query.is_empty() {
        return None;
    }
    let mut i: usize = 0;
    while i < hits.len()
        invariant
            i <= hits.len(),
            query@.len() > 0,
            forall|j: int| 0 <= j < i ==> !hit_in(workspace@, pane)(#[trigger] hits@[j]),
        decreases hits.len() - i,
    {
        if hits[i].pane_id == pane && same(hits[i].workspace_id.as_str(), workspace) {
            proof {
                lemma_first_where(hits@, hit_in(workspace@, pane), i as int);
            }
            return Some(hits[i].seq);
        }
        i += 1;
    }
    proof {
        lemma_no_first(hits@, hit_in(workspace@, pane));
    }
    None
}

} // verus!
