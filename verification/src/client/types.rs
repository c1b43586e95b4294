//! Owned values that cross the boundary to the core.
use vstd::prelude::*;

use crate::json::read::{as_string, field, field_of, string_in};
use crate::text::{clone_opt, opt_view};

verus! {

/// An owned event copied from one poll of the core.
#[derive(Debug, Clone, PartialEq, Eq)]
pub struct ClientEvent {
    pub type_: u32,
    pub pane_id: u32,
    pub tab_id: u32,
    pub window_id: u32,
    pub data: Vec<u8>,
    pub name: String,
}

/// An owned workspace event with the identity of its workspace.
#[derive(Debug, Clone, PartialEq, Eq)]
pub struct ClientWorkspaceEvent {
    pub workspace_id: String,
    pub event: ClientEvent,
}

/// What the core resolved a workspace to: the fields that the frontend reads.
#[derive(Debug, PartialEq, Eq)]
pub struct ResolvedTarget {
    pub name: Option<String>,
    pub path: Option<String>,
    pub runtime: Option<String>,
    pub transport: Option<String>,
    pub target: Option<String>,
    pub session: Option<String>,
    pub socket: Option<String>,
    pub workspace_id: Option<String>,
}

impl Clone for ResolvedTarget {
    fn clone(&self) -> (r: Self)
        ensures
            r == *self,
    {
        ResolvedTarget {
            name: clone_opt(&self.name),
            path: clone_opt(&self.path),
            runtime: clone_opt(&self.runtime),
            transport: clone_opt(&self.transport),
            target: clone_opt(&self.target),
            session: clone_opt(&self.session),
            socket: clone_opt(&self.socket),
            workspace_id: clone_opt(&self.workspace_id),
        }
    }
}

/// The string in a member of an object.
pub open spec fn string_field(value: Seq<char>, name: Seq<char>) -> Option<Seq<char>> {
    match field_of(value, name) {
        Some(v) => string_in(v),
        None => None,
    }
}

fn read_string(value: &str, name: &str) -> (r: Option<String>)
    ensures
        opt_view(r) == string_field(value@, name@),
{
    match field(value, name) {
        Some(v) => as_string(v.as_str()),
        None => None,
    }
}

impl ResolvedTarget {
    /// The fields are those of a JSON object.
    pub open spec fn reads(self, canonical: Seq<char>) -> bool {
        &&& opt_view(self.name) == string_field(canonical, "name"@)
        &&& opt_view(self.path) == string_field(canonical, "path"@)
        &&& opt_view(self.runtime) == string_field(canonical, "runtime"@)
        &&& opt_view(self.transport) == string_field(canonical, "transport"@)
        &&& opt_view(self.target) == string_field(canonical, "target"@)
        &&& opt_view(self.session) == string_field(canonical, "session"@)
        &&& opt_view(self.socket) == string_field(canonical, "socket"@)
        &&& opt_view(self.workspace_id) == string_field(canonical, "workspace_id"@)
    }

    /// Reads what the core resolved a workspace to from its JSON text; nothing
    /// where it names no canonical target.
    pub fn from_json(value: &str) -> (r: Option<Self>)
        ensures
            match field_of(value@, "canonical"@) {
                Some(canonical) => r matches Some(t) && t.reads(canonical),
                None => r is None,
            },
    {
        match field(value, "canonical") {
            Some(text) => {
                let canonical = text.as_str();
                Some(
                    ResolvedTarget {
                        name: read_string(canonical, "name"),
                        path: read_string(canonical, "path"),
                        runtime: read_string(canonical, "runtime"),
                        transport: read_string(canonical, "transport"),
                        target: read_string(canonical, "target"),
                        session: read_string(canonical, "session"),
                        socket: read_string(canonical, "socket"),
                        workspace_id: read_string(canonical, "workspace_id"),
                    },
                )
            },
            None => None,
        }
    }
}

/// An owned row from the pool of workspaces.
#[derive(Debug, PartialEq, Eq)]
pub struct ClientWorkspace {
    pub id: String,
    pub name: String,
    pub runtime: String,
    pub active: bool,
    pub resolved_target: Option<ResolvedTarget>,
}

impl Clone for ClientWorkspace {
    fn clone(&self) -> (r: Self)
        ensures
            r == *self,
    {
        ClientWorkspace {
            id: self.id.clone(),
            name: self.name.clone(),
            runtime: self.runtime.clone(),
            active: self.active,
            resolved_target: match &self.resolved_target {
                Some(t) => Some(t.clone()),
                None => None,
            },
        }
    }
}

/// Target data accepted when a workspace is opened.
#[derive(Debug, Clone, PartialEq, Eq)]
pub struct ClientTarget {
    pub name: String,
    pub runtime: String,
    pub transport: String,
    pub target: Option<String>,
    pub path: String,
    pub session: Option<String>,
    pub socket: Option<String>,
}

/// What to do when the target does not exist yet.
#[derive(Debug, Clone, Copy, PartialEq, Eq, Structural)]
pub enum ClientOpenIntent {
    AttachOnly,
    CreateIfMissing,
}

/// Result of opening a target.
#[derive(Debug, Clone, PartialEq, Eq)]
pub struct ClientOpenedWorkspace {
    pub id: String,
    pub name: String,
    pub resolved_target: Option<ResolvedTarget>,
}

/// Red, green and blue of one colour.
#[derive(Debug, Clone, Copy, PartialEq, Eq, Structural)]
pub struct ClientRgb(pub u8, pub u8, pub u8);

impl Default for ClientRgb {
    fn default() -> (r: Self)
        ensures
            r == ClientRgb(0, 0, 0),
    {
        ClientRgb(0, 0, 0)
    }
}

impl ClientRgb {
    /// The colour as one number, red in the highest of three bytes.
    pub fn to_u32(self) -> (r: u32)
        ensures
            r == self.0 * 65536 + self.1 * 256 + self.2,
    {
        (self.0 as u32) * 65536 + (self.1 as u32) * 256 + (self.2 as u32)
    }
}

/// Different colours have different numbers.
pub proof fn law_rgb_number_identifies_colour(a: ClientRgb, b: ClientRgb)
    requires
        a.0 * 65536 + a.1 * 256 + a.2 == b.0 * 65536 + b.1 * 256 + b.2,
    ensures
        a == b,
{
}

/// A resolved theme.
#[derive(Debug, Clone, PartialEq, Eq)]
pub struct ClientTheme {
    pub name: String,
    pub background: ClientRgb,
    pub foreground: ClientRgb,
    pub cursor: ClientRgb,
    pub colors: [ClientRgb; 16],
}

/// One effective key binding.
#[derive(Debug, Clone, PartialEq, Eq)]
pub struct ClientKeyBinding {
    pub key: String,
    pub mods: Vec<String>,
    pub action: String,
}

/// A configuration snapshot. The parts that the frontend only hands on are
/// kept as JSON text.
#[derive(Debug, Clone, PartialEq, Eq)]
pub struct ClientConfigSnapshot {
    pub path: String,
    pub revision: String,
    pub raw: String,
    pub values: String,
    pub defaults: String,
    pub schema: String,
    pub manifest: String,
    pub action_catalog: String,
    pub resolved_theme: Option<ClientTheme>,
    pub effective_keybindings: Vec<ClientKeyBinding>,
}

/// One patch operation on the configuration; the value is JSON text.
#[derive(Debug, Clone, PartialEq, Eq)]
pub struct ClientJsonPatchOperation {
    pub op: String,
    pub path: String,
    pub value: Option<String>,
}

/// Draft values returned after a patch; the values are JSON text.
#[derive(Debug, Clone, PartialEq, Eq)]
pub struct ClientConfigDraft {
    pub transaction: String,
    pub values: String,
    pub diagnostics: Vec<String>,
}

/// Where a candidate comes from.
#[derive(Debug, Clone, Copy, PartialEq, Eq, Structural)]
pub enum ClientCandidateKind {
    Project,
    Worktree,
    Existing,
    Recent,
}

/// Identity of an existing workspace.
#[derive(Debug, Clone, PartialEq, Eq)]
pub struct ClientExistingCandidateRef {
    pub runtime_id: String,
    pub transport_id: String,
    pub target: String,
    pub session: Option<String>,
    pub socket: Option<String>,
    pub workspace_id: Option<String>,
}

/// Identity of a candidate, sent back to the core when its row is chosen.
#[derive(Debug, Clone, PartialEq, Eq)]
pub enum ClientCandidateRef {
    Project { project_id: String },
    Worktree { project_id: String, worktree_id: String },
    Existing { identity: ClientExistingCandidateRef },
    Recent { key: String },
}

/// One row of the list of candidates.
#[derive(Debug, Clone, PartialEq, Eq)]
pub struct ClientCandidate {
    pub kind: ClientCandidateKind,
    pub title: String,
    pub subtitle: String,
    pub badges: Vec<String>,
    pub in_pool: Option<String>,
    pub reference: ClientCandidateRef,
}

/// A request to open a candidate.
#[derive(Debug, Clone, PartialEq, Eq)]
pub struct ClientOpenRequest {
    pub candidate: ClientCandidateRef,
    pub intent: ClientOpenIntent,
    pub template: Option<String>,
    pub activate: bool,
}

/// An owned layout tree.
#[derive(Debug, PartialEq, Eq)]
pub enum ClientLayout {
    Leaf { pane_id: u32 },
    Split { horizontal: bool, ratio: u32, first: Box<ClientLayout>, second: Box<ClientLayout> },
}

impl Clone for ClientLayout {
    fn clone(&self) -> (r: Self)
        ensures
            r == *self,
        decreases *self,
    {
        match self {
            ClientLayout::Leaf { pane_id } => ClientLayout::Leaf { pane_id: *pane_id },
            ClientLayout::Split { horizontal, ratio, first, second } => {
                let f: ClientLayout = (**first).clone();
                let s: ClientLayout = (**second).clone();
                ClientLayout::Split {
                    horizontal: *horizontal,
                    ratio: *ratio,
                    first: Box::new(f),
                    second: Box::new(s),
                }
            },
        }
    }
}

impl ClientLayout {
    /// The panes of the tree from first to last.
    pub open spec fn leaves(self) -> Seq<u32>
        decreases self,
    {
        match self {
            ClientLayout::Leaf { pane_id } => seq![pane_id],
            ClientLayout::Split { first, second, .. } => first.leaves() + second.leaves(),
        }
    }
}

/// A tree holds at least one pane.
pub proof fn lemma_layout_has_leaves(layout: ClientLayout)
    ensures
        layout.leaves().len() >= 1,
    decreases layout,
{
    match layout {
        ClientLayout::Leaf { pane_id } => {},
        ClientLayout::Split { first, second, .. } => {
            lemma_layout_has_leaves(*first);
            lemma_layout_has_leaves(*second);
        },
    }
}

/// Returns the first pane of the tree.
pub fn client_layout_first_pane(layout: &ClientLayout) -> (r: u32)
    ensures
        r == layout.leaves()[0],
    decreases *layout,
{
    match layout {
        ClientLayout::Leaf { pane_id } => *pane_id,
        ClientLayout::Split { first, .. } => {
            proof {
                lemma_layout_has_leaves(**first);
            }
            client_layout_first_pane(first)
        },
    }
}

/// An owned tab.
#[derive(Debug, PartialEq, Eq)]
pub struct ClientTab {
    pub id: u32,
    pub name: String,
    pub is_active: bool,
}

impl Clone for ClientTab {
    fn clone(&self) -> (r: Self)
        ensures
            r == *self,
    {
        ClientTab { id: self.id, name: self.name.clone(), is_active: self.is_active }
    }
}

/// An owned pane.
#[derive(Debug, PartialEq, Eq)]
pub struct ClientPane {
    pub id: u32,
    pub cols: u16,
    pub rows: u16,
    pub is_active: bool,
    pub title: String,
}

impl Clone for ClientPane {
    fn clone(&self) -> (r: Self)
        ensures
            r == *self,
    {
        ClientPane {
            id: self.id,
            cols: self.cols,
            rows: self.rows,
            is_active: self.is_active,
            title: self.title.clone(),
        }
    }
}

/// One command mark of a pane's history.
#[derive(Debug, PartialEq, Eq)]
pub struct ClientCommandMark {
    pub seq: u64,
    pub command: String,
    pub exit_code: Option<u8>,
    pub history_offset: Option<u32>,
}

impl Clone for ClientCommandMark {
    fn clone(&self) -> (r: Self)
        ensures
            r == *self,
    {
        ClientCommandMark {
            seq: self.seq,
            command: self.command.clone(),
            exit_code: self.exit_code,
            history_offset: self.history_offset,
        }
    }
}

/// One search hit.
#[derive(Debug, PartialEq, Eq)]
pub struct ClientSearchHit {
    pub workspace_id: String,
    pub tab_id: u32,
    pub pane_id: u32,
    pub seq: u64,
    pub line: String,
}

impl Clone for ClientSearchHit {
    fn clone(&self) -> (r: Self)
        ensures
            r == *self,
    {
        ClientSearchHit {
            workspace_id: self.workspace_id.clone(),
            tab_id: self.tab_id,
            pane_id: self.pane_id,
            seq: self.seq,
            line: self.line.clone(),
        }
    }
}

/// Diagnostics of a stream.
#[derive(Debug, Clone, PartialEq, Eq)]
pub struct ClientHerdrProbe {
    pub stream_starts: u64,
    pub control_takeover_starts: u64,
    pub takeover_suppressed: bool,
    pub actual_mode: String,
}

/// One activity notification.
#[derive(Debug, Clone, PartialEq, Eq)]
pub struct ClientActivityNotification {
    pub workspace_id: String,
    pub pane_id: u32,
    pub kind: String,
    pub process_name: Option<String>,
    pub last_line: String,
    pub seq: u64,
}

/// The notifications of one poll.
#[derive(Debug, Clone, PartialEq, Eq)]
pub struct ClientActivityNotifications {
    pub notifications: Vec<ClientActivityNotification>,
    pub blocked: Vec<String>,
    pub done: Vec<String>,
}

/// An SSH host.
#[derive(Debug, Clone, PartialEq, Eq)]
pub struct SshHostEntry {
    pub alias: String,
    pub hostname: String,
    pub port: u16,
    pub user: String,
}

/// An existing workspace found by discovery.
#[derive(Debug, Clone, PartialEq, Eq)]
pub struct ExistingCandidate {
    pub name: String,
    pub id: String,
    pub runtime: String,
    pub transport: String,
    pub target: String,
    pub in_pool: bool,
    pub windows: u32,
    pub attached: bool,
    pub created: u64,
    pub namespace: Option<String>,
    pub session: Option<String>,
    pub socket: Option<String>,
    pub workspace_id: Option<String>,
}

/// A tmux session.
#[derive(Debug, Clone, PartialEq, Eq)]
pub struct TmuxSessionEntry {
    pub name: String,
    pub windows: u32,
    pub attached: bool,
    pub created: u64,
}

/// A tmux pane.
#[derive(Debug, Clone, PartialEq, Eq)]
pub struct ClientTmuxPane {
    pub id: u32,
    pub active: bool,
    pub cols: u16,
    pub rows: u16,
    pub title: String,
}

/// A directory entry.
#[derive(Debug, Clone, PartialEq, Eq)]
pub struct FsEntry {
    pub name: String,
    pub is_dir: bool,
}

/// What the frontend asks of the core.
#[derive(Debug, Clone, Copy, PartialEq, Eq, Structural)]
pub enum ClientTask {
    NewTab,
    SwitchTab { tab_id: u32 },
    ClosePane { pane_id: u32 },
    CloseTab { tab_id: u32 },
    SplitPane { pane_id: u32, horizontal: bool },
    NextPane,
    PreviousPane,
    SwitchPane { pane_id: u32 },
    TogglePaneFullscreen { pane_id: u32 },
    BreakPane { pane_id: u32 },
    RefreshTabs,
    RequestPaneSnapshot { pane_id: u32 },
    Detach,
    Shutdown,
}

/// The axis along which a pane is resized.
#[derive(Debug, Clone, Copy, PartialEq, Eq, Structural)]
pub enum ClientResizeAxis {
    Horizontal,
    Vertical,
}

} // verus!
