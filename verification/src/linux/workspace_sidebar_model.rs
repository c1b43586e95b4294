//! The rows of the sidebar: workspaces, agents and commands.
use vstd::prelude::*;
use vstd::string::*;

use crate::client::attention::{
    status_of, ClientActivitySnapshot, ClientAttentionPane, ClientAttentionStatus,
    ClientWorkspaceAttention,
};
use crate::client::snapshot::{all_panes, flat_panes};
use crate::client::types::{ClientLayout, ClientPane, ClientTab, ClientWorkspace};
use crate::seqs::{flat, lemma_flat_holds, lemma_flat_member};
use crate::text::order::{
    in_order, insert_by, is_ranking, lemma_stable_sorted, lemma_text_lt_total,
    lemma_text_lt_transitive, stable_sorted, text_le, text_less,
};
use crate::text::{all_white, concat3, is_blank, opt_view, same};
use crate::workspace_id::{
    parse_workspace_id, parsed_id, transport_label, transport_label_of, transport_name, WorkspaceId,
    WorkspaceIdView,
};

verus! {

/// One workspace as the frontend holds it. `replica_id` is the identity under
/// which the activity of the workspace is reported.
#[derive(Debug, Clone)]
pub struct WorkspaceView {
    pub key: String,
    pub replica_id: String,
    pub workspace: Option<ClientWorkspace>,
    pub tabs: Vec<ClientTab>,
    pub panes: Vec<(u32, Vec<ClientPane>)>,
    pub layouts: Vec<(u32, Option<ClientLayout>)>,
}

/// All workspaces that the frontend holds.
#[derive(Debug, Clone)]
pub struct ViewStore {
    pub views: Vec<WorkspaceView>,
    pub active_workspace_id: Option<String>,
}

// ---------------------------------------------------------------------------
// Workspaces.
// ---------------------------------------------------------------------------

/// A workspace row. The first five rows have a shortcut.
#[derive(Debug, Clone, PartialEq, Eq)]
pub struct WorkspaceSidebarItem {
    pub id: WorkspaceId,
    pub name: String,
    pub runtime: String,
    pub transport: String,
    pub active: bool,
    pub shortcut: Option<u8>,
}

/// The view of a [`WorkspaceSidebarItem`].
pub struct WorkspaceSidebarView {
    pub id: WorkspaceIdView,
    pub name: Seq<char>,
    pub runtime: Seq<char>,
    pub transport: Seq<char>,
    pub active: bool,
    pub shortcut: Option<u8>,
}

impl View for WorkspaceSidebarItem {
    type V = WorkspaceSidebarView;

    open spec fn view(&self) -> WorkspaceSidebarView {
        WorkspaceSidebarView {
            id: self.id@,
            name: self.name@,
            runtime: self.runtime@,
            transport: self.transport@,
            active: self.active,
            shortcut: self.shortcut,
        }
    }
}

/// The views of workspace rows.
pub open spec fn sidebar_views(s: Seq<WorkspaceSidebarItem>) -> Seq<WorkspaceSidebarView> {
    Seq::new(s.len(), |i: int| s[i]@)
}

/// The order of workspaces by id.
pub open spec fn by_id() -> spec_fn(ClientWorkspace, ClientWorkspace) -> bool {
    |a: ClientWorkspace, b: ClientWorkspace| text_le(a.id@, b.id@)
}

/// The workspaces that are known.
pub open spec fn known_workspaces(views: Seq<WorkspaceView>) -> Seq<ClientWorkspace>
    decreases views.len(),
{
    if views.len() == 0 {
        Seq::<ClientWorkspace>::empty()
    } else {
        let rest = known_workspaces(views.drop_last());
        match views.last().workspace {
            Some(w) => rest.push(w),
            None => rest,
        }
    }
}

/// The workspaces in the order of their ids.
pub open spec fn ordered_workspaces(views: Seq<WorkspaceView>) -> Seq<ClientWorkspace> {
    stable_sorted(known_workspaces(views), by_id())
}

/// The row of the workspace at a position.
pub open spec fn sidebar_row(
    w: ClientWorkspace,
    id: WorkspaceIdView,
    index: int,
    active: Option<Seq<char>>,
) -> WorkspaceSidebarView {
    WorkspaceSidebarView {
        id,
        name: w.name@,
        runtime: w.runtime@,
        transport: transport_label_of(w.id@),
        active: active == Some(w.id@),
        shortcut: shortcut_of(index),
    }
}

/// The shortcut of the row at a position.
pub open spec fn shortcut_of(index: int) -> Option<u8> {
    if 0 <= index <= 4 {
        Some((index + 1) as u8)
    } else {
        None
    }
}

fn shortcut_for(index: usize) -> (r: Option<u8>)
    ensures
        r == shortcut_of(index as int),
{
    if index <= 4 {
        Some((index + 1) as u8)
    } else {
        None
    }
}

/// The rows of workspaces; one whose id cannot be read has no row, but keeps
/// its place for the shortcuts.
pub open spec fn sidebar_rows(ordered: Seq<ClientWorkspace>, active: Option<Seq<char>>) -> Seq<
    WorkspaceSidebarView,
>
    decreases ordered.len(),
{
    if ordered.len() == 0 {
        Seq::<WorkspaceSidebarView>::empty()
    } else {
        let rest = sidebar_rows(ordered.drop_last(), active);
        let w = ordered.last();
        match parsed_id(w.id@) {
            Some(id) => rest.push(sidebar_row(w, id, ordered.len() - 1, active)),
            None => rest,
        }
    }
}

fn not_after_by_id(a: &ClientWorkspace, b: &ClientWorkspace) -> (r: bool)
    ensures
        r == by_id()(*a, *b),
{
    !text_less(b.id.as_str(), a.id.as_str())
}

pub(crate) fn sorted_workspaces(store: &ViewStore) -> (r: Vec<ClientWorkspace>)
    ensures
        r@ == ordered_workspaces(store.views@),
{
    let mut out: Vec<ClientWorkspace> = Vec::new();
    let mut i: usize = 0;
    assert(ordered_workspaces(store.views@.take(0)) =~= Seq::<ClientWorkspace>::empty());
    while i < store.views.len()
        invariant
            i <= store.views.len(),
            out@ == ordered_workspaces(store.views@.take(i as int)),
        decreases store.views.len() - i,
    {
        let ghost before = known_workspaces(store.views@.take(i as int));
        assert(store.views@.take(i + 1).drop_last() =~= store.views@.take(i as int));
        match &store.views[i].workspace {
            Some(w) => {
                proof {
                    let now = known_workspaces(store.views@.take(i + 1));
                    assert(now == before.push(*w));
                    assert(now.drop_last() =~= before);
                }
                insert_by(&mut out, w.clone(), not_after_by_id, Ghost(by_id()));
            },
            None => {},
        }
        i += 1;
    }
    assert(store.views@.take(store.views@.len() as int) =~= store.views@);
    out
}

impl WorkspaceSidebarItem {
    /// Returns the rows with the active workspace of the store marked.
    pub fn from_views(store: &ViewStore) -> (r: Vec<Self>)
        ensures
            sidebar_views(r@) == sidebar_rows(
                ordered_workspaces(store.views@),
                opt_view(store.active_workspace_id),
            ),
    {
        let active: Option<&str> = match &store.active_workspace_id {
            Some(s) => Some(s.as_str()),
            None => None,
        };
        WorkspaceSidebarItem::from_views_with_active(store, active)
    }

    /// Returns the rows with the given workspace marked as active.
    pub fn from_views_with_active(store: &ViewStore, active_id: Option<&str>) -> (r: Vec<Self>)
        ensures
            sidebar_views(r@) == sidebar_rows(
                ordered_workspaces(store.views@),
                match active_id {
                    Some(s) => Some(s@),
                    None => None,
                },
            ),
    {
        let ghost active = match active_id {
            Some(s) => Some(s@),
            None => None,
        };
        let ordered = sorted_workspaces(store);
        let mut out: Vec<WorkspaceSidebarItem> = Vec::new();
        let mut i: usize = 0;
        assert(sidebar_views(out@) =~= sidebar_rows(ordered@.take(0), active));
        while i < ordered.len()
            invariant
                i <= ordered.len(),
                active == match active_id {
                    Some(s) => Some(s@),
                    None => None,
                },
                sidebar_views(out@) == sidebar_rows(ordered@.take(i as int), active),
            decreases ordered.len() - i,
        {
            let w = &ordered[i];
            let ghost before = sidebar_views(out@);
            assert(ordered@.take(i + 1).drop_last() =~= ordered@.take(i as int));
            assert(ordered@.take(i + 1).last() == *w);
            match parse_workspace_id(w.id.as_str()) {
                Some(id) => {
                    let is_active = match active_id {
                        Some(s) => same(s, w.id.as_str()),
                        None => false,
                    };
                    let shortcut: Option<u8> = shortcut_for(i);
                    let item = WorkspaceSidebarItem {
                        id,
                        name: w.name.clone(),
                        runtime: w.runtime.clone(),
                        transport: transport_label(w.id.as_str()),
                        active: is_active,
                        shortcut,
                    };
                    out.push(item);
                    assert(sidebar_views(out@) =~= before.push(item@));
                },
                None => {},
            }
            i += 1;
        }
        assert(ordered@.take(ordered@.len() as int) =~= ordered@);
        out
    }
}

/// The order of workspaces by id compares any two and is transitive.
pub proof fn lemma_by_id_is_ranking()
    ensures
        is_ranking(by_id()),
{
    assert forall|a: ClientWorkspace, b: ClientWorkspace| #[trigger] by_id()(a, b) || by_id()(
        b,
        a,
    ) by {
        lemma_text_lt_total(a.id@, b.id@);
    }
    assert forall|a: ClientWorkspace, b: ClientWorkspace, c: ClientWorkspace| #[trigger]
        by_id()(a, b) && #[trigger] by_id()(b, c) implies by_id()(a, c) by {
        lemma_text_lt_total(a.id@, b.id@);
        lemma_text_lt_total(b.id@, c.id@);
        lemma_text_lt_total(a.id@, c.id@);
        if crate::text::order::text_lt(c.id@, a.id@) {
            if crate::text::order::text_lt(a.id@, b.id@) {
                lemma_text_lt_transitive(c.id@, a.id@, b.id@);
                lemma_text_lt_total(c.id@, b.id@);
            } else {
                assert(a.id@ == b.id@);
            }
        }
    }
}

/// The rows stand in the order of the ids of their workspaces, whatever the
/// order in which the frontend holds them.
pub proof fn law_rows_are_ordered_by_id(views: Seq<WorkspaceView>)
    ensures
        in_order(ordered_workspaces(views), by_id()),
        ordered_workspaces(views).to_multiset() == known_workspaces(views).to_multiset(),
{
    lemma_by_id_is_ranking();
    lemma_stable_sorted(known_workspaces(views), by_id());
}

/// Exactly the workspaces whose ids can be read have rows, and at most five
/// of the rows have a shortcut.
pub proof fn law_shortcuts_are_few(ordered: Seq<ClientWorkspace>, active: Option<Seq<char>>, i: int)
    requires
        0 <= i < sidebar_rows(ordered, active).len(),
    ensures
        sidebar_rows(ordered, active).len() <= ordered.len(),
        sidebar_rows(ordered, active)[i].shortcut matches Some(n) ==> 1 <= n <= 5,
        i >= 5 ==> sidebar_rows(ordered, active)[i].shortcut is None,
    decreases ordered.len(),
{
    let init = ordered.drop_last();
    lemma_rows_len(init, active);
    lemma_rows_len(ordered, active);
    if i < sidebar_rows(init, active).len() {
        law_shortcuts_are_few(init, active, i);
    }
}

proof fn lemma_rows_len(ordered: Seq<ClientWorkspace>, active: Option<Seq<char>>)
    ensures
        sidebar_rows(ordered, active).len() <= ordered.len(),
    decreases ordered.len(),
{
    if ordered.len() > 0 {
        lemma_rows_len(ordered.drop_last(), active);
    }
}

// ---------------------------------------------------------------------------
// Activity.
// ---------------------------------------------------------------------------

/// The dot behind a row.
#[derive(Debug, Clone, Copy, PartialEq, Eq, Structural)]
pub enum ActivityIndicator {
    Running,
    Done,
    Quiet,
}

/// The last of the panes with a number.
pub open spec fn last_pane(panes: Seq<ClientAttentionPane>, pane: u32) -> Option<
    ClientAttentionPane,
>
    decreases panes.len(),
{
    if panes.len() == 0 {
        None
    } else if panes.last().pane_id == pane {
        Some(panes.last())
    } else {
        last_pane(panes.drop_last(), pane)
    }
}

/// The activity of a pane: the last one that is reported for it.
pub open spec fn activity_of(
    workspaces: Seq<ClientWorkspaceAttention>,
    key: Seq<char>,
    pane: u32,
) -> Option<ClientAttentionPane>
    decreases workspaces.len(),
{
    if workspaces.len() == 0 {
        None
    } else {
        let w = workspaces.last();
        if w.workspace_id@ == key && last_pane(w.panes@, pane) is Some {
            last_pane(w.panes@, pane)
        } else {
            activity_of(workspaces.drop_last(), key, pane)
        }
    }
}

fn find_last_pane(panes: &Vec<ClientAttentionPane>, pane: u32) -> (r: Option<ClientAttentionPane>)
    ensures
        r == last_pane(panes@, pane),
{
    let mut i: usize = panes.len();
    assert(panes@.take(panes@.len() as int) =~= panes@);
    while i > 0
        invariant
            i <= panes.len(),
            last_pane(panes@, pane) == last_pane(panes@.take(i as int), pane),
        decreases i,
    {
        assert(panes@.take(i as int).drop_last() =~= panes@.take(i - 1));
        if panes[i - 1].pane_id == pane {
            return Some(panes[i - 1].clone());
        }
        i -= 1;
    }
    None
}

/// Returns the activity of a pane.
pub fn activity_by_pane(activity: &ClientActivitySnapshot, key: &str, pane: u32) -> (r: Option<
    ClientAttentionPane,
>)
    ensures
        r == activity_of(activity.workspaces@, key@, pane),
{
    let ws = &activity.workspaces;
    let mut i: usize = ws.len();
    assert(ws@.take(ws@.len() as int) =~= ws@);
    while i > 0
        invariant
            i <= ws.len(),
            *ws == activity.workspaces,
            activity_of(ws@, key@, pane) == activity_of(ws@.take(i as int), key@, pane),
        decreases i,
    {
        assert(ws@.take(i as int).drop_last() =~= ws@.take(i - 1));
        if same(ws[i - 1].workspace_id.as_str(), key) {
            let found = find_last_pane(&ws[i - 1].panes, pane);
            if found.is_some() {
                return found;
            }
        }
        i -= 1;
    }
    None
}

/// The dot for an activity: running, or finished and not yet read.
pub open spec fn indicator_of(p: ClientAttentionPane) -> ActivityIndicator {
    match status_of(p.status@) {
        ClientAttentionStatus::Working => ActivityIndicator::Running,
        ClientAttentionStatus::Blocked | ClientAttentionStatus::Done => if p.acknowledged {
            ActivityIndicator::Quiet
        } else {
            ActivityIndicator::Done
        },
        _ => ActivityIndicator::Quiet,
    }
}

/// Returns the dot for an activity.
pub fn client_attention_indicator(attention: &ClientAttentionPane) -> (r: ActivityIndicator)
    ensures
        r == indicator_of(*attention),
{
    match attention.status_kind() {
        ClientAttentionStatus::Working => ActivityIndicator::Running,
        ClientAttentionStatus::Blocked => if attention.acknowledged {
            ActivityIndicator::Quiet
        } else {
            ActivityIndicator::Done
        },
        ClientAttentionStatus::Done => if attention.acknowledged {
            ActivityIndicator::Quiet
        } else {
            ActivityIndicator::Done
        },
        _ => ActivityIndicator::Quiet,
    }
}

/// The second line of an activity: the workspace, and its path where the pane
/// shows no line of its own.
pub open spec fn detail_of(w: ClientWorkspace, p: ClientAttentionPane) -> Seq<char> {
    match parsed_id(w.id@) {
        Some(id) => {
            let identity = w.name@ + "@"@ + w.runtime@ + "@"@ + transport_name(id);
            if all_white(p.last_line@) && !all_white(id.path) {
                identity + " · "@ + id.path
            } else {
                identity
            }
        },
        None => w.name@,
    }
}

/// Returns the second line of an activity.
pub fn client_activity_detail(workspace: &ClientWorkspace, attention: &ClientAttentionPane) -> (r:
    String)
    ensures
        r@ == detail_of(*workspace, *attention),
{
    match parse_workspace_id(workspace.id.as_str()) {
        Some(id) => {
            let mut identity = concat3(workspace.name.as_str(), "@", workspace.runtime.as_str());
            identity.append("@");
            identity.append(id.transport_name().as_str());
            if is_blank(attention.last_line.as_str()) && !is_blank(id.path.as_str()) {
                identity.append(" · ");
                identity.append(id.path.as_str());
            }
            identity
        },
        None => workspace.name.clone(),
    }
}

/// An agent or a command row.
pub struct ActivityRowView {
    pub workspace_id: WorkspaceIdView,
    pub replica_id: Seq<char>,
    pub pane_id: u32,
    pub title: Seq<char>,
    pub detail: Seq<char>,
    pub indicator: ActivityIndicator,
}

/// A row for an agent in any workspace.
#[derive(Debug, Clone, PartialEq, Eq)]
pub struct AgentSidebarItem {
    pub workspace_id: WorkspaceId,
    pub replica_id: String,
    pub pane_id: u32,
    pub title: String,
    pub detail: String,
    pub indicator: ActivityIndicator,
}

impl View for AgentSidebarItem {
    type V = ActivityRowView;

    open spec fn view(&self) -> ActivityRowView {
        ActivityRowView {
            workspace_id: self.workspace_id@,
            replica_id: self.replica_id@,
            pane_id: self.pane_id,
            title: self.title@,
            detail: self.detail@,
            indicator: self.indicator,
        }
    }
}

/// A row for a command that runs or was not read yet, in any workspace.
#[derive(Debug, Clone, PartialEq, Eq)]
pub struct CommandSidebarItem {
    pub workspace_id: WorkspaceId,
    pub replica_id: String,
    pub pane_id: u32,
    pub title: String,
    pub detail: String,
    pub indicator: ActivityIndicator,
}

impl View for CommandSidebarItem {
    type V = ActivityRowView;

    open spec fn view(&self) -> ActivityRowView {
        ActivityRowView {
            workspace_id: self.workspace_id@,
            replica_id: self.replica_id@,
            pane_id: self.pane_id,
            title: self.title@,
            detail: self.detail@,
            indicator: self.indicator,
        }
    }
}

/// The views of agent rows.
pub open spec fn agent_views(s: Seq<AgentSidebarItem>) -> Seq<ActivityRowView> {
    Seq::new(s.len(), |i: int| s[i]@)
}

/// The views of command rows.
pub open spec fn command_views(s: Seq<CommandSidebarItem>) -> Seq<ActivityRowView> {
    Seq::new(s.len(), |i: int| s[i]@)
}

/// The name of the agent in a pane.
pub open spec fn agent_title(p: ClientAttentionPane) -> Option<Seq<char>> {
    match p.agent_name {
        Some(name) => Some(name@),
        None => if p.process_is_agent {
            opt_view(p.process_name)
        } else {
            None
        },
    }
}

/// The name of the command in a pane: one that runs or is not yet read, that
/// is no agent and whose process has a name.
pub open spec fn command_title(p: ClientAttentionPane) -> Option<Seq<char>> {
    if indicator_of(p) == ActivityIndicator::Quiet || p.process_is_agent {
        None
    } else {
        match p.process_name {
            Some(name) => if all_white(name@) {
                None
            } else {
                Some(name@)
            },
            None => None,
        }
    }
}

/// The title of a row.
pub open spec fn row_title(p: ClientAttentionPane, agents: bool) -> Option<Seq<char>> {
    if agents {
        agent_title(p)
    } else {
        command_title(p)
    }
}

/// The row of a pane, where it has one.
pub open spec fn pane_row(
    view: WorkspaceView,
    w: ClientWorkspace,
    id: WorkspaceIdView,
    pane: u32,
    activity: Seq<ClientWorkspaceAttention>,
    agents: bool,
) -> Seq<ActivityRowView> {
    match activity_of(activity, view.replica_id@, pane) {
        Some(p) => match row_title(p, agents) {
            Some(title) => seq![
                ActivityRowView {
                    workspace_id: id,
                    replica_id: view.replica_id@,
                    pane_id: pane,
                    title,
                    detail: detail_of(w, p),
                    indicator: indicator_of(p),
                },
            ],
            None => Seq::<ActivityRowView>::empty(),
        },
        None => Seq::<ActivityRowView>::empty(),
    }
}

/// The rows of a workspace, in the order of its panes.
pub open spec fn view_rows(
    view: WorkspaceView,
    activity: Seq<ClientWorkspaceAttention>,
    agents: bool,
) -> Seq<ActivityRowView> {
    match (view.workspace, parsed_id(view.key@)) {
        (Some(w), Some(id)) => flat(
            Seq::new(
                all_panes(view.panes@).len(),
                |i: int|
                    pane_row(view, w, id, all_panes(view.panes@)[i].id, activity, agents),
            ),
        ),
        _ => Seq::<ActivityRowView>::empty(),
    }
}

/// The rows of all workspaces.
pub open spec fn activity_rows(
    views: Seq<WorkspaceView>,
    activity: Seq<ClientWorkspaceAttention>,
    agents: bool,
) -> Seq<ActivityRowView> {
    flat(Seq::new(views.len(), |i: int| view_rows(views[i], activity, agents)))
}

fn title_of(p: &ClientAttentionPane, agents: bool) -> (r: Option<String>)
    ensures
        opt_view(r) == row_title(*p, agents),
{
    if agents {
        match &p.agent_name {
            Some(name) => Some(name.clone()),
            None => if p.process_is_agent {
                crate::text::clone_opt(&p.process_name)
            } else {
                None
            },
        }
    } else {
        let quiet = match client_attention_indicator(p) {
            ActivityIndicator::Quiet => true,
            _ => false,
        };
        if quiet || p.process_is_agent {
            None
        } else {
            match &p.process_name {
                Some(name) => if is_blank(name.as_str()) {
                    None
                } else {
                    Some(name.clone())
                },
                None => None,
            }
        }
    }
}

fn push_view_rows(
    out: &mut Vec<AgentSidebarItem>,
    view: &WorkspaceView,
    activity: &ClientActivitySnapshot,
    agents: bool,
)
    ensures
        agent_views(final(out)@) == agent_views(old(out)@) + view_rows(
            *view,
            activity.workspaces@,
            agents,
        ),
{
    let w = match &view.workspace {
        Some(w) => w,
        None => {
            assert(agent_views(out@) =~= agent_views(out@) + Seq::<ActivityRowView>::empty());
            return;
        },
    };
    let id = match parse_workspace_id(view.key.as_str()) {
        Some(id) => id,
        None => {
            assert(agent_views(out@) =~= agent_views(out@) + Seq::<ActivityRowView>::empty());
            return;
        },
    };
    let panes = flat_panes(&view.panes);
    let ghost acts = activity.workspaces@;
    let ghost before = agent_views(out@);
    let ghost lists = Seq::new(
        all_panes(view.panes@).len(),
        |i: int| pane_row(*view, *w, id@, all_panes(view.panes@)[i].id, acts, agents),
    );
    let mut i: usize = 0;
    assert(agent_views(out@) =~= before + flat(lists.take(0)));
    while i < panes.len()
        invariant
            i <= panes.len(),
            panes@ == all_panes(view.panes@),
            acts == activity.workspaces@,
            lists == Seq::new(
                all_panes(view.panes@).len(),
                |i: int| pane_row(*view, *w, id@, all_panes(view.panes@)[i].id, acts, agents),
            ),
            agent_views(out@) == before + flat(lists.take(i as int)),
        decreases panes.len() - i,
    {
        let ghost shown = agent_views(out@);
        assert(lists.take(i + 1).drop_last() =~= lists.take(i as int));
        assert(lists.take(i + 1).last() == lists[i as int]);
        let pane: u32 = panes[i].id;
        let mut pushed = false;
        if let Some(p) = activity_by_pane(activity, view.replica_id.as_str(), pane) {
            if let Some(title) = title_of(&p, agents) {
                let item = AgentSidebarItem {
                    workspace_id: id.clone(),
                    replica_id: view.replica_id.clone(),
                    pane_id: pane,
                    title,
                    detail: client_activity_detail(w, &p),
                    indicator: client_attention_indicator(&p),
                };
                out.push(item);
                pushed = true;
                assert(agent_views(out@) =~= shown.push(item@));
                assert(lists[i as int] =~= seq![item@]);
            }
        }
        assert(agent_views(out@) =~= shown + lists[i as int]);
        assert(agent_views(out@) =~= before + flat(lists.take(i + 1)));
        i += 1;
    }
    assert(lists.take(lists.len() as int) =~= lists);
}

fn rows_from_views(store: &ViewStore, activity: &ClientActivitySnapshot, agents: bool) -> (r: Vec<
    AgentSidebarItem,
>)
    ensures
        agent_views(r@) == activity_rows(store.views@, activity.workspaces@, agents),
{
    let ghost lists = Seq::new(
        store.views@.len(),
        |i: int| view_rows(store.views@[i], activity.workspaces@, agents),
    );
    let mut out: Vec<AgentSidebarItem> = Vec::new();
    let mut i: usize = 0;
    assert(agent_views(out@) =~= flat(lists.take(0)));
    while i < store.views.len()
        invariant
            i <= store.views.len(),
            lists == Seq::new(
                store.views@.len(),
                |i: int| view_rows(store.views@[i], activity.workspaces@, agents),
            ),
            agent_views(out@) == flat(lists.take(i as int)),
        decreases store.views.len() - i,
    {
        push_view_rows(&mut out, &store.views[i], activity, agents);
        assert(lists.take(i + 1).drop_last() =~= lists.take(i as int));
        i += 1;
    }
    assert(lists.take(lists.len() as int) =~= lists);
    out
}

impl AgentSidebarItem {
    /// Returns a row for every agent.
    pub fn from_views(store: &ViewStore, activity: &ClientActivitySnapshot) -> (r: Vec<Self>)
        ensures
            agent_views(r@) == activity_rows(store.views@, activity.workspaces@, true),
    {
        rows_from_views(store, activity, true)
    }
}

impl CommandSidebarItem {
    /// Returns a row for every command that runs or was not read yet. A
    /// command is named by its process, never by the title of its pane.
    pub fn from_views(store: &ViewStore, activity: &ClientActivitySnapshot) -> (r: Vec<Self>)
        ensures
            command_views(r@) == activity_rows(store.views@, activity.workspaces@, false),
    {
        let rows = rows_from_views(store, activity, false);
        let mut out: Vec<CommandSidebarItem> = Vec::new();
        let mut i: usize = 0;
        while i < rows.len()
            invariant
                i <= rows.len(),
                out.len() == i,
                forall|j: int| 0 <= j < i ==> (#[trigger] out@[j])@ == rows@[j]@,
            decreases rows.len() - i,
        {
            let row = &rows[i];
            out.push(
                CommandSidebarItem {
                    workspace_id: row.workspace_id.clone(),
                    replica_id: row.replica_id.clone(),
                    pane_id: row.pane_id,
                    title: row.title.clone(),
                    detail: row.detail.clone(),
                    indicator: row.indicator,
                },
            );
            i += 1;
        }
        assert(command_views(out@) =~= agent_views(rows@));
        out
    }
}

/// Two workspaces are alike but for what is inside their panes: the panes have
/// the same numbers in the same order, and any titles.
pub open spec fn alike_but_for_titles(a: WorkspaceView, b: WorkspaceView) -> bool {
    &&& a.key@ == b.key@
    &&& a.replica_id@ == b.replica_id@
    &&& a.workspace == b.workspace
    &&& a.panes@.len() == b.panes@.len()
    &&& forall|i: int|
        0 <= i < a.panes@.len() ==> same_numbers(#[trigger] a.panes@[i].1@, b.panes@[i].1@)
}

/// Two lists of panes have the same numbers.
pub open spec fn same_numbers(a: Seq<ClientPane>, b: Seq<ClientPane>) -> bool {
    &&& a.len() == b.len()
    &&& forall|i: int| 0 <= i < a.len() ==> (#[trigger] a[i]).id == b[i].id
}

proof fn lemma_flat_same_numbers(a: Seq<Seq<ClientPane>>, b: Seq<Seq<ClientPane>>)
    requires
        a.len() == b.len(),
        forall|i: int| 0 <= i < a.len() ==> same_numbers(#[trigger] a[i], b[i]),
    ensures
        same_numbers(flat(a), flat(b)),
    decreases a.len(),
{
    if a.len() > 0 {
        assert forall|i: int| 0 <= i < a.drop_last().len() implies same_numbers(
            #[trigger] a.drop_last()[i],
            b.drop_last()[i],
        ) by {
            assert(same_numbers(a[i], b[i]));
        }
        lemma_flat_same_numbers(a.drop_last(), b.drop_last());
        assert(same_numbers(a[a.len() - 1], b[a.len() - 1]));
        let (x, y) = (flat(a), flat(b));
        let n = flat(a.drop_last()).len();
        assert forall|i: int| 0 <= i < x.len() implies (#[trigger] x[i]).id == y[i].id by {
            if i < n {
                assert(x[i] == flat(a.drop_last())[i] && y[i] == flat(b.drop_last())[i]);
            } else {
                assert(x[i] == a.last()[i - n] && y[i] == b.last()[i - n]);
            }
        }
    }
}

/// The rows of agents and commands never depend on the titles of panes: two
/// stores that are alike but for the titles give the same rows.
pub proof fn law_rows_do_not_depend_on_pane_titles(
    a: Seq<WorkspaceView>,
    b: Seq<WorkspaceView>,
    activity: Seq<ClientWorkspaceAttention>,
    agents: bool,
)
    requires
        a.len() == b.len(),
        forall|i: int| 0 <= i < a.len() ==> alike_but_for_titles(#[trigger] a[i], b[i]),
    ensures
        activity_rows(a, activity, agents) == activity_rows(b, activity, agents),
{
    assert forall|i: int| 0 <= i < a.len() implies view_rows(#[trigger] a[i], activity, agents)
        == view_rows(b[i], activity, agents) by {
        let (u, v) = (a[i], b[i]);
        assert(alike_but_for_titles(u, v));
        let x = Seq::new(u.panes@.len(), |i: int| u.panes@[i].1@);
        let y = Seq::new(v.panes@.len(), |i: int| v.panes@[i].1@);
        assert forall|j: int| 0 <= j < x.len() implies same_numbers(#[trigger] x[j], y[j]) by {
            assert(same_numbers(u.panes@[j].1@, v.panes@[j].1@));
        }
        lemma_flat_same_numbers(x, y);
        let (p, q) = (all_panes(u.panes@), all_panes(v.panes@));
        assert(same_numbers(p, q));
        if let (Some(w), Some(id)) = (u.workspace, parsed_id(u.key@)) {
            let f = Seq::new(p.len(), |i: int| pane_row(u, w, id, p[i].id, activity, agents));
            let g = Seq::new(q.len(), |i: int| pane_row(v, w, id, q[i].id, activity, agents));
            assert forall|j: int| 0 <= j < f.len() implies #[trigger] f[j] == g[j] by {
                assert(p[j].id == q[j].id);
            }
            assert(f =~= g);
        }
    }
    assert(Seq::new(a.len(), |i: int| view_rows(a[i], activity, agents)) =~= Seq::new(
        b.len(),
        |i: int| view_rows(b[i], activity, agents),
    ));
}

/// A row is that of a pane of a workspace with its activity.
pub open spec fn is_row_of(
    row: ActivityRowView,
    view: WorkspaceView,
    pane: ClientPane,
    p: ClientAttentionPane,
) -> bool {
    &&& row.replica_id == view.replica_id@
    &&& row.pane_id == pane.id
    &&& row.indicator == indicator_of(p)
}

/// Every command row is that of a pane with activity: one that is working, or
/// is blocked or done and not acknowledged, that is no agent, and whose
/// process has a name that is not blank and is the title. No row is quiet.
pub proof fn law_command_rows_are_live(
    views: Seq<WorkspaceView>,
    activity: Seq<ClientWorkspaceAttention>,
    row: ActivityRowView,
) -> (r: (int, int))
    requires
        activity_rows(views, activity, false).contains(row),
    ensures
        0 <= r.0 < views.len(),
        views[r.0].workspace is Some,
        parsed_id(views[r.0].key@) == Some(row.workspace_id),
        0 <= r.1 < all_panes(views[r.0].panes@).len(),
        activity_of(activity, row.replica_id, row.pane_id) matches Some(p) && {
            &&& is_row_of(row, views[r.0], all_panes(views[r.0].panes@)[r.1], p)
            &&& is_live_command(p)
            &&& p.process_name matches Some(name) && row.title == name@
        },
        row.indicator != ActivityIndicator::Quiet,
{
    let lists = Seq::new(views.len(), |i: int| view_rows(views[i], activity, false));
    let k = lemma_flat_member(lists, row);
    let view = views[k];
    let w = view.workspace->0;
    let id = parsed_id(view.key@)->0;
    let panes = all_panes(view.panes@);
    let rows = Seq::new(panes.len(), |i: int| pane_row(view, w, id, panes[i].id, activity, false));
    assert(lists[k] == flat(rows));
    let m = lemma_flat_member(rows, row);
    assert(rows[m].contains(row));
    (k, m)
}

/// A pane is working, or blocked or done and not acknowledged; it is no agent
/// and its process has a name that is not blank.
pub open spec fn is_live_command(p: ClientAttentionPane) -> bool {
    &&& match status_of(p.status@) {
        ClientAttentionStatus::Working => true,
        ClientAttentionStatus::Blocked | ClientAttentionStatus::Done => !p.acknowledged,
        _ => false,
    }
    &&& !p.process_is_agent
    &&& p.process_name matches Some(name) && !all_white(name@)
}

/// Every such pane of a workspace that is known and whose identity can be read
/// has a command row.
pub proof fn law_live_commands_have_rows(
    views: Seq<WorkspaceView>,
    activity: Seq<ClientWorkspaceAttention>,
    k: int,
    m: int,
)
    requires
        0 <= k < views.len(),
        views[k].workspace is Some,
        parsed_id(views[k].key@) is Some,
        0 <= m < all_panes(views[k].panes@).len(),
        activity_of(
            activity,
            views[k].replica_id@,
            all_panes(views[k].panes@)[m].id,
        ) matches Some(p) && is_live_command(p),
    ensures
        exists|row: ActivityRowView| #[trigger]
            activity_rows(views, activity, false).contains(row) && Some(row.workspace_id)
                == parsed_id(views[k].key@) && row.replica_id == views[k].replica_id@
                && row.pane_id == all_panes(views[k].panes@)[m].id,
{
    let lists = Seq::new(views.len(), |i: int| view_rows(views[i], activity, false));
    let view = views[k];
    let w = view.workspace->0;
    let id = parsed_id(view.key@)->0;
    let panes = all_panes(view.panes@);
    let rows = Seq::new(panes.len(), |i: int| pane_row(view, w, id, panes[i].id, activity, false));
    let p = activity_of(activity, view.replica_id@, panes[m].id)->0;
    let row = rows[m][0];
    assert(row_title(p, false) is Some);
    assert(rows[m].len() == 1);
    assert(rows[m].contains(row));
    lemma_flat_holds(rows, m, row);
    assert(lists[k] == flat(rows));
    lemma_flat_holds(lists, k, row);
    assert(activity_rows(views, activity, false).contains(row));
}

/// A pane whose process is an agent has no command row, and a pane that names
/// no agent and whose process is none has no agent row.
pub proof fn law_agent_or_command(p: ClientAttentionPane)
    ensures
        p.process_is_agent ==> command_title(p) is None,
        p.agent_name is None && !p.process_is_agent ==> agent_title(p) is None,
{
}

} // verus!
