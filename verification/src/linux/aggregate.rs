//! Tabs of many workspaces shown as one list.
//!
//! Only the identity of the source tab is kept; its scene is shown as it is.
use vstd::prelude::*;

use crate::client::attention::{ClientActivitySnapshot, ClientWorkspaceAttention};
use crate::client::snapshot::{panes_of, tab_panes};
use crate::client::types::{ClientPane, ClientTab, ClientWorkspace};
use crate::linux::workspace_sidebar_model::{
    activity_rows, agent_views, ActivityRowView, AgentSidebarItem, ViewStore, WorkspaceView,
};
use crate::seqs::{find, first_where, flat, is_first, lemma_first_where, lemma_no_first};
use crate::text::find::{has_prefix, starts_with};
use crate::text::{chars_of, concat2, concat3, same};
use crate::workspace_id::{id_text, parse_workspace_id, parsed_id, WorkspaceId};

verus! {

/// Which tabs are listed.
#[derive(Debug, Clone, Copy, PartialEq, Eq, Structural, Hash)]
pub enum AggregateKind {
    Shells,
    Agents,
}

impl AggregateKind {
    /// Returns the title of the list, given the word for it.
    pub fn label(self, word: &str) -> (r: String)
        ensures
            r@ == match self {
                AggregateKind::Shells => "S · "@ + word@,
                AggregateKind::Agents => "A · "@ + word@,
            },
    {
        match self {
            AggregateKind::Shells => concat2("S · ", word),
            AggregateKind::Agents => concat2("A · ", word),
        }
    }
}

/// The identity of a tab.
#[derive(Debug, PartialEq, Eq, Hash)]
pub struct SourceTab {
    pub workspace: String,
    pub tab: u32,
}

impl Clone for SourceTab {
    fn clone(&self) -> (r: Self)
        ensures
            r == *self,
    {
        SourceTab { workspace: self.workspace.clone(), tab: self.tab }
    }
}

/// The view of a [`SourceTab`].
pub struct SourceTabView {
    pub workspace: Seq<char>,
    pub tab: u32,
}

impl View for SourceTab {
    type V = SourceTabView;

    open spec fn view(&self) -> SourceTabView {
        SourceTabView { workspace: self.workspace@, tab: self.tab }
    }
}

/// One row of the list.
#[derive(Debug, PartialEq, Eq)]
pub struct AggregateTab {
    pub source: SourceTab,
    pub title: String,
}

impl Clone for AggregateTab {
    fn clone(&self) -> (r: Self)
        ensures
            r == *self,
    {
        AggregateTab { source: self.source.clone(), title: self.title.clone() }
    }
}

/// The view of an [`AggregateTab`].
pub struct AggregateTabView {
    pub source: SourceTabView,
    pub title: Seq<char>,
}

impl View for AggregateTab {
    type V = AggregateTabView;

    open spec fn view(&self) -> AggregateTabView {
        AggregateTabView { source: self.source@, title: self.title@ }
    }
}

/// The views of rows.
pub open spec fn tab_views(s: Seq<AggregateTab>) -> Seq<AggregateTabView> {
    Seq::new(s.len(), |i: int| s[i]@)
}

fn same_source(a: &SourceTab, b: &SourceTab) -> (r: bool)
    ensures
        r == (a@ == b@),
{
    a.tab == b.tab && same(a.workspace.as_str(), b.workspace.as_str())
}

// ---------------------------------------------------------------------------
// The selected tab.
// ---------------------------------------------------------------------------

/// Which list is shown, the tab last chosen in each, and the agents that were
/// closed.
#[derive(Debug)]
pub struct AggregateSelection {
    pub kind: Option<AggregateKind>,
    pub shell_last: Option<SourceTab>,
    pub agent_last: Option<SourceTab>,
    pub hidden_agents: Vec<SourceTab>,
}

impl AggregateSelection {
    /// No agent is held twice among those that were closed.
    pub open spec fn wf(self) -> bool {
        forall|i: int, j: int|
            0 <= i < j < self.hidden_agents@.len() ==> (#[trigger] self.hidden_agents@[i])@ != (
            #[trigger] self.hidden_agents@[j])@
    }
}

impl Default for AggregateSelection {
    fn default() -> (r: Self)
        ensures
            r.kind is None,
            r.shell_last is None,
            r.agent_last is None,
            r.hidden_agents@ == Seq::<SourceTab>::empty(),
            r.wf(),
    {
        AggregateSelection {
            kind: None,
            shell_last: None,
            agent_last: None,
            hidden_agents: Vec::new(),
        }
    }
}

pub open spec fn source_is(source: SourceTabView) -> spec_fn(AggregateTab) -> bool {
    |t: AggregateTab| t.source@ == source
}

/// The tab last chosen in the list that is shown.
pub open spec fn last_chosen(s: AggregateSelection) -> Option<SourceTab> {
    match s.kind {
        Some(AggregateKind::Shells) => s.shell_last,
        _ => s.agent_last,
    }
}

/// The row to select: the one last chosen where it is still there, else the
/// first.
pub open spec fn chosen_row(s: AggregateSelection, tabs: Seq<AggregateTab>) -> Option<AggregateTab> {
    let first = if tabs.len() > 0 {
        Some(tabs[0])
    } else {
        None
    };
    match last_chosen(s) {
        Some(source) => match find(tabs, source_is(source@)) {
            Some(t) => Some(t),
            None => first,
        },
        None => first,
    }
}

impl AggregateSelection {
    /// Remembers the tab chosen in the list that is shown.
    pub fn remember(&mut self, source: SourceTab)
        ensures
            *final(self) == (match old(self).kind {
                Some(AggregateKind::Shells) => AggregateSelection {
                    shell_last: Some(source),
                    ..*old(self)
                },
                Some(AggregateKind::Agents) => AggregateSelection {
                    agent_last: Some(source),
                    ..*old(self)
                },
                None => *old(self),
            }),
            old(self).wf() ==> final(self).wf(),
    {
        match self.kind {
            Some(AggregateKind::Shells) => {
                self.shell_last = Some(source);
            },
            Some(AggregateKind::Agents) => {
                self.agent_last = Some(source);
            },
            None => {},
        }
    }

    /// Returns the row to select.
    pub fn selected<'a>(&self, tabs: &'a Vec<AggregateTab>) -> (r: Option<&'a AggregateTab>)
        ensures
            match r {
                Some(t) => chosen_row(*self, tabs@) == Some(*t),
                None => chosen_row(*self, tabs@) is None,
            },
    {
        let last: &Option<SourceTab> = match self.kind {
            Some(AggregateKind::Shells) => &self.shell_last,
            _ => &self.agent_last,
        };
        if let Some(source) = last {
            let mut i: usize = 0;
            while i < tabs.len()
                invariant
                    i <= tabs.len(),
                    last_chosen(*self) == Some(*source),
                    forall|j: int| 0 <= j < i ==> (#[trigger] tabs@[j]).source@ != source@,
                decreases tabs.len() - i,
            {
                if same_source(&tabs[i].source, source) {
                    proof {
                        lemma_first_where(tabs@, source_is(source@), i as int);
                    }
                    return Some(&tabs[i]);
                }
                i += 1;
            }
            proof {
                lemma_no_first(tabs@, source_is(source@));
            }
        }
        if tabs.len() > 0 {
            Some(&tabs[0])
        } else {
            None
        }
    }
}

// ---------------------------------------------------------------------------
// The list.
// ---------------------------------------------------------------------------

/// The workspace is on this machine.
pub open spec fn is_local(view: WorkspaceView) -> bool {
    view.workspace matches Some(w) && starts_with(w.id@, "local/"@)
}

/// The tab was closed in the list.
pub open spec fn is_hidden(hidden: Seq<SourceTab>, source: SourceTabView) -> bool {
    exists|i: int| 0 <= i < hidden.len() && (#[trigger] hidden[i])@ == source
}

/// A pane with the number is listed.
pub open spec fn lists_pane(panes: Seq<ClientPane>, id: u32) -> bool {
    exists|i: int| 0 <= i < panes.len() && (#[trigger] panes[i]).id == id
}

/// An agent runs in a tab of a workspace.
pub open spec fn has_agent(view: WorkspaceView, tab: u32, agents: Seq<ActivityRowView>) -> bool {
    exists|i: int|
        0 <= i < agents.len() && id_text((#[trigger] agents[i]).workspace_id) == view.key@
            && lists_pane(panes_of(view.panes@, tab), agents[i].pane_id)
}

/// The tab belongs into the list.
pub open spec fn is_included(
    kind: AggregateKind,
    view: WorkspaceView,
    w: ClientWorkspace,
    tab: u32,
    agents: Seq<ActivityRowView>,
    hidden: Seq<SourceTab>,
) -> bool {
    match kind {
        AggregateKind::Shells => w.runtime@ == "shell"@,
        AggregateKind::Agents => !is_hidden(hidden, SourceTabView { workspace: view.key@, tab })
            && has_agent(view, tab, agents),
    }
}

/// The row of a tab, where it belongs into the list.
pub open spec fn tab_row(
    kind: AggregateKind,
    view: WorkspaceView,
    w: ClientWorkspace,
    tab: ClientTab,
    agents: Seq<ActivityRowView>,
    hidden: Seq<SourceTab>,
) -> Seq<AggregateTabView> {
    if is_included(kind, view, w, tab.id, agents, hidden) {
        seq![
            AggregateTabView {
                source: SourceTabView { workspace: view.key@, tab: tab.id },
                title: w.name@ + " · "@ + tab.name@,
            },
        ]
    } else {
        Seq::<AggregateTabView>::empty()
    }
}

/// The rows of a workspace.
pub open spec fn view_tabs(
    kind: AggregateKind,
    view: WorkspaceView,
    agents: Seq<ActivityRowView>,
    hidden: Seq<SourceTab>,
) -> Seq<AggregateTabView> {
    match view.workspace {
        Some(w) => flat(
            Seq::new(
                view.tabs@.len(),
                |i: int| tab_row(kind, view, w, view.tabs@[i], agents, hidden),
            ),
        ),
        None => Seq::<AggregateTabView>::empty(),
    }
}

/// The rows of the workspaces for which `local` says whether they are on this
/// machine; all of them where it says nothing.
pub open spec fn rows_where(
    kind: AggregateKind,
    local: Option<bool>,
    views: Seq<WorkspaceView>,
    agents: Seq<ActivityRowView>,
    hidden: Seq<SourceTab>,
) -> Seq<AggregateTabView> {
    flat(
        Seq::new(
            views.len(),
            |i: int|
                if local is None || local == Some(is_local(views[i])) {
                    view_tabs(kind, views[i], agents, hidden)
                } else {
                    Seq::<AggregateTabView>::empty()
                },
        ),
    )
}

/// The list: shells with those on this machine first, agents in the order of
/// their workspaces.
pub open spec fn projected(
    kind: AggregateKind,
    views: Seq<WorkspaceView>,
    activity: Seq<ClientWorkspaceAttention>,
    hidden: Seq<SourceTab>,
) -> Seq<AggregateTabView> {
    let agents = activity_rows(views, activity, true);
    match kind {
        AggregateKind::Shells => rows_where(kind, Some(true), views, agents, hidden) + rows_where(
            kind,
            Some(false),
            views,
            agents,
            hidden,
        ),
        AggregateKind::Agents => rows_where(kind, None, views, agents, hidden),
    }
}

fn view_is_local(view: &WorkspaceView) -> (r: bool)
    ensures
        r == is_local(*view),
{
    match &view.workspace {
        Some(w) => {
            let id = chars_of(w.id.as_str());
            let prefix = chars_of("local/");
            has_prefix(&id, &prefix)
        },
        None => false,
    }
}

fn hidden_contains(hidden: &Vec<SourceTab>, source: &SourceTab) -> (r: bool)
    ensures
        r == is_hidden(hidden@, source@),
{
    let mut i: usize = 0;
    while i < hidden.len()
        invariant
            i <= hidden.len(),
            forall|j: int| 0 <= j < i ==> (#[trigger] hidden@[j])@ != source@,
        decreases hidden.len() - i,
    {
        if same_source(&hidden[i], source) {
            return true;
        }
        i += 1;
    }
    false
}

fn has_pane(panes: &Vec<ClientPane>, id: u32) -> (r: bool)
    ensures
        r == lists_pane(panes@, id),
{
    let mut i: usize = 0;
    while i < panes.len()
        invariant
            i <= panes.len(),
            forall|j: int| 0 <= j < i ==> (#[trigger] panes@[j]).id != id,
        decreases panes.len() - i,
    {
        if panes[i].id == id {
            return true;
        }
        i += 1;
    }
    false
}

fn runs_agent(view: &WorkspaceView, tab: u32, agents: &Vec<AgentSidebarItem>) -> (r: bool)
    ensures
        r == has_agent(*view, tab, agent_views(agents@)),
{
    let panes = tab_panes(&view.panes, tab);
    let ghost rows = agent_views(agents@);
    let mut i: usize = 0;
    while i < agents.len()
        invariant
            i <= agents.len(),
            rows == agent_views(agents@),
            panes@ == panes_of(view.panes@, tab),
            forall|j: int|
                0 <= j < i ==> !(id_text((#[trigger] rows[j]).workspace_id) == view.key@
                    && lists_pane(panes@, rows[j].pane_id)),
        decreases agents.len() - i,
    {
        let name = agents[i].workspace_id.as_str();
        if same(name.as_str(), view.key.as_str()) && has_pane(&panes, agents[i].pane_id) {
            assert(rows[i as int] == agents@[i as int]@);
            return true;
        }
        assert(rows[i as int] == agents@[i as int]@);
        i += 1;
    }
    false
}

fn push_view_tabs(
    out: &mut Vec<AggregateTab>,
    kind: AggregateKind,
    view: &WorkspaceView,
    agents: &Vec<AgentSidebarItem>,
    hidden: &Vec<SourceTab>,
)
    ensures
        tab_views(final(out)@) == tab_views(old(out)@) + view_tabs(
            kind,
            *view,
            agent_views(agents@),
            hidden@,
        ),
{
    let w = match &view.workspace {
        Some(w) => w,
        None => {
            assert(tab_views(out@) =~= tab_views(out@) + Seq::<AggregateTabView>::empty());
            return;
        },
    };
    let ghost rows = agent_views(agents@);
    let ghost before = tab_views(out@);
    let ghost lists = Seq::new(
        view.tabs@.len(),
        |i: int| tab_row(kind, *view, *w, view.tabs@[i], rows, hidden@),
    );
    let mut i: usize = 0;
    assert(tab_views(out@) =~= before + flat(lists.take(0)));
    while i < view.tabs.len()
        invariant
            i <= view.tabs.len(),
            rows == agent_views(agents@),
            lists == Seq::new(
                view.tabs@.len(),
                |i: int| tab_row(kind, *view, *w, view.tabs@[i], rows, hidden@),
            ),
            tab_views(out@) == before + flat(lists.take(i as int)),
        decreases view.tabs.len() - i,
    {
        let ghost shown = tab_views(out@);
        assert(lists.take(i + 1).drop_last() =~= lists.take(i as int));
        assert(lists.take(i + 1).last() == lists[i as int]);
        let tab = &view.tabs[i];
        let source = SourceTab { workspace: view.key.clone(), tab: tab.id };
        assert(source@ == (SourceTabView { workspace: view.key@, tab: tab.id }));
        let included = match kind {
            AggregateKind::Shells => same(w.runtime.as_str(), "shell"),
            AggregateKind::Agents => !hidden_contains(hidden, &source) && runs_agent(
                view,
                tab.id,
                agents,
            ),
        };
        if included {
            let row = AggregateTab {
                source,
                title: concat3(w.name.as_str(), " · ", tab.name.as_str()),
            };
            out.push(row);
            assert(tab_views(out@) =~= shown.push(row@));
            assert(lists[i as int] =~= seq![row@]);
        }
        assert(tab_views(out@) =~= shown + lists[i as int]);
        assert(tab_views(out@) =~= before + flat(lists.take(i + 1)));
        i += 1;
    }
    assert(lists.take(lists.len() as int) =~= lists);
}

fn push_rows_where(
    out: &mut Vec<AggregateTab>,
    kind: AggregateKind,
    local: Option<bool>,
    store: &ViewStore,
    agents: &Vec<AgentSidebarItem>,
    hidden: &Vec<SourceTab>,
)
    ensures
        tab_views(final(out)@) == tab_views(old(out)@) + rows_where(
            kind,
            local,
            store.views@,
            agent_views(agents@),
            hidden@,
        ),
{
    let ghost rows = agent_views(agents@);
    let ghost before = tab_views(out@);
    let ghost lists = Seq::new(
        store.views@.len(),
        |i: int|
            if local is None || local == Some(is_local(store.views@[i])) {
                view_tabs(kind, store.views@[i], rows, hidden@)
            } else {
                Seq::<AggregateTabView>::empty()
            },
    );
    let mut i: usize = 0;
    assert(tab_views(out@) =~= before + flat(lists.take(0)));
    while i < store.views.len()
        invariant
            i <= store.views.len(),
            rows == agent_views(agents@),
            lists == Seq::new(
                store.views@.len(),
                |i: int|
                    if local is None || local == Some(is_local(store.views@[i])) {
                        view_tabs(kind, store.views@[i], rows, hidden@)
                    } else {
                        Seq::<AggregateTabView>::empty()
                    },
            ),
            tab_views(out@) == before + flat(lists.take(i as int)),
        decreases store.views.len() - i,
    {
        let ghost shown = tab_views(out@);
        assert(lists.take(i + 1).drop_last() =~= lists.take(i as int));
        assert(lists.take(i + 1).last() == lists[i as int]);
        let take = match local {
            Some(b) => b == view_is_local(&store.views[i]),
            None => true,
        };
        if take {
            push_view_tabs(out, kind, &store.views[i], agents, hidden);
        }
        assert(tab_views(out@) =~= shown + lists[i as int]);
        assert(tab_views(out@) =~= before + flat(lists.take(i + 1)));
        i += 1;
    }
    assert(lists.take(lists.len() as int) =~= lists);
}

/// Returns the list.
pub fn project(
    kind: AggregateKind,
    store: &ViewStore,
    activity: &ClientActivitySnapshot,
    hidden: &Vec<SourceTab>,
) -> (r: Vec<AggregateTab>)
    ensures
        tab_views(r@) == projected(kind, store.views@, activity.workspaces@, hidden@),
{
    let agents = AgentSidebarItem::from_views(store, activity);
    let mut out: Vec<AggregateTab> = Vec::new();
    assert(tab_views(out@) =~= Seq::<AggregateTabView>::empty());
    match kind {
        AggregateKind::Shells => {
            push_rows_where(&mut out, kind, Some(true), store, &agents, hidden);
            push_rows_where(&mut out, kind, Some(false), store, &agents, hidden);
        },
        AggregateKind::Agents => {
            push_rows_where(&mut out, kind, None, store, &agents, hidden);
        },
    }
    assert(tab_views(out@) =~= projected(kind, store.views@, activity.workspaces@, hidden@));
    out
}

// ---------------------------------------------------------------------------
// Acting on the list.
// ---------------------------------------------------------------------------

/// What closing a row does.
#[derive(Debug, Clone, PartialEq, Eq)]
pub enum AggregateClose {
    /// There is no such row.
    Nothing,
    /// The row is hidden; the tab of the agent stays open.
    Hide,
    /// The tab itself is closed.
    CloseTab(SourceTab),
}

/// The row with a number; rows are numbered from one, and zero is the first.
pub open spec fn numbered(tabs: Seq<AggregateTab>, display_id: u32) -> Option<AggregateTab> {
    let i = if display_id > 0 {
        display_id - 1
    } else {
        0
    };
    if i < tabs.len() {
        Some(tabs[i])
    } else {
        None
    }
}

/// Returns the row with a number.
pub fn row_numbered(tabs: &Vec<AggregateTab>, display_id: u32) -> (r: Option<AggregateTab>)
    ensures
        r == numbered(tabs@, display_id),
{
    let i: usize = display_id.saturating_sub(1) as usize;
    if i < tabs.len() {
        Some(tabs[i].clone())
    } else {
        None
    }
}

impl AggregateSelection {
    /// Opens a list; opening the agents shows again those that were closed.
    pub fn open(&mut self, kind: AggregateKind)
        ensures
            final(self).kind == Some(kind),
            final(self).shell_last == old(self).shell_last,
            final(self).agent_last == old(self).agent_last,
            final(self).hidden_agents@ == if kind == AggregateKind::Agents {
                Seq::<SourceTab>::empty()
            } else {
                old(self).hidden_agents@
            },
            old(self).wf() ==> final(self).wf(),
    {
        if kind == AggregateKind::Agents {
            self.hidden_agents.clear();
        }
        self.kind = Some(kind);
    }

    /// Closes a row.
    pub fn close(&mut self, tabs: &Vec<AggregateTab>, display_id: u32) -> (r: AggregateClose)
        ensures
            closed_row(*old(self), *final(self), numbered(tabs@, display_id), r),
            old(self).wf() ==> final(self).wf(),
    {
        let row = row_numbered(tabs, display_id);
        self.close_row(row)
    }

    /// Closes the row of the tab that is shown; nothing where it has none.
    pub fn close_shown(&mut self, tabs: &Vec<AggregateTab>, workspace: &str, tab: u32) -> (r:
        AggregateClose)
        ensures
            closed_row(
                *old(self),
                *final(self),
                find(tabs@, source_is(SourceTabView { workspace: workspace@, tab })),
                r,
            ),
            old(self).wf() ==> final(self).wf(),
    {
        match row_of(tabs, workspace, tab) {
            Some(i) => {
                let row = tabs[i].clone();
                self.close_row(Some(row))
            },
            None => self.close_row(None),
        }
    }

    fn close_row(&mut self, row: Option<AggregateTab>) -> (r: AggregateClose)
        ensures
            closed_row(*old(self), *final(self), row, r),
            old(self).wf() ==> final(self).wf(),
    {
        match row {
            None => AggregateClose::Nothing,
            Some(t) => {
                let agents = match self.kind {
                    Some(AggregateKind::Agents) => true,
                    _ => false,
                };
                if agents {
                    if !hidden_contains(&self.hidden_agents, &t.source) {
                        self.hidden_agents.push(t.source);
                    }
                    AggregateClose::Hide
                } else {
                    AggregateClose::CloseTab(t.source)
                }
            },
        }
    }
}

impl AggregateSelection {
    /// Chooses a row, and returns the workspace to bring to the front, in
    /// which the tab of the row is then shown. The list stays open; nothing
    /// happens where the identity of the workspace cannot be read.
    pub fn select_source(&mut self, tab: &AggregateTab) -> (r: Option<(WorkspaceId, u32)>)
        ensures
            match parsed_id(tab.source.workspace@) {
                Some(id) => {
                    &&& r matches Some((w, t)) && w@ == id && t == tab.source.tab
                    &&& final(self).kind == old(self).kind
                    &&& final(self).hidden_agents@ == old(self).hidden_agents@
                    &&& old(self).kind is Some ==> last_chosen(*final(self)) == Some(tab.source)
                    &&& old(self).kind != Some(AggregateKind::Shells) ==> final(self).shell_last
                        == old(self).shell_last
                    &&& old(self).kind != Some(AggregateKind::Agents) ==> final(self).agent_last
                        == old(self).agent_last
                },
                None => r is None && *final(self) == *old(self),
            },
            old(self).wf() ==> final(self).wf(),
    {
        match parse_workspace_id(tab.source.workspace.as_str()) {
            Some(id) => {
                self.remember(tab.source.clone());
                Some((id, tab.source.tab))
            },
            None => None,
        }
    }
}

/// What closing a row leaves: an agent's is hidden, once; the tab of another
/// is closed.
pub open spec fn closed_row(
    before: AggregateSelection,
    after: AggregateSelection,
    row: Option<AggregateTab>,
    r: AggregateClose,
) -> bool {
    &&& after.kind == before.kind
    &&& after.shell_last == before.shell_last
    &&& after.agent_last == before.agent_last
    &&& match row {
        None => r is Nothing && after.hidden_agents@ == before.hidden_agents@,
        Some(t) => if before.kind == Some(AggregateKind::Agents) {
            r is Hide && after.hidden_agents@ == if is_hidden(before.hidden_agents@, t.source@) {
                before.hidden_agents@
            } else {
                before.hidden_agents@.push(t.source)
            }
        } else {
            r == AggregateClose::CloseTab(t.source) && after.hidden_agents@
                == before.hidden_agents@
        },
    }
}

/// Returns the row of a tab, counted from zero: the first with its identity.
pub fn row_of(tabs: &Vec<AggregateTab>, workspace: &str, tab: u32) -> (r: Option<usize>)
    ensures
        match r {
            Some(i) => i < tabs.len() && is_first(
                tabs@,
                source_is(SourceTabView { workspace: workspace@, tab }),
                i as int,
            ) && find(tabs@, source_is(SourceTabView { workspace: workspace@, tab })) == Some(
                tabs@[i as int],
            ),
            None => find(tabs@, source_is(SourceTabView { workspace: workspace@, tab })) is None,
        },
{
    let ghost p = source_is(SourceTabView { workspace: workspace@, tab });
    let mut i: usize = 0;
    while i < tabs.len()
        invariant
            i <= tabs.len(),
            p == source_is(SourceTabView { workspace: workspace@, tab }),
            forall|j: int| 0 <= j < i ==> !p(#[trigger] tabs@[j]),
        decreases tabs.len() - i,
    {
        if tabs[i].source.tab == tab && same(tabs[i].source.workspace.as_str(), workspace) {
            proof {
                lemma_first_where(tabs@, p, i as int);
            }
            return Some(i);
        }
        i += 1;
    }
    proof {
        lemma_no_first(tabs@, p);
    }
    None
}

/// The row of a tab has its position, counted from one, for its number.
pub proof fn law_rows_are_numbered_from_one(
    tabs: Seq<AggregateTab>,
    source: SourceTabView,
    display_id: u32,
)
    requires
        display_id > 0,
        first_where(tabs, source_is(source)) == Some(display_id - 1),
    ensures
        numbered(tabs, display_id) == find(tabs, source_is(source)),
{
    let p = source_is(source);
    let k = choose|k: int| is_first(tabs, p, k);
    lemma_first_where(tabs, p, k);
}

/// What the window does after the list changed.
#[derive(Debug)]
pub enum AggregateStep {
    Nothing,
    Select(AggregateTab),
    ShowEmpty,
}

/// The selection follows a switch of tabs within the workspace of the shell
/// that was last chosen.
pub open spec fn follows(
    s: AggregateSelection,
    tabs: Seq<AggregateTab>,
    shown: SourceTabView,
) -> bool {
    &&& s.kind == Some(AggregateKind::Shells)
    &&& find(tabs, source_is(shown)) is Some
    &&& s.shell_last matches Some(last) && last@.workspace == shown.workspace
}

/// What is to be done where `row` is to be selected and `shown` is shown.
pub open spec fn step_of(
    row: Option<AggregateTab>,
    shown: SourceTabView,
    showing_empty: bool,
) -> AggregateStep {
    match row {
        Some(t) => if t.source@ != shown || showing_empty {
            AggregateStep::Select(t)
        } else {
            AggregateStep::Nothing
        },
        None => if showing_empty {
            AggregateStep::Nothing
        } else {
            AggregateStep::ShowEmpty
        },
    }
}

impl AggregateSelection {
    /// Brings the selection and the shown tab together after the list
    /// changed.
    pub fn reconcile(
        &mut self,
        tabs: &Vec<AggregateTab>,
        workspace: &str,
        tab: u32,
        showing_empty: bool,
    ) -> (r: AggregateStep)
        ensures
            ({
                let shown = SourceTabView { workspace: workspace@, tab };
                if old(self).kind is None {
                    *final(self) == *old(self) && r is Nothing
                } else {
                    &&& if follows(*old(self), tabs@, shown) {
                        *final(self) == (AggregateSelection {
                            shell_last: Some(find(tabs@, source_is(shown))->0.source),
                            ..*old(self)
                        })
                    } else {
                        *final(self) == *old(self)
                    }
                    &&& r == step_of(chosen_row(*final(self), tabs@), shown, showing_empty)
                }
            }),
            old(self).wf() ==> final(self).wf(),
    {
        let kind = match self.kind {
            Some(kind) => kind,
            None => {
                return AggregateStep::Nothing;
            },
        };
        let ghost shown = SourceTabView { workspace: workspace@, tab };
        let current = row_of(tabs, workspace, tab);
        if kind == AggregateKind::Shells {
            if let Some(k) = current {
                let follow = match &self.shell_last {
                    Some(last) => same(last.workspace.as_str(), workspace),
                    None => false,
                };
                if follow {
                    self.remember(tabs[k].source.clone());
                }
            }
        }
        match self.selected(tabs) {
            Some(row) => {
                let here = row.source.tab == tab && same(row.source.workspace.as_str(), workspace);
                if !here || showing_empty {
                    AggregateStep::Select(row.clone())
                } else {
                    AggregateStep::Nothing
                }
            },
            None => {
                if showing_empty {
                    AggregateStep::Nothing
                } else {
                    AggregateStep::ShowEmpty
                }
            },
        }
    }
}

/// A tab that was remembered is selected as long as it is listed, whatever
/// else is listed.
pub proof fn law_remembered_tab_is_selected(
    s: AggregateSelection,
    source: SourceTab,
    tabs: Seq<AggregateTab>,
    i: int,
)
    requires
        last_chosen(s) == Some(source),
        0 <= i < tabs.len(),
        tabs[i].source@ == source@,
    ensures
        chosen_row(s, tabs) matches Some(t) && t.source@ == source@,
{
    crate::seqs::lemma_find(tabs, source_is(source@));
    assert(source_is(source@)(tabs[i]));
}

/// Something is selected exactly when something is listed.
pub proof fn law_selection_falls_back(s: AggregateSelection, tabs: Seq<AggregateTab>)
    ensures
        chosen_row(s, tabs) is Some <==> tabs.len() > 0,
{
    match last_chosen(s) {
        Some(source) => {
            crate::seqs::lemma_find(tabs, source_is(source@));
        },
        None => {},
    }
}

} // verus!
