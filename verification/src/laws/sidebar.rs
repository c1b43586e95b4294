//! The sidebar: the rows of workspaces, agents and commands, the two overviews
//! that gather tabs, and the identities behind them.
use vstd::prelude::*;

use crate::client::attention::{ClientAttentionPane, ClientWorkspaceAttention};
use crate::client::snapshot::{all_panes, panes_of};
use crate::client::types::{ClientTab, ClientWorkspace};
use crate::linux::aggregate::{
    chosen_row, closed_row, follows, last_chosen, numbered, projected, rows_where, step_of, tab_row,
    view_tabs, AggregateClose, AggregateKind, AggregateSelection, AggregateStep, AggregateTab,
    AggregateTabView, SourceTab, SourceTabView,
};
use crate::linux::window_render::{lemma_flat_contains, lemma_flat_origin};
use crate::linux::workspace_sidebar_model::{
    activity_of, activity_rows, agent_title, client_activity_detail, client_attention_indicator,
    command_title, known_workspaces, last_pane, ordered_workspaces, pane_row, sidebar_rows,
    view_rows, ActivityIndicator, ActivityRowView, WorkspaceView,
};
use crate::seqs::{flat, lemma_first_where, lemma_no_first};
use crate::text::all_white;
use crate::text::order::text_lt;
use crate::text::split::lemma_cut_at;
use crate::workspace_id::{
    id_text, parsed_id, transport_label_of, transport_name, WorkspaceIdView,
};

verus! {

// ---------------------------------------------------------------------------
// Identities.
// ---------------------------------------------------------------------------

/// The text of an identity is its transport, alias, session, runtime and path,
/// in this order, with slashes between; an empty alias is none.
pub proof fn law_the_parts_of_an_identity(
    transport: Seq<char>,
    alias: Seq<char>,
    session: Seq<char>,
    runtime: Seq<char>,
    path: Seq<char>,
)
    requires
        transport.len() > 0 && !transport.contains('/'),
        !alias.contains('/'),
        !session.contains('/'),
        runtime.len() > 0 && !runtime.contains('/'),
    ensures
        ({
            let s = transport + seq!['/'] + (alias + seq!['/'] + (session + seq!['/'] + (runtime
                + seq!['/'] + path)));
            &&& parsed_id(s) matches Some(id) && id.transport == transport && id.session == session
                && id.runtime == runtime && id.path == path && (alias.len() == 0 ==> id.alias
                is None) && (alias.len() > 0 ==> id.alias == Some(alias)) && id_text(id) == s
        }),
{
    let r3 = runtime + seq!['/'] + path;
    let r2 = session + seq!['/'] + r3;
    let r1 = alias + seq!['/'] + r2;
    lemma_cut_at(transport, '/', r1);
    lemma_cut_at(alias, '/', r2);
    lemma_cut_at(session, '/', r3);
    lemma_cut_at(runtime, '/', path);
    assert(alias.len() == 0 ==> alias =~= Seq::<char>::empty());
}

/// An SSH host is shown by its alias, and by `ssh` without one; everything
/// else is local.
pub proof fn law_the_name_of_a_transport(id: WorkspaceIdView, s: Seq<char>)
    ensures
        id.transport != "ssh"@ ==> transport_name(id) == "local"@,
        id.transport == "ssh"@ && id.alias is Some ==> transport_name(id) == id.alias->0,
        id.transport == "ssh"@ && id.alias is None ==> transport_name(id) == "ssh"@,
        parsed_id(s) is None ==> transport_label_of(s) == "local"@,
        parsed_id(s) is Some ==> transport_label_of(s) == transport_name(parsed_id(s)->0),
{
}

// ---------------------------------------------------------------------------
// Workspaces.
// ---------------------------------------------------------------------------

/// The workspaces that are known are those of the views, in the order of their
/// identities.
pub proof fn law_workspaces_are_in_order(
    views: Seq<WorkspaceView>,
    w: ClientWorkspace,
    i: int,
    j: int,
)
    ensures
        ordered_workspaces(views).contains(w) <==> exists|k: int|
            0 <= k < views.len() && (#[trigger] views[k]).workspace == Some(w),
        0 <= i < j < ordered_workspaces(views).len() ==> !text_lt(
            ordered_workspaces(views)[j].id@,
            ordered_workspaces(views)[i].id@,
        ),
{
    let leq = crate::linux::workspace_sidebar_model::by_id();
    lemma_known(views, w);
    crate::linux::workspace_sidebar_model::law_rows_are_ordered_by_id(views);
    let known = known_workspaces(views);
    let ordered = ordered_workspaces(views);
    known.to_multiset_ensures();
    ordered.to_multiset_ensures();
    assert(known.contains(w) <==> known.to_multiset().count(w) > 0);
    assert(ordered.contains(w) <==> ordered.to_multiset().count(w) > 0);
    if 0 <= i < j < ordered.len() {
        assert(leq(ordered[i], ordered[j]));
    }
}

proof fn lemma_known(views: Seq<WorkspaceView>, w: ClientWorkspace)
    ensures
        known_workspaces(views).contains(w) <==> exists|k: int|
            0 <= k < views.len() && (#[trigger] views[k]).workspace == Some(w),
    decreases views.len(),
{
    if views.len() > 0 {
        let init = views.drop_last();
        lemma_known(init, w);
        let rest = known_workspaces(init);
        let all = known_workspaces(views);
        assert(views.last() == views[views.len() - 1]);
        assert forall|k: int| 0 <= k < init.len() implies #[trigger] init[k] == views[k] by {}
        if rest.contains(w) {
            let n = choose|n: int| 0 <= n < rest.len() && rest[n] == w;
            assert(all[n] == w);
        }
        if all.contains(w) && !rest.contains(w) {
            let n = choose|n: int| 0 <= n < all.len() && all[n] == w;
            if n < rest.len() {
                assert(rest[n] == w);
            }
            assert(views[views.len() - 1].workspace == Some(w));
        }
        if views.last().workspace == Some(w) {
            assert(all[all.len() - 1] == w);
        }
        if exists|k: int| 0 <= k < views.len() && (#[trigger] views[k]).workspace == Some(w) {
            let k = choose|k: int| 0 <= k < views.len()
                && (#[trigger] views[k]).workspace == Some(w);
            if k < init.len() {
                assert(init[k] == views[k]);
            }
        }
    }
}

/// Each workspace with an identity has its row: its name, its runtime, its
/// transport, whether it is the active one, and the first five have the
/// numbers from one to five as shortcuts.
pub proof fn law_each_workspace_has_its_row(
    ordered: Seq<ClientWorkspace>,
    active: Option<Seq<char>>,
    i: int,
)
    requires
        0 <= i < ordered.len(),
        parsed_id(ordered[i].id@) is Some,
    ensures
        exists|n: int|
            0 <= n <= i && n < sidebar_rows(ordered, active).len() && ({
                let row = #[trigger] sidebar_rows(ordered, active)[n];
                let w = ordered[i];
                &&& row.id == parsed_id(w.id@)->0
                &&& row.name == w.name@
                &&& row.runtime == w.runtime@
                &&& row.transport == transport_name(parsed_id(w.id@)->0)
                &&& row.active <==> active == Some(w.id@)
                &&& i < 5 ==> row.shortcut == Some((i + 1) as u8)
                &&& i >= 5 ==> row.shortcut is None
            }),
    decreases ordered.len(),
{
    lemma_rows_are_few(ordered.drop_last(), active);
    let rest = sidebar_rows(ordered.drop_last(), active);
    let all = sidebar_rows(ordered, active);
    if i < ordered.len() - 1 {
        law_each_workspace_has_its_row(ordered.drop_last(), active, i);
        let w = ordered[i];
        assert(ordered.drop_last()[i] == w);
        let n = choose|n: int|
            0 <= n <= i && n < rest.len() && ({
                let row = #[trigger] rest[n];
                &&& row.id == parsed_id(w.id@)->0
                &&& row.name == w.name@
                &&& row.runtime == w.runtime@
                &&& row.transport == transport_name(parsed_id(w.id@)->0)
                &&& row.active <==> active == Some(w.id@)
                &&& i < 5 ==> row.shortcut == Some((i + 1) as u8)
                &&& i >= 5 ==> row.shortcut is None
            });
        assert(all[n] == rest[n]);
    } else {
        assert(all[all.len() - 1].name == ordered[i].name@);
    }
}

proof fn lemma_rows_are_few(ordered: Seq<ClientWorkspace>, active: Option<Seq<char>>)
    ensures
        sidebar_rows(ordered, active).len() <= ordered.len(),
    decreases ordered.len(),
{
    if ordered.len() > 0 {
        lemma_rows_are_few(ordered.drop_last(), active);
    }
}

/// Where each workspace has an identity, the rows are one for each, in their
/// order.
pub proof fn law_rows_follow_the_workspaces(
    ordered: Seq<ClientWorkspace>,
    active: Option<Seq<char>>,
    i: int,
)
    requires
        forall|j: int| 0 <= j < ordered.len() ==> parsed_id((#[trigger] ordered[j]).id@) is Some,
    ensures
        sidebar_rows(ordered, active).len() == ordered.len(),
        0 <= i < ordered.len() ==> sidebar_rows(ordered, active)[i].id == parsed_id(
            ordered[i].id@,
        )->0,
    decreases ordered.len(),
{
    if ordered.len() > 0 {
        let init = ordered.drop_last();
        assert forall|j: int| 0 <= j < init.len() implies parsed_id(
            (#[trigger] init[j]).id@,
        ) is Some by {
            assert(init[j] == ordered[j]);
        }
        assert(ordered.last() == ordered[ordered.len() - 1]);
        law_rows_follow_the_workspaces(init, active, i);
        if 0 <= i < init.len() {
            assert(init[i] == ordered[i]);
        }
    }
}

// ---------------------------------------------------------------------------
// Activity.
// ---------------------------------------------------------------------------

/// The mark of a pane: running while it works; done where it is blocked or
/// done and nobody has acknowledged it; quiet else.
pub proof fn law_the_mark_of_a_pane(p: ClientAttentionPane, r: ActivityIndicator)
    requires
        call_ensures(client_attention_indicator, (&p,), r),
    ensures
        p.status@ == "working"@ ==> r == ActivityIndicator::Running,
        (p.status@ == "blocked"@ || p.status@ == "done"@) && !p.acknowledged ==> r
            == ActivityIndicator::Done,
        (p.status@ == "blocked"@ || p.status@ == "done"@) && p.acknowledged ==> r
            == ActivityIndicator::Quiet,
        p.status@ != "working"@ && p.status@ != "blocked"@ && p.status@ != "done"@ ==> r
            == ActivityIndicator::Quiet,
{
    crate::laws::attention::law_states_are_words(p.status@);
    lemma_words();
}

proof fn lemma_words()
    ensures
        "working"@ != "blocked"@,
        "working"@ != "done"@,
        "blocked"@ != "done"@,
{
    reveal_strlit("working");
    reveal_strlit("blocked");
    reveal_strlit("done");
    assert("working"@[0] != "blocked"@[0]);
    assert("done"@.len() == 4);
}

/// The line below an activity names the workspace, its runtime and its
/// transport, and its path where the pane has printed nothing.
pub proof fn law_the_line_below_an_activity(
    w: ClientWorkspace,
    p: ClientAttentionPane,
    r: String,
)
    requires
        call_ensures(client_activity_detail, (&w, &p), r),
    ensures
        parsed_id(w.id@) is None ==> r@ == w.name@,
        parsed_id(w.id@) matches Some(id) ==> {
            let name = w.name@ + "@"@ + w.runtime@ + "@"@ + transport_name(id);
            &&& !all_white(p.last_line@) || all_white(id.path) ==> r@ == name
            &&& all_white(p.last_line@) && !all_white(id.path) ==> r@ == name + " · "@ + id.path
        },
{
}

/// An agent is titled by its name, else by its process where that is an agent.
/// A command is titled by its process where it is not an agent, has a name and
/// is not quiet.
pub proof fn law_titles_of_activity(p: ClientAttentionPane, r: ActivityIndicator)
    requires
        call_ensures(client_attention_indicator, (&p,), r),
    ensures
        p.agent_name is Some ==> agent_title(p) == Some(p.agent_name->0@),
        p.agent_name is None && p.process_is_agent && p.process_name is Some ==> agent_title(p)
            == Some(p.process_name->0@),
        p.agent_name is None && (!p.process_is_agent || p.process_name is None) ==> agent_title(
            p,
        ) is None,
        command_title(p) is Some <==> r != ActivityIndicator::Quiet && !p.process_is_agent
            && p.process_name is Some && !all_white(p.process_name->0@),
        command_title(p) matches Some(t) ==> t == p.process_name->0@,
{
}

/// What is known of a pane is the last report of it under the name.
pub proof fn law_the_last_report_of_a_pane(
    workspaces: Seq<ClientWorkspaceAttention>,
    key: Seq<char>,
    pane: u32,
    i: int,
    k: int,
)
    requires
        0 <= i < workspaces.len(),
        0 <= k < workspaces[i].panes@.len(),
        workspaces[i].workspace_id@ == key,
        workspaces[i].panes@[k].pane_id == pane,
        forall|l: int|
            k < l < workspaces[i].panes@.len() ==> (#[trigger] workspaces[i].panes@[l]).pane_id
                != pane,
        forall|j: int, l: int|
            i < j < workspaces.len() && workspaces[j].workspace_id@ == key && 0 <= l
                < workspaces[j].panes@.len() ==> (#[trigger] workspaces[j].panes@[l]).pane_id
                != pane,
    ensures
        activity_of(workspaces, key, pane) == Some(workspaces[i].panes@[k]),
    decreases workspaces.len(),
{
    let n = workspaces.len() - 1;
    if i == n {
        lemma_last_pane(workspaces[i].panes@, pane, k);
    } else {
        let init = workspaces.drop_last();
        if workspaces[n].workspace_id@ == key {
            assert forall|l: int| 0 <= l < workspaces[n].panes@.len() implies (
            #[trigger] workspaces[n].panes@[l]).pane_id != pane by {}
            lemma_no_pane(workspaces[n].panes@, pane);
        }
        assert(init[i] == workspaces[i]);
        assert forall|j: int, l: int|
            i < j < init.len() && init[j].workspace_id@ == key && 0 <= l
                < init[j].panes@.len() implies (#[trigger] init[j].panes@[l]).pane_id != pane by {
            assert(init[j] == workspaces[j]);
            assert(workspaces[j].panes@[l].pane_id != pane);
        }
        law_the_last_report_of_a_pane(init, key, pane, i, k);
    }
}

proof fn lemma_last_pane(panes: Seq<ClientAttentionPane>, pane: u32, k: int)
    requires
        0 <= k < panes.len(),
        panes[k].pane_id == pane,
        forall|l: int| k < l < panes.len() ==> (#[trigger] panes[l]).pane_id != pane,
    ensures
        last_pane(panes, pane) == Some(panes[k]),
    decreases panes.len(),
{
    if k < panes.len() - 1 {
        assert(panes[panes.len() - 1].pane_id != pane);
        lemma_last_pane(panes.drop_last(), pane, k);
    }
}

proof fn lemma_no_pane(panes: Seq<ClientAttentionPane>, pane: u32)
    requires
        forall|l: int| 0 <= l < panes.len() ==> (#[trigger] panes[l]).pane_id != pane,
    ensures
        last_pane(panes, pane) is None,
    decreases panes.len(),
{
    if panes.len() > 0 {
        assert(panes[panes.len() - 1].pane_id != pane);
        lemma_no_pane(panes.drop_last(), pane);
    }
}

/// Where nothing was reported of a pane under a name, nothing is known of it.
pub proof fn law_nothing_is_known_without_a_report(
    workspaces: Seq<ClientWorkspaceAttention>,
    key: Seq<char>,
    pane: u32,
)
    requires
        forall|j: int, l: int|
            0 <= j < workspaces.len() && workspaces[j].workspace_id@ == key && 0 <= l
                < workspaces[j].panes@.len() ==> (#[trigger] workspaces[j].panes@[l]).pane_id
                != pane,
    ensures
        activity_of(workspaces, key, pane) is None,
    decreases workspaces.len(),
{
    if workspaces.len() > 0 {
        let n = workspaces.len() - 1;
        let init = workspaces.drop_last();
        if workspaces[n].workspace_id@ == key {
            assert forall|l: int| 0 <= l < workspaces[n].panes@.len() implies (
            #[trigger] workspaces[n].panes@[l]).pane_id != pane by {}
            lemma_no_pane(workspaces[n].panes@, pane);
        }
        assert forall|j: int, l: int|
            0 <= j < init.len() && init[j].workspace_id@ == key && 0 <= l
                < init[j].panes@.len() implies (#[trigger] init[j].panes@[l]).pane_id != pane by {
            assert(init[j] == workspaces[j]);
            assert(workspaces[j].panes@[l].pane_id != pane);
        }
        law_nothing_is_known_without_a_report(init, key, pane);
    }
}

/// Each pane with a title has its row, under the identity of its workspace,
/// with what was reported of it last.
pub proof fn law_each_titled_pane_has_its_row(
    views: Seq<WorkspaceView>,
    activity: Seq<ClientWorkspaceAttention>,
    agents: bool,
    i: int,
    m: int,
    p: ClientAttentionPane,
    title: Seq<char>,
    detail: String,
    mark: ActivityIndicator,
)
    requires
        0 <= i < views.len(),
        views[i].workspace is Some,
        parsed_id(views[i].key@) is Some,
        0 <= m < all_panes(views[i].panes@).len(),
        activity_of(activity, views[i].replica_id@, all_panes(views[i].panes@)[m].id) == Some(p),
        (if agents {
            agent_title(p)
        } else {
            command_title(p)
        }) == Some(title),
        call_ensures(client_activity_detail, (&views[i].workspace->0, &p), detail),
        call_ensures(client_attention_indicator, (&p,), mark),
    ensures
        activity_rows(views, activity, agents).contains(
            (ActivityRowView {
                workspace_id: parsed_id(views[i].key@)->0,
                replica_id: views[i].replica_id@,
                pane_id: all_panes(views[i].panes@)[m].id,
                title,
                detail: detail@,
                indicator: mark,
            }),
        ),
{
    let v = views[i];
    let w = v.workspace->0;
    let id = parsed_id(v.key@)->0;
    let panes = all_panes(v.panes@);
    let rows = Seq::new(panes.len(), |j: int| pane_row(v, w, id, panes[j].id, activity, agents));
    let row = ActivityRowView {
        workspace_id: id,
        replica_id: v.replica_id@,
        pane_id: panes[m].id,
        title,
        detail: detail@,
        indicator: mark,
    };
    assert(rows[m] == pane_row(v, w, id, panes[m].id, activity, agents));
    assert(rows[m][0] == row);
    let k = lemma_flat_contains(rows, m, 0);
    let lists = Seq::new(views.len(), |j: int| view_rows(views[j], activity, agents));
    assert(rows =~= Seq::new(
        all_panes(v.panes@).len(),
        |j: int| pane_row(v, w, id, all_panes(v.panes@)[j].id, activity, agents),
    ));
    assert(lists[i] == view_rows(v, activity, agents));
    assert(view_rows(v, activity, agents) == flat(rows));
    let n = lemma_flat_contains(lists, i, k);
    assert(activity_rows(views, activity, agents)[n] == row);
}

// ---------------------------------------------------------------------------
// Overviews.
// ---------------------------------------------------------------------------

/// The workspace of a view runs a shell.
pub open spec fn runs_shell(view: WorkspaceView) -> bool {
    view.workspace is Some && view.workspace->0.runtime@ == "shell"@
}

/// A tab has an agent: a row of an agent is about one of its panes.
pub open spec fn agent_in(view: WorkspaceView, tab: u32, agents: Seq<ActivityRowView>) -> bool {
    exists|i: int, k: int|
        0 <= i < agents.len() && 0 <= k < panes_of(view.panes@, tab).len() && id_text(
            (#[trigger] agents[i]).workspace_id,
        ) == view.key@ && (#[trigger] panes_of(view.panes@, tab)[k]).id == agents[i].pane_id
}

/// A tab was hidden.
pub open spec fn hides(hidden: Seq<SourceTab>, workspace: Seq<char>, tab: u32) -> bool {
    exists|i: int|
        0 <= i < hidden.len() && (#[trigger] hidden[i]).workspace@ == workspace && hidden[i].tab
            == tab
}

proof fn lemma_tab_row(
    kind: AggregateKind,
    view: WorkspaceView,
    tab: ClientTab,
    agents: Seq<ActivityRowView>,
    hidden: Seq<SourceTab>,
)
    requires
        view.workspace is Some,
    ensures
        tab_row(kind, view, view.workspace->0, tab, agents, hidden) == (if (kind
            == AggregateKind::Shells && runs_shell(view)) || (kind == AggregateKind::Agents
            && agent_in(view, tab.id, agents) && !hides(hidden, view.key@, tab.id)) {
            seq![
                AggregateTabView {
                    source: SourceTabView { workspace: view.key@, tab: tab.id },
                    title: view.workspace->0.name@ + " · "@ + tab.name@,
                },
            ]
        } else {
            Seq::<AggregateTabView>::empty()
        }),
{
    let source = SourceTabView { workspace: view.key@, tab: tab.id };
    let panes = panes_of(view.panes@, tab.id);
    if agent_in(view, tab.id, agents) {
        let (i, k) = choose|i: int, k: int|
            0 <= i < agents.len() && 0 <= k < panes.len() && id_text(
                (#[trigger] agents[i]).workspace_id,
            ) == view.key@ && (#[trigger] panes[k]).id == agents[i].pane_id;
        assert(crate::linux::aggregate::lists_pane(panes, agents[i].pane_id));
        assert(crate::linux::aggregate::has_agent(view, tab.id, agents));
    }
    if crate::linux::aggregate::has_agent(view, tab.id, agents) {
        let i = choose|i: int|
            0 <= i < agents.len() && id_text((#[trigger] agents[i]).workspace_id) == view.key@
                && crate::linux::aggregate::lists_pane(panes, agents[i].pane_id);
        let k = choose|k: int| 0 <= k < panes.len()
            && (#[trigger] panes[k]).id == agents[i].pane_id;
        assert(agents[i].pane_id == panes[k].id);
        assert(agent_in(view, tab.id, agents));
    }
    if hides(hidden, view.key@, tab.id) {
        let i = choose|i: int|
            0 <= i < hidden.len() && (#[trigger] hidden[i]).workspace@ == view.key@ && hidden[i].tab
                == tab.id;
        assert(hidden[i]@ == source);
        assert(crate::linux::aggregate::is_hidden(hidden, source));
    }
    if crate::linux::aggregate::is_hidden(hidden, source) {
        let i = choose|i: int| 0 <= i < hidden.len() && (#[trigger] hidden[i])@ == source;
        assert(hidden[i].workspace@ == view.key@ && hidden[i].tab == tab.id);
        assert(hides(hidden, view.key@, tab.id));
    }
}

/// The overview of shells lists every tab of every workspace that runs a
/// shell; the overview of agents lists every tab with an agent that is not
/// hidden. Nothing else is listed, and each row names its workspace and tab.
pub proof fn law_what_an_overview_lists(
    kind: AggregateKind,
    views: Seq<WorkspaceView>,
    activity: Seq<ClientWorkspaceAttention>,
    hidden: Seq<SourceTab>,
    row: AggregateTabView,
)
    ensures
        projected(kind, views, activity, hidden).contains(row) <==> exists|i: int, t: int|
            0 <= i < views.len() && 0 <= t < views[i].tabs@.len() && views[i].workspace is Some
                && row.source.workspace == views[i].key@ && row.source.tab == (
            #[trigger] views[i].tabs@[t]).id && row.title == views[i].workspace->0.name@ + " · "@
                + views[i].tabs@[t].name@ && ((kind == AggregateKind::Shells && runs_shell(
                views[i],
            )) || (kind == AggregateKind::Agents && agent_in(
                views[i],
                views[i].tabs@[t].id,
                activity_rows(views, activity, true),
            ) && !hides(hidden, views[i].key@, views[i].tabs@[t].id))),
{
    let agents = activity_rows(views, activity, true);
    let all = projected(kind, views, activity, hidden);
    if all.contains(row) {
        let n = choose|n: int| 0 <= n < all.len() && all[n] == row;
        if kind == AggregateKind::Shells {
            let here = rows_where(kind, Some(true), views, agents, hidden);
            if n < here.len() {
                lemma_listed(kind, Some(true), views, agents, hidden, n);
            } else {
                lemma_listed(kind, Some(false), views, agents, hidden, n - here.len());
            }
        } else {
            lemma_listed(kind, None, views, agents, hidden, n);
        }
    }
    if exists|i: int, t: int|
        0 <= i < views.len() && 0 <= t < views[i].tabs@.len() && lists(
            kind,
            views[i],
            #[trigger] views[i].tabs@[t],
            agents,
            hidden,
            row,
        ) {
        let (i, t) = choose|i: int, t: int|
            0 <= i < views.len() && 0 <= t < views[i].tabs@.len() && lists(
                kind,
                views[i],
                #[trigger] views[i].tabs@[t],
                agents,
                hidden,
                row,
            );
        let local = if kind == AggregateKind::Shells {
            Some(crate::linux::aggregate::is_local(views[i]))
        } else {
            None
        };
        let n = lemma_is_listed(kind, local, views, agents, hidden, i, t, row);
        if local == Some(false) {
            let here = rows_where(kind, Some(true), views, agents, hidden);
            assert(all[here.len() + n] == row);
        } else {
            assert(all[n] == row);
        }
    }
}

/// A row is about a tab that the overview lists.
pub open spec fn lists(
    kind: AggregateKind,
    view: WorkspaceView,
    tab: ClientTab,
    agents: Seq<ActivityRowView>,
    hidden: Seq<SourceTab>,
    row: AggregateTabView,
) -> bool {
    view.workspace is Some && row.source.workspace == view.key@ && row.source.tab == tab.id
        && row.title == view.workspace->0.name@ + " · "@ + tab.name@ && ((kind
        == AggregateKind::Shells && runs_shell(view)) || (kind == AggregateKind::Agents && agent_in(
        view,
        tab.id,
        agents,
    ) && !hides(hidden, view.key@, tab.id)))
}

proof fn lemma_listed(
    kind: AggregateKind,
    local: Option<bool>,
    views: Seq<WorkspaceView>,
    agents: Seq<ActivityRowView>,
    hidden: Seq<SourceTab>,
    n: int,
) -> (r: (int, int))
    requires
        0 <= n < rows_where(kind, local, views, agents, hidden).len(),
    ensures
        0 <= r.0 < views.len(),
        0 <= r.1 < views[r.0].tabs@.len(),
        lists(
            kind,
            views[r.0],
            views[r.0].tabs@[r.1],
            agents,
            hidden,
            rows_where(kind, local, views, agents, hidden)[n],
        ),
        local is Some ==> local == Some(crate::linux::aggregate::is_local(views[r.0])),
{
    let parts = Seq::new(
        views.len(),
        |i: int|
            if local is None || local == Some(crate::linux::aggregate::is_local(views[i])) {
                view_tabs(kind, views[i], agents, hidden)
            } else {
                Seq::<AggregateTabView>::empty()
            },
    );
    assert(rows_where(kind, local, views, agents, hidden) == flat(parts));
    let (i, m) = lemma_flat_origin(parts, n);
    let v = views[i];
    let tabs = Seq::new(
        v.tabs@.len(),
        |t: int| tab_row(kind, v, v.workspace->0, v.tabs@[t], agents, hidden),
    );
    assert(parts[i] == view_tabs(kind, v, agents, hidden));
    assert(tabs =~= Seq::new(
        v.tabs@.len(),
        |t: int| tab_row(kind, v, v.workspace->0, v.tabs@[t], agents, hidden),
    ));
    assert(view_tabs(kind, v, agents, hidden) == flat(tabs));
    let (t, z) = lemma_flat_origin(tabs, m);
    lemma_tab_row(kind, v, v.tabs@[t], agents, hidden);
    (i, t)
}

proof fn lemma_is_listed(
    kind: AggregateKind,
    local: Option<bool>,
    views: Seq<WorkspaceView>,
    agents: Seq<ActivityRowView>,
    hidden: Seq<SourceTab>,
    i: int,
    t: int,
    row: AggregateTabView,
) -> (n: int)
    requires
        0 <= i < views.len(),
        0 <= t < views[i].tabs@.len(),
        lists(kind, views[i], views[i].tabs@[t], agents, hidden, row),
        local is None || local == Some(crate::linux::aggregate::is_local(views[i])),
    ensures
        0 <= n < rows_where(kind, local, views, agents, hidden).len(),
        rows_where(kind, local, views, agents, hidden)[n] == row,
{
    let parts = Seq::new(
        views.len(),
        |i: int|
            if local is None || local == Some(crate::linux::aggregate::is_local(views[i])) {
                view_tabs(kind, views[i], agents, hidden)
            } else {
                Seq::<AggregateTabView>::empty()
            },
    );
    let v = views[i];
    let tabs = Seq::new(
        v.tabs@.len(),
        |t: int| tab_row(kind, v, v.workspace->0, v.tabs@[t], agents, hidden),
    );
    lemma_tab_row(kind, v, v.tabs@[t], agents, hidden);
    assert(tabs[t][0] == row);
    let m = lemma_flat_contains(tabs, t, 0);
    assert(parts[i] == view_tabs(kind, v, agents, hidden));
    assert(view_tabs(kind, v, agents, hidden) == flat(tabs));
    let n = lemma_flat_contains(parts, i, m);
    n
}

/// Shells of this machine come first: after a row of another machine there is
/// none of this one.
pub proof fn law_shells_of_this_machine_come_first(
    views: Seq<WorkspaceView>,
    activity: Seq<ClientWorkspaceAttention>,
    hidden: Seq<SourceTab>,
    n: int,
) -> (r: int)
    requires
        0 <= n < projected(AggregateKind::Shells, views, activity, hidden).len(),
    ensures
        0 <= r < views.len(),
        projected(AggregateKind::Shells, views, activity, hidden)[n].source.workspace
            == views[r].key@,
        views[r].workspace is Some,
        n < rows_where(
            AggregateKind::Shells,
            Some(true),
            views,
            activity_rows(views, activity, true),
            hidden,
        ).len() <==> views[r].workspace->0.id@.len() >= 6 && views[r].workspace->0.id@.take(6)
            == "local/"@,
{
    reveal_strlit("local/");
    let agents = activity_rows(views, activity, true);
    let here = rows_where(AggregateKind::Shells, Some(true), views, agents, hidden);
    if n < here.len() {
        let r = lemma_listed(AggregateKind::Shells, Some(true), views, agents, hidden, n);
        r.0
    } else {
        let r = lemma_listed(
            AggregateKind::Shells,
            Some(false),
            views,
            agents,
            hidden,
            n - here.len(),
        );
        r.0
    }
}

/// The row that is chosen is the one that was chosen last in the overview that
/// is open, and the first where that is gone.
pub proof fn law_which_row_is_chosen(s: AggregateSelection, tabs: Seq<AggregateTab>, k: int)
    ensures
        s.kind == Some(AggregateKind::Shells) ==> last_chosen(s) == s.shell_last,
        s.kind == Some(AggregateKind::Agents) ==> last_chosen(s) == s.agent_last,
        last_chosen(s) is None && tabs.len() > 0 ==> chosen_row(s, tabs) == Some(tabs[0]),
        tabs.len() == 0 ==> chosen_row(s, tabs) is None,
        last_chosen(s) matches Some(source) ==> {
            &&& 0 <= k < tabs.len() && tabs[k].source@ == source@ && (forall|j: int|
                0 <= j < k ==> (#[trigger] tabs[j]).source@ != source@) ==> chosen_row(s, tabs)
                == Some(tabs[k])
            &&& tabs.len() > 0 && (forall|j: int|
                0 <= j < tabs.len() ==> (#[trigger] tabs[j]).source@ != source@) ==> chosen_row(
                s,
                tabs,
            ) == Some(tabs[0])
        },
{
    if let Some(source) = last_chosen(s) {
        let f = crate::linux::aggregate::source_is(source@);
        if tabs.len() == 0 {
            lemma_no_first(tabs, f);
        }
        if 0 <= k < tabs.len() && tabs[k].source@ == source@ && (forall|j: int|
            0 <= j < k ==> (#[trigger] tabs[j]).source@ != source@) {
            lemma_first_where(tabs, f, k);
        }
        if forall|j: int| 0 <= j < tabs.len() ==> (#[trigger] tabs[j]).source@ != source@ {
            lemma_no_first(tabs, f);
        }
    }
}

/// Rows are numbered from one; there is no row of a greater number than there
/// are rows.
pub proof fn law_rows_have_numbers(tabs: Seq<AggregateTab>, n: u32)
    ensures
        1 <= n <= tabs.len() ==> numbered(tabs, n) == Some(tabs[n - 1]),
        n > tabs.len() ==> numbered(tabs, n) is None,
        n == 0 ==> numbered(tabs, n) == numbered(tabs, 1),
{
}

/// A row of an agent is hidden by closing it, and its tab stays; a row of a
/// shell is closed with its tab, and nothing is hidden.
pub proof fn law_how_a_row_is_closed(
    before: AggregateSelection,
    after: AggregateSelection,
    row: AggregateTab,
    r: AggregateClose,
)
    requires
        closed_row(before, after, Some(row), r),
    ensures
        after.kind == before.kind && after.shell_last == before.shell_last && after.agent_last
            == before.agent_last,
        before.kind == Some(AggregateKind::Agents) ==> r is Hide && hides(
            after.hidden_agents@,
            row.source.workspace@,
            row.source.tab,
        ),
        before.kind != Some(AggregateKind::Agents) ==> r == AggregateClose::CloseTab(row.source)
            && after.hidden_agents@ == before.hidden_agents@,
        forall|i: int|
            0 <= i < before.hidden_agents@.len() ==> after.hidden_agents@[i]
                == #[trigger] before.hidden_agents@[i],
        after.hidden_agents@.len() <= before.hidden_agents@.len() + 1,
{
    if before.kind == Some(AggregateKind::Agents) {
        let hidden = before.hidden_agents@;
        let source = row.source@;
        if crate::linux::aggregate::is_hidden(hidden, source) {
            let i = choose|i: int| 0 <= i < hidden.len() && (#[trigger] hidden[i])@ == source;
            assert(after.hidden_agents@[i].workspace@ == row.source.workspace@);
        } else {
            assert(after.hidden_agents@[hidden.len() as int] == row.source);
            assert(after.hidden_agents@[hidden.len() as int].workspace@ == row.source.workspace@);
        }
    }
}

/// The row that is chosen is shown where it is not shown yet, and nothing is
/// shown where there is none.
pub proof fn law_what_an_overview_does(
    row: AggregateTab,
    shown: SourceTabView,
    empty: bool,
)
    ensures
        row.source@ == shown && !empty ==> step_of(Some(row), shown, empty)
            == AggregateStep::Nothing,
        row.source@ != shown || empty ==> step_of(Some(row), shown, empty) == AggregateStep::Select(
            row,
        ),
        empty ==> step_of(None, shown, empty) == AggregateStep::Nothing,
        !empty ==> step_of(None, shown, empty) == AggregateStep::ShowEmpty,
{
}

/// Only the overview of shells follows, and only within one workspace, to a
/// tab that it lists.
pub proof fn law_when_an_overview_follows(
    s: AggregateSelection,
    tabs: Seq<AggregateTab>,
    shown: SourceTabView,
    k: int,
)
    ensures
        s.kind == Some(AggregateKind::Shells) && s.shell_last is Some
            && s.shell_last->0.workspace@ == shown.workspace && 0 <= k < tabs.len()
            && tabs[k].source@ == shown && (forall|j: int|
            0 <= j < k ==> (#[trigger] tabs[j]).source@ != shown) ==> follows(s, tabs, shown),
        s.kind != Some(AggregateKind::Shells) ==> !follows(s, tabs, shown),
        s.shell_last is None ==> !follows(s, tabs, shown),
        s.shell_last is Some && s.shell_last->0.workspace@ != shown.workspace ==> !follows(
            s,
            tabs,
            shown,
        ),
        (forall|j: int| 0 <= j < tabs.len() ==> (#[trigger] tabs[j]).source@ != shown) ==> !follows(
            s,
            tabs,
            shown,
        ),
{
    if 0 <= k < tabs.len() && tabs[k].source@ == shown && (forall|j: int|
        0 <= j < k ==> (#[trigger] tabs[j]).source@ != shown) {
        lemma_first_where(tabs, crate::linux::aggregate::source_is(shown), k);
    }
    if forall|j: int| 0 <= j < tabs.len() ==> (#[trigger] tabs[j]).source@ != shown {
        lemma_no_first(tabs, crate::linux::aggregate::source_is(shown));
    }
}

/// Each row of activity is about a pane of a workspace, with what was reported
/// of that pane last; nothing else has a row.
pub proof fn law_every_row_is_about_a_pane(
    views: Seq<WorkspaceView>,
    activity: Seq<ClientWorkspaceAttention>,
    agents: bool,
    n: int,
) -> (r: (int, int))
    requires
        0 <= n < activity_rows(views, activity, agents).len(),
    ensures
        0 <= r.0 < views.len(),
        0 <= r.1 < all_panes(views[r.0].panes@).len(),
        ({
            let row = activity_rows(views, activity, agents)[n];
            let v = views[r.0];
            let pane = all_panes(v.panes@)[r.1].id;
            let known = activity_of(activity, v.replica_id@, pane);
            &&& parsed_id(v.key@) == Some(row.workspace_id)
            &&& row.replica_id == v.replica_id@
            &&& row.pane_id == pane
            &&& known is Some
            &&& agents ==> agent_title(known->0) == Some(row.title)
            &&& !agents ==> command_title(known->0) == Some(row.title)
        }),
{
    let lists = Seq::new(views.len(), |j: int| view_rows(views[j], activity, agents));
    assert(activity_rows(views, activity, agents) == flat(lists));
    let (i, m) = lemma_flat_origin(lists, n);
    let v = views[i];
    assert(lists[i] == view_rows(v, activity, agents));
    let w = v.workspace->0;
    let id = parsed_id(v.key@)->0;
    let rows = Seq::new(
        all_panes(v.panes@).len(),
        |j: int| pane_row(v, w, id, all_panes(v.panes@)[j].id, activity, agents),
    );
    assert(view_rows(v, activity, agents) == flat(rows));
    let (k, z) = lemma_flat_origin(rows, m);
    assert(rows[k] == pane_row(v, w, id, all_panes(v.panes@)[k].id, activity, agents));
    (i, k)
}

} // verus!
