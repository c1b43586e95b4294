//! Drawing: which panes are drawn in what way, what they are sized to, and
//! which workspaces are read again.
use vstd::prelude::*;

use crate::client::query::{CArgView, CCall, CFunction};
use crate::client::call::c_text;
use crate::client::snapshot::{all_panes, panes_of};
use crate::client::types::{ClientPane, ClientTask, ClientWorkspaceEvent};
use crate::command_queue::ClientCommand;
use crate::linux::window_layout::view_of;
use crate::linux::window_render::{
    apply_attention_visibility_events, changed_workspaces, hidden_render_policy, id_views,
    lemma_flat_contains, lemma_flat_origin, mark_active_attention_visible, pane_output_steps,
    refresh_event_workspaces, render_targets, repair_visible_workspace, resume_requests,
    seen_panes, sync_pane_grid_size, sync_pane_grid_size_for, sync_pane_outputs,
    take_parser_replies, target_views, view_outputs, view_targets, OutputStep, OutputTarget,
    PaneRenderPolicy, RenderTarget, RenderTargetView,
};
use crate::linux::workspace_sidebar_model::{ViewStore, WorkspaceView};
use crate::seqs::{find, lemma_first_where, lemma_no_first};
use crate::workspace_id::{id_view, parsed_id, WorkspaceId, WorkspaceIdView};

verus! {

/// A workspace is reached over SSH.
pub open spec fn over_ssh(view: WorkspaceView) -> bool {
    view.workspace is Some && view.workspace->0.resolved_target is Some
        && view.workspace->0.resolved_target->0.transport is Some
        && view.workspace->0.resolved_target->0.transport->0@ == "ssh"@
}

/// A workspace out of sight pauses where it is reached over SSH; any other one
/// goes on, with what it prints gathered.
pub proof fn law_a_hidden_workspace(view: WorkspaceView, r: PaneRenderPolicy)
    requires
        call_ensures(hidden_render_policy, (&view,), r),
    ensures
        r == PaneRenderPolicy::Pause <==> over_ssh(view),
        r == PaneRenderPolicy::Coalesce <==> !over_ssh(view),
{
}

/// Each pane of each workspace is a target: live where its workspace is the
/// one in sight, paused where it is out of sight and reached over SSH, and
/// gathered else. Nothing else is a target.
pub proof fn law_every_pane_is_drawn_in_one_way(
    views: Vec<WorkspaceView>,
    visible: &str,
    r: Vec<RenderTarget>,
    i: int,
    t: int,
    k: int,
    n: int,
)
    requires
        call_ensures(render_targets, (&views, visible), r),
    ensures
        0 <= i < views@.len() && 0 <= t < views@[i].panes@.len() && 0 <= k
            < views@[i].panes@[t].1@.len() ==> exists|n: int|
            0 <= n < r@.len() && (#[trigger] r@[n]).workspace_id@ == views@[i].key@ && r@[n].pane_id
                == views@[i].panes@[t].1@[k].id,
        0 <= n < r@.len() ==> exists|i: int|
            0 <= i < views@.len() && (#[trigger] views@[i]).key@ == r@[n].workspace_id@
                && all_panes(views@[i].panes@).map_values(|p: ClientPane| p.id).contains(
                r@[n].pane_id,
            ) && (r@[n].policy == PaneRenderPolicy::Live <==> views@[i].key@ == visible@) && (
            r@[n].policy == PaneRenderPolicy::Pause <==> views@[i].key@ != visible@ && over_ssh(
                views@[i],
            )) && (r@[n].policy == PaneRenderPolicy::Coalesce <==> views@[i].key@ != visible@
                && !over_ssh(views@[i])),
{
    let lists = views@.map_values(|v: WorkspaceView| view_targets(v, visible@));
    assert(target_views(r@).len() == r@.len());
    if 0 <= i < views@.len() && 0 <= t < views@[i].panes@.len() && 0 <= k
        < views@[i].panes@[t].1@.len() {
        let rows = Seq::new(views@[i].panes@.len(), |j: int| views@[i].panes@[j].1@);
        assert(rows[t] == views@[i].panes@[t].1@);
        let m = lemma_flat_contains(rows, t, k);
        assert(lists[i] == view_targets(views@[i], visible@));
        let place = lemma_flat_contains(lists, i, m);
        assert(target_views(r@)[place] == r@[place]@);
        assert(r@[place].workspace_id@ == views@[i].key@);
    }
    if 0 <= n < r@.len() {
        assert(target_views(r@)[n] == r@[n]@);
        let (i, m) = lemma_flat_origin(lists, n);
        assert(lists[i] == view_targets(views@[i], visible@));
        let ids = all_panes(views@[i].panes@).map_values(|p: ClientPane| p.id);
        assert(ids[m] == r@[n].pane_id);
        assert(views@[i].key@ == r@[n].workspace_id@);
    }
}

/// The panes of all tabs are those of each tab.
pub proof fn law_all_panes_are_those_of_the_tabs(
    panes: Seq<(u32, Vec<ClientPane>)>,
    pane: ClientPane,
)
    ensures
        all_panes(panes).contains(pane) <==> exists|t: int|
            0 <= t < panes.len() && (#[trigger] panes[t]).1@.contains(pane),
{
    let rows = Seq::new(panes.len(), |j: int| panes[j].1@);
    if all_panes(panes).contains(pane) {
        let n = choose|n: int| 0 <= n < all_panes(panes).len() && all_panes(panes)[n] == pane;
        let (t, k) = lemma_flat_origin(rows, n);
        assert(panes[t].1@[k] == pane);
        assert(panes[t].1@.contains(pane));
    }
    if exists|t: int| 0 <= t < panes.len() && (#[trigger] panes[t]).1@.contains(pane) {
        let t = choose|t: int| 0 <= t < panes.len() && (#[trigger] panes[t]).1@.contains(pane);
        let k = choose|k: int| 0 <= k < panes[t].1@.len() && panes[t].1@[k] == pane;
        let n = lemma_flat_contains(rows, t, k);
        assert(all_panes(panes)[n] == pane);
    }
}

/// The output of each pane of a workspace with an identity is read at the size
/// of the pane; one without an identity has no output.
pub proof fn law_outputs_are_sized_as_their_panes(
    views: Vec<WorkspaceView>,
    r: Vec<OutputTarget>,
    i: int,
    k: int,
    n: int,
)
    requires
        call_ensures(sync_pane_outputs, (&views,), r),
    ensures
        0 <= i < views@.len() && parsed_id(views@[i].key@) is Some && 0 <= k < all_panes(
            views@[i].panes@,
        ).len() ==> exists|n: int|
            0 <= n < r@.len() && (#[trigger] r@[n]).workspace_id@ == parsed_id(views@[i].key@)->0
                && r@[n].pane_id == all_panes(views@[i].panes@)[k].id && r@[n].cols == all_panes(
                views@[i].panes@,
            )[k].cols && r@[n].rows == all_panes(views@[i].panes@)[k].rows,
        0 <= n < r@.len() ==> exists|i: int|
            0 <= i < views@.len() && parsed_id((#[trigger] views@[i]).key@) == Some(
                r@[n].workspace_id@,
            ),
{
    let lists = views@.map_values(|v: WorkspaceView| view_outputs(v));
    let out = crate::linux::window_render::output_views(r@);
    if 0 <= i < views@.len() && parsed_id(views@[i].key@) is Some && 0 <= k < all_panes(
        views@[i].panes@,
    ).len() {
        assert(lists[i] == view_outputs(views@[i]));
        let n = lemma_flat_contains(lists, i, k);
        assert(out[n] == r@[n]@);
        assert(r@[n].pane_id == all_panes(views@[i].panes@)[k].id);
    }
    if 0 <= n < r@.len() {
        assert(out[n] == r@[n]@);
        let (i, m) = lemma_flat_origin(lists, n);
        assert(lists[i] == view_outputs(views@[i]));
        assert(parsed_id(views@[i].key@) == Some(r@[n].workspace_id@));
    }
}

/// A pane without a surface is left alone; one that was not filled yet is
/// sized and filled; any other one is drawn, and its replies go out last.
pub proof fn law_how_output_is_drawn(resident: bool, seeded: bool, r: Vec<OutputStep>)
    requires
        call_ensures(pane_output_steps, (resident, seeded), r),
    ensures
        !resident ==> r@.len() == 0,
        resident ==> r@.len() >= 2 && r@[0] == OutputStep::GridSize && r@[1] == OutputStep::Seed,
        resident && !seeded ==> r@.len() == 2,
        resident && seeded ==> r@.len() == 5 && r@[2] == OutputStep::ResumeBaseline && r@[3]
            == OutputStep::RenderEvents && r@[4] == OutputStep::Replies,
{
}

/// A baseline is asked for exactly for the panes that were paused and are not
/// any more: one request for each, to its workspace.
pub proof fn law_a_baseline_for_each_pane_that_resumes(
    targets: Seq<RenderTargetView>,
    previous: Seq<PaneRenderPolicy>,
    commands: Seq<ClientCommand>,
    k: int,
    c: int,
)
    requires
        targets.len() == previous.len(),
        resume_requests(targets, previous, commands),
    ensures
        0 <= k < targets.len() && previous[k] == PaneRenderPolicy::Pause && targets[k].policy
            != PaneRenderPolicy::Pause ==> exists|c: int|
            0 <= c < commands.len() && (#[trigger] commands[c] matches ClientCommand::Task {
                workspace_id: Some(w),
                task: ClientTask::RequestPaneSnapshot { pane_id },
            } && w@ == targets[k].workspace_id && pane_id == targets[k].pane_id),
        0 <= c < commands.len() ==> exists|k: int|
            0 <= k < targets.len() && previous[k] == PaneRenderPolicy::Pause && (
            #[trigger] targets[k]).policy != PaneRenderPolicy::Pause && (
            commands[c] matches ClientCommand::Task {
                workspace_id: Some(w),
                task: ClientTask::RequestPaneSnapshot { pane_id },
            } && w@ == targets[k].workspace_id && pane_id == targets[k].pane_id),
    decreases targets.len(),
{
    if targets.len() > 0 {
        let n = targets.len() - 1;
        let resumed = previous.last() == PaneRenderPolicy::Pause && targets.last().policy
            != PaneRenderPolicy::Pause;
        let rest = if resumed {
            commands.drop_last()
        } else {
            commands
        };
        let init = targets.drop_last();
        let before = previous.drop_last();
        law_a_baseline_for_each_pane_that_resumes(init, before, rest, k, c);
        if 0 <= k < n && previous[k] == PaneRenderPolicy::Pause && targets[k].policy
            != PaneRenderPolicy::Pause {
            assert(init[k] == targets[k] && before[k] == previous[k]);
            let d = choose|c: int|
                0 <= c < rest.len() && (#[trigger] rest[c] matches ClientCommand::Task {
                    workspace_id: Some(w),
                    task: ClientTask::RequestPaneSnapshot { pane_id },
                } && w@ == targets[k].workspace_id && pane_id == targets[k].pane_id);
            assert(commands[d] == rest[d]);
        }
        if k == n && resumed {
            assert(commands[commands.len() - 1] == commands.last());
        }
        if 0 <= c < rest.len() {
            assert(commands[c] == rest[c]);
            let j = choose|k: int|
                0 <= k < init.len() && before[k] == PaneRenderPolicy::Pause && (
                #[trigger] init[k]).policy != PaneRenderPolicy::Pause && (
                rest[c] matches ClientCommand::Task {
                    workspace_id: Some(w),
                    task: ClientTask::RequestPaneSnapshot { pane_id },
                } && w@ == init[k].workspace_id && pane_id == init[k].pane_id);
            assert(init[j] == targets[j] && before[j] == previous[j]);
        } else if 0 <= c < commands.len() {
            assert(commands[c] == commands.last());
            assert(targets[n] == targets.last() && previous[n] == previous.last());
        }
    }
}

/// A workspace is read again exactly where an event changed its structure.
pub proof fn law_which_workspaces_are_read_again(
    events: Vec<ClientWorkspaceEvent>,
    r: Vec<WorkspaceId>,
    id: WorkspaceIdView,
)
    requires
        call_ensures(refresh_event_workspaces, (&events,), r),
    ensures
        id_views(r@).contains(id) <==> exists|i: int|
            0 <= i < events@.len() && parsed_id((#[trigger] events@[i]).workspace_id@) == Some(id)
                && crate::client::event::topology_event(events@[i].event.type_),
        id_views(r@).no_duplicates(),
{
    lemma_changed(events@, id);
    crate::linux::window_render::law_changed_workspace_is_refreshed_once(events@);
}

proof fn lemma_changed(events: Seq<ClientWorkspaceEvent>, id: WorkspaceIdView)
    ensures
        changed_workspaces(events).contains(id) <==> exists|i: int|
            0 <= i < events.len() && parsed_id((#[trigger] events[i]).workspace_id@) == Some(id)
                && crate::client::event::topology_event(events[i].event.type_),
    decreases events.len(),
{
    if events.len() > 0 {
        let init = events.drop_last();
        lemma_changed(init, id);
        let rest = changed_workspaces(init);
        let all = changed_workspaces(events);
        assert(events.last() == events[events.len() - 1]);
        assert forall|i: int| 0 <= i < init.len() implies #[trigger] init[i] == events[i] by {}
        if rest.contains(id) {
            let n = choose|n: int| 0 <= n < rest.len() && rest[n] == id;
            assert(all[n] == id);
        }
        if all.contains(id) && !rest.contains(id) {
            let n = choose|n: int| 0 <= n < all.len() && all[n] == id;
            if n < rest.len() {
                assert(rest[n] == id);
            }
            assert(parsed_id(events[events.len() - 1].workspace_id@) == Some(id));
        }
        if parsed_id(events.last().workspace_id@) == Some(id)
            && crate::client::event::topology_event(events.last().event.type_) {
            if !rest.contains(id) {
                assert(all[all.len() - 1] == id);
            }
        }
        if exists|i: int|
            0 <= i < events.len() && parsed_id((#[trigger] events[i]).workspace_id@) == Some(id)
                && crate::client::event::topology_event(events[i].event.type_) {
            let i = choose|i: int|
                0 <= i < events.len() && parsed_id((#[trigger] events[i]).workspace_id@) == Some(id)
                    && crate::client::event::topology_event(events[i].event.type_);
            if i < init.len() {
                assert(init[i] == events[i]);
            }
        }
    }
}

/// The workspace in sight stays while it is there. One that is gone gives way
/// to the active one, and without that to the first that has an identity.
pub proof fn law_what_comes_into_sight(
    store: ViewStore,
    visible: &str,
    r: Option<WorkspaceId>,
    k: int,
)
    requires
        call_ensures(repair_visible_workspace, (&store, visible), r),
    ensures
        view_of(store.views@, visible@) is Some ==> r is None,
        view_of(store.views@, visible@) is None && store.active_workspace_id is Some && parsed_id(
            store.active_workspace_id->0@,
        ) is Some ==> id_view(r) == parsed_id(store.active_workspace_id->0@),
        view_of(store.views@, visible@) is None && store.active_workspace_id is None && 0 <= k
            < store.views@.len() && parsed_id(store.views@[k].key@) is Some && (forall|j: int|
            0 <= j < k ==> parsed_id((#[trigger] store.views@[j]).key@) is None) ==> id_view(r)
            == parsed_id(store.views@[k].key@),
{
    if 0 <= k < store.views@.len() {
        lemma_first_identity(store.views@, k);
    }
}

proof fn lemma_first_identity(views: Seq<WorkspaceView>, k: int)
    requires
        0 <= k < views.len(),
    ensures
        parsed_id(views[k].key@) is Some && (forall|j: int|
            0 <= j < k ==> parsed_id((#[trigger] views[j]).key@) is None)
            ==> crate::linux::window_render::first_identity(views) == parsed_id(views[k].key@),
    decreases views.len(),
{
    if k > 0 {
        let rest = views.drop_first();
        lemma_first_identity(rest, k - 1);
        assert(rest[k - 1] == views[k]);
        if forall|j: int| 0 <= j < k ==> parsed_id((#[trigger] views[j]).key@) is None {
            assert(parsed_id(views[0].key@) is None);
            assert forall|j: int| 0 <= j < k - 1 implies parsed_id(
                (#[trigger] rest[j]).key@,
            ) is None by {
                assert(rest[j] == views[j + 1]);
            }
        }
    }
}

/// A pane is seen where it becomes the active one of the workspace that is
/// shown, or where something arrives for the one that is active there.
pub proof fn law_which_panes_were_seen(
    events: Vec<ClientWorkspaceEvent>,
    shown: &str,
    active: u32,
    r: Vec<u32>,
    pane: u32,
)
    requires
        call_ensures(apply_attention_visibility_events, (&events, shown, active), r),
    ensures
        r@.contains(pane) <==> exists|i: int|
            0 <= i < events@.len() && seen_by(#[trigger] events@[i], shown@, active, pane),
{
    lemma_seen(events@, shown@, active, pane);
}

/// An event shows a pane to the user: it makes it active, with number 8, or
/// brings something for the active one, with one of the numbers 1, 12, 15, 16,
/// 17 and 18.
pub open spec fn seen_by(
    event: ClientWorkspaceEvent,
    shown: Seq<char>,
    active: u32,
    pane: u32,
) -> bool {
    event.workspace_id@ == shown && event.event.pane_id == pane && (event.event.type_ == 8 || (pane
        == active && (event.event.type_ == 1 || event.event.type_ == 12 || (15 <= event.event.type_
        <= 18))))
}

proof fn lemma_seen(events: Seq<ClientWorkspaceEvent>, shown: Seq<char>, active: u32, pane: u32)
    ensures
        seen_panes(events, shown, active).contains(pane) <==> exists|i: int|
            0 <= i < events.len() && seen_by(#[trigger] events[i], shown, active, pane),
    decreases events.len(),
{
    if events.len() > 0 {
        let init = events.drop_last();
        lemma_seen(init, shown, active, pane);
        let rest = seen_panes(init, shown, active);
        let all = seen_panes(events, shown, active);
        assert(events.last() == events[events.len() - 1]);
        assert forall|i: int| 0 <= i < init.len() implies #[trigger] init[i] == events[i] by {}
        if rest.contains(pane) {
            let n = choose|n: int| 0 <= n < rest.len() && rest[n] == pane;
            assert(all[n] == pane);
        }
        if all.contains(pane) && !rest.contains(pane) {
            let n = choose|n: int| 0 <= n < all.len() && all[n] == pane;
            if n < rest.len() {
                assert(rest[n] == pane);
            }
            assert(seen_by(events[events.len() - 1], shown, active, pane));
        }
        if seen_by(events.last(), shown, active, pane) {
            assert(all[all.len() - 1] == pane);
        }
        if exists|i: int|
            0 <= i < events.len() && seen_by(#[trigger] events[i], shown, active, pane) {
            let i = choose|i: int|
                0 <= i < events.len() && seen_by(#[trigger] events[i], shown, active, pane);
            if i < init.len() {
                assert(init[i] == events[i]);
            }
        }
    }
}

/// The grid of a pane is that of the first pane of the number: in the tab, or,
/// asked without a tab, in the workspace, and there 80 by 24 where it is not
/// known.
pub proof fn law_the_grid_of_a_pane(
    views: Vec<WorkspaceView>,
    key: &str,
    tab: u32,
    pane: u32,
    r: Option<(u16, u16)>,
    s: (u16, u16),
    k: int,
)
    requires
        call_ensures(sync_pane_grid_size, (&views, key, tab, pane), r),
        call_ensures(sync_pane_grid_size_for, (&views, key, pane), s),
    ensures
        view_of(views@, key@) is None ==> r is None && s == (80u16, 24u16),
        view_of(views@, key@) matches Some(v) ==> {
            let here = panes_of(v.panes@, tab);
            let all = all_panes(v.panes@);
            &&& 0 <= k < here.len() && here[k].id == pane && (forall|j: int|
                0 <= j < k ==> (#[trigger] here[j]).id != pane) ==> r == Some(
                (here[k].cols, here[k].rows),
            )
            &&& (forall|j: int| 0 <= j < here.len() ==> (#[trigger] here[j]).id != pane)
                ==> r is None
            &&& 0 <= k < all.len() && all[k].id == pane && (forall|j: int|
                0 <= j < k ==> (#[trigger] all[j]).id != pane) ==> s == (all[k].cols, all[k].rows)
            &&& (forall|j: int| 0 <= j < all.len() ==> (#[trigger] all[j]).id != pane) ==> s == (
                80u16,
                24u16,
            )
        },
{
    let f = |p: ClientPane| p.id == pane;
    assert(f =~= crate::client::snapshot::pane_is(pane));
    if let Some(v) = view_of(views@, key@) {
        lemma_found(panes_of(v.panes@, tab), pane, k);
        lemma_found(all_panes(v.panes@), pane, k);
    }
}

proof fn lemma_found(panes: Seq<ClientPane>, pane: u32, k: int)
    ensures
        0 <= k < panes.len() && panes[k].id == pane && (forall|j: int|
            0 <= j < k ==> (#[trigger] panes[j]).id != pane) ==> find(
            panes,
            crate::client::snapshot::pane_is(pane),
        ) == Some(panes[k]),
        (forall|j: int| 0 <= j < panes.len() ==> (#[trigger] panes[j]).id != pane) ==> find(
            panes,
            crate::client::snapshot::pane_is(pane),
        ) is None,
{
    let f = crate::client::snapshot::pane_is(pane);
    if 0 <= k < panes.len() && panes[k].id == pane && (forall|j: int|
        0 <= j < k ==> (#[trigger] panes[j]).id != pane) {
        lemma_first_where(panes, f, k);
    }
    if forall|j: int| 0 <= j < panes.len() ==> (#[trigger] panes[j]).id != pane {
        lemma_no_first(panes, f);
    }
}

/// Replies are taken from the core only where nobody else reads them, and for
/// the pane that was asked for.
pub proof fn law_whose_replies_are_taken(
    shared: bool,
    workspace: &str,
    pane: u32,
    r: Option<CCall>,
)
    requires
        call_ensures(take_parser_replies, (shared, workspace, pane), r),
    ensures
        shared <==> r is None,
        r matches Some(call) ==> call@.function == CFunction::TakePaneReply && call@.args.len() == 2
            && call@.args[0] == CArgView::Text(c_text(workspace@)) && call@.args[1]
            == CArgView::Number(pane as u64),
{
}

/// The pane in front is reported as seen wherever a workspace is shown.
pub proof fn law_the_pane_in_front_is_seen(workspace: &str, pane: u32, r: Option<CCall>)
    requires
        call_ensures(mark_active_attention_visible, (workspace, pane), r),
    ensures
        r is None <==> workspace@.len() == 0,
        r matches Some(call) ==> call@.function == CFunction::AttentionVisible && call@.args.len()
            == 2 && call@.args[0] == CArgView::Text(c_text(workspace@)) && call@.args[1]
            == CArgView::Number(pane as u64),
{
}

} // verus!
