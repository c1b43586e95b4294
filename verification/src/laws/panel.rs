//! The panel: which items it offers, in what order, how their rows are named
//! and written, and how it is moved through.
use vstd::prelude::*;

use crate::client::attention::{ClientAttentionPane, ClientAttentionStatus};
use crate::linux::existing::{ExistingEntry, ExistingRuntime, ExistingTransport};
use crate::linux::panel_model::{
    all_rows, build_items, distinct_rows, existing_folder, existing_items, folder_place, item_views,
        known_rows, ordered_hosts, new_rows,
    new_targets, remote_rows, root_items, root_rows, target_ids, ExistingNav, ExistingPanelState,
    ExistingRow, PanelItem, PanelItemView, QuickBadge, QuickConnectEntry,
};
use crate::linux::panel_rows::{AttentionPanelRow, SearchRow, WorkspaceRow};
use crate::linux::quickconnect_panel::{
    attention_list, attention_panel_row, badge_class, existing_row_name, item_name, item_row,
    mute_seconds, panel_size, press_arrow, reachability_dot, reachable, search_list, target_line,
    workspace_list, workspace_state, ListRow, PanelSize, PanelTexts, RowActionView, SshReach,
};
use crate::linux::window_render::lemma_flat_contains;
use crate::linux::workspace_sidebar_model::ActivityIndicator;
use crate::seqs::{lemma_first_where, lemma_no_first};
use crate::text::number::decimal;
use crate::text::order::{lemma_text_lt_total, lemma_text_lt_transitive, text_lt};
use crate::text::{all_white, opt_view, trimmed};

verus! {

// ---------------------------------------------------------------------------
// Items.
// ---------------------------------------------------------------------------

/// Each target has its item, in the order of the targets; it is marked where
/// it is the one that is open, and a target that was not used lately belongs
/// to its project. The last item makes a new project.
pub proof fn law_items_of_the_targets(
    entries: Vec<QuickConnectEntry>,
    current: Option<&str>,
    projects: Vec<Option<String>>,
    r: Vec<PanelItem>,
    i: int,
)
    requires
        entries@.len() == projects@.len(),
        call_ensures(build_items, (&entries, current, &projects), r),
    ensures
        r@.len() == entries@.len() + 1,
        r@.last()@ == PanelItemView::NewProject,
        0 <= i < entries@.len() ==> (r@[i]@ matches PanelItemView::Target(e, open) && {
            &&& e.id == entries@[i].id@
            &&& e.config == entries@[i].config
            &&& e.badges == entries@[i].badges@
            &&& open <==> current is Some && (current->0)@ == entries@[i].id@
            &&& entries@[i].badges@.contains(QuickBadge::Recent) ==> e.project_id == opt_view(
                entries@[i].project_id,
            )
            &&& !entries@[i].badges@.contains(QuickBadge::Recent) ==> e.project_id == opt_view(
                projects@[i],
            )
        }),
{
    let items = item_views(r@);
    assert(items.len() == r@.len());
    assert(items[r@.len() - 1] == r@.last()@);
    if 0 <= i < entries@.len() {
        assert(items[i] == r@[i]@);
    }
}

/// The rows that run already are listed once each, in the order of their
/// identities.
pub proof fn law_running_rows_are_in_order(state: ExistingPanelState, i: int, j: int)
    ensures
        0 <= i < j < root_rows(state).len() ==> text_lt(
            root_rows(state)[i].id@,
            root_rows(state)[j].id@,
        ),
{
    let leq = crate::linux::panel_model::rows_by_id();
    let all = crate::linux::panel_model::all_rows(state.locals@, state.remote@);
    assert(crate::text::order::is_ranking(leq)) by {
        assert forall|a: ExistingRow, b: ExistingRow| #[trigger] leq(a, b) || leq(b, a) by {
            lemma_text_lt_total(a.id@, b.id@);
        }
        assert forall|a: ExistingRow, b: ExistingRow, c: ExistingRow| #[trigger]
            leq(a, b) && #[trigger] leq(b, c) implies leq(a, c) by {
            lemma_text_lt_total(a.id@, b.id@);
            lemma_text_lt_total(b.id@, c.id@);
            lemma_text_lt_total(a.id@, c.id@);
            if text_lt(c.id@, a.id@) {
                if a.id@ == b.id@ {
                } else if b.id@ == c.id@ {
                } else {
                    lemma_text_lt_transitive(a.id@, b.id@, c.id@);
                }
            }
        }
    }
    crate::text::order::lemma_stable_sorted(all, leq);
    let sorted = crate::text::order::stable_sorted(all, leq);
    lemma_distinct_in_order(sorted);
    if 0 <= i < j < root_rows(state).len() {
        crate::linux::panel_model::law_running_workspaces_are_listed_once(sorted, i, j);
        lemma_text_lt_total(root_rows(state)[i].id@, root_rows(state)[j].id@);
        assert(leq(distinct_rows(sorted)[i], distinct_rows(sorted)[j]));
    }
}

proof fn lemma_distinct_in_order(rows: Seq<ExistingRow>)
    requires
        crate::text::order::in_order(rows, crate::linux::panel_model::rows_by_id()),
    ensures
        crate::text::order::in_order(
            distinct_rows(rows),
            crate::linux::panel_model::rows_by_id(),
        ),
    decreases rows.len(),
{
    let leq = crate::linux::panel_model::rows_by_id();
    if rows.len() > 0 {
        let init = rows.drop_last();
        assert forall|i: int, j: int| 0 <= i < j < init.len() implies leq(
            #[trigger] init[i],
            #[trigger] init[j],
        ) by {
            assert(leq(rows[i], rows[j]));
        }
        lemma_distinct_in_order(init);
        let rest = distinct_rows(init);
        let all = distinct_rows(rows);
        assert forall|i: int, j: int| 0 <= i < j < all.len() implies leq(
            #[trigger] all[i],
            #[trigger] all[j],
        ) by {
            if j < rest.len() {
                assert(leq(rest[i], rest[j]));
            } else {
                lemma_distinct_member(init, rest[i]);
                let k = choose|k: int| 0 <= k < init.len() && init[k] == rest[i];
                assert(rows[k] == init[k]);
                assert(leq(rows[k], rows[rows.len() - 1]));
            }
        }
    }
}

proof fn lemma_distinct_member(rows: Seq<ExistingRow>, row: ExistingRow)
    ensures
        distinct_rows(rows).contains(row) ==> rows.contains(row),
    decreases rows.len(),
{
    if rows.len() > 0 {
        let init = rows.drop_last();
        lemma_distinct_member(init, row);
        let rest = distinct_rows(init);
        let all = distinct_rows(rows);
        if all.contains(row) {
            let n = choose|n: int| 0 <= n < all.len() && all[n] == row;
            if n < rest.len() {
                assert(rest[n] == row);
                assert(init.contains(row));
                let k = choose|k: int| 0 <= k < init.len() && init[k] == row;
                assert(rows[k] == row);
            } else {
                assert(rows[rows.len() - 1] == row);
            }
        }
    }
}

/// No row is lost: each identity of a row is that of a listed one.
pub proof fn law_no_identity_is_lost(rows: Seq<ExistingRow>, i: int)
    requires
        0 <= i < rows.len(),
    ensures
        exists|n: int|
            0 <= n < distinct_rows(rows).len() && (#[trigger] distinct_rows(rows)[n]).id@
                == rows[i].id@,
    decreases rows.len(),
{
    let init = rows.drop_last();
    let rest = distinct_rows(init);
    let all = distinct_rows(rows);
    if i < init.len() {
        law_no_identity_is_lost(init, i);
        let n = choose|n: int| 0 <= n < rest.len() && (#[trigger] rest[n]).id@ == init[i].id@;
        assert(all[n] == rest[n]);
    } else if crate::linux::panel_model::has_row_id(init, rows.last().id@) {
        let k = choose|k: int| 0 <= k < init.len() && (#[trigger] init[k]).id@ == rows.last().id@;
        law_no_identity_is_lost(init, k);
        let n = choose|n: int| 0 <= n < rest.len() && (#[trigger] rest[n]).id@ == init[k].id@;
        assert(all[n] == rest[n]);
    } else {
        assert(all[all.len() - 1] == rows[i]);
    }
}

/// Every row of this machine and every row of every host is among those that
/// run: one of its identity is listed.
pub proof fn law_no_running_row_is_lost(state: ExistingPanelState, i: int, h: int, k: int)
    requires
        state.remote@.len() <= usize::MAX,
    ensures
        0 <= i < state.locals@.len() ==> exists|n: int|
            0 <= n < root_rows(state).len() && (#[trigger] root_rows(state)[n]).id@
                == state.locals@[i].id@,
        0 <= h < state.remote@.len() && 0 <= k < state.remote@[h].1@.len() ==> exists|n: int|
            0 <= n < root_rows(state).len() && (#[trigger] root_rows(state)[n]).id@
                == state.remote@[h].1@[k].id@,
{
    let all = all_rows(state.locals@, state.remote@);
    if 0 <= i < state.locals@.len() {
        assert(all[i] == state.locals@[i]);
        lemma_listed(state, i);
    }
    if 0 <= h < state.remote@.len() && 0 <= k < state.remote@[h].1@.len() {
        let plain = Seq::new(state.remote@.len(), |j: int| (j as usize, state.remote@[j].0));
        let hosts = ordered_hosts(state.remote@);
        let leq = crate::linux::panel_model::hosts_by_alias();
        crate::laws::text::law_sorting_keeps_everything(plain, leq, h);
        let e = (h as usize, state.remote@[h].0);
        assert(plain[h] == e);
        assert(hosts.contains(e));
        let p = choose|p: int| 0 <= p < hosts.len() && hosts[p] == e;
        let lists = Seq::new(hosts.len(), |j: int| state.remote@[hosts[j].0 as int].1@);
        assert(lists[p] == state.remote@[h].1@);
        let m = lemma_flat_contains(lists, p, k);
        assert(all[state.locals@.len() + m] == state.remote@[h].1@[k]);
        lemma_listed(state, state.locals@.len() + m);
    }
}

proof fn lemma_listed(state: ExistingPanelState, i: int)
    requires
        0 <= i < all_rows(state.locals@, state.remote@).len(),
    ensures
        exists|n: int|
            0 <= n < root_rows(state).len() && (#[trigger] root_rows(state)[n]).id@ == all_rows(
                state.locals@,
                state.remote@,
            )[i].id@,
{
    let all = all_rows(state.locals@, state.remote@);
    let leq = crate::linux::panel_model::rows_by_id();
    let sorted = crate::text::order::stable_sorted(all, leq);
    crate::laws::text::law_sorting_keeps_everything(all, leq, i);
    let j = choose|j: int| 0 <= j < sorted.len() && sorted[j] == all[i];
    law_no_identity_is_lost(sorted, j);
    let rows = distinct_rows(sorted);
    let n = choose|n: int| 0 <= n < rows.len() && (#[trigger] rows[n]).id@ == sorted[j].id@;
    assert(root_rows(state)[n].id@ == all[i].id@);
}

/// The rows of all places are those of this machine and then those of each
/// host, in the order of the hosts.
pub proof fn law_rows_of_all_places(
    locals: Seq<ExistingRow>,
    hosts: Seq<String>,
    remote: Seq<(String, Vec<ExistingRow>)>,
    next: String,
)
    ensures
        known_rows(locals, Seq::<String>::empty(), remote) == locals,
        known_rows(locals, hosts.push(next), remote) == known_rows(locals, hosts, remote)
            + remote_rows(remote, next@),
{
    let none = Seq::<String>::empty();
    assert(known_rows(locals, none, remote) =~= locals);
    let before = Seq::new(hosts.len(), |i: int| remote_rows(remote, hosts[i]@));
    let more = hosts.push(next);
    let after = Seq::new(more.len(), |i: int| remote_rows(remote, more[i]@));
    assert(after.drop_last() =~= before);
    assert(known_rows(locals, more, remote) =~= known_rows(locals, hosts, remote) + remote_rows(
        remote,
        next@,
    ));
}

/// The identities of the targets in a list of items.
pub proof fn law_identities_of_targets(items: Seq<PanelItemView>, id: Seq<char>)
    ensures
        target_ids(items).contains(id) <==> exists|i: int|
            0 <= i < items.len() && (#[trigger] items[i] matches PanelItemView::Target(e, _) && e.id
                == id),
    decreases items.len(),
{
    if items.len() > 0 {
        let init = items.drop_last();
        law_identities_of_targets(init, id);
        assert(items.last() == items[items.len() - 1]);
        assert forall|i: int| 0 <= i < init.len() implies #[trigger] init[i] == items[i] by {}
        if exists|i: int|
            0 <= i < items.len() && (#[trigger] items[i] matches PanelItemView::Target(e, _) && e.id
                == id) {
            let i = choose|i: int|
                0 <= i < items.len() && (#[trigger] items[i] matches PanelItemView::Target(e, _)
                    && e.id == id);
            if i < init.len() {
                assert(init[i] == items[i]);
            }
        }
    }
}

/// A search adds a target exactly where nothing before it has its identity,
/// and a row that runs where no target has its identity.
pub proof fn law_what_a_search_adds(
    items: Seq<PanelItemView>,
    rows: Seq<ExistingRow>,
    seen: Set<Seq<char>>,
    i: int,
)
    ensures
        0 <= i < items.len() && items[i] is Target && !seen.contains(items[i]->Target_0.id) && (
        forall|j: int|
            0 <= j < i ==> !(#[trigger] items[j] matches PanelItemView::Target(e, _) && e.id
                == items[i]->Target_0.id)) ==> new_targets(items, seen).contains(items[i]),
        forall|n: int|
            0 <= n < new_targets(items, seen).len() ==> (#[trigger] new_targets(
                items,
                seen,
            )[n]) is Target && !seen.contains(new_targets(items, seen)[n]->Target_0.id),
        0 <= i < rows.len() && !seen.contains(rows[i].id@) ==> new_rows(rows, seen).contains(
            PanelItemView::Existing(rows[i]),
        ),
        forall|n: int|
            0 <= n < new_rows(rows, seen).len() ==> (#[trigger] new_rows(
                rows,
                seen,
            )[n]) is Existing && !seen.contains(new_rows(rows, seen)[n]->Existing_0.id@),
{
    lemma_added_targets(items, seen, i);
    lemma_added_rows(rows, seen, i);
}

proof fn lemma_added_targets(items: Seq<PanelItemView>, seen: Set<Seq<char>>, i: int)
    ensures
        0 <= i < items.len() && items[i] is Target && !seen.contains(items[i]->Target_0.id) && (
        forall|j: int|
            0 <= j < i ==> !(#[trigger] items[j] matches PanelItemView::Target(e, _) && e.id
                == items[i]->Target_0.id)) ==> new_targets(items, seen).contains(items[i]),
        forall|n: int|
            0 <= n < new_targets(items, seen).len() ==> (#[trigger] new_targets(
                items,
                seen,
            )[n]) is Target && !seen.contains(new_targets(items, seen)[n]->Target_0.id),
    decreases items.len(),
{
    if items.len() > 0 {
        let init = items.drop_last();
        lemma_added_targets(init, seen, i);
        let rest = new_targets(init, seen);
        let all = new_targets(items, seen);
        if 0 <= i < items.len() && items[i] is Target && !seen.contains(items[i]->Target_0.id) && (
        forall|j: int|
            0 <= j < i ==> !(#[trigger] items[j] matches PanelItemView::Target(e, _) && e.id
                == items[i]->Target_0.id)) {
            if i < init.len() {
                assert forall|j: int| 0 <= j < i implies !(
                #[trigger] init[j] matches PanelItemView::Target(e, _) && e.id
                    == init[i]->Target_0.id) by {
                    assert(init[j] == items[j]);
                }
                assert(rest.contains(init[i]));
                let n = choose|n: int| 0 <= n < rest.len() && rest[n] == init[i];
                assert(all[n] == items[i]);
            } else {
                law_identities_of_targets(init, items[i]->Target_0.id);
                assert forall|j: int| 0 <= j < init.len() implies !(
                #[trigger] init[j] matches PanelItemView::Target(e, _) && e.id
                    == items[i]->Target_0.id) by {
                    assert(init[j] == items[j]);
                }
                assert(all[all.len() - 1] == items[i]);
            }
        }
        assert forall|n: int| 0 <= n < all.len() implies (#[trigger] all[n]) is Target
            && !seen.contains(all[n]->Target_0.id) by {
            if n < rest.len() {
                assert(rest[n] == all[n]);
            }
        }
    }
}

proof fn lemma_added_rows(rows: Seq<ExistingRow>, seen: Set<Seq<char>>, i: int)
    ensures
        0 <= i < rows.len() && !seen.contains(rows[i].id@) ==> new_rows(rows, seen).contains(
            PanelItemView::Existing(rows[i]),
        ),
        forall|n: int|
            0 <= n < new_rows(rows, seen).len() ==> (#[trigger] new_rows(
                rows,
                seen,
            )[n]) is Existing && !seen.contains(new_rows(rows, seen)[n]->Existing_0.id@),
    decreases rows.len(),
{
    if rows.len() > 0 {
        let init = rows.drop_last();
        lemma_added_rows(init, seen, i);
        let rest = new_rows(init, seen);
        let all = new_rows(rows, seen);
        if 0 <= i < rows.len() && !seen.contains(rows[i].id@) {
            if i < init.len() {
                assert(init[i] == rows[i]);
                let n = choose|n: int|
                    0 <= n < rest.len() && rest[n] == PanelItemView::Existing(init[i]);
                assert(all[n] == PanelItemView::Existing(rows[i]));
            } else {
                assert(all[all.len() - 1] == PanelItemView::Existing(rows[i]));
            }
        }
        assert forall|n: int| 0 <= n < all.len() implies (#[trigger] all[n]) is Existing
            && !seen.contains(all[n]->Existing_0.id@) by {
            if n < rest.len() {
                assert(rest[n] == all[n]);
            }
        }
    }
}

/// No target is added twice.
pub proof fn law_no_target_is_added_twice(
    items: Seq<PanelItemView>,
    seen: Set<Seq<char>>,
    i: int,
    j: int,
)
    requires
        0 <= i < j < new_targets(items, seen).len(),
    ensures
        new_targets(items, seen)[i]->Target_0.id != new_targets(items, seen)[j]->Target_0.id,
    decreases items.len(),
{
    let init = items.drop_last();
    let rest = new_targets(init, seen);
    let all = new_targets(items, seen);
    if j < rest.len() {
        law_no_target_is_added_twice(init, seen, i, j);
    } else {
        lemma_added_is_listed(init, seen, i);
    }
}

proof fn lemma_added_is_listed(items: Seq<PanelItemView>, seen: Set<Seq<char>>, i: int)
    requires
        0 <= i < new_targets(items, seen).len(),
    ensures
        new_targets(items, seen)[i] is Target,
        target_ids(items).contains(new_targets(items, seen)[i]->Target_0.id),
    decreases items.len(),
{
    let init = items.drop_last();
    let rest = new_targets(init, seen);
    if i < rest.len() {
        lemma_added_is_listed(init, seen, i);
    }
}

/// A search keeps the items of the panel first, and says that it is looking
/// where nothing runs that is known yet.
pub proof fn law_a_search_keeps_the_items(
    base: Seq<PanelItemView>,
    search: Seq<PanelItemView>,
    existing: ExistingPanelState,
    query: Seq<char>,
)
    ensures
        all_white(query) ==> root_items(base, search, existing, query) == base,
        root_items(base, search, existing, query).len() >= base.len(),
        root_items(base, search, existing, query).take(base.len() as int) == base,
        !all_white(query) && root_rows(existing).len() == 0 && existing.probe_inflight
            ==> root_items(base, search, existing, query).last() == PanelItemView::Loading,
        !all_white(query) && !existing.probe_inflight ==> root_items(
            base,
            search,
            existing,
            query,
        ).len() == base.len() + new_targets(search, target_ids(base)).len() + new_rows(
            root_rows(existing),
            target_ids(base).union(target_ids(search)),
        ).len(),
{
    assert(root_items(base, search, existing, query).take(base.len() as int) =~= base);
    if root_rows(existing).len() == 0 {
        assert(new_rows(root_rows(existing), target_ids(base).union(target_ids(search))).len()
            == 0);
    }
}

/// What a place of the list shows: below the way back, the home has the two
/// folders, a place with rows has these, and one without says that it is
/// looking or that it is empty.
pub proof fn law_what_a_place_shows(
    state: ExistingPanelState,
    empty: &str,
    r: Vec<PanelItem>,
    i: int,
)
    requires
        call_ensures(existing_items, (&state, empty), r),
    ensures
        r@.len() >= 2,
        r@[0]@ == PanelItemView::Back,
        state.nav is Home ==> r@.len() == 3 && r@[1]@ == (PanelItemView::Folder {
            id: "existing-local"@,
            title: "Local"@,
        }) && r@[2]@ == (PanelItemView::Folder { id: "existing-ssh"@, title: "SSH"@ }),
        state.nav is Root && known_rows(state.locals@, state.hosts@, state.remote@).len() > 0
            ==> r@.len() == known_rows(state.locals@, state.hosts@, state.remote@).len() + 1 && (0
            <= i < known_rows(state.locals@, state.hosts@, state.remote@).len() ==> r@[i + 1]@
            == PanelItemView::Existing(known_rows(state.locals@, state.hosts@, state.remote@)[i])),
        state.nav is Root && known_rows(state.locals@, state.hosts@, state.remote@).len() == 0
            && state.probe_inflight ==> r@.len() == 2 && r@[1]@ == PanelItemView::Loading,
        state.nav is Local && state.locals@.len() == 0 ==> r@.len() == 2 && r@[1]@ == (
        PanelItemView::Empty { title: empty@ }),
        state.nav is Local && state.locals@.len() > 0 ==> r@.len() == state.locals@.len() + 1,
        state.nav is Local && 0 <= i < state.locals@.len() ==> r@[i + 1]@
            == PanelItemView::Existing(state.locals@[i]),
        state.nav is SshHosts && state.hosts@.len() == 0 && state.probe_inflight ==> r@.len() == 2
            && r@[1]@ == PanelItemView::Loading,
        state.nav is SshHosts && state.hosts@.len() == 0 && !state.probe_inflight ==> r@.len() == 2
            && r@[1]@ == (PanelItemView::Empty { title: empty@ }),
        state.nav is SshHosts && state.hosts@.len() > 0 ==> r@.len() == state.hosts@.len() + 1,
        state.nav is SshHosts && 0 <= i < state.hosts@.len() ==> r@[i + 1]@ == (
        PanelItemView::Host { alias: state.hosts@[i]@ }),
        state.nav matches ExistingNav::SshHost { alias } ==> {
            let rows = remote_rows(state.remote@, alias@);
            &&& rows.len() == 0 ==> r@.len() == 2 && r@[1]@ == (PanelItemView::Empty {
                title: empty@,
            })
            &&& rows.len() > 0 ==> r@.len() == rows.len() + 1
            &&& 0 <= i < rows.len() ==> r@[i + 1]@ == PanelItemView::Existing(rows[i])
        },
{
    let items = item_views(r@);
    assert(items.len() == r@.len());
    assert(items[0] == r@[0]@);
    assert(items[1] == r@[1]@);
    if r@.len() > 2 {
        assert(items[2] == r@[2]@);
    }
    if 0 <= i < r@.len() - 1 {
        assert(items[i + 1] == r@[i + 1]@);
    }
}

/// The rows of a host are those of the first entry under its alias.
pub proof fn law_the_rows_of_a_host(
    remote: Seq<(String, Vec<ExistingRow>)>,
    alias: Seq<char>,
    k: int,
)
    ensures
        0 <= k < remote.len() && remote[k].0@ == alias && (forall|j: int|
            0 <= j < k ==> (#[trigger] remote[j]).0@ != alias) ==> remote_rows(remote, alias)
            == remote[k].1@,
        (forall|j: int| 0 <= j < remote.len() ==> (#[trigger] remote[j]).0@ != alias)
            ==> remote_rows(remote, alias).len() == 0,
{
    let f = crate::linux::panel_model::host_is(alias);
    if 0 <= k < remote.len() && remote[k].0@ == alias && (forall|j: int|
        0 <= j < k ==> (#[trigger] remote[j]).0@ != alias) {
        lemma_first_where(remote, f, k);
    }
    if forall|j: int| 0 <= j < remote.len() ==> (#[trigger] remote[j]).0@ != alias {
        lemma_no_first(remote, f);
    }
}

/// A folder leads to its place.
pub proof fn law_where_a_folder_leads(id: Seq<char>)
    ensures
        folder_place(id) == Some(ExistingNav::Home) <==> id == "existing-connections"@,
        folder_place(id) == Some(ExistingNav::Local) <==> id == "existing-local"@,
        folder_place(id) == Some(ExistingNav::SshHosts) <==> id == "existing-ssh"@,
        existing_folder(id) == (PanelItemView::Folder { id: "existing-connections"@, title: id }),
{
    reveal_strlit("existing-connections");
    reveal_strlit("existing-local");
    reveal_strlit("existing-ssh");
    assert("existing-connections"@.len() == 20);
    assert("existing-local"@.len() == 14);
    assert("existing-ssh"@.len() == 12);
}

// ---------------------------------------------------------------------------
// Rows.
// ---------------------------------------------------------------------------

/// Each item is named after what it stands for.
pub proof fn law_names_of_items(
    entry: QuickConnectEntry,
    current: bool,
    row: ExistingRow,
    folder: &'static str,
    text: String,
)
    ensures
        item_name(PanelItem::Target(entry, current)) == entry.id@,
        item_name(PanelItem::NewProject) == "__new_project__"@,
        item_name((PanelItem::Folder { id: folder, title: text })) == "muxterm-"@ + folder@,
        item_name(PanelItem::Back) == "muxterm-existing-back"@,
        item_name((PanelItem::Host { alias: text })) == "muxterm-existing-host-"@ + text@,
        item_name(PanelItem::Loading) == "muxterm-existing-ssh-loading"@,
        item_name((PanelItem::Empty { title: text })) == "muxterm-existing-empty"@,
        item_name(PanelItem::Existing(row)) == existing_row_name(row.entry),
{
}

/// A row that runs is named by its runtime, its transport and its identity:
/// the workspace of Herdr, else the session of tmux, else its title; with
/// Herdr its session follows.
pub proof fn law_names_of_running_rows(e: ExistingEntry, own: Seq<char>)
    requires
        own == (if e.herdr_workspace_id is Some {
            e.herdr_workspace_id->0@
        } else if e.tmux_session is Some {
            e.tmux_session->0@
        } else {
            e.title@
        }),
    ensures
        e.runtime == ExistingRuntime::Shell && e.transport is Local ==> existing_row_name(e)
            == "muxterm-existing-row-"@ + "shell"@ + "-"@ + "local"@ + "-"@ + own,
        e.runtime == ExistingRuntime::Tmux && e.transport is Local ==> existing_row_name(e)
            == "muxterm-existing-row-"@ + "tmux"@ + "-"@ + "local"@ + "-"@ + own,
        e.runtime == ExistingRuntime::Tmux ==> (e.transport matches ExistingTransport::Ssh {
            name,
        } ==> existing_row_name(e) == "muxterm-existing-row-"@ + "tmux"@ + "-"@ + name@ + "-"@
            + own),
        e.runtime == ExistingRuntime::Herdr && e.transport is Local && e.herdr_session is Some
            ==> existing_row_name(e) == "muxterm-existing-row-"@ + "herdr"@ + "-"@ + "local"@ + "-"@
            + (own + "-"@ + e.herdr_session->0@),
        e.runtime == ExistingRuntime::Herdr && e.transport is Local && e.herdr_session is None
            ==> existing_row_name(e) == "muxterm-existing-row-"@ + "herdr"@ + "-"@ + "local"@ + "-"@
            + (own + "-"@ + "default"@),
{
}

/// Each item has its text; targets and rows that run have widgets of their
/// own. An item that says that there is nothing cannot be activated.
pub proof fn law_rows_of_items(
    rows: Vec<WorkspaceRow>,
    texts: PanelTexts,
    r: Vec<ListRow>,
    i: int,
)
    requires
        call_ensures(workspace_list, (&rows, &texts), r),
        0 <= i < rows@.len(),
    ensures
        r@.len() == rows@.len(),
        r@[i]@.name == item_name(rows@[i].item),
        r@[i]@.action == RowActionView::Item(i as usize),
        r@[i]@.activatable <==> !(rows@[i].item is Loading) && !(rows@[i].item is Empty),
        rows@[i].item is Target || rows@[i].item is Existing ==> r@[i]@.text is None,
        rows@[i].item is NewProject ==> r@[i]@.text == Some("＋ "@ + texts.new_project@),
        rows@[i].item is Back ==> r@[i]@.text == Some(texts.back@),
        rows@[i].item is Loading ==> r@[i]@.text == Some(texts.probing@),
        rows@[i].item matches PanelItem::Folder { id, title } ==> r@[i]@.text == Some(title@),
        rows@[i].item matches PanelItem::Host { alias } ==> r@[i]@.text == Some(alias@),
        rows@[i].item matches PanelItem::Empty { title } ==> r@[i]@.text == Some(title@),
        rows@[i].item is Target && rows@[i].status == Some(ClientAttentionStatus::Blocked)
            ==> r@[i]@.mark == Some("● "@),
        rows@[i].item is Target && rows@[i].status == Some(ClientAttentionStatus::Done)
            ==> r@[i]@.mark == Some("✓ "@),
        rows@[i].item is Target && rows@[i].status is None ==> r@[i]@.mark is None,
        !(rows@[i].item is Target) ==> r@[i]@.mark is None,
{
    let views = crate::linux::quickconnect_panel::row_views(r@);
    assert(views.len() == r@.len());
    assert(views[i] == r@[i]@);
    assert(views[i] == item_row(rows@[i], texts, i));
}

/// The list of attention starts with the count, says where it is empty, and
/// has a row for each pane that leads to it.
pub proof fn law_rows_of_attention(
    rows: Vec<AttentionPanelRow>,
    count: &str,
    empty: &str,
    r: Vec<ListRow>,
    i: int,
)
    requires
        call_ensures(attention_list, (&rows, count, empty), r),
    ensures
        r@.len() >= 1 && r@[0]@.text == Some(count@) && !r@[0]@.activatable && r@[0]@.action
            is Nothing,
        rows@.len() == 0 ==> r@.len() == 2 && r@[1]@.text == Some(empty@) && !r@[1]@.activatable,
        rows@.len() > 0 ==> r@.len() == rows@.len() + 1,
        0 <= i < rows@.len() ==> r@[i + 1]@.activatable && r@[i + 1]@.action == (
        RowActionView::Jump {
            workspace_id: rows@[i].workspace_id@,
            pane_id: rows@[i].pane_id,
            seq: 0,
        }) && r@[i + 1]@.name == "muxterm-attention-"@ + rows@[i].workspace_id@ + "-"@ + decimal(
            rows@[i].pane_id as nat,
        ),
{
    reveal_strlit("-");
    assert("-"@ =~= seq!['-']);
    let views = crate::linux::quickconnect_panel::row_views(r@);
    assert(views.len() == r@.len());
    assert(views[0] == r@[0]@);
    if r@.len() > 1 {
        assert(views[1] == r@[1]@);
    }
    if 0 <= i < rows@.len() {
        assert(views[i + 1] == r@[i + 1]@);
    }
}

/// Each hit has a row that leads to its line.
pub proof fn law_rows_of_hits(rows: Vec<SearchRow>, r: Vec<ListRow>, i: int)
    requires
        call_ensures(search_list, (&rows,), r),
        0 <= i < rows@.len(),
    ensures
        r@.len() == rows@.len(),
        r@[i]@.activatable,
        r@[i]@.action == (RowActionView::Jump {
            workspace_id: rows@[i].workspace_id@,
            pane_id: rows@[i].pane_id,
            seq: rows@[i].seq,
        }),
        r@[i]@.text == Some(
            rows@[i].workspace_id@ + " · "@ + decimal(rows@[i].pane_id as nat) + " · "@
                + rows@[i].line@,
        ),
        r@[i]@.name == "muxterm-search-hit-"@ + rows@[i].workspace_id@ + "-"@ + decimal(
            rows@[i].pane_id as nat,
        ) + "-"@ + decimal(rows@[i].seq as nat),
{
    let views = crate::linux::quickconnect_panel::row_views(r@);
    assert(views.len() == r@.len());
    assert(views[i] == r@[i]@);
}

/// A workspace is blocked where one of its panes is, else done where one of
/// its panes is, else idle where it has a pane.
pub proof fn law_the_state_of_a_workspace(
    panes: Seq<ClientAttentionPane>,
    workspace: Seq<char>,
    k: int,
)
    ensures
        0 <= k < panes.len() && panes[k].workspace_id@ == workspace && panes[k].status@
            == "blocked"@ ==> workspace_state(panes, workspace) == Some(
            ClientAttentionStatus::Blocked,
        ),
        0 <= k < panes.len() && panes[k].workspace_id@ == workspace && panes[k].status@ == "done"@
            && (forall|j: int|
            0 <= j < panes.len() ==> !((#[trigger] panes[j]).workspace_id@ == workspace
                && panes[j].status@ == "blocked"@)) ==> workspace_state(panes, workspace) == Some(
            ClientAttentionStatus::Done,
        ),
        0 <= k < panes.len() && panes[k].workspace_id@ == workspace && (forall|j: int|
            0 <= j < panes.len() ==> !((#[trigger] panes[j]).workspace_id@ == workspace && (
            panes[j].status@ == "blocked"@ || panes[j].status@ == "done"@))) ==> workspace_state(
            panes,
            workspace,
        ) == Some(ClientAttentionStatus::Idle),
        (forall|j: int| 0 <= j < panes.len() ==> (#[trigger] panes[j]).workspace_id@ != workspace)
            ==> workspace_state(panes, workspace) is None,
{
    crate::laws::attention::law_states_are_words("blocked"@);
    crate::laws::attention::law_states_are_words("done"@);
    assert forall|j: int| 0 <= j < panes.len() implies (crate::client::attention::status_of(
        (#[trigger] panes[j]).status@,
    ) == ClientAttentionStatus::Blocked <==> panes[j].status@ == "blocked"@) && (
    crate::client::attention::status_of(panes[j].status@) == ClientAttentionStatus::Done
        <==> panes[j].status@ == "done"@) by {
        crate::laws::attention::law_states_are_words(panes[j].status@);
    }
}

/// The line of a target ends with its path where it has one.
pub proof fn law_the_line_of_a_target(subtitle: Seq<char>, path: Seq<char>)
    ensures
        trimmed(path).len() == 0 ==> target_line(subtitle, path) == subtitle,
        trimmed(path).len() > 0 ==> target_line(subtitle, path) == subtitle + " · "@ + path,
{
}

/// Words of the panel.
pub proof fn law_words_of_the_panel(
    reach: SshReach,
    badge: QuickBadge,
    mark: ActivityIndicator,
    dot: &'static str,
    class: &'static str,
    word: Option<&'static str>,
)
    requires
        call_ensures(reachability_dot, (reach,), dot),
        call_ensures(badge_class, (badge,), class),
        call_ensures(attention_panel_row, (mark,), word),
    ensures
        reach == SshReach::Reachable ==> dot@ == "SSH reachable"@,
        reach == SshReach::Unreachable ==> dot@ == "SSH unreachable"@,
        reach == SshReach::Unknown ==> dot@ == "SSH reachability unknown"@,
        badge == QuickBadge::Recent ==> class@ == "qc-badge-recent"@,
        badge == QuickBadge::Project ==> class@ == "qc-badge-project"@,
        mark == ActivityIndicator::Running ==> word is Some && (word->0)@ == "running"@,
        mark == ActivityIndicator::Done ==> word is Some && (word->0)@ == "done"@,
        mark == ActivityIndicator::Quiet ==> word is None,
{
}

/// The menu mutes for five, ten and thirty minutes, for one hour and four
/// hours, and for a day.
pub proof fn law_how_long_a_pane_is_muted(entry: usize, r: Option<u64>)
    requires
        call_ensures(mute_seconds, (entry,), r),
    ensures
        entry == 0 ==> r == Some((5u64 * 60) as u64),
        entry == 1 ==> r == Some((10u64 * 60) as u64),
        entry == 2 ==> r == Some((30u64 * 60) as u64),
        entry == 3 ==> r == Some((60u64 * 60) as u64),
        entry == 4 ==> r == Some((4u64 * 60 * 60) as u64),
        entry == 5 ==> r == Some((24u64 * 60 * 60) as u64),
        entry > 5 ==> r is None,
{
}

/// The panel is as wide as its window less a margin of 32, at least 1 and at
/// most 640; half as high as its window, at least 200 and at most 420; and its
/// list is 44 lower than it.
pub proof fn law_the_size_of_the_panel(w: i32, h: i32, r: PanelSize)
    requires
        call_ensures(panel_size, (w, h), r),
    ensures
        1 <= r.width <= 640,
        w <= 0 || w >= 672 ==> r.width == 640,
        33 <= w <= 672 ==> r.width == w - 32,
        0 < w <= 33 ==> r.width == 1,
        200 <= r.height <= 420,
        h <= 400 ==> r.height == 200,
        h >= 840 ==> r.height == 420,
        400 <= h <= 841 ==> 2 * r.height <= h <= 2 * r.height + 1,
        r.list_height + 44 == r.height,
{
}

// ---------------------------------------------------------------------------
// Movement.
// ---------------------------------------------------------------------------

/// An arrow goes to the next row in its direction that can be activated; it
/// goes nowhere where there is none. Without a selection it starts at the end
/// that the direction comes from.
pub proof fn law_where_an_arrow_goes(
    rows: Vec<bool>,
    selected: usize,
    down: Option<usize>,
    up: Option<usize>,
    first: Option<usize>,
    last: Option<usize>,
)
    requires
        selected < rows@.len(),
        call_ensures(press_arrow, (&rows, Some(selected), true), down),
        call_ensures(press_arrow, (&rows, Some(selected), false), up),
        call_ensures(press_arrow, (&rows, None, true), first),
        call_ensures(press_arrow, (&rows, None, false), last),
    ensures
        match down {
            Some(i) => selected < i < rows@.len() && rows@[i as int] && forall|j: int|
                selected < j < i ==> !#[trigger] rows@[j],
            None => forall|j: int| selected < j < rows@.len() ==> !#[trigger] rows@[j],
        },
        match up {
            Some(i) => i < selected && rows@[i as int] && forall|j: int|
                i < j < selected ==> !#[trigger] rows@[j],
            None => forall|j: int| 0 <= j < selected ==> !#[trigger] rows@[j],
        },
        match first {
            Some(i) => i < rows@.len() && rows@[i as int] && forall|j: int|
                0 <= j < i ==> !#[trigger] rows@[j],
            None => forall|j: int| 0 <= j < rows@.len() ==> !#[trigger] rows@[j],
        },
        match last {
            Some(i) => i < rows@.len() && rows@[i as int] && forall|j: int|
                i < j < rows@.len() ==> !#[trigger] rows@[j],
            None => forall|j: int| 0 <= j < rows@.len() ==> !#[trigger] rows@[j],
        },
{
    lemma_reachable(rows@, selected + 1, true);
    lemma_reachable(rows@, selected - 1, false);
    lemma_reachable(rows@, 0, true);
    lemma_reachable(rows@, rows@.len() - 1, false);
}

proof fn lemma_reachable(rows: Seq<bool>, from: int, down: bool)
    requires
        -1 <= from <= rows.len(),
    ensures
        match reachable(rows, from, down) {
            Some(i) => 0 <= i < rows.len() && rows[i] && (down ==> from <= i && forall|j: int|
                from <= j < i ==> !#[trigger] rows[j]) && (!down ==> i <= from && forall|j: int|
                i < j <= from ==> !#[trigger] rows[j]),
            None => (down
                && from >= 0 ==> forall|j: int| from <= j < rows.len() ==> !#[trigger] rows[j]) && (
            !down && from < rows.len() ==> forall|j: int| 0 <= j <= from ==> !#[trigger] rows[j]),
        },
    decreases if down {
        rows.len() - from
    } else {
        from + 1
    },
{
    if 0 <= from < rows.len() && !rows[from] {
        if down {
            lemma_reachable(rows, from + 1, down);
        } else {
            lemma_reachable(rows, from - 1, down);
        }
    }
}

} // verus!
