//! What the core reports and what was seen here, put together: workspaces,
//! their panes and their counts.
use vstd::prelude::*;

use crate::client::attention::{
    attention_rows, core_blocked, has_state, merged_workspaces, newly_blocked, recounted, touched,
    with_panes, with_workspace, with_workspaces, AttentionView, ClientAttentionPane,
    ClientWorkspaceAttention,
};
use crate::linux::window_render::{lemma_flat_contains, lemma_flat_origin};
use crate::seqs::{lemma_first_where, lemma_no_first};

verus! {

/// What was seen of a workspace goes to the first workspace of that name, and
/// changes nothing of it but its panes.
pub proof fn law_what_was_seen_goes_to_its_workspace(
    core: Seq<AttentionView>,
    seen: AttentionView,
    k: int,
    j: int,
)
    requires
        0 <= k < core.len(),
        core[k].workspace_id == seen.workspace_id,
        forall|i: int| 0 <= i < k ==> (#[trigger] core[i]).workspace_id != seen.workspace_id,
    ensures
        with_workspace(core, seen).len() == core.len(),
        with_workspace(core, seen)[k].panes == with_panes(core[k].panes, seen.panes),
        with_workspace(core, seen)[k].workspace_id == core[k].workspace_id,
        with_workspace(core, seen)[k].path == core[k].path,
        0 <= j < core.len() && j != k ==> with_workspace(core, seen)[j] == core[j],
{
    lemma_first_where(core, crate::client::attention::attention_is(seen.workspace_id), k);
}

/// A workspace that only was seen here is added at the end, with its panes.
pub proof fn law_a_workspace_that_was_only_seen(core: Seq<AttentionView>, seen: AttentionView)
    requires
        forall|i: int|
            0 <= i < core.len() ==> (#[trigger] core[i]).workspace_id != seen.workspace_id,
    ensures
        with_workspace(core, seen).len() == core.len() + 1,
        with_workspace(core, seen).drop_last() == core,
        with_workspace(core, seen).last().workspace_id == seen.workspace_id,
        with_workspace(core, seen).last().path.len() == 0,
        with_workspace(core, seen).last().panes == with_panes(
            Seq::<ClientAttentionPane>::empty(),
            seen.panes,
        ),
{
    lemma_no_first(core, crate::client::attention::attention_is(seen.workspace_id));
    assert(with_workspace(core, seen).drop_last() =~= core);
}

/// Workspaces are put together one after the other.
pub proof fn law_workspaces_are_merged_in_order(
    core: Seq<AttentionView>,
    seen: Seq<AttentionView>,
    next: AttentionView,
)
    ensures
        with_workspaces(core, Seq::<AttentionView>::empty()) == core,
        with_workspaces(core, seen.push(next)) == with_workspace(with_workspaces(core, seen), next),
{
    assert(seen.push(next).drop_last() =~= seen);
}

/// A workspace is counted again exactly where a pane of it was seen with a
/// state; the counts of the others are those of the core.
pub proof fn law_who_is_counted_again(
    core: Seq<AttentionView>,
    seen: Seq<AttentionView>,
    i: int,
    j: int,
    k: int,
)
    requires
        0 <= i < with_workspaces(core, seen).len(),
    ensures
        merged_workspaces(core, seen).len() == with_workspaces(core, seen).len(),
        0 <= j < seen.len() && 0 <= k < seen[j].panes.len() && seen[j].workspace_id
            == with_workspaces(core, seen)[i].workspace_id && has_state(seen[j].panes[k])
            ==> merged_workspaces(core, seen)[i] == recounted(with_workspaces(core, seen)[i]),
        (forall|j: int, k: int|
            0 <= j < seen.len() && 0 <= k < seen[j].panes.len() && seen[j].workspace_id
                == with_workspaces(core, seen)[i].workspace_id ==> !has_state(
                #[trigger] seen[j].panes[k],
            )) ==> merged_workspaces(core, seen)[i] == with_workspaces(core, seen)[i],
{
}

/// A workspace counts as newly blocked where it was seen here, has something
/// blocked now, and had nothing blocked for the core.
pub proof fn law_which_workspaces_are_newly_blocked(
    merged: Seq<AttentionView>,
    core: Seq<AttentionView>,
    seen: Seq<AttentionView>,
    w: AttentionView,
)
    ensures
        newly_blocked(Seq::<AttentionView>::empty(), core, seen) == 0,
        touched(seen, w.workspace_id) && w.blocked > 0 && (forall|i: int|
            0 <= i < core.len() && (#[trigger] core[i]).workspace_id == w.workspace_id
                ==> core[i].blocked == 0) ==> newly_blocked(merged.push(w), core, seen)
            == newly_blocked(merged, core, seen) + 1,
        !touched(seen, w.workspace_id) || w.blocked == 0 || core_blocked(core, w.workspace_id)
            ==> newly_blocked(merged.push(w), core, seen) == newly_blocked(merged, core, seen),
{
    assert(merged.push(w).drop_last() =~= merged);
}

/// The core has something blocked where one of its workspaces of that name
/// has.
pub proof fn law_what_the_core_has_blocked(core: Seq<AttentionView>, id: Seq<char>, k: int)
    ensures
        0 <= k < core.len() && core[k].workspace_id == id && core[k].blocked > 0 ==> core_blocked(
            core,
            id,
        ),
        (forall|i: int|
            0 <= i < core.len() && (#[trigger] core[i]).workspace_id == id ==> core[i].blocked
                == 0) ==> !core_blocked(core, id),
{
}

/// The rows of attention are the panes of all workspaces.
pub proof fn law_rows_are_the_panes_of_all_workspaces(
    workspaces: Seq<ClientWorkspaceAttention>,
    p: ClientAttentionPane,
)
    ensures
        attention_rows(workspaces).contains(p) <==> exists|i: int|
            0 <= i < workspaces.len() && (#[trigger] workspaces[i]).panes@.contains(p),
{
    let rows = Seq::new(workspaces.len(), |j: int| workspaces[j].panes@);
    let all = attention_rows(workspaces);
    if all.contains(p) {
        let n = choose|n: int| 0 <= n < all.len() && all[n] == p;
        let (i, k) = lemma_flat_origin(rows, n);
        assert(workspaces[i].panes@[k] == p);
        assert(workspaces[i].panes@.contains(p));
    }
    if exists|i: int| 0 <= i < workspaces.len() && (#[trigger] workspaces[i]).panes@.contains(p) {
        let i = choose|i: int|
            0 <= i < workspaces.len() && (#[trigger] workspaces[i]).panes@.contains(p);
        let k = choose|k: int| 0 <= k < workspaces[i].panes@.len() && workspaces[i].panes@[k] == p;
        let n = lemma_flat_contains(rows, i, k);
        assert(all[n] == p);
    }
}

} // verus!
