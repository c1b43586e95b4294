//! Attention: which panes and agents are listed for a query, in which order,
//! and what their rows show.
use vstd::prelude::*;
use vstd::string::*;

use crate::client::attention::{
    count_status, has_state, pane_id_is, pane_with_owner, recounted, status_of, with_pane,
    with_panes, AttentionView, ClientAttentionPane,
};
use crate::linux::panel_rows::{
    agent_row, attention_panel, by_urgency, hit_matches, is_agent_pane, lemma_urgency_is_ranking,
    linked_pane, needle_of, plain_row, plain_rows, shown_panes, urgent_panes, AttentionPanelView,
    SearchRow,
};
use crate::linux::workspace_sidebar_model::AgentSidebarItem;
use crate::seqs::{
    find, first_where, flat, is_first, lemma_find, lemma_first_where, lemma_flat_holds,
    lemma_flat_member, lemma_no_first,
};
use crate::text::find::{contains, occurs_at};
use crate::text::order::{lemma_stable_sorted, stable_sorted};
use crate::text::{all_white, lowercase_of, trimmed};

verus! {

/// `n` stands somewhere in `h`.
pub open spec fn stands_in(n: Seq<char>, h: Seq<char>) -> bool {
    exists|k: int| 0 <= k && k + n.len() <= h.len() && #[trigger] h.subrange(k, k + n.len()) == n
}

proof fn lemma_stands_in(n: Seq<char>, h: Seq<char>)
    ensures
        stands_in(n, h) == contains(h, n),
{
    if stands_in(n, h) {
        let k = choose|k: int|
            0 <= k && k + n.len() <= h.len() && #[trigger] h.subrange(k, k + n.len()) == n;
        assert(occurs_at(h, n, k));
    }
    if contains(h, n) {
        let k = choose|k: int| occurs_at(h, n, k);
        assert(h.subrange(k, k + n.len()) == n);
    }
}

/// A pane runs, or it stopped and nobody has read it.
pub open spec fn wants_attention(p: ClientAttentionPane) -> bool {
    ||| p.status@ == "working"@
    ||| p.status@ == "blocked"@ && !p.acknowledged
    ||| p.status@ == "done"@ && !p.acknowledged
}

/// The words of the states, and no other word, mean a state.
pub proof fn law_states_are_words(word: Seq<char>)
    ensures
        status_of(word) is Working <==> word == "working"@,
        status_of(word) is Done <==> word == "done"@,
        status_of(word) is Blocked <==> word == "blocked"@,
        status_of(word) is Idle <==> word == "idle"@,
        status_of(word) is Unknown <==> word != "working"@ && word != "done"@ && word != "blocked"@
            && word != "idle"@,
{
    lemma_words_differ();
}

proof fn lemma_words_differ()
    ensures
        "working"@ != "done"@,
        "working"@ != "blocked"@,
        "working"@ != "idle"@,
        "done"@ != "blocked"@,
        "done"@ != "idle"@,
        "blocked"@ != "idle"@,
{
    reveal_strlit("working");
    reveal_strlit("done");
    reveal_strlit("blocked");
    reveal_strlit("idle");
    assert("working"@[0] != "blocked"@[0]);
    assert("done"@[0] != "idle"@[0]);
}

/// The words of a query stand in the name of the workspace, in the process or
/// in the last line of a pane, in any case of letters.
pub open spec fn pane_holds(p: ClientAttentionPane, query: Seq<char>) -> bool {
    let n = lowercase_of(trimmed(query));
    ||| stands_in(n, lowercase_of(p.workspace_id@))
    ||| p.process_name matches Some(name) && stands_in(n, lowercase_of(name@))
    ||| p.process_name is None && stands_in(n, lowercase_of(Seq::<char>::empty()))
    ||| stands_in(n, lowercase_of(p.last_line@))
}

proof fn lemma_shown(p: ClientAttentionPane, query: Seq<char>)
    ensures
        shown_panes(needle_of(query))(p) == (wants_attention(p) && (all_white(query) || pane_holds(
            p,
            query,
        ) || lowercase_of(trimmed(query)).len() == 0)),
{
    lemma_words_differ();
    let n = lowercase_of(trimmed(query));
    lemma_stands_in(n, lowercase_of(p.workspace_id@));
    lemma_stands_in(n, lowercase_of(p.last_line@));
    match p.process_name {
        Some(name) => lemma_stands_in(n, lowercase_of(name@)),
        None => lemma_stands_in(n, lowercase_of(Seq::<char>::empty())),
    }
}

proof fn lemma_sorted_holds(s: Seq<ClientAttentionPane>, p: ClientAttentionPane)
    ensures
        stable_sorted(s, by_urgency()).contains(p) == s.contains(p),
        stable_sorted(s, by_urgency()).to_multiset() == s.to_multiset(),
{
    broadcast use vstd::seq_lib::group_to_multiset_ensures;

    lemma_urgency_is_ranking();
    lemma_stable_sorted(s, by_urgency());
    let r = stable_sorted(s, by_urgency());
    assert(r.contains(p) == (r.to_multiset().count(p) > 0));
    assert(s.contains(p) == (s.to_multiset().count(p) > 0));
}

proof fn lemma_filter_holds(
    s: Seq<ClientAttentionPane>,
    f: spec_fn(ClientAttentionPane) -> bool,
    p: ClientAttentionPane,
)
    ensures
        s.filter(f).contains(p) == (s.contains(p) && f(p)),
{
    let kept = s.filter(f);
    if kept.contains(p) {
        s.lemma_filter_contains_rev(f, p);
        let i = choose|i: int| 0 <= i < kept.len() && kept[i] == p;
        s.lemma_filter_pred(f, i);
    }
    if s.contains(p) && f(p) {
        let i = choose|i: int| 0 <= i < s.len() && s[i] == p;
        s.lemma_filter_contains(f, i);
    }
}

/// A pane has a row for a query exactly where it wants attention and holds the
/// words of the query in its workspace, its process or its last line; a blank
/// query, and one without letters in lower case, is held by every pane.
pub proof fn law_a_pane_is_listed_where_it_holds_the_query(
    panes: Seq<ClientAttentionPane>,
    query: Seq<char>,
    p: ClientAttentionPane,
)
    ensures
        urgent_panes(panes, query).contains(p) <==> panes.contains(p) && wants_attention(p) && (
        all_white(query) || lowercase_of(trimmed(query)).len() == 0 || pane_holds(p, query)),
{
    let f = shown_panes(needle_of(query));
    lemma_sorted_holds(panes.filter(f), p);
    lemma_filter_holds(panes, f, p);
    lemma_shown(p, query);
}

/// The workspace, the process and the last line are each searched.
pub proof fn law_each_text_of_a_pane_is_searched(
    panes: Seq<ClientAttentionPane>,
    query: Seq<char>,
    p: ClientAttentionPane,
)
    requires
        panes.contains(p),
        wants_attention(p),
        ({
            let n = lowercase_of(trimmed(query));
            ||| stands_in(n, lowercase_of(p.workspace_id@))
            ||| p.process_name matches Some(name) && stands_in(n, lowercase_of(name@))
            ||| stands_in(n, lowercase_of(p.last_line@))
        }),
    ensures
        urgent_panes(panes, query).contains(p),
{
    law_a_pane_is_listed_where_it_holds_the_query(panes, query, p);
}

/// Blocked panes come before finished ones and those before running ones; in
/// one state the latest comes first.
pub proof fn law_the_most_urgent_comes_first(
    panes: Seq<ClientAttentionPane>,
    query: Seq<char>,
    i: int,
    j: int,
)
    requires
        0 <= i < j < urgent_panes(panes, query).len(),
    ensures
        ({
            let a = urgent_panes(panes, query)[i];
            let b = urgent_panes(panes, query)[j];
            &&& b.status@ == "blocked"@ ==> a.status@ == "blocked"@
            &&& b.status@ == "done"@ ==> a.status@ == "blocked"@ || a.status@ == "done"@
            &&& a.status@ == "working"@ ==> b.status@ == "working"@
            &&& a.status@ == b.status@ ==> a.seq >= b.seq
        }),
{
    lemma_words_differ();
    let r = urgent_panes(panes, query);
    lemma_urgency_is_ranking();
    let kept = panes.filter(shown_panes(needle_of(query)));
    lemma_stable_sorted(kept, by_urgency());
    assert(by_urgency()(r[i], r[j]));
    law_a_pane_is_listed_where_it_holds_the_query(panes, query, r[i]);
    law_a_pane_is_listed_where_it_holds_the_query(panes, query, r[j]);
    assert(r.contains(r[i]) && r.contains(r[j]));
}

/// No pane is lost or made: the rows are the panes that are kept, each as often
/// as it was given.
pub proof fn law_rows_are_the_kept_panes(panes: Seq<ClientAttentionPane>, query: Seq<char>)
    ensures
        urgent_panes(panes, query).to_multiset() == panes.filter(
            |p: ClientAttentionPane|
                wants_attention(p) && (all_white(query) || lowercase_of(trimmed(query)).len() == 0
                    || pane_holds(p, query)),
        ).to_multiset(),
{
    let f = shown_panes(needle_of(query));
    let g = |p: ClientAttentionPane|
        wants_attention(p) && (all_white(query) || lowercase_of(trimmed(query)).len() == 0
            || pane_holds(p, query));
    assert forall|p: ClientAttentionPane| #[trigger] f(p) == g(p) by {
        lemma_shown(p, query);
    }
    assert(f =~= g);
    if panes.len() > 0 {
        lemma_sorted_holds(panes.filter(f), panes[0]);
    } else {
        lemma_urgency_is_ranking();
        lemma_stable_sorted(panes.filter(f), by_urgency());
    }
}

// ---------------------------------------------------------------------------
// Agents.
// ---------------------------------------------------------------------------

/// The words of a query stand in the workspace, the title or the detail of an
/// agent, or in the process or the last line of the pane it runs in.
pub open spec fn agent_holds(
    a: AgentSidebarItem,
    panes: Seq<ClientAttentionPane>,
    query: Seq<char>,
) -> bool {
    let n = lowercase_of(trimmed(query));
    ||| stands_in(n, lowercase_of(a.replica_id@))
    ||| stands_in(n, lowercase_of(a.title@))
    ||| stands_in(n, lowercase_of(a.detail@))
    ||| linked_pane(panes, a.replica_id@, a.pane_id) matches Some(p) && (stands_in(
        n,
        lowercase_of(p.last_line@),
    ) || (p.process_name matches Some(name) && stands_in(n, lowercase_of(name@))) || (
    p.process_name is None && stands_in(n, lowercase_of(Seq::<char>::empty()))))
}

/// The pane of an agent is the last one of its workspace and number.
pub proof fn law_the_pane_of_an_agent(
    panes: Seq<ClientAttentionPane>,
    workspace: Seq<char>,
    pane: u32,
)
    ensures
        match linked_pane(panes, workspace, pane) {
            Some(p) => exists|k: int|
                0 <= k < panes.len() && #[trigger] panes[k] == p && p.workspace_id@ == workspace
                    && p.pane_id == pane && forall|j: int|
                    k < j < panes.len() ==> !((#[trigger] panes[j]).workspace_id@ == workspace
                        && panes[j].pane_id == pane),
            None => forall|j: int|
                0 <= j < panes.len() ==> !((#[trigger] panes[j]).workspace_id@ == workspace
                    && panes[j].pane_id == pane),
        },
    decreases panes.len(),
{
    if panes.len() > 0 {
        let init = panes.drop_last();
        law_the_pane_of_an_agent(init, workspace, pane);
        let n = panes.len() - 1;
        if panes[n].workspace_id@ == workspace && panes[n].pane_id == pane {
            assert(panes[n] == panes.last());
        } else {
            match linked_pane(init, workspace, pane) {
                Some(p) => {
                    let k = choose|k: int|
                        0 <= k < init.len() && #[trigger] init[k] == p && forall|j: int|
                            k < j < init.len() ==> !((#[trigger] init[j]).workspace_id@ == workspace
                                && init[j].pane_id == pane);
                    assert(panes[k] == p);
                    assert forall|j: int| k < j < panes.len() implies !((#[trigger] panes[j]).workspace_id@
                        == workspace && panes[j].pane_id == pane) by {
                        if j < n {
                            assert(init[j] == panes[j]);
                        }
                    }
                },
                None => {
                    assert forall|j: int| 0 <= j < panes.len() implies !((#[trigger] panes[j]).workspace_id@
                        == workspace && panes[j].pane_id == pane) by {
                        if j < n {
                            assert(init[j] == panes[j]);
                        }
                    }
                },
            }
        }
    }
}

/// An agent has a row exactly where it is not quiet and holds the query; the
/// row shows what the agent is called, and leads to its pane.
pub proof fn law_an_agent_is_listed_where_it_holds_the_query(
    a: AgentSidebarItem,
    panes: Seq<ClientAttentionPane>,
    query: Seq<char>,
)
    ensures
        ({
            let rows = agent_row(a, panes, needle_of(query));
            &&& rows.len() <= 1
            &&& rows.len() == 1 <==> !(a.indicator is Quiet) && (all_white(query) || lowercase_of(
                trimmed(query),
            ).len() == 0 || agent_holds(a, panes, query))
            &&& rows.len() == 1 ==> {
                &&& rows[0].workspace_id == a.replica_id@ && rows[0].pane_id == a.pane_id
                &&& rows[0].title == a.title@ && rows[0].detail == a.detail@
                &&& rows[0].indicator == a.indicator
            }
        }),
{
    let n = lowercase_of(trimmed(query));
    lemma_stands_in(n, lowercase_of(a.replica_id@));
    lemma_stands_in(n, lowercase_of(a.title@));
    lemma_stands_in(n, lowercase_of(a.detail@));
    match linked_pane(panes, a.replica_id@, a.pane_id) {
        Some(p) => {
            lemma_stands_in(n, lowercase_of(p.last_line@));
            match p.process_name {
                Some(name) => lemma_stands_in(n, lowercase_of(name@)),
                None => lemma_stands_in(n, lowercase_of(Seq::<char>::empty())),
            }
        },
        None => {},
    }
}

/// The row of a pane without an agent names its process, or calls it a command
/// where the process has no name, and shows its workspace with its last line.
pub proof fn law_the_row_of_a_pane(p: ClientAttentionPane)
    ensures
        ({
            let row = plain_row(p);
            &&& row.workspace_id == p.workspace_id@ && row.pane_id == p.pane_id
            &&& (p.process_name matches Some(name) && !all_white(name@)) ==> row.title
                == p.process_name->0@
            &&& p.process_name is None ==> row.title == "Command"@
            &&& (p.process_name matches Some(name) && all_white(name@)) ==> row.title == "Command"@
            &&& all_white(p.last_line@) ==> row.detail == p.workspace_id@
            &&& !all_white(p.last_line@) ==> row.detail == p.workspace_id@ + " · "@ + p.last_line@
            &&& p.status@ == "working"@ ==> row.indicator is Running
            &&& p.status@ == "blocked"@ || p.status@ == "done"@ ==> row.indicator is Done
            &&& row.indicator is Quiet <==> p.status@ != "working"@ && p.status@ != "blocked"@
                && p.status@ != "done"@
        }),
{
    lemma_words_differ();
}

/// The panel lists the agents that hold the query, in their order, and behind
/// them the panes that hold it and in which no agent runs that is not quiet.
pub proof fn law_the_panel_lists_agents_and_panes(
    agents: Seq<AgentSidebarItem>,
    panes: Seq<ClientAttentionPane>,
    query: Seq<char>,
    row: AttentionPanelView,
)
    ensures
        attention_panel(agents, panes, query).contains(row) <==> (exists|k: int|
            0 <= k < agents.len() && (#[trigger] agent_row(
                agents[k],
                panes,
                needle_of(query),
            )).contains(row)) || (exists|p: ClientAttentionPane| #[trigger]
            urgent_panes(panes, query).contains(p) && plain_row(p) == row && !(exists|k: int|
                0 <= k < agents.len() && !((#[trigger] agents[k]).indicator is Quiet)
                    && agents[k].replica_id@ == p.workspace_id@ && agents[k].pane_id == p.pane_id)),
{
    let needle = needle_of(query);
    let first = Seq::new(agents.len(), |i: int| agent_row(agents[i], panes, needle));
    let list = urgent_panes(panes, query);
    let rest = Seq::new(
        list.len(),
        |i: int|
            if is_agent_pane(agents, list[i]) {
                Seq::<AttentionPanelView>::empty()
            } else {
                seq![plain_row(list[i])]
            },
    );
    assert(plain_rows(list, agents) == flat(rest));
    let all = attention_panel(agents, panes, query);
    assert(all == flat(first) + flat(rest));
    if all.contains(row) {
        let i = choose|i: int| 0 <= i < all.len() && all[i] == row;
        if i < flat(first).len() {
            assert(flat(first)[i] == row);
            let k = lemma_flat_member(first, row);
            assert(agent_row(agents[k], panes, needle).contains(row));
        } else {
            assert(flat(rest)[i - flat(first).len()] == row);
            let k = lemma_flat_member(rest, row);
            assert(list.contains(list[k]) && plain_row(list[k]) == row);
            assert(!is_agent_pane(agents, list[k]));
        }
    }
    if exists|k: int|
        0 <= k < agents.len() && (#[trigger] agent_row(agents[k], panes, needle)).contains(row) {
        let k = choose|k: int|
            0 <= k < agents.len() && (#[trigger] agent_row(agents[k], panes, needle)).contains(row);
        assert(first[k].contains(row));
        lemma_flat_holds(first, k, row);
        let i = choose|i: int| 0 <= i < flat(first).len() && flat(first)[i] == row;
        assert(all[i] == row);
    }
    if exists|p: ClientAttentionPane| #[trigger]
        list.contains(p) && plain_row(p) == row && !is_agent_pane(agents, p) {
        let p = choose|p: ClientAttentionPane| #[trigger]
            list.contains(p) && plain_row(p) == row && !is_agent_pane(agents, p);
        let k = choose|k: int| 0 <= k < list.len() && list[k] == p;
        assert(rest[k] == seq![plain_row(p)]);
        assert(rest[k][0] == row);
        assert(rest[k].contains(row));
        lemma_flat_holds(rest, k, row);
        let i = choose|i: int| 0 <= i < flat(rest).len() && flat(rest)[i] == row;
        assert(all[flat(first).len() + i] == row);
    }
    assert forall|p: ClientAttentionPane| #[trigger] list.contains(p) implies is_agent_pane(
        agents,
        p,
    ) == (exists|k: int|
        0 <= k < agents.len() && !((#[trigger] agents[k]).indicator is Quiet)
            && agents[k].replica_id@ == p.workspace_id@ && agents[k].pane_id == p.pane_id) by {}
}

// ---------------------------------------------------------------------------
// Search.
// ---------------------------------------------------------------------------

/// A hit is kept where the words of the query stand in its line or in its
/// workspace.
pub proof fn law_a_hit_is_kept_where_it_holds_the_query(h: SearchRow, query: Seq<char>)
    ensures
        hit_matches(needle_of(query))(h) <==> all_white(query) || lowercase_of(
            trimmed(query),
        ).len() == 0 || stands_in(lowercase_of(trimmed(query)), lowercase_of(h.line@)) || stands_in(
            lowercase_of(trimmed(query)),
            lowercase_of(h.workspace_id@),
        ),
{
    let n = lowercase_of(trimmed(query));
    lemma_stands_in(n, lowercase_of(h.line@));
    lemma_stands_in(n, lowercase_of(h.workspace_id@));
}

// ---------------------------------------------------------------------------
// Merging activity.
// ---------------------------------------------------------------------------

/// A pane without a workspace gets the one that it is reported under; any
/// other stays.
pub proof fn law_a_pane_has_an_owner(p: ClientAttentionPane, owner: String)
    ensures
        p.workspace_id@.len() > 0 ==> pane_with_owner(p, owner) == p,
        p.workspace_id@.len() == 0 ==> pane_with_owner(p, owner).workspace_id == owner
            && pane_with_owner(p, owner) == (ClientAttentionPane { workspace_id: owner, ..p }),
{
}

/// The last pane of a number that was seen with a state.
pub open spec fn last_seen(seen: Seq<ClientAttentionPane>, id: u32) -> Option<ClientAttentionPane>
    decreases seen.len(),
{
    if seen.len() == 0 {
        None
    } else if seen.last().pane_id == id && has_state(seen.last()) {
        Some(seen.last())
    } else {
        last_seen(seen.drop_last(), id)
    }
}

/// The first pane of a number.
pub open spec fn first_pane(panes: Seq<ClientAttentionPane>,
    id: u32) -> Option<ClientAttentionPane> {
    find(panes, |p: ClientAttentionPane| p.pane_id == id)
}

proof fn lemma_with_pane(panes: Seq<ClientAttentionPane>, p: ClientAttentionPane, id: u32)
    ensures
        first_pane(with_pane(panes, p), id) == if id == p.pane_id {
            Some(p)
        } else {
            first_pane(panes, id)
        },
{
    let f = |q: ClientAttentionPane| q.pane_id == id;
    let g = pane_id_is(p.pane_id);
    let r = with_pane(panes, p);
    lemma_find(panes, g);
    match first_where(panes, g) {
        Some(i) => {
            assert(is_first(panes, g, i)) by {
                let k = choose|k: int| is_first(panes, g, k);
                lemma_first_where(panes, g, k);
            }
            assert(r == panes.update(i, p));
            if id == p.pane_id {
                assert forall|j: int| 0 <= j < i implies !f(#[trigger] r[j]) by {
                    assert(!g(panes[j]));
                }
                lemma_first_where(r, f, i);
            } else {
                lemma_same_first(panes, r, f);
            }
        },
        None => {
            assert(r == panes.push(p));
            if id == p.pane_id {
                assert forall|j: int| 0 <= j < panes.len() implies !f(#[trigger] r[j]) by {
                    if g(panes[j]) {
                        lemma_some_first(panes, g, j);
                    }
                }
                lemma_first_where(r, f, panes.len() as int);
            } else if exists|k: int| is_first(panes, f, k) {
                let k = choose|k: int| is_first(panes, f, k);
                lemma_first_where(panes, f, k);
                assert(is_first(r, f, k)) by {
                    assert forall|j: int| 0 <= j < k implies !f(#[trigger] r[j]) by {
                        assert(!f(panes[j]));
                    }
                }
                lemma_first_where(r, f, k);
            } else {
                assert forall|j: int| 0 <= j < r.len() implies !f(#[trigger] r[j]) by {
                    if j < panes.len() && f(panes[j]) {
                        lemma_some_first(panes, f, j);
                    }
                }
                lemma_no_first(r, f);
                assert(first_where(panes, f) is None);
            }
        },
    }
}

/// Where `f` holds somewhere it holds somewhere first.
proof fn lemma_some_first(
    s: Seq<ClientAttentionPane>,
    f: spec_fn(ClientAttentionPane) -> bool,
    j: int,
)
    requires
        0 <= j < s.len(),
        f(s[j]),
    ensures
        exists|k: int| is_first(s, f, k),
        first_where(s, f) is Some,
    decreases j,
{
    if exists|i: int| 0 <= i < j && f(#[trigger] s[i]) {
        let i = choose|i: int| 0 <= i < j && f(#[trigger] s[i]);
        lemma_some_first(s, f, i);
    } else {
        assert(is_first(s, f, j));
    }
}

/// Sequences on which `f` holds at the same places, with the same elements
/// there, have the same first.
proof fn lemma_same_first(
    a: Seq<ClientAttentionPane>,
    b: Seq<ClientAttentionPane>,
    f: spec_fn(ClientAttentionPane) -> bool,
)
    requires
        a.len() == b.len(),
        forall|i: int| 0 <= i < a.len() ==> f(#[trigger] a[i]) == f(b[i]),
        forall|i: int| 0 <= i < a.len() && f(#[trigger] a[i]) ==> a[i] == b[i],
    ensures
        find(a, f) == find(b, f),
{
    if exists|k: int| is_first(a, f, k) {
        let k = choose|k: int| is_first(a, f, k);
        lemma_first_where(a, f, k);
        assert(is_first(b, f, k)) by {
            assert(f(a[k]));
            assert forall|j: int| 0 <= j < k implies !f(#[trigger] b[j]) by {
                assert(!f(a[j]));
            }
        }
        lemma_first_where(b, f, k);
    } else {
        assert forall|j: int| 0 <= j < b.len() implies !f(#[trigger] b[j]) by {
            if f(a[j]) {
                lemma_some_first(a, f, j);
            }
        }
        lemma_no_first(b, f);
    }
}

/// What is known of a pane after merging is what was last seen of it with a
/// state, else what the core reports.
pub proof fn law_what_was_seen_last_counts(
    panes: Seq<ClientAttentionPane>,
    seen: Seq<ClientAttentionPane>,
    id: u32,
)
    ensures
        first_pane(with_panes(panes, seen), id) == (match last_seen(seen, id) {
            Some(p) => Some(p),
            None => first_pane(panes, id),
        }),
    decreases seen.len(),
{
    if seen.len() > 0 {
        law_what_was_seen_last_counts(panes, seen.drop_last(), id);
        if has_state(seen.last()) {
            lemma_with_pane(with_panes(panes, seen.drop_last()), seen.last(), id);
        }
    }
}

/// A pane is seen with a state unless it is unknown and nothing else is
/// reported of it.
pub proof fn law_what_a_state_is(p: ClientAttentionPane)
    ensures
        !has_state(p) <==> p.status@ == "unknown"@ && p.last_line@.len() == 0 && p.seq == 0
            && p.process_name is None && !p.process_is_agent && p.agent_name is None
            && p.shell_name is None,
{
}

/// The panes that are blocked and unread, finished and unread, and running,
/// are counted.
pub proof fn law_counts_are_numbers_of_panes(w: AttentionView)
    ensures
        recounted(w).blocked == w.panes.filter(
            |p: ClientAttentionPane| p.status@ == "blocked"@ && !p.acknowledged,
        ).len(),
        recounted(w).done == w.panes.filter(
            |p: ClientAttentionPane| p.status@ == "done"@ && !p.acknowledged,
        ).len(),
        recounted(w).working == w.panes.filter(|p: ClientAttentionPane| p.status@
            == "working"@).len(),
        recounted(w).panes == w.panes,
        recounted(w).workspace_id == w.workspace_id,
        recounted(w).path == w.path,
{
    lemma_count(
        w.panes,
        "blocked"@,
        true,
        |p: ClientAttentionPane| p.status@ == "blocked"@ && !p.acknowledged,
    );
    lemma_count(
        w.panes,
        "done"@,
        true,
        |p: ClientAttentionPane| p.status@ == "done"@ && !p.acknowledged,
    );
    lemma_count(w.panes, "working"@, false, |p: ClientAttentionPane| p.status@ == "working"@);
}

proof fn lemma_count(
    panes: Seq<ClientAttentionPane>,
    word: Seq<char>,
    open_only: bool,
    f: spec_fn(ClientAttentionPane) -> bool,
)
    requires
        forall|p: ClientAttentionPane|
            #[trigger] f(p) == (p.status@ == word && !(open_only && p.acknowledged)),
    ensures
        count_status(panes, word, open_only) == panes.filter(f).len(),
    decreases panes.len(),
{
    reveal(Seq::filter);
    if panes.len() > 0 {
        lemma_count(panes.drop_last(), word, open_only, f);
        let p = panes.last();
        assert(f(p) == (p.status@ == word && !(open_only && p.acknowledged)));
    }
}

} // verus!
