//! What needs attention: the activity of panes over all workspaces.
use vstd::prelude::*;

use crate::seqs::{first_where, flat, is_first, lemma_first_where, lemma_no_first};
use crate::text::{clone_opt, same};

verus! {

/// Activity of one pane.
#[derive(Debug, PartialEq, Eq)]
pub struct ClientAttentionPane {
    pub workspace_id: String,
    pub pane_id: u32,
    pub status: String,
    pub acknowledged: bool,
    pub last_line: String,
    pub seq: u64,
    pub process_name: Option<String>,
    pub process_is_agent: bool,
    pub agent_name: Option<String>,
    pub shell_name: Option<String>,
}

impl Clone for ClientAttentionPane {
    fn clone(&self) -> (r: Self)
        ensures
            r == *self,
    {
        ClientAttentionPane {
            workspace_id: self.workspace_id.clone(),
            pane_id: self.pane_id,
            status: self.status.clone(),
            acknowledged: self.acknowledged,
            last_line: self.last_line.clone(),
            seq: self.seq,
            process_name: clone_opt(&self.process_name),
            process_is_agent: self.process_is_agent,
            agent_name: clone_opt(&self.agent_name),
            shell_name: clone_opt(&self.shell_name),
        }
    }
}

/// The states of attention.
#[derive(Debug, Clone, Copy, PartialEq, Eq, Structural)]
pub enum ClientAttentionStatus {
    Unknown,
    Working,
    Done,
    Blocked,
    Idle,
}

/// The state that a word names.
pub open spec fn status_of(word: Seq<char>) -> ClientAttentionStatus {
    if word == "working"@ {
        ClientAttentionStatus::Working
    } else if word == "done"@ {
        ClientAttentionStatus::Done
    } else if word == "blocked"@ {
        ClientAttentionStatus::Blocked
    } else if word == "idle"@ {
        ClientAttentionStatus::Idle
    } else {
        ClientAttentionStatus::Unknown
    }
}

impl ClientAttentionStatus {
    /// Reads a state; an unknown word is the unknown state.
    pub fn parse(value: &str) -> (r: Self)
        ensures
            r == status_of(value@),
    {
        if same(value, "working") {
            ClientAttentionStatus::Working
        } else if same(value, "done") {
            ClientAttentionStatus::Done
        } else if same(value, "blocked") {
            ClientAttentionStatus::Blocked
        } else if same(value, "idle") {
            ClientAttentionStatus::Idle
        } else {
            ClientAttentionStatus::Unknown
        }
    }
}

impl ClientAttentionPane {
    /// Returns the state of the pane.
    pub fn status_kind(&self) -> (r: ClientAttentionStatus)
        ensures
            r == status_of(self.status@),
    {
        ClientAttentionStatus::parse(self.status.as_str())
    }
}

/// Activity of one workspace.
#[derive(Debug, Clone, PartialEq, Eq)]
pub struct ClientWorkspaceAttention {
    pub workspace_id: String,
    pub path: String,
    pub blocked: usize,
    pub done: usize,
    pub working: usize,
    pub panes: Vec<ClientAttentionPane>,
}

/// The view of a [`ClientWorkspaceAttention`].
pub struct AttentionView {
    pub workspace_id: Seq<char>,
    pub path: Seq<char>,
    pub blocked: nat,
    pub done: nat,
    pub working: nat,
    pub panes: Seq<ClientAttentionPane>,
}

impl View for ClientWorkspaceAttention {
    type V = AttentionView;

    open spec fn view(&self) -> AttentionView {
        AttentionView {
            workspace_id: self.workspace_id@,
            path: self.path@,
            blocked: self.blocked as nat,
            done: self.done as nat,
            working: self.working as nat,
            panes: self.panes@,
        }
    }
}

/// Activity over all workspaces.
#[derive(Debug, Clone, PartialEq, Eq)]
pub struct ClientActivitySnapshot {
    pub blocked_count: usize,
    pub workspaces: Vec<ClientWorkspaceAttention>,
}

impl Default for ClientActivitySnapshot {
    fn default() -> (r: Self)
        ensures
            r.blocked_count == 0,
            r.workspaces@ == Seq::<ClientWorkspaceAttention>::empty(),
    {
        ClientActivitySnapshot { blocked_count: 0, workspaces: Vec::new() }
    }
}

/// The views of workspaces.
pub open spec fn attention_views(s: Seq<ClientWorkspaceAttention>) -> Seq<AttentionView> {
    Seq::new(s.len(), |i: int| s[i]@)
}

// ---------------------------------------------------------------------------
// A snapshot as it arrives.
// ---------------------------------------------------------------------------

/// The pane belongs to the workspace that lists it where it names none.
pub open spec fn pane_with_owner(p: ClientAttentionPane, owner: String) -> ClientAttentionPane {
    if p.workspace_id@.len() == 0 {
        ClientAttentionPane { workspace_id: owner, ..p }
    } else {
        p
    }
}

/// The panes of a workspace know their workspace.
pub open spec fn with_owner(before: ClientWorkspaceAttention) -> AttentionView {
    AttentionView {
        panes: Seq::new(
            before.panes@.len(),
            |i: int| pane_with_owner(before.panes@[i], before.workspace_id),
        ),
        ..before@
    }
}

fn fill_owner(workspace: ClientWorkspaceAttention) -> (r: ClientWorkspaceAttention)
    ensures
        r@ == with_owner(workspace),
{
    let n: usize = workspace.panes.len();
    let mut panes: Vec<ClientAttentionPane> = Vec::new();
    let mut i: usize = 0;
    while i < n
        invariant
            i <= n,
            n == workspace.panes.len(),
            panes.len() == i,
            forall|j: int|
                0 <= j < i ==> #[trigger] panes@[j] == pane_with_owner(
                    workspace.panes@[j],
                    workspace.workspace_id,
                ),
        decreases n - i,
    {
        let mut p = workspace.panes[i].clone();
        if p.workspace_id.as_str().is_empty() {
            p.workspace_id = workspace.workspace_id.clone();
        }
        panes.push(p);
        i += 1;
    }
    assert(panes@ =~= with_owner(workspace).panes);
    ClientWorkspaceAttention {
        workspace_id: workspace.workspace_id,
        path: workspace.path,
        blocked: workspace.blocked,
        done: workspace.done,
        working: workspace.working,
        panes,
    }
}

/// Completes a snapshot as it arrives: every pane knows its workspace.
pub fn complete_snapshot(snapshot: ClientActivitySnapshot) -> (r: ClientActivitySnapshot)
    ensures
        r.blocked_count == snapshot.blocked_count,
        r.workspaces.len() == snapshot.workspaces.len(),
        forall|i: int|
            0 <= i < r.workspaces.len() ==> (#[trigger] r.workspaces@[i])@ == with_owner(
                snapshot.workspaces@[i],
            ),
{
    let blocked_count: usize = snapshot.blocked_count;
    let mut rest = snapshot.workspaces;
    let ghost all = rest@;
    let n: usize = rest.len();
    let mut out: Vec<ClientWorkspaceAttention> = Vec::new();
    let mut i: usize = 0;
    while i < n
        invariant
            i <= n,
            n == all.len(),
            rest@ == all.skip(i as int),
            out.len() == i,
            forall|j: int| 0 <= j < i ==> (#[trigger] out@[j])@ == with_owner(all[j]),
        decreases n - i,
    {
        let w = rest.remove(0);
        assert(w == all[i as int]);
        assert(rest@ =~= all.skip(i + 1));
        out.push(fill_owner(w));
        i += 1;
    }
    ClientActivitySnapshot { blocked_count, workspaces: out }
}

// ---------------------------------------------------------------------------
// Merging in what the frontend itself saw.
// ---------------------------------------------------------------------------

pub open spec fn pane_id_is(id: u32) -> spec_fn(ClientAttentionPane) -> bool {
    |p: ClientAttentionPane| p.pane_id == id
}

pub open spec fn attention_is(id: Seq<char>) -> spec_fn(AttentionView) -> bool {
    |w: AttentionView| w.workspace_id == id
}

/// Something is known of the pane.
pub open spec fn has_state(p: ClientAttentionPane) -> bool {
    ||| p.status@ != "unknown"@
    ||| p.last_line@.len() > 0
    ||| p.seq != 0
    ||| p.process_name is Some
    ||| p.process_is_agent
    ||| p.agent_name is Some
    ||| p.shell_name is Some
}

/// `panes` with `p` in the place of the pane with its number, or at the end.
pub open spec fn with_pane(panes: Seq<ClientAttentionPane>, p: ClientAttentionPane) -> Seq<
    ClientAttentionPane,
> {
    match first_where(panes, pane_id_is(p.pane_id)) {
        Some(i) => panes.update(i, p),
        None => panes.push(p),
    }
}

/// `panes` with every pane of `seen` of which something is known.
pub open spec fn with_panes(
    panes: Seq<ClientAttentionPane>,
    seen: Seq<ClientAttentionPane>,
) -> Seq<ClientAttentionPane>
    decreases seen.len(),
{
    if seen.len() == 0 {
        panes
    } else {
        let rest = with_panes(panes, seen.drop_last());
        if has_state(seen.last()) {
            with_pane(rest, seen.last())
        } else {
            rest
        }
    }
}

/// A workspace of which the core says nothing.
pub open spec fn fresh_attention(id: Seq<char>) -> AttentionView {
    AttentionView {
        workspace_id: id,
        path: Seq::<char>::empty(),
        blocked: 0,
        done: 0,
        working: 0,
        panes: Seq::<ClientAttentionPane>::empty(),
    }
}

/// `workspaces` with what was seen of one workspace.
pub open spec fn with_workspace(workspaces: Seq<AttentionView>, seen: AttentionView) -> Seq<
    AttentionView,
> {
    match first_where(workspaces, attention_is(seen.workspace_id)) {
        Some(i) => workspaces.update(
            i,
            AttentionView { panes: with_panes(workspaces[i].panes, seen.panes), ..workspaces[i] },
        ),
        None => workspaces.push(
            AttentionView {
                panes: with_panes(Seq::<ClientAttentionPane>::empty(), seen.panes),
                ..fresh_attention(seen.workspace_id)
            },
        ),
    }
}

/// `workspaces` with what was seen of each workspace.
pub open spec fn with_workspaces(workspaces: Seq<AttentionView>, seen: Seq<AttentionView>) -> Seq<
    AttentionView,
>
    decreases seen.len(),
{
    if seen.len() == 0 {
        workspaces
    } else {
        with_workspace(with_workspaces(workspaces, seen.drop_last()), seen.last())
    }
}

/// Something was seen of a workspace.
pub open spec fn touched(seen: Seq<AttentionView>, id: Seq<char>) -> bool {
    exists|i: int, k: int|
        0 <= i < seen.len() && 0 <= k < seen[i].panes.len() && seen[i].workspace_id == id
            && has_state(#[trigger] seen[i].panes[k])
}

/// How many panes are in a state, counting only those that were not
/// acknowledged where `open_only`.
pub open spec fn count_status(
    panes: Seq<ClientAttentionPane>,
    word: Seq<char>,
    open_only: bool,
) -> nat
    decreases panes.len(),
{
    if panes.len() == 0 {
        0
    } else {
        let p = panes.last();
        count_status(panes.drop_last(), word, open_only) + (if p.status@ == word && !(open_only
            && p.acknowledged) {
            1nat
        } else {
            0nat
        })
    }
}

/// A workspace with its counts taken anew.
pub open spec fn recounted(w: AttentionView) -> AttentionView {
    AttentionView {
        blocked: count_status(w.panes, "blocked"@, true),
        done: count_status(w.panes, "done"@, true),
        working: count_status(w.panes, "working"@, false),
        ..w
    }
}

/// The workspaces after merging.
pub open spec fn merged_workspaces(core: Seq<AttentionView>, seen: Seq<AttentionView>) -> Seq<
    AttentionView,
> {
    let all = with_workspaces(core, seen);
    Seq::new(
        all.len(),
        |i: int|
            if touched(seen, all[i].workspace_id) {
                recounted(all[i])
            } else {
                all[i]
            },
    )
}

/// The core reported a workspace as blocked.
pub open spec fn core_blocked(core: Seq<AttentionView>, id: Seq<char>) -> bool {
    exists|i: int| 0 <= i < core.len() && (#[trigger] core[i]).workspace_id == id && core[i].blocked > 0
}

/// How many workspaces are blocked that the core did not report as blocked.
pub open spec fn newly_blocked(
    merged: Seq<AttentionView>,
    core: Seq<AttentionView>,
    seen: Seq<AttentionView>,
) -> nat
    decreases merged.len(),
{
    if merged.len() == 0 {
        0
    } else {
        let w = merged.last();
        newly_blocked(merged.drop_last(), core, seen) + (if touched(seen, w.workspace_id)
            && w.blocked > 0 && !core_blocked(core, w.workspace_id) {
            1nat
        } else {
            0nat
        })
    }
}

fn pane_has_state(p: &ClientAttentionPane) -> (r: bool)
    ensures
        r == has_state(*p),
{
    !same(p.status.as_str(), "unknown") || !p.last_line.as_str().is_empty() || p.seq != 0
        || p.process_name.is_some() || p.process_is_agent || p.agent_name.is_some()
        || p.shell_name.is_some()
}

fn put_pane(panes: &mut Vec<ClientAttentionPane>, p: ClientAttentionPane)
    ensures
        final(panes)@ == with_pane(old(panes)@, p),
{
    let mut i: usize = 0;
    while i < panes.len()
        invariant
            i <= panes.len(),
            panes@ == old(panes)@,
            forall|j: int| 0 <= j < i ==> (#[trigger] panes@[j]).pane_id != p.pane_id,
        decreases panes.len() - i,
    {
        if panes[i].pane_id == p.pane_id {
            proof {
                lemma_first_where(panes@, pane_id_is(p.pane_id), i as int);
            }
            panes.set(i, p);
            return;
        }
        i += 1;
    }
    proof {
        lemma_no_first(panes@, pane_id_is(p.pane_id));
    }
    panes.push(p);
}

fn put_panes(panes: &mut Vec<ClientAttentionPane>, seen: &Vec<ClientAttentionPane>)
    ensures
        final(panes)@ == with_panes(old(panes)@, seen@),
{
    let mut i: usize = 0;
    assert(with_panes(old(panes)@, seen@.take(0)) =~= old(panes)@);
    while i < seen.len()
        invariant
            i <= seen.len(),
            panes@ == with_panes(old(panes)@, seen@.take(i as int)),
        decreases seen.len() - i,
    {
        assert(seen@.take(i + 1).drop_last() =~= seen@.take(i as int));
        if pane_has_state(&seen[i]) {
            put_pane(panes, seen[i].clone());
        }
        i += 1;
    }
    assert(seen@.take(seen@.len() as int) =~= seen@);
}

fn put_workspace(workspaces: &mut Vec<ClientWorkspaceAttention>, seen: &ClientWorkspaceAttention)
    ensures
        attention_views(final(workspaces)@) == with_workspace(
            attention_views(old(workspaces)@),
            seen@,
        ),
{
    let ghost before = attention_views(workspaces@);
    let mut i: usize = 0;
    while i < workspaces.len()
        invariant
            i <= workspaces.len(),
            workspaces@ == old(workspaces)@,
            before == attention_views(workspaces@),
            forall|j: int|
                0 <= j < i ==> (#[trigger] workspaces@[j]).workspace_id@ != seen.workspace_id@,
        decreases workspaces.len() - i,
    {
        if same(workspaces[i].workspace_id.as_str(), seen.workspace_id.as_str()) {
            proof {
                assert forall|j: int| 0 <= j < i implies !attention_is(seen@.workspace_id)(
                    #[trigger] before[j],
                ) by {
                    assert(workspaces@[j].workspace_id@ != seen.workspace_id@);
                }
                lemma_first_where(before, attention_is(seen@.workspace_id), i as int);
            }
            let mut w = workspaces.remove(i);
            put_panes(&mut w.panes, &seen.panes);
            workspaces.insert(i, w);
            assert(attention_views(workspaces@) =~= with_workspace(before, seen@));
            return;
        }
        i += 1;
    }
    proof {
        assert forall|j: int| 0 <= j < before.len() implies !attention_is(seen@.workspace_id)(
            #[trigger] before[j],
        ) by {
            assert(workspaces@[j].workspace_id@ != seen.workspace_id@);
        }
        lemma_no_first(before, attention_is(seen@.workspace_id));
    }
    let mut panes: Vec<ClientAttentionPane> = Vec::new();
    put_panes(&mut panes, &seen.panes);
    workspaces.push(
        ClientWorkspaceAttention {
            workspace_id: seen.workspace_id.clone(),
            path: String::new(),
            blocked: 0,
            done: 0,
            working: 0,
            panes,
        },
    );
    assert(attention_views(workspaces@) =~= with_workspace(before, seen@));
}

fn count(panes: &Vec<ClientAttentionPane>, word: &str, open_only: bool) -> (r: usize)
    ensures
        r == count_status(panes@, word@, open_only),
{
    let mut n: usize = 0;
    let mut i: usize = 0;
    assert(panes@.take(0) =~= Seq::<ClientAttentionPane>::empty());
    while i < panes.len()
        invariant
            i <= panes.len(),
            n <= i,
            n == count_status(panes@.take(i as int), word@, open_only),
        decreases panes.len() - i,
    {
        assert(panes@.take(i + 1).drop_last() =~= panes@.take(i as int));
        if same(panes[i].status.as_str(), word) && !(open_only && panes[i].acknowledged) {
            n += 1;
        }
        i += 1;
    }
    assert(panes@.take(panes@.len() as int) =~= panes@);
    n
}

fn is_touched(seen: &Vec<ClientWorkspaceAttention>, id: &str) -> (r: bool)
    ensures
        r == touched(attention_views(seen@), id@),
{
    let ghost views = attention_views(seen@);
    let mut i: usize = 0;
    while i < seen.len()
        invariant
            i <= seen.len(),
            views == attention_views(seen@),
            forall|a: int, k: int|
                0 <= a < i && 0 <= k < views[a].panes.len() && views[a].workspace_id == id@
                    ==> !has_state(#[trigger] views[a].panes[k]),
        decreases seen.len() - i,
    {
        if same(seen[i].workspace_id.as_str(), id) {
            let panes = &seen[i].panes;
            let mut k: usize = 0;
            while k < panes.len()
                invariant
                    i < seen.len(),
                    k <= panes.len(),
                    *panes == seen@[i as int].panes,
                    views == attention_views(seen@),
                    seen@[i as int].workspace_id@ == id@,
                    forall|j: int| 0 <= j < k ==> !has_state(#[trigger] panes@[j]),
                decreases panes.len() - k,
            {
                if pane_has_state(&panes[k]) {
                    assert(views[i as int].panes[k as int] == panes@[k as int]);
                    return true;
                }
                k += 1;
            }
            assert forall|k: int| 0 <= k < views[i as int].panes.len() implies !has_state(
                #[trigger] views[i as int].panes[k],
            ) by {
                assert(views[i as int].panes[k] == panes@[k]);
            }
        }
        i += 1;
    }
    false
}

fn is_core_blocked(core: &Vec<(String, bool)>, id: &str) -> (r: bool)
    ensures
        r == exists|i: int| 0 <= i < core.len() && (#[trigger] core@[i]).0@ == id@ && core@[i].1,
{
    let mut i: usize = 0;
    while i < core.len()
        invariant
            i <= core.len(),
            forall|j: int| 0 <= j < i ==> !((#[trigger] core@[j]).0@ == id@ && core@[j].1),
        decreases core.len() - i,
    {
        if core[i].1 && same(core[i].0.as_str(), id) {
            return true;
        }
        i += 1;
    }
    false
}

/// Merges what the frontend itself saw into the snapshot of the core. A pane
/// of which something was seen replaces the pane with its number; the counts
/// of its workspace are taken anew, and a workspace that becomes blocked by it
/// adds to the number of blocked workspaces.
pub fn activity_snapshot(
    snapshot: ClientActivitySnapshot,
    seen: &Vec<ClientWorkspaceAttention>,
) -> (r: ClientActivitySnapshot)
    ensures
        attention_views(r.workspaces@) == merged_workspaces(
            attention_views(snapshot.workspaces@),
            attention_views(seen@),
        ),
        r.blocked_count == ({
            let n = snapshot.blocked_count + newly_blocked(
                attention_views(r.workspaces@),
                attention_views(snapshot.workspaces@),
                attention_views(seen@),
            );
            if n > usize::MAX {
                usize::MAX as int
            } else {
                n as int
            }
        }),
{
    let ghost core = attention_views(snapshot.workspaces@);
    let ghost sv = attention_views(seen@);
    let core_count: usize = snapshot.blocked_count;
    let mut workspaces = snapshot.workspaces;
    let mut blocked: Vec<(String, bool)> = Vec::new();
    let mut i: usize = 0;
    while i < workspaces.len()
        invariant
            i <= workspaces.len(),
            core == attention_views(workspaces@),
            blocked.len() == i,
            forall|j: int|
                0 <= j < i ==> (#[trigger] blocked@[j]).0@ == core[j].workspace_id && blocked@[j].1
                    == (core[j].blocked > 0),
        decreases workspaces.len() - i,
    {
        blocked.push((workspaces[i].workspace_id.clone(), workspaces[i].blocked > 0));
        i += 1;
    }
    let mut k: usize = 0;
    assert(with_workspaces(core, sv.take(0)) =~= core);
    while k < seen.len()
        invariant
            k <= seen.len(),
            sv == attention_views(seen@),
            attention_views(workspaces@) == with_workspaces(core, sv.take(k as int)),
        decreases seen.len() - k,
    {
        assert(sv.take(k + 1).drop_last() =~= sv.take(k as int));
        assert(sv.take(k + 1).last() == seen@[k as int]@);
        put_workspace(&mut workspaces, &seen[k]);
        k += 1;
    }
    assert(sv.take(sv.len() as int) =~= sv);
    let ghost all = attention_views(workspaces@);
    let ghost merged = merged_workspaces(core, sv);
    let n: usize = workspaces.len();
    let mut out: Vec<ClientWorkspaceAttention> = Vec::new();
    let mut extra: usize = 0;
    let mut m: usize = 0;
    assert(attention_views(workspaces@).skip(0) =~= all);
    assert(newly_blocked(merged.take(0), core, sv) == 0);
    while m < n
        invariant
            m <= n,
            n == all.len(),
            all == with_workspaces(core, sv),
            merged == merged_workspaces(core, sv),
            sv == attention_views(seen@),
            attention_views(workspaces@) == all.skip(m as int),
            blocked.len() == core.len(),
            forall|j: int|
                0 <= j < blocked.len() ==> (#[trigger] blocked@[j]).0@ == core[j].workspace_id
                    && blocked@[j].1 == (core[j].blocked > 0),
            out.len() == m,
            forall|j: int| 0 <= j < m ==> (#[trigger] out@[j])@ == merged[j],
            extra <= m,
            extra == newly_blocked(merged.take(m as int), core, sv),
        decreases n - m,
    {
        let ghost before = attention_views(workspaces@);
        assert(before.len() == workspaces@.len());
        assert(before.len() == n - m);
        assert(before[0] == all[m as int]);
        let mut w = workspaces.remove(0);
        assert(attention_views(workspaces@) =~= before.skip(1));
        assert(before.skip(1) =~= all.skip(m + 1));
        let seen_here = is_touched(seen, w.workspace_id.as_str());
        if seen_here {
            w.blocked = count(&w.panes, "blocked", true);
            w.done = count(&w.panes, "done", true);
            w.working = count(&w.panes, "working", false);
        }
        assert(w@ == merged[m as int]);
        let was_blocked = is_core_blocked(&blocked, w.workspace_id.as_str());
        proof {
            assert(was_blocked == core_blocked(core, w.workspace_id@)) by {
                if was_blocked {
                    let i = choose|i: int|
                        0 <= i < blocked.len() && (#[trigger] blocked@[i]).0@ == w.workspace_id@
                            && blocked@[i].1;
                    assert(core[i].workspace_id == w.workspace_id@ && core[i].blocked > 0);
                }
                if core_blocked(core, w.workspace_id@) {
                    let i = choose|i: int|
                        0 <= i < core.len() && (#[trigger] core[i]).workspace_id == w.workspace_id@
                            && core[i].blocked > 0;
                    assert(blocked@[i].0@ == w.workspace_id@);
                }
            }
            assert(merged.take(m + 1).drop_last() =~= merged.take(m as int));
            assert(merged.take(m + 1).last() == w@);
        }
        if seen_here && w.blocked > 0 && !was_blocked {
            extra += 1;
        }
        out.push(w);
        m += 1;
    }
    assert(merged.take(merged.len() as int) =~= merged);
    assert(attention_views(out@) =~= merged);
    let total: usize = core_count.saturating_add(extra);
    ClientActivitySnapshot { blocked_count: total, workspaces: out }
}

/// The panes of all workspaces, one workspace after the other.
pub open spec fn attention_rows(workspaces: Seq<ClientWorkspaceAttention>) -> Seq<
    ClientAttentionPane,
> {
    flat(Seq::new(workspaces.len(), |i: int| workspaces[i].panes@))
}

/// Returns the panes of all workspaces.
pub fn panel_attention_rows(snapshot: &ClientActivitySnapshot) -> (r: Vec<ClientAttentionPane>)
    ensures
        r@ == attention_rows(snapshot.workspaces@),
{
    let ghost lists = Seq::new(
        snapshot.workspaces@.len(),
        |i: int| snapshot.workspaces@[i].panes@,
    );
    let mut out: Vec<ClientAttentionPane> = Vec::new();
    let mut i: usize = 0;
    while i < snapshot.workspaces.len()
        invariant
            i <= snapshot.workspaces.len(),
            lists == Seq::new(
                snapshot.workspaces@.len(),
                |i: int| snapshot.workspaces@[i].panes@,
            ),
            out@ == flat(lists.take(i as int)),
        decreases snapshot.workspaces.len() - i,
    {
        let panes = &snapshot.workspaces[i].panes;
        let ghost before = out@;
        let mut k: usize = 0;
        assert(out@ =~= before + panes@.take(0));
        while k < panes.len()
            invariant
                k <= panes.len(),
                out@ == before + panes@.take(k as int),
            decreases panes.len() - k,
        {
            out.push(panes[k].clone());
            assert(panes@.take(k + 1) =~= panes@.take(k as int).push(panes@[k as int]));
            assert(out@ =~= before + panes@.take(k + 1));
            k += 1;
        }
        assert(panes@.take(panes@.len() as int) =~= panes@);
        assert(lists.take(i + 1).drop_last() =~= lists.take(i as int));
        i += 1;
    }
    assert(lists.take(lists.len() as int) =~= lists);
    out
}

// ---------------------------------------------------------------------------
// Laws.
// ---------------------------------------------------------------------------

/// Where the frontend saw nothing, the snapshot of the core stands.
pub proof fn law_nothing_seen_changes_nothing(core: Seq<AttentionView>)
    ensures
        merged_workspaces(core, Seq::<AttentionView>::empty()) == core,
        newly_blocked(core, core, Seq::<AttentionView>::empty()) == 0,
    decreases core.len(),
{
    let none = Seq::<AttentionView>::empty();
    assert(merged_workspaces(core, none) =~= core) by {
        assert forall|i: int| 0 <= i < core.len() implies !touched(none, core[i].workspace_id) by {}
    }
    lemma_none_newly_blocked(core, core);
}

proof fn lemma_none_newly_blocked(merged: Seq<AttentionView>, core: Seq<AttentionView>)
    ensures
        newly_blocked(merged, core, Seq::<AttentionView>::empty()) == 0,
    decreases merged.len(),
{
    if merged.len() > 0 {
        lemma_none_newly_blocked(merged.drop_last(), core);
    }
}

/// Every workspace of the core stays where it is and keeps its identity and
/// path; new ones follow behind.
pub proof fn law_merge_keeps_core_order(core: Seq<AttentionView>, seen: Seq<AttentionView>, i: int)
    requires
        0 <= i < core.len(),
    ensures
        i < merged_workspaces(core, seen).len(),
        merged_workspaces(core, seen)[i].workspace_id == core[i].workspace_id,
        merged_workspaces(core, seen)[i].path == core[i].path,
    decreases seen.len(),
{
    lemma_with_workspaces_keeps(core, seen, i);
}

proof fn lemma_with_workspaces_keeps(core: Seq<AttentionView>, seen: Seq<AttentionView>, i: int)
    requires
        0 <= i < core.len(),
    ensures
        i < with_workspaces(core, seen).len(),
        with_workspaces(core, seen)[i].workspace_id == core[i].workspace_id,
        with_workspaces(core, seen)[i].path == core[i].path,
    decreases seen.len(),
{
    if seen.len() > 0 {
        lemma_with_workspaces_keeps(core, seen.drop_last(), i);
        let all = with_workspaces(core, seen.drop_last());
        match first_where(all, attention_is(seen.last().workspace_id)) {
            Some(k) => {
                assert(is_first(all, attention_is(seen.last().workspace_id), k));
            },
            None => {},
        }
    }
}

/// A workspace of which something was seen is blocked exactly when one of its
/// panes is blocked and was not acknowledged.
pub proof fn law_touched_workspace_counts(
    core: Seq<AttentionView>,
    seen: Seq<AttentionView>,
    i: int,
)
    requires
        0 <= i < merged_workspaces(core, seen).len(),
        touched(seen, merged_workspaces(core, seen)[i].workspace_id),
    ensures
        ({
            let w = merged_workspaces(core, seen)[i];
            w.blocked > 0 <==> exists|k: int|
                0 <= k < w.panes.len() && (#[trigger] w.panes[k]).status@ == "blocked"@
                    && !w.panes[k].acknowledged
        }),
{
    let w = merged_workspaces(core, seen)[i];
    lemma_count_positive(w.panes, "blocked"@);
}

proof fn lemma_count_positive(panes: Seq<ClientAttentionPane>, word: Seq<char>)
    ensures
        count_status(panes, word, true) > 0 <==> exists|k: int|
            0 <= k < panes.len() && (#[trigger] panes[k]).status@ == word && !panes[k].acknowledged,
    decreases panes.len(),
{
    if panes.len() > 0 {
        let init = panes.drop_last();
        lemma_count_positive(init, word);
        if count_status(init, word, true) > 0 {
            let k = choose|k: int|
                0 <= k < init.len() && (#[trigger] init[k]).status@ == word
                    && !init[k].acknowledged;
            assert(panes[k] == init[k]);
        }
        if panes.last().status@ == word && !panes.last().acknowledged {
            assert(panes[panes.len() - 1] == panes.last());
        }
        if exists|k: int|
            0 <= k < panes.len() && (#[trigger] panes[k]).status@ == word
                && !panes[k].acknowledged {
            let k = choose|k: int|
                0 <= k < panes.len() && (#[trigger] panes[k]).status@ == word
                    && !panes[k].acknowledged;
            if k < init.len() {
                assert(init[k] == panes[k]);
            }
        }
    }
}

} // verus!
