//! Going back to where a pane was last read.
//!
//! Only stable line numbers are kept. A pane that is left remembers the last
//! line that it showed; when it is entered again with newer lines, going back
//! is offered for a short while.
use vstd::prelude::*;

use crate::client::call::FfiClient;
use crate::client::query::{text_arg, CArgView, CCall, CCallView, CFunction};
use crate::linux::overlay::{OverlayLayer, OverlayView};
use crate::text::same;

verus! {

/// A pane of a workspace.
#[derive(Debug, PartialEq, Eq)]
pub struct PaneKey {
    pub workspace: String,
    pub pane: u32,
}

impl Clone for PaneKey {
    fn clone(&self) -> (r: Self)
        ensures
            r == *self,
    {
        PaneKey { workspace: self.workspace.clone(), pane: self.pane }
    }
}

/// The view of a [`PaneKey`].
pub struct PaneKeyView {
    pub workspace: Seq<char>,
    pub pane: u32,
}

impl View for PaneKey {
    type V = PaneKeyView;

    open spec fn view(&self) -> PaneKeyView {
        PaneKeyView { workspace: self.workspace@, pane: self.pane }
    }
}

/// How long going back is offered, in milliseconds.
pub const OFFER_MS: u64 = 4000;

/// How long an offer holds without a fresh position, in milliseconds.
pub const FRESH_MS: u64 = 1000;

/// An offer to go back.
#[derive(Debug)]
pub struct Offer {
    owner: PaneKey,
    offset: u32,
    deadline: u64,
    valid: u64,
}

/// The panes that were left and the one that is read.
#[derive(Debug)]
pub struct LastSeen {
    current: Option<(PaneKey, Option<u64>)>,
    baselines: Vec<(PaneKey, u64)>,
    offer: Option<Offer>,
}

/// The view of an [`Offer`].
pub struct OfferView {
    pub owner: PaneKeyView,
    pub offset: u32,
    pub deadline: u64,
    pub valid: u64,
}

/// The view of a [`LastSeen`].
pub struct LastSeenView {
    pub current: Option<(PaneKeyView, Option<u64>)>,
    pub baselines: Map<PaneKeyView, u64>,
    pub offer: Option<OfferView>,
}

/// The lines remembered in a list without repeated panes.
pub open spec fn baseline_map(rows: Seq<(PaneKey, u64)>) -> Map<PaneKeyView, u64>
    decreases rows.len(),
{
    if rows.len() == 0 {
        Map::<PaneKeyView, u64>::empty()
    } else {
        baseline_map(rows.drop_last()).insert(rows.last().0@, rows.last().1)
    }
}

/// No pane is listed twice.
pub open spec fn distinct_rows(rows: Seq<(PaneKey, u64)>) -> bool {
    forall|i: int, j: int|
        0 <= i < j < rows.len() ==> (#[trigger] rows[i]).0@ != (#[trigger] rows[j]).0@
}

impl View for LastSeen {
    type V = LastSeenView;

    closed spec fn view(&self) -> LastSeenView {
        LastSeenView {
            current: match self.current {
                Some((key, latest)) => Some((key@, latest)),
                None => None,
            },
            baselines: baseline_map(self.baselines@),
            offer: match self.offer {
                Some(o) => Some(
                    OfferView {
                        owner: o.owner@,
                        offset: o.offset,
                        deadline: o.deadline,
                        valid: o.valid,
                    },
                ),
                None => None,
            },
        }
    }
}

// ---------------------------------------------------------------------------
// What the operations do.
// ---------------------------------------------------------------------------

/// A line number counts only when it is positive.
pub open spec fn counted(latest: Option<u64>) -> Option<u64> {
    match latest {
        Some(seq) => if seq > 0 {
            Some(seq)
        } else {
            None
        },
        None => None,
    }
}

/// After a pane was looked at: a pane that is left remembers its last line.
pub open spec fn observed(s: LastSeenView, key: PaneKeyView, latest: Option<u64>) -> LastSeenView {
    match s.current {
        Some((left, seq)) => if left != key {
            LastSeenView {
                current: Some((key, counted(latest))),
                baselines: match seq {
                    Some(n) => s.baselines.insert(left, n),
                    None => s.baselines,
                },
                offer: None,
            }
        } else {
            LastSeenView { current: Some((key, counted(latest))), ..s }
        },
        None => LastSeenView { current: Some((key, counted(latest))), ..s },
    }
}

/// The line remembered for a pane.
pub open spec fn baseline_of(s: LastSeenView, key: PaneKeyView) -> Option<u64> {
    if s.baselines.dom().contains(key) {
        Some(s.baselines[key])
    } else {
        None
    }
}

/// After going back to a pane was declined.
pub open spec fn dismissed(s: LastSeenView, key: PaneKeyView) -> LastSeenView {
    LastSeenView { baselines: s.baselines.remove(key), offer: None, ..s }
}

/// The pane that is read has lines newer than the remembered one.
pub open spec fn progressed(s: LastSeenView, key: PaneKeyView) -> bool {
    match s.current {
        Some((owner, Some(latest))) => owner == key && (baseline_of(s, key) matches Some(b) && latest
            > b),
        _ => false,
    }
}

/// The offer is for the pane and its time is over.
pub open spec fn expired(s: LastSeenView, key: PaneKeyView, now: u64) -> bool {
    s.offer matches Some(o) && o.owner == key && now >= o.deadline
}

/// When an offer ends: an offer that is running keeps its end.
pub open spec fn deadline_of(s: LastSeenView, key: PaneKeyView, now: u64) -> u64 {
    match s.offer {
        Some(o) => if o.owner == key {
            o.deadline
        } else {
            (now + OFFER_MS) as u64
        },
        None => (now + OFFER_MS) as u64,
    }
}

/// After asking where to go back to.
pub open spec fn after_target(
    s: LastSeenView,
    key: PaneKeyView,
    offset: Option<u32>,
    now: u64,
) -> LastSeenView {
    if expired(s, key, now) {
        dismissed(s, key)
    } else if !progressed(s, key) {
        LastSeenView { offer: None, ..s }
    } else {
        match offset {
            Some(o) => LastSeenView {
                offer: Some(
                    OfferView {
                        owner: key,
                        offset: o,
                        deadline: deadline_of(s, key, now),
                        valid: now,
                    },
                ),
                ..s
            },
            None => s,
        }
    }
}

/// Where to go back to.
pub open spec fn target_of(
    s: LastSeenView,
    key: PaneKeyView,
    offset: Option<u32>,
    now: u64,
) -> Option<u32> {
    if expired(s, key, now) || !progressed(s, key) {
        None
    } else {
        match offset {
            Some(o) => Some(o),
            None => match s.offer {
                Some(o) => if o.owner == key && now - o.valid <= FRESH_MS {
                    Some(o.offset)
                } else {
                    None
                },
                None => None,
            },
        }
    }
}

/// After a workspace was closed.
pub open spec fn without_workspace(s: LastSeenView, workspace: Seq<char>) -> LastSeenView {
    let gone = s.current matches Some((key, _)) && key.workspace == workspace;
    LastSeenView {
        current: if gone {
            None
        } else {
            s.current
        },
        baselines: Map::new(
            |k: PaneKeyView| s.baselines.dom().contains(k) && k.workspace != workspace,
            |k: PaneKeyView| s.baselines[k],
        ),
        offer: if gone {
            None
        } else {
            s.offer
        },
    }
}

fn same_key(a: &PaneKey, b: &PaneKey) -> (r: bool)
    ensures
        r == (a@ == b@),
{
    a.pane == b.pane && same(a.workspace.as_str(), b.workspace.as_str())
}

fn find_row(rows: &Vec<(PaneKey, u64)>, key: &PaneKey) -> (r: Option<usize>)
    requires
        distinct_rows(rows@),
    ensures
        match r {
            Some(i) => {
                &&& i < rows.len()
                &&& rows@[i as int].0@ == key@
                &&& baseline_map(rows@).dom().contains(key@)
                &&& baseline_map(rows@)[key@] == rows@[i as int].1
            },
            None => !baseline_map(rows@).dom().contains(key@) && forall|j: int|
                0 <= j < rows.len() ==> (#[trigger] rows@[j]).0@ != key@,
        },
{
    let mut i: usize = 0;
    while i < rows.len()
        invariant
            i <= rows.len(),
            distinct_rows(rows@),
            forall|j: int| 0 <= j < i ==> (#[trigger] rows@[j]).0@ != key@,
        decreases rows.len() - i,
    {
        if same_key(&rows[i].0, key) {
            proof {
                lemma_map_lookup(rows@, i as int);
            }
            return Some(i);
        }
        i += 1;
    }
    proof {
        lemma_map_absent(rows@, key@);
    }
    None
}

fn put_row(rows: &mut Vec<(PaneKey, u64)>, key: PaneKey, seq: u64)
    requires
        distinct_rows(old(rows)@),
    ensures
        distinct_rows(final(rows)@),
        baseline_map(final(rows)@) == baseline_map(old(rows)@).insert(key@, seq),
{
    match find_row(rows, &key) {
        Some(i) => {
            proof {
                lemma_map_update(rows@, i as int, (key, seq));
            }
            rows.set(i, (key, seq));
        },
        None => {
            rows.push((key, seq));
            assert(rows@.drop_last() =~= old(rows)@);
        },
    }
}

fn remove_row(rows: &mut Vec<(PaneKey, u64)>, key: &PaneKey)
    requires
        distinct_rows(old(rows)@),
    ensures
        distinct_rows(final(rows)@),
        baseline_map(final(rows)@) == baseline_map(old(rows)@).remove(key@),
{
    match find_row(rows, key) {
        Some(i) => {
            proof {
                lemma_map_remove(rows@, i as int);
            }
            let _ = rows.remove(i);
        },
        None => {
            assert(baseline_map(rows@).remove(key@) =~= baseline_map(rows@));
        },
    }
}

/// The rows of panes outside a workspace.
fn rows_outside(rows: &Vec<(PaneKey, u64)>, workspace: &str) -> (kept: Vec<(PaneKey, u64)>)
    requires
        distinct_rows(rows@),
    ensures
        distinct_rows(kept@),
        baseline_map(kept@) == Map::new(
            |k: PaneKeyView|
                baseline_map(rows@).dom().contains(k) && k.workspace != workspace@,
            |k: PaneKeyView| baseline_map(rows@)[k],
        ),
{
    let ghost before = rows@;
    let mut kept: Vec<(PaneKey, u64)> = Vec::new();
    let mut i: usize = 0;
    while i < rows.len()
        invariant
            i <= rows.len(),
            before == rows@,
            distinct_rows(before),
            distinct_rows(kept@),
            forall|j: int| 0 <= j < kept.len() ==> before.take(i as int).contains(
                #[trigger] kept@[j],
            ),
            baseline_map(kept@) == Map::new(
                |k: PaneKeyView|
                    baseline_map(before.take(i as int)).dom().contains(k) && k.workspace
                        != workspace@,
                |k: PaneKeyView| baseline_map(before.take(i as int))[k],
            ),
        decreases rows.len() - i,
    {
        let ghost row = before[i as int];
        let ghost old_kept = kept@;
        proof {
            assert(before.take(i + 1).drop_last() =~= before.take(i as int));
            assert forall|j: int| 0 <= j < kept.len() implies (#[trigger] kept@[j]).0@
                != row.0@ && before.take(i + 1).contains(kept@[j]) by {
                let k = choose|k: int|
                    0 <= k < before.take(i as int).len() && before.take(i as int)[k]
                        == kept@[j];
                assert(before[k].0@ != before[i as int].0@);
                assert(before.take(i + 1)[k] == kept@[j]);
            }
        }
        if !same(rows[i].0.workspace.as_str(), workspace) {
            kept.push((rows[i].0.clone(), rows[i].1));
            proof {
                assert(kept@.last() == row);
                assert(kept@.drop_last() =~= old_kept);
                assert(before.take(i + 1)[i as int] == row);
                assert forall|j: int| 0 <= j < kept.len() implies before.take(i + 1).contains(
                    #[trigger] kept@[j],
                ) by {
                    if j < old_kept.len() {
                        assert(kept@[j] == old_kept[j]);
                    }
                }
            }
        }
        assert(baseline_map(kept@) =~= Map::new(
            |k: PaneKeyView|
                baseline_map(before.take(i + 1)).dom().contains(k) && k.workspace
                    != workspace@,
            |k: PaneKeyView| baseline_map(before.take(i + 1))[k],
        ));
        i += 1;
    }
    assert(before.take(before.len() as int) =~= before);
    kept
}

impl Default for LastSeen {
    fn default() -> (r: Self)
        ensures
            r@.current is None,
            r@.baselines == Map::<PaneKeyView, u64>::empty(),
            r@.offer is None,
    {
        LastSeen { current: None, baselines: Vec::new(), offer: None }
    }
}

impl LastSeen {
    /// No pane is remembered twice.
    #[verifier::type_invariant]
    spec fn remembers_once(&self) -> bool {
        distinct_rows(self.baselines@)
    }

    fn put(&mut self, key: PaneKey, seq: u64)
        ensures
            final(self)@ == (LastSeenView {
                baselines: old(self)@.baselines.insert(key@, seq),
                ..old(self)@
            }),
    {
        proof {
            use_type_invariant(&*self);
        }
        let mut rows: Vec<(PaneKey, u64)> = Vec::new();
        std::mem::swap(&mut rows, &mut self.baselines);
        put_row(&mut rows, key, seq);
        self.baselines = rows;
    }

    /// Notes what a pane shows now; a pane that is left remembers its last
    /// line.
    pub fn observe(&mut self, key: PaneKey, latest: Option<u64>)
        ensures
            final(self)@ == observed(old(self)@, key@, latest),
    {
        proof {
            use_type_invariant(&*self);
        }
        let latest: Option<u64> = match latest {
            Some(seq) => if seq > 0 {
                Some(seq)
            } else {
                None
            },
            None => None,
        };
        let left: Option<(PaneKey, Option<u64>)> = match &self.current {
            Some((before, seq)) => if same_key(before, &key) {
                None
            } else {
                Some((before.clone(), *seq))
            },
            None => None,
        };
        if let Some((before, seq)) = left {
            if let Some(n) = seq {
                self.put(before, n);
            }
            proof {
                use_type_invariant(&*self);
            }
            self.offer = None;
        }
        self.current = Some((key, latest));
    }

    /// Returns the line remembered for a pane.
    pub fn baseline(&self, key: &PaneKey) -> (r: Option<u64>)
        ensures
            r == baseline_of(self@, key@),
    {
        proof {
            use_type_invariant(&*self);
        }
        match find_row(&self.baselines, key) {
            Some(i) => Some(self.baselines[i].1),
            None => None,
        }
    }

    /// Returns where to go back to, given the position of the remembered line
    /// and the time in milliseconds. An offer ends after a while and is not
    /// made again.
    pub fn target(&mut self, key: &PaneKey, offset: Option<u32>, now: u64) -> (r: Option<u32>)
        requires
            now <= u64::MAX - OFFER_MS,
        ensures
            final(self)@ == after_target(old(self)@, key@, offset, now),
            r == target_of(old(self)@, key@, offset, now),
    {
        proof {
            use_type_invariant(&*self);
        }
        let over = match &self.offer {
            Some(o) => same_key(&o.owner, key) && now >= o.deadline,
            None => false,
        };
        if over {
            self.dismiss(key);
            return None;
        }
        let base = self.baseline(key);
        let newer = match &self.current {
            Some((owner, latest)) => match (latest, base) {
                (Some(a), Some(b)) => same_key(owner, key) && *a > b,
                _ => false,
            },
            None => false,
        };
        if !newer {
            self.offer = None;
            return None;
        }
        if let Some(offset) = offset {
            let deadline: u64 = match &self.offer {
                Some(o) => if same_key(&o.owner, key) {
                    o.deadline
                } else {
                    now + OFFER_MS
                },
                None => now + OFFER_MS,
            };
            self.offer = Some(Offer { owner: key.clone(), offset, deadline, valid: now });
            return Some(offset);
        }
        match &self.offer {
            Some(o) => if same_key(&o.owner, key) && (now < o.valid || now - o.valid <= FRESH_MS) {
                Some(o.offset)
            } else {
                None
            },
            None => None,
        }
    }

    /// Declines going back to a pane.
    pub fn dismiss(&mut self, key: &PaneKey)
        ensures
            final(self)@ == dismissed(old(self)@, key@),
    {
        proof {
            use_type_invariant(&*self);
        }
        let mut rows: Vec<(PaneKey, u64)> = Vec::new();
        std::mem::swap(&mut rows, &mut self.baselines);
        remove_row(&mut rows, key);
        self.baselines = rows;
        self.offer = None;
    }

    /// Forgets a workspace that was closed.
    pub fn remove_workspace(&mut self, workspace: &str)
        ensures
            final(self)@ == without_workspace(old(self)@, workspace@),
    {
        proof {
            use_type_invariant(&*self);
        }
        let kept = rows_outside(&self.baselines, workspace);
        self.baselines = kept;
        let gone = match &self.current {
            Some((key, _)) => same(key.workspace.as_str(), workspace),
            None => false,
        };
        if gone {
            self.current = None;
            self.offer = None;
        }
        assert(self@.baselines =~= without_workspace(old(self)@, workspace@).baselines);
    }

    /// Notes the last line of the pane in front, and returns the call that
    /// looks for the row of the line remembered for it, where there is one.
    pub fn take_latest(&mut self, key: PaneKey, latest: Option<u64>) -> (r: Option<CCall>)
        ensures
            final(self)@ == observed(old(self)@, key@, latest),
            match baseline_of(observed(old(self)@, key@, latest), key@) {
                Some(seq) => r matches Some(call) && call@ == (CCallView {
                    function: CFunction::ViewportForSeq,
                    args: seq![
                        text_arg(key@.workspace),
                        CArgView::Number(key@.pane as u64),
                        CArgView::Number(seq),
                    ],
                }),
                None => r is None,
            },
    {
        let asked = key.clone();
        self.observe(key, latest);
        match self.baseline(&asked) {
            Some(seq) => Some(
                FfiClient::workspace_pane_viewport_for_seq(
                    asked.workspace.as_str(),
                    asked.pane,
                    seq,
                ),
            ),
            None => None,
        }
    }

    /// Shows or hides the offer to go back in the pane in front, given the row
    /// that was found. While a workspace opens nothing is offered.
    pub fn update_last_seen(
        &mut self,
        overlay: &mut OverlayLayer,
        loading: bool,
        key: &PaneKey,
        offset: Option<u32>,
        now: u64,
    )
        requires
            now <= u64::MAX - OFFER_MS,
        ensures
            final(self)@ == if loading {
                old(self)@
            } else {
                after_target(old(self)@, key@, offset, now)
            },
            final(overlay)@ == (OverlayView {
                last_seen: !loading && target_of(old(self)@, key@, offset, now) is Some,
                ..old(overlay)@
            }),
    {
        if loading {
            overlay.last_seen = false;
            return ;
        }
        let visible = self.target(key, offset, now).is_some();
        overlay.last_seen = visible;
    }
}

/// Returns the call that asks for the last line of the pane in front; nothing
/// is asked while a workspace opens.
pub fn latest_call(loading: bool, key: &PaneKey) -> (r: Option<CCall>)
    ensures
        if loading {
            r is None
        } else {
            r matches Some(call) && call@ == (CCallView {
                function: CFunction::LatestLineSeq,
                args: seq![text_arg(key@.workspace), CArgView::Number(key@.pane as u64)],
            })
        },
{
    if loading {
        None
    } else {
        Some(FfiClient::workspace_pane_latest_line_seq(key.workspace.as_str(), key.pane))
    }
}

proof fn lemma_map_absent(rows: Seq<(PaneKey, u64)>, key: PaneKeyView)
    requires
        forall|j: int| 0 <= j < rows.len() ==> (#[trigger] rows[j]).0@ != key,
    ensures
        !baseline_map(rows).dom().contains(key),
    decreases rows.len(),
{
    if rows.len() > 0 {
        lemma_map_absent(rows.drop_last(), key);
    }
}

proof fn lemma_map_lookup(rows: Seq<(PaneKey, u64)>, i: int)
    requires
        distinct_rows(rows),
        0 <= i < rows.len(),
    ensures
        baseline_map(rows).dom().contains(rows[i].0@),
        baseline_map(rows)[rows[i].0@] == rows[i].1,
    decreases rows.len(),
{
    if i < rows.len() - 1 {
        assert(rows[i].0@ != rows[rows.len() - 1].0@);
        lemma_map_lookup(rows.drop_last(), i);
    }
}

proof fn lemma_map_update(rows: Seq<(PaneKey, u64)>, i: int, row: (PaneKey, u64))
    requires
        distinct_rows(rows),
        0 <= i < rows.len(),
        rows[i].0@ == row.0@,
    ensures
        distinct_rows(rows.update(i, row)),
        baseline_map(rows.update(i, row)) == baseline_map(rows).insert(row.0@, row.1),
    decreases rows.len(),
{
    let r = rows.update(i, row);
    assert forall|a: int, b: int| 0 <= a < b < r.len() implies (#[trigger] r[a]).0@
        != (#[trigger] r[b]).0@ by {
        assert(rows[a].0@ != rows[b].0@);
    }
    if i == rows.len() - 1 {
        assert(r.drop_last() =~= rows.drop_last());
        assert(baseline_map(r) =~= baseline_map(rows).insert(row.0@, row.1));
    } else {
        let init = rows.drop_last();
        lemma_map_update(init, i, row);
        assert(r.drop_last() =~= init.update(i, row));
        assert(rows[i].0@ != rows[rows.len() - 1].0@);
        assert(baseline_map(r) =~= baseline_map(rows).insert(row.0@, row.1));
    }
}

proof fn lemma_map_remove(rows: Seq<(PaneKey, u64)>, i: int)
    requires
        distinct_rows(rows),
        0 <= i < rows.len(),
    ensures
        distinct_rows(rows.remove(i)),
        baseline_map(rows.remove(i)) == baseline_map(rows).remove(rows[i].0@),
    decreases rows.len(),
{
    let r = rows.remove(i);
    assert forall|a: int, b: int| 0 <= a < b < r.len() implies (#[trigger] r[a]).0@
        != (#[trigger] r[b]).0@ by {
        let x = if a < i {
            a
        } else {
            a + 1
        };
        let y = if b < i {
            b
        } else {
            b + 1
        };
        assert(rows[x].0@ != rows[y].0@);
    }
    let init = rows.drop_last();
    if i == rows.len() - 1 {
        assert(r =~= init);
        assert forall|j: int| 0 <= j < init.len() implies (#[trigger] init[j]).0@ != rows[i].0@ by {
            assert(rows[j].0@ != rows[i].0@);
        }
        lemma_map_absent(init, rows[i].0@);
        assert(baseline_map(r) =~= baseline_map(rows).remove(rows[i].0@));
    } else {
        lemma_map_remove(init, i);
        assert(r.drop_last() =~= init.remove(i));
        assert(r.last() == rows.last());
        assert(rows[i].0@ != rows[rows.len() - 1].0@);
        assert(baseline_map(r) =~= baseline_map(rows).remove(rows[i].0@));
    }
}

/// An offer that ran out is not made again, whatever is asked later, until
/// the pane is left and entered anew.
pub proof fn law_expired_offer_is_not_rearmed(
    s: LastSeenView,
    key: PaneKeyView,
    first: Option<u32>,
    now: u64,
    second: Option<u32>,
    later: u64,
)
    requires
        expired(s, key, now),
        now <= u64::MAX - OFFER_MS,
        later <= u64::MAX - OFFER_MS,
    ensures
        target_of(s, key, first, now) is None,
        target_of(after_target(s, key, first, now), key, second, later) is None,
{
}

/// An offer that runs is not extended: whatever is asked later, and whatever
/// the pane shows, it ends when it was to end.
pub proof fn law_offer_keeps_its_end(
    s: LastSeenView,
    key: PaneKeyView,
    latest: Option<u64>,
    offset: Option<u32>,
    now: u64,
)
    requires
        s.offer matches Some(o) && o.owner == key,
        s.current matches Some((owner, _)) && owner == key,
    ensures
        observed(s, key, latest).offer == s.offer,
        after_target(observed(s, key, latest), key, offset, now).offer matches Some(o) ==> o.owner
            == key && o.deadline == s.offer->0.deadline,
        now >= s.offer->0.deadline ==> target_of(
            observed(s, key, latest),
            key,
            offset,
            now,
        ) is None,
{
}

/// A pane is remembered by its workspace and its number: another workspace
/// with a pane of the same number has nothing to go back to.
pub proof fn law_panes_are_kept_apart(
    s: LastSeenView,
    key: PaneKeyView,
    other: PaneKeyView,
    latest: Option<u64>,
)
    requires
        key.workspace != other.workspace,
        s.current matches Some((owner, _)) && owner == key,
    ensures
        baseline_of(observed(s, other, latest), other) == baseline_of(s, other),
{
}

/// Going back is offered only to a line older than the newest one.
pub proof fn law_target_needs_progress(
    s: LastSeenView,
    key: PaneKeyView,
    offset: Option<u32>,
    now: u64,
)
    requires
        target_of(s, key, offset, now) is Some,
    ensures
        baseline_of(s, key) is Some,
        s.current matches Some((owner, Some(latest))) && owner == key && latest > baseline_of(
            s,
            key,
        )->0,
{
}

/// A closed workspace leaves nothing behind.
pub proof fn law_closed_workspace_is_forgotten(
    s: LastSeenView,
    workspace: Seq<char>,
    key: PaneKeyView,
)
    requires
        key.workspace == workspace,
    ensures
        baseline_of(without_workspace(s, workspace), key) is None,
{
}

} // verus!
