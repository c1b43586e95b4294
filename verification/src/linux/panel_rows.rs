//! The rows that the quick-connect panel shows for a query.
use vstd::prelude::*;
use vstd::string::*;

use crate::client::attention::{status_of, ClientAttentionPane, ClientAttentionStatus};
use crate::client::types::ClientSearchHit;
use crate::linux::existing::or_empty;
use crate::linux::panel_model::{clone_items, item_views, PanelItem, PanelItemView};
use crate::linux::workspace_sidebar_model::{ActivityIndicator, AgentSidebarItem};
use crate::seqs::{
    flat, lemma_filter_none, lemma_filter_step, lemma_flat_holds, lemma_flat_source,
};
use crate::text::find::{contains, contains_chars};
use crate::text::order::{
    in_order, insert_by, insert_sorted, is_ranking, lemma_insert_elements, lemma_sorted_elements,
    lemma_stable_sorted, stable_sorted,
};
use crate::text::{
    all_white, chars_of, concat2, concat3, is_blank, lowercase_of, same, to_lowercase, trim,
    trimmed,
};

verus! {

// ---------------------------------------------------------------------------
// The panel.
// ---------------------------------------------------------------------------

/// The tabs of the panel.
#[derive(Debug, Clone, Copy, PartialEq, Eq, Structural)]
pub enum PanelTab {
    Workspaces,
    Attention,
    Search,
}

/// Where a search looks.
#[derive(Debug, Clone, Copy, PartialEq, Eq, Structural)]
pub enum SearchScope {
    All,
    Workspace,
    Pane,
}

impl Default for SearchScope {
    fn default() -> (r: Self)
        ensures
            r == SearchScope::All,
    {
        SearchScope::All
    }
}

/// What the panel shows.
#[derive(Debug, PartialEq, Eq)]
pub struct PanelModel {
    pub tab: PanelTab,
    pub query: String,
    pub scope: SearchScope,
}

/// The number of a tab.
pub open spec fn tab_number(t: PanelTab) -> int {
    match t {
        PanelTab::Workspaces => 0,
        PanelTab::Attention => 1,
        PanelTab::Search => 2,
    }
}

impl PanelModel {
    /// A panel that opens with a tab, without a query and over everything.
    pub fn open(initial: PanelTab) -> (r: Self)
        ensures
            r.tab == initial,
            r.query@ == Seq::<char>::empty(),
            r.scope == SearchScope::All,
    {
        PanelModel { tab: initial, query: String::new(), scope: SearchScope::All }
    }

    /// Goes to the next tab, or back to the one before; the ends meet.
    pub fn cycle_tab(&mut self, back: bool)
        ensures
            tab_number(final(self).tab) == (tab_number(old(self).tab) + (if back {
                2int
            } else {
                1int
            })) % 3,
            final(self).query == old(self).query,
            final(self).scope == old(self).scope,
    {
        self.tab = match (self.tab, back) {
            (PanelTab::Workspaces, false) => PanelTab::Attention,
            (PanelTab::Attention, false) => PanelTab::Search,
            (PanelTab::Search, false) => PanelTab::Workspaces,
            (PanelTab::Workspaces, true) => PanelTab::Search,
            (PanelTab::Attention, true) => PanelTab::Workspaces,
            (PanelTab::Search, true) => PanelTab::Attention,
        };
    }
}

// ---------------------------------------------------------------------------
// The first tab: targets and workspaces.
// ---------------------------------------------------------------------------

/// Rows with higher scores come first.
pub open spec fn by_score() -> spec_fn((usize, u32), (usize, u32)) -> bool {
    |a: (usize, u32), b: (usize, u32)| a.1 >= b.1
}

/// The items that have a score, with their positions.
pub open spec fn scored(scores: Seq<Option<u32>>) -> Seq<(usize, u32)>
    decreases scores.len(),
{
    if scores.len() == 0 {
        Seq::<(usize, u32)>::empty()
    } else {
        let rest = scored(scores.drop_last());
        match scores.last() {
            Some(n) => rest.push(((scores.len() - 1) as usize, n)),
            None => rest,
        }
    }
}

/// The positions of the items that have a score, the highest first; items of
/// the same score keep their order.
pub open spec fn ranked(scores: Seq<Option<u32>>) -> Seq<(usize, u32)> {
    stable_sorted(scored(scores), by_score())
}

/// The items that have a score, the highest first.
pub open spec fn ranked_items(items: Seq<PanelItemView>, scores: Seq<Option<u32>>) -> Seq<
    PanelItemView,
> {
    Seq::new(ranked(scores).len(), |i: int| items[ranked(scores)[i].0 as int])
}

fn score_not_after(a: &(usize, u32), b: &(usize, u32)) -> (r: bool)
    ensures
        r == by_score()(*a, *b),
{
    a.1 >= b.1
}

proof fn lemma_scored_positions(scores: Seq<Option<u32>>)
    requires
        scores.len() <= usize::MAX,
    ensures
        forall|i: int| 0 <= i < scored(scores).len() ==> (#[trigger] scored(scores)[i]).0
            < scores.len(),
    decreases scores.len(),
{
    if scores.len() > 0 {
        let init = scores.drop_last();
        lemma_scored_positions(init);
        assert forall|i: int| 0 <= i < scored(scores).len() implies (#[trigger] scored(scores)[i]).0
            < scores.len() by {
            if i < scored(init).len() {
                assert(scored(scores)[i] == scored(init)[i]);
            }
        }
    }
}

/// Returns the items that have a score, the highest first.
pub fn rank_items(items: &Vec<PanelItem>, scores: &Vec<Option<u32>>) -> (r: Vec<PanelItem>)
    requires
        scores.len() == items.len(),
    ensures
        item_views(r@) == ranked_items(item_views(items@), scores@),
{
    let mut order: Vec<(usize, u32)> = Vec::new();
    let mut i: usize = 0;
    assert(ranked(scores@.take(0)) =~= Seq::<(usize, u32)>::empty());
    while i < scores.len()
        invariant
            i <= scores.len(),
            order@ == ranked(scores@.take(i as int)),
        decreases scores.len() - i,
    {
        let ghost before = scored(scores@.take(i as int));
        assert(scores@.take(i + 1).drop_last() =~= scores@.take(i as int));
        assert(scores@.take(i + 1).last() == scores@[i as int]);
        if let Some(n) = scores[i] {
            proof {
                let now = scored(scores@.take(i + 1));
                assert(now == before.push((i, n)));
                assert(now.drop_last() =~= before);
            }
            insert_by(&mut order, (i, n), score_not_after, Ghost(by_score()));
        }
        i += 1;
    }
    proof {
        assert(scores@.take(scores@.len() as int) =~= scores@);
        lemma_scored_positions(scores@);
        lemma_sorted_elements(scored(scores@), by_score());
        assert forall|k: int| 0 <= k < order.len() implies (#[trigger] order@[k]).0
            < items.len() by {
            assert(scored(scores@).contains(order@[k]));
        }
    }
    let mut out: Vec<PanelItem> = Vec::new();
    let mut k: usize = 0;
    while k < order.len()
        invariant
            k <= order.len(),
            forall|k: int| 0 <= k < order.len() ==> (#[trigger] order@[k]).0 < items.len(),
            out.len() == k,
            forall|j: int| 0 <= j < k ==> (#[trigger] out@[j])@ == items@[order@[j].0 as int]@,
        decreases order.len() - k,
    {
        out.push(items[order[k].0].clone());
        k += 1;
    }
    assert(item_views(out@) =~= ranked_items(item_views(items@), scores@));
    out
}

/// Items rank by their scores, and where these are equal by their positions.
pub proof fn law_items_rank_by_score(scores: Seq<Option<u32>>)
    ensures
        in_order(ranked(scores), by_score()),
        ranked(scores).to_multiset() == scored(scores).to_multiset(),
{
    assert(is_ranking(by_score()));
    lemma_stable_sorted(scored(scores), by_score());
}

/// What an item scores for a query in lower case. Targets, running workspaces
/// and hosts are scored elsewhere; `given` is their score.
pub open spec fn item_score(
    item: PanelItemView,
    needle: Seq<char>,
    given: Option<u32>,
    new_project: Seq<char>,
) -> Option<u32> {
    match item {
        PanelItemView::Target(..) => given,
        PanelItemView::Existing(_) => given,
        PanelItemView::Host { .. } => given,
        PanelItemView::NewProject => if contains(
            "new project "@ + lowercase_of(new_project),
            needle,
        ) {
            Some(0)
        } else {
            None
        },
        PanelItemView::Folder { id, title } => if contains(lowercase_of(title), needle) {
            Some(0)
        } else {
            None
        },
        PanelItemView::Empty { title } => if contains(lowercase_of(title), needle) {
            Some(0)
        } else {
            None
        },
        PanelItemView::Back => Some(0),
        PanelItemView::Loading => Some(0),
    }
}

/// The scores of items for a query.
pub open spec fn item_scores(
    items: Seq<PanelItemView>,
    query: Seq<char>,
    given: Seq<Option<u32>>,
    new_project: Seq<char>,
) -> Seq<Option<u32>> {
    Seq::new(
        items.len(),
        |i: int| item_score(items[i], lowercase_of(trimmed(query)), given[i], new_project),
    )
}

/// The items for a query: all of them where it is blank.
pub open spec fn filtered_items(
    items: Seq<PanelItemView>,
    query: Seq<char>,
    given: Seq<Option<u32>>,
    new_project: Seq<char>,
) -> Seq<PanelItemView> {
    if all_white(query) {
        items
    } else {
        ranked_items(items, item_scores(items, query, given, new_project))
    }
}

/// Tells whether a string holds another, both given.
pub fn holds(text: &str, needle: &str) -> (r: bool)
    ensures
        r == contains(text@, needle@),
{
    let t = chars_of(text);
    let n = chars_of(needle);
    contains_chars(&t, &n)
}

/// Tells whether a string in lower case holds another.
fn holds_lower(text: &str, needle: &str) -> (r: bool)
    ensures
        r == contains(lowercase_of(text@), needle@),
{
    let lower = to_lowercase(text);
    holds(lower.as_str(), needle)
}

fn zero_if(b: bool) -> (r: Option<u32>)
    ensures
        r == if b {
            Some(0u32)
        } else {
            None
        },
{
    if b {
        Some(0)
    } else {
        None
    }
}

/// Returns what an item scores for a query in lower case.
fn score_item(item: &PanelItem, needle: &str, given: Option<u32>, new_project: &str) -> (r: Option<
    u32,
>)
    ensures
        r == item_score(item@, needle@, given, new_project@),
{
    match item {
        PanelItem::Target(..) => given,
        PanelItem::Existing(_) => given,
        PanelItem::Host { .. } => given,
        PanelItem::NewProject => {
            let lower = to_lowercase(new_project);
            let label = concat2("new project ", lower.as_str());
            zero_if(holds(label.as_str(), needle))
        },
        PanelItem::Folder { title, .. } => zero_if(holds_lower(title.as_str(), needle)),
        PanelItem::Empty { title } => zero_if(holds_lower(title.as_str(), needle)),
        PanelItem::Back => Some(0),
        PanelItem::Loading => Some(0),
    }
}

/// Returns the items for a query. `given` are the scores of targets, running
/// workspaces and hosts, `new_project` is the title of the item for a new
/// project.
pub fn filter_panel_items(
    items: &Vec<PanelItem>,
    query: &str,
    given: &Vec<Option<u32>>,
    new_project: &str,
) -> (r: Vec<PanelItem>)
    requires
        given.len() == items.len(),
    ensures
        item_views(r@) == filtered_items(item_views(items@), query@, given@, new_project@),
{
    if is_blank(query) {
        return clone_items(items);
    }
    let needle = to_lowercase(trim(query).as_str());
    let ghost iv = item_views(items@);
    let mut scores: Vec<Option<u32>> = Vec::new();
    let mut i: usize = 0;
    while i < items.len()
        invariant
            i <= items.len(),
            given.len() == items.len(),
            iv == item_views(items@),
            needle@ == lowercase_of(trimmed(query@)),
            scores.len() == i,
            forall|j: int|
                0 <= j < i ==> #[trigger] scores@[j] == item_score(
                    iv[j],
                    needle@,
                    given@[j],
                    new_project@,
                ),
        decreases items.len() - i,
    {
        assert(iv[i as int] == items@[i as int]@);
        scores.push(score_item(&items[i], needle.as_str(), given[i], new_project));
        i += 1;
    }
    assert(scores@ =~= item_scores(iv, query@, given@, new_project@));
    rank_items(items, &scores)
}

/// A row of the first tab.
#[derive(Debug, PartialEq, Eq)]
pub struct WorkspaceRow {
    pub item: PanelItem,
    pub status: Option<ClientAttentionStatus>,
}

/// Returns the rows for a query, each with the status that `status_of` gives.
pub fn filter_workspace_rows<F: Fn(&PanelItem) -> Option<ClientAttentionStatus>>(
    items: &Vec<PanelItem>,
    query: &str,
    given: &Vec<Option<u32>>,
    new_project: &str,
    status_of: F,
) -> (r: Vec<WorkspaceRow>)
    requires
        given.len() == items.len(),
        forall|item: &PanelItem| #[trigger] call_requires(status_of, (item,)),
    ensures
        Seq::new(r@.len(), |i: int| r@[i].item@) == filtered_items(
            item_views(items@),
            query@,
            given@,
            new_project@,
        ),
        forall|i: int|
            0 <= i < r.len() ==> call_ensures(
                status_of,
                (&(#[trigger] r@[i]).item,),
                r@[i].status,
            ),
{
    let mut rest = filter_panel_items(items, query, given, new_project);
    let ghost all = rest@;
    let n: usize = rest.len();
    let mut out: Vec<WorkspaceRow> = Vec::new();
    let mut i: usize = 0;
    while i < n
        invariant
            i <= n,
            n == all.len(),
            rest@ == all.skip(i as int),
            forall|item: &PanelItem| #[trigger] call_requires(status_of, (item,)),
            out.len() == i,
            forall|j: int|
                0 <= j < i ==> (#[trigger] out@[j]).item == all[j] && call_ensures(
                    status_of,
                    (&out@[j].item,),
                    out@[j].status,
                ),
        decreases n - i,
    {
        let item = rest.remove(0);
        assert(item == all[i as int]);
        assert(rest@ =~= all.skip(i + 1));
        let status = status_of(&item);
        out.push(WorkspaceRow { item, status });
        i += 1;
    }
    assert(Seq::new(out@.len(), |i: int| out@[i].item@) =~= item_views(all));
    out
}

// ---------------------------------------------------------------------------
// The second tab: what needs attention.
// ---------------------------------------------------------------------------

/// A row of the second tab.
#[derive(Debug, PartialEq, Eq)]
pub struct AttentionRow {
    pub attention: ClientAttentionPane,
}

/// A pane that runs, or that finished and was not read yet.
pub open spec fn is_live(p: ClientAttentionPane) -> bool {
    match status_of(p.status@) {
        ClientAttentionStatus::Working => true,
        ClientAttentionStatus::Blocked | ClientAttentionStatus::Done => !p.acknowledged,
        _ => false,
    }
}

/// What was typed, in lower case and without white space around it; nothing
/// where it is blank.
pub open spec fn needle_of(query: Seq<char>) -> Seq<char> {
    if all_white(query) {
        Seq::<char>::empty()
    } else {
        lowercase_of(trimmed(query))
    }
}

/// A pane matches a query in its workspace, its process or its last line.
pub open spec fn pane_matches(p: ClientAttentionPane, needle: Seq<char>) -> bool {
    ||| needle.len() == 0
    ||| contains(lowercase_of(p.workspace_id@), needle)
    ||| contains(lowercase_of(or_empty(p.process_name)), needle)
    ||| contains(lowercase_of(p.last_line@), needle)
}

/// The panes that are shown for a query.
pub open spec fn shown_panes(needle: Seq<char>) -> spec_fn(ClientAttentionPane) -> bool {
    |p: ClientAttentionPane| is_live(p) && pane_matches(p, needle)
}

/// Blocked panes come first, then those that are done, then those that run.
pub open spec fn status_rank(p: ClientAttentionPane) -> int {
    match status_of(p.status@) {
        ClientAttentionStatus::Blocked => 0,
        ClientAttentionStatus::Done => 1,
        ClientAttentionStatus::Working => 2,
        _ => 3,
    }
}

/// The order of panes: by rank, and in a rank the newest first.
pub open spec fn by_urgency() -> spec_fn(ClientAttentionPane, ClientAttentionPane) -> bool {
    |a: ClientAttentionPane, b: ClientAttentionPane|
        status_rank(a) < status_rank(b) || (status_rank(a) == status_rank(b) && a.seq >= b.seq)
}

/// The panes for a query, the most urgent first.
pub open spec fn urgent_panes(panes: Seq<ClientAttentionPane>, query: Seq<char>) -> Seq<
    ClientAttentionPane,
> {
    stable_sorted(panes.filter(shown_panes(needle_of(query))), by_urgency())
}

fn rank_of(p: &ClientAttentionPane) -> (r: u8)
    ensures
        r == status_rank(*p),
{
    match p.status_kind() {
        ClientAttentionStatus::Blocked => 0,
        ClientAttentionStatus::Done => 1,
        ClientAttentionStatus::Working => 2,
        _ => 3,
    }
}

fn pane_not_after(a: &ClientAttentionPane, b: &ClientAttentionPane) -> (r: bool)
    ensures
        r == by_urgency()(*a, *b),
{
    let x: u8 = rank_of(a);
    let y: u8 = rank_of(b);
    x < y || (x == y && a.seq >= b.seq)
}

fn live(p: &ClientAttentionPane) -> (r: bool)
    ensures
        r == is_live(*p),
{
    match p.status_kind() {
        ClientAttentionStatus::Working => true,
        ClientAttentionStatus::Blocked => !p.acknowledged,
        ClientAttentionStatus::Done => !p.acknowledged,
        _ => false,
    }
}

fn process_of(p: &ClientAttentionPane) -> (r: String)
    ensures
        r@ == or_empty(p.process_name),
{
    match &p.process_name {
        Some(name) => name.clone(),
        None => String::new(),
    }
}

fn matches_pane(p: &ClientAttentionPane, needle: &str) -> (r: bool)
    ensures
        r == pane_matches(*p, needle@),
{
    needle.is_empty() || holds_lower(p.workspace_id.as_str(), needle) || holds_lower(
        process_of(p).as_str(),
        needle,
    ) || holds_lower(p.last_line.as_str(), needle)
}

fn lower_needle(query: &str) -> (r: String)
    ensures
        r@ == needle_of(query@),
{
    if is_blank(query) {
        String::new()
    } else {
        to_lowercase(trim(query).as_str())
    }
}

fn urgent(panes: &Vec<ClientAttentionPane>, query: &str) -> (r: Vec<ClientAttentionPane>)
    ensures
        r@ == urgent_panes(panes@, query@),
{
    let needle = lower_needle(query);
    let ghost p = shown_panes(needle@);
    let mut out: Vec<ClientAttentionPane> = Vec::new();
    let mut i: usize = 0;
    proof {
        lemma_filter_none(panes@, p);
        assert(stable_sorted(panes@.take(0).filter(p), by_urgency()) =~= Seq::<
            ClientAttentionPane,
        >::empty());
    }
    while i < panes.len()
        invariant
            i <= panes.len(),
            p == shown_panes(needle@),
            out@ == stable_sorted(panes@.take(i as int).filter(p), by_urgency()),
        decreases panes.len() - i,
    {
        let ghost before = panes@.take(i as int).filter(p);
        proof {
            lemma_filter_step(panes@, p, i as int);
        }
        if live(&panes[i]) && matches_pane(&panes[i], needle.as_str()) {
            assert(before.push(panes@[i as int]).drop_last() =~= before);
            insert_by(&mut out, panes[i].clone(), pane_not_after, Ghost(by_urgency()));
        }
        i += 1;
    }
    proof {
        lemma_filter_none(panes@, p);
    }
    out
}

/// Returns the panes that run and those that finished and were not read, the
/// most urgent first.
pub fn filter_attention_rows(panes: &Vec<ClientAttentionPane>, query: &str) -> (r: Vec<AttentionRow>)
    ensures
        r.len() == urgent_panes(panes@, query@).len(),
        forall|i: int|
            0 <= i < r.len() ==> (#[trigger] r@[i]).attention == urgent_panes(panes@, query@)[i],
{
    let list = urgent(panes, query);
    let mut out: Vec<AttentionRow> = Vec::new();
    let mut i: usize = 0;
    while i < list.len()
        invariant
            i <= list.len(),
            out.len() == i,
            forall|j: int| 0 <= j < i ==> (#[trigger] out@[j]).attention == list@[j],
        decreases list.len() - i,
    {
        out.push(AttentionRow { attention: list[i].clone() });
        i += 1;
    }
    out
}

/// Urgency compares any two panes and is transitive.
pub proof fn lemma_urgency_is_ranking()
    ensures
        is_ranking(by_urgency()),
{
}

/// What is shown runs or was not read, and stands in the order of urgency.
pub proof fn law_attention_is_live_and_urgent_first(
    panes: Seq<ClientAttentionPane>,
    query: Seq<char>,
    i: int,
)
    requires
        0 <= i < urgent_panes(panes, query).len(),
    ensures
        is_live(urgent_panes(panes, query)[i]),
        in_order(urgent_panes(panes, query), by_urgency()),
{
    let p = shown_panes(needle_of(query));
    let kept = panes.filter(p);
    lemma_urgency_is_ranking();
    lemma_stable_sorted(kept, by_urgency());
    lemma_sorted_elements(kept, by_urgency());
    let q = urgent_panes(panes, query)[i];
    assert(kept.contains(q));
    let k = choose|k: int| 0 <= k < kept.len() && kept[k] == q;
    panes.lemma_filter_pred(p, k);
}

/// A blank query shows every pane that runs or was not read.
pub proof fn law_blank_query_shows_every_live_pane(
    panes: Seq<ClientAttentionPane>,
    query: Seq<char>,
)
    requires
        all_white(query),
    ensures
        urgent_panes(panes, query) == stable_sorted(
            panes.filter(|p: ClientAttentionPane| is_live(p)),
            by_urgency(),
        ),
{
    assert(shown_panes(needle_of(query)) =~= (|p: ClientAttentionPane| is_live(p)));
}

// ---------------------------------------------------------------------------
// The second tab with agents.
// ---------------------------------------------------------------------------

/// A row of the second tab as it is shown.
#[derive(Debug, PartialEq, Eq)]
pub struct AttentionPanelRow {
    pub workspace_id: String,
    pub pane_id: u32,
    pub title: String,
    pub detail: String,
    pub indicator: ActivityIndicator,
}

/// The view of an [`AttentionPanelRow`].
pub struct AttentionPanelView {
    pub workspace_id: Seq<char>,
    pub pane_id: u32,
    pub title: Seq<char>,
    pub detail: Seq<char>,
    pub indicator: ActivityIndicator,
}

impl View for AttentionPanelRow {
    type V = AttentionPanelView;

    open spec fn view(&self) -> AttentionPanelView {
        AttentionPanelView {
            workspace_id: self.workspace_id@,
            pane_id: self.pane_id,
            title: self.title@,
            detail: self.detail@,
            indicator: self.indicator,
        }
    }
}

/// The views of rows.
pub open spec fn panel_row_views(s: Seq<AttentionPanelRow>) -> Seq<AttentionPanelView> {
    Seq::new(s.len(), |i: int| s[i]@)
}

/// The last pane with an identity.
pub open spec fn linked_pane(panes: Seq<ClientAttentionPane>, workspace: Seq<char>, pane: u32) -> Option<
    ClientAttentionPane,
>
    decreases panes.len(),
{
    if panes.len() == 0 {
        None
    } else if panes.last().workspace_id@ == workspace && panes.last().pane_id == pane {
        Some(panes.last())
    } else {
        linked_pane(panes.drop_last(), workspace, pane)
    }
}

/// An agent is shown: it runs or was not read.
pub open spec fn agent_live(a: AgentSidebarItem) -> bool {
    a.indicator != ActivityIndicator::Quiet
}

/// An agent matches a query, in its row or in its pane.
pub open spec fn agent_matches(
    a: AgentSidebarItem,
    panes: Seq<ClientAttentionPane>,
    needle: Seq<char>,
) -> bool {
    ||| needle.len() == 0
    ||| contains(lowercase_of(a.replica_id@), needle)
    ||| contains(lowercase_of(a.title@), needle)
    ||| contains(lowercase_of(a.detail@), needle)
    ||| match linked_pane(panes, a.replica_id@, a.pane_id) {
        Some(p) => contains(lowercase_of(or_empty(p.process_name)), needle) || contains(
            lowercase_of(p.last_line@),
            needle,
        ),
        None => false,
    }
}

/// The row of an agent, where it is shown.
pub open spec fn agent_row(
    a: AgentSidebarItem,
    panes: Seq<ClientAttentionPane>,
    needle: Seq<char>,
) -> Seq<AttentionPanelView> {
    if agent_live(a) && agent_matches(a, panes, needle) {
        seq![
            AttentionPanelView {
                workspace_id: a.replica_id@,
                pane_id: a.pane_id,
                title: a.title@,
                detail: a.detail@,
                indicator: a.indicator,
            },
        ]
    } else {
        Seq::<AttentionPanelView>::empty()
    }
}

/// An agent that is shown runs in the pane.
pub open spec fn is_agent_pane(agents: Seq<AgentSidebarItem>, p: ClientAttentionPane) -> bool {
    exists|i: int|
        0 <= i < agents.len() && agent_live(#[trigger] agents[i]) && agents[i].replica_id@
            == p.workspace_id@ && agents[i].pane_id == p.pane_id
}

/// The row of a pane without an agent.
pub open spec fn plain_row(p: ClientAttentionPane) -> AttentionPanelView {
    AttentionPanelView {
        workspace_id: p.workspace_id@,
        pane_id: p.pane_id,
        title: match p.process_name {
            Some(name) => if all_white(name@) {
                "Command"@
            } else {
                name@
            },
            None => "Command"@,
        },
        detail: if all_white(p.last_line@) {
            p.workspace_id@
        } else {
            p.workspace_id@ + " · "@ + p.last_line@
        },
        indicator: match status_of(p.status@) {
            ClientAttentionStatus::Working => ActivityIndicator::Running,
            ClientAttentionStatus::Blocked | ClientAttentionStatus::Done => ActivityIndicator::Done,
            _ => ActivityIndicator::Quiet,
        },
    }
}

/// The rows of panes in which no agent is shown.
pub open spec fn plain_rows(list: Seq<ClientAttentionPane>, agents: Seq<AgentSidebarItem>) -> Seq<
    AttentionPanelView,
> {
    flat(
        Seq::new(
            list.len(),
            |i: int|
                if is_agent_pane(agents, list[i]) {
                    Seq::<AttentionPanelView>::empty()
                } else {
                    seq![plain_row(list[i])]
                },
        ),
    )
}

/// All rows: agents that run or were not read, then the other panes.
pub open spec fn attention_panel(
    agents: Seq<AgentSidebarItem>,
    panes: Seq<ClientAttentionPane>,
    query: Seq<char>,
) -> Seq<AttentionPanelView> {
    flat(Seq::new(agents.len(), |i: int| agent_row(agents[i], panes, needle_of(query))))
        + plain_rows(urgent_panes(panes, query), agents)
}

fn find_linked(panes: &Vec<ClientAttentionPane>, workspace: &str, pane: u32) -> (r: Option<usize>)
    ensures
        match r {
            Some(i) => i < panes.len() && linked_pane(panes@, workspace@, pane) == Some(
                panes@[i as int],
            ),
            None => linked_pane(panes@, workspace@, pane) is None,
        },
{
    let mut i: usize = panes.len();
    assert(panes@.take(panes@.len() as int) =~= panes@);
    while i > 0
        invariant
            i <= panes.len(),
            linked_pane(panes@, workspace@, pane) == linked_pane(
                panes@.take(i as int),
                workspace@,
                pane,
            ),
        decreases i,
    {
        assert(panes@.take(i as int).drop_last() =~= panes@.take(i - 1));
        if panes[i - 1].pane_id == pane && same(panes[i - 1].workspace_id.as_str(), workspace) {
            return Some(i - 1);
        }
        i -= 1;
    }
    None
}

fn is_live_agent(a: &AgentSidebarItem) -> (r: bool)
    ensures
        r == agent_live(*a),
{
    match a.indicator {
        ActivityIndicator::Quiet => false,
        _ => true,
    }
}

fn matches_agent(a: &AgentSidebarItem, panes: &Vec<ClientAttentionPane>, needle: &str) -> (r: bool)
    ensures
        r == agent_matches(*a, panes@, needle@),
{
    if needle.is_empty() || holds_lower(a.replica_id.as_str(), needle) || holds_lower(
        a.title.as_str(),
        needle,
    ) || holds_lower(a.detail.as_str(), needle) {
        return true;
    }
    match find_linked(panes, a.replica_id.as_str(), a.pane_id) {
        Some(i) => holds_lower(process_of(&panes[i]).as_str(), needle) || holds_lower(
            panes[i].last_line.as_str(),
            needle,
        ),
        None => false,
    }
}

fn runs_agent(agents: &Vec<AgentSidebarItem>, p: &ClientAttentionPane) -> (r: bool)
    ensures
        r == is_agent_pane(agents@, *p),
{
    let mut i: usize = 0;
    while i < agents.len()
        invariant
            i <= agents.len(),
            forall|j: int|
                0 <= j < i ==> !(agent_live(#[trigger] agents@[j]) && agents@[j].replica_id@
                    == p.workspace_id@ && agents@[j].pane_id == p.pane_id),
        decreases agents.len() - i,
    {
        if is_live_agent(&agents[i]) && agents[i].pane_id == p.pane_id && same(
            agents[i].replica_id.as_str(),
            p.workspace_id.as_str(),
        ) {
            return true;
        }
        i += 1;
    }
    false
}

fn row_of_pane(p: &ClientAttentionPane) -> (r: AttentionPanelRow)
    ensures
        r@ == plain_row(*p),
{
    let title = match &p.process_name {
        Some(name) => if is_blank(name.as_str()) {
            "Command".to_owned()
        } else {
            name.clone()
        },
        None => "Command".to_owned(),
    };
    let detail = if is_blank(p.last_line.as_str()) {
        p.workspace_id.clone()
    } else {
        concat3(p.workspace_id.as_str(), " · ", p.last_line.as_str())
    };
    let indicator = match p.status_kind() {
        ClientAttentionStatus::Working => ActivityIndicator::Running,
        ClientAttentionStatus::Blocked => ActivityIndicator::Done,
        ClientAttentionStatus::Done => ActivityIndicator::Done,
        _ => ActivityIndicator::Quiet,
    };
    AttentionPanelRow {
        workspace_id: p.workspace_id.clone(),
        pane_id: p.pane_id,
        title,
        detail,
        indicator,
    }
}

/// Returns the rows of the second tab: the agents that run or were not read,
/// then the other panes, so that no pane is listed twice.
pub fn filter_attention_panel_rows(
    agents: &Vec<AgentSidebarItem>,
    panes: &Vec<ClientAttentionPane>,
    query: &str,
) -> (r: Vec<AttentionPanelRow>)
    ensures
        panel_row_views(r@) == attention_panel(agents@, panes@, query@),
{
    let needle = lower_needle(query);
    let ghost first = Seq::new(agents@.len(), |i: int| agent_row(agents@[i], panes@, needle@));
    let mut out: Vec<AttentionPanelRow> = Vec::new();
    let mut i: usize = 0;
    assert(panel_row_views(out@) =~= flat(first.take(0)));
    while i < agents.len()
        invariant
            i <= agents.len(),
            first == Seq::new(agents@.len(), |i: int| agent_row(agents@[i], panes@, needle@)),
            panel_row_views(out@) == flat(first.take(i as int)),
        decreases agents.len() - i,
    {
        let a = &agents[i];
        let ghost shown = panel_row_views(out@);
        assert(first.take(i + 1).drop_last() =~= first.take(i as int));
        assert(first.take(i + 1).last() == first[i as int]);
        if is_live_agent(a) && matches_agent(a, panes, needle.as_str()) {
            let row = AttentionPanelRow {
                workspace_id: a.replica_id.clone(),
                pane_id: a.pane_id,
                title: a.title.clone(),
                detail: a.detail.clone(),
                indicator: a.indicator,
            };
            out.push(row);
            assert(panel_row_views(out@) =~= shown.push(row@));
            assert(first[i as int] =~= seq![row@]);
        }
        assert(panel_row_views(out@) =~= shown + first[i as int]);
        i += 1;
    }
    assert(first.take(first.len() as int) =~= first);
    let ghost head = panel_row_views(out@);
    let list = urgent(panes, query);
    let ghost rest = Seq::new(
        list@.len(),
        |i: int|
            if is_agent_pane(agents@, list@[i]) {
                Seq::<AttentionPanelView>::empty()
            } else {
                seq![plain_row(list@[i])]
            },
    );
    let mut k: usize = 0;
    assert(panel_row_views(out@) =~= head + flat(rest.take(0)));
    while k < list.len()
        invariant
            k <= list.len(),
            rest == Seq::new(
                list@.len(),
                |i: int|
                    if is_agent_pane(agents@, list@[i]) {
                        Seq::<AttentionPanelView>::empty()
                    } else {
                        seq![plain_row(list@[i])]
                    },
            ),
            panel_row_views(out@) == head + flat(rest.take(k as int)),
        decreases list.len() - k,
    {
        let ghost shown = panel_row_views(out@);
        assert(rest.take(k + 1).drop_last() =~= rest.take(k as int));
        assert(rest.take(k + 1).last() == rest[k as int]);
        if !runs_agent(agents, &list[k]) {
            let row = row_of_pane(&list[k]);
            out.push(row);
            assert(panel_row_views(out@) =~= shown.push(row@));
            assert(rest[k as int] =~= seq![row@]);
        }
        assert(panel_row_views(out@) =~= shown + rest[k as int]);
        assert(panel_row_views(out@) =~= head + flat(rest.take(k + 1)));
        k += 1;
    }
    assert(rest.take(rest.len() as int) =~= rest);
    out
}

/// An agent that was read has no row, whatever is searched for.
pub proof fn law_read_agents_are_not_shown(
    a: AgentSidebarItem,
    panes: Seq<ClientAttentionPane>,
    needle: Seq<char>,
)
    requires
        a.indicator == ActivityIndicator::Quiet,
    ensures
        agent_row(a, panes, needle) == Seq::<AttentionPanelView>::empty(),
{
}

/// A pane in which an agent is shown has no row of its own.
pub proof fn law_agent_panes_are_not_repeated(
    list: Seq<ClientAttentionPane>,
    agents: Seq<AgentSidebarItem>,
    i: int,
    k: int,
)
    requires
        0 <= i < plain_rows(list, agents).len(),
        0 <= k < agents.len(),
        agent_live(agents[k]),
    ensures
        !(plain_rows(list, agents)[i].workspace_id == agents[k].replica_id@ && plain_rows(
            list,
            agents,
        )[i].pane_id == agents[k].pane_id),
    decreases list.len(),
{
    let lists = Seq::new(
        list.len(),
        |i: int|
            if is_agent_pane(agents, list[i]) {
                Seq::<AttentionPanelView>::empty()
            } else {
                seq![plain_row(list[i])]
            },
    );
    assert(lists.take(list.len() as int) =~= lists);
    lemma_flat_plain(lists, list, agents, list.len() as int, i, k);
}

proof fn lemma_flat_plain(
    lists: Seq<Seq<AttentionPanelView>>,
    list: Seq<ClientAttentionPane>,
    agents: Seq<AgentSidebarItem>,
    n: int,
    i: int,
    k: int,
)
    requires
        lists == Seq::new(
            list.len(),
            |i: int|
                if is_agent_pane(agents, list[i]) {
                    Seq::<AttentionPanelView>::empty()
                } else {
                    seq![plain_row(list[i])]
                },
        ),
        0 <= n <= list.len(),
        0 <= i < flat(lists.take(n)).len(),
        0 <= k < agents.len(),
        agent_live(agents[k]),
    ensures
        !(flat(lists.take(n))[i].workspace_id == agents[k].replica_id@ && flat(
            lists.take(n),
        )[i].pane_id == agents[k].pane_id),
    decreases n,
{
    if n > 0 {
        assert(lists.take(n).drop_last() =~= lists.take(n - 1));
        assert(lists.take(n).last() == lists[n - 1]);
        if i < flat(lists.take(n - 1)).len() {
            lemma_flat_plain(lists, list, agents, n - 1, i, k);
        } else {
            assert(!is_agent_pane(agents, list[n - 1]));
            assert(flat(lists.take(n))[i] == plain_row(list[n - 1]));
        }
    }
}

/// A blank query shows every agent that runs or was not read.
pub proof fn law_blank_query_shows_every_live_agent(
    agents: Seq<AgentSidebarItem>,
    panes: Seq<ClientAttentionPane>,
    query: Seq<char>,
    k: int,
)
    requires
        all_white(query),
        0 <= k < agents.len(),
        agent_live(agents[k]),
    ensures
        attention_panel(agents, panes, query).contains(
            AttentionPanelView {
                workspace_id: agents[k].replica_id@,
                pane_id: agents[k].pane_id,
                title: agents[k].title@,
                detail: agents[k].detail@,
                indicator: agents[k].indicator,
            },
        ),
{
    let needle = needle_of(query);
    let lists = Seq::new(agents.len(), |i: int| agent_row(agents[i], panes, needle));
    let row = lists[k][0];
    assert(lists[k].contains(row));
    lemma_flat_holds(lists, k, row);
    let i = choose|i: int| 0 <= i < flat(lists).len() && flat(lists)[i] == row;
    assert(attention_panel(agents, panes, query)[i] == row);
}

/// No two panes have the same identity.
pub open spec fn distinct_panes(panes: Seq<ClientAttentionPane>) -> bool {
    forall|i: int, j: int|
        0 <= i < j < panes.len() ==> !same_pane(#[trigger] panes[i], #[trigger] panes[j])
}

/// Two panes have the same identity.
pub open spec fn same_pane(a: ClientAttentionPane, b: ClientAttentionPane) -> bool {
    a.workspace_id@ == b.workspace_id@ && a.pane_id == b.pane_id
}

/// No two agents run in the same pane.
pub open spec fn distinct_agents(agents: Seq<AgentSidebarItem>) -> bool {
    forall|i: int, j: int|
        0 <= i < j < agents.len() ==> !((#[trigger] agents[i]).replica_id@ == (
        #[trigger] agents[j]).replica_id@ && agents[i].pane_id == agents[j].pane_id)
}

proof fn lemma_filter_keeps_distinct(
    panes: Seq<ClientAttentionPane>,
    p: spec_fn(ClientAttentionPane) -> bool,
)
    requires
        distinct_panes(panes),
    ensures
        distinct_panes(panes.filter(p)),
        forall|x: ClientAttentionPane| panes.filter(p).contains(x) ==> panes.contains(x),
    decreases panes.len(),
{
    if panes.len() == 0 {
        lemma_filter_none(panes, p);
    } else {
        let init = panes.drop_last();
        let n = panes.len() - 1;
        assert(panes.take(n) =~= init);
        assert(panes.take(n + 1) =~= panes);
        lemma_filter_step(panes, p, n);
        assert(distinct_panes(init)) by {
            assert forall|i: int, j: int| 0 <= i < j < init.len() implies !same_pane(
                #[trigger] init[i],
                #[trigger] init[j],
            ) by {
                assert(!same_pane(panes[i], panes[j]));
            }
        }
        lemma_filter_keeps_distinct(init, p);
        let kept = init.filter(p);
        let r = panes.filter(p);
        assert forall|i: int, j: int| 0 <= i < j < r.len() implies !same_pane(
            #[trigger] r[i],
            #[trigger] r[j],
        ) by {
            if j < kept.len() {
                assert(!same_pane(kept[i], kept[j]));
            } else {
                assert(kept.contains(kept[i]) && init.contains(kept[i]));
                let k = choose|k: int| 0 <= k < init.len() && init[k] == kept[i];
                assert(!same_pane(panes[k], panes[n]));
            }
        }
        assert forall|x: ClientAttentionPane| r.contains(x) implies panes.contains(x) by {
            let k = choose|k: int| 0 <= k < r.len() && r[k] == x;
            if k < kept.len() {
                assert(kept.contains(x) && init.contains(x));
                let m = choose|m: int| 0 <= m < init.len() && init[m] == x;
                assert(panes[m] == x);
            } else {
                assert(panes[n] == x);
            }
        }
    }
}

proof fn lemma_insert_keeps_distinct(
    s: Seq<ClientAttentionPane>,
    x: ClientAttentionPane,
    leq: spec_fn(ClientAttentionPane, ClientAttentionPane) -> bool,
)
    requires
        distinct_panes(s),
        forall|i: int| 0 <= i < s.len() ==> !same_pane(#[trigger] s[i], x),
    ensures
        distinct_panes(insert_sorted(s, x, leq)),
    decreases s.len(),
{
    if s.len() > 0 && !leq(s.last(), x) {
        let init = s.drop_last();
        lemma_insert_keeps_distinct(init, x, leq);
        lemma_insert_elements(init, x, leq);
        let q = insert_sorted(init, x, leq);
        let r = q.push(s.last());
        assert forall|i: int, j: int| 0 <= i < j < r.len() implies !same_pane(
            #[trigger] r[i],
            #[trigger] r[j],
        ) by {
            if j < q.len() {
                assert(!same_pane(q[i], q[j]));
            } else {
                assert(q[i] == x || init.contains(q[i]));
                if q[i] == x {
                    assert(!same_pane(s[s.len() - 1], x));
                } else {
                    let k = choose|k: int| 0 <= k < init.len() && init[k] == q[i];
                    assert(!same_pane(s[k], s[s.len() - 1]));
                }
            }
        }
    }
}

proof fn lemma_sort_keeps_distinct(
    s: Seq<ClientAttentionPane>,
    leq: spec_fn(ClientAttentionPane, ClientAttentionPane) -> bool,
)
    requires
        distinct_panes(s),
    ensures
        distinct_panes(stable_sorted(s, leq)),
    decreases s.len(),
{
    if s.len() > 0 {
        let init = s.drop_last();
        lemma_sort_keeps_distinct(init, leq);
        lemma_sorted_elements(init, leq);
        let q = stable_sorted(init, leq);
        assert forall|i: int| 0 <= i < q.len() implies !same_pane(#[trigger] q[i], s.last()) by {
            assert(init.contains(q[i]));
            let k = choose|k: int| 0 <= k < init.len() && init[k] == q[i];
            assert(!same_pane(s[k], s[s.len() - 1]));
        }
        lemma_insert_keeps_distinct(q, s.last(), leq);
    }
}

/// Where no pane and no agent is given twice, no two rows of the second tab
/// are for the same pane, whatever is searched for.
pub proof fn law_rows_of_the_second_tab_are_distinct(
    agents: Seq<AgentSidebarItem>,
    panes: Seq<ClientAttentionPane>,
    query: Seq<char>,
    i: int,
    j: int,
)
    requires
        distinct_agents(agents),
        distinct_panes(panes),
        0 <= i < j < attention_panel(agents, panes, query).len(),
    ensures
        !(attention_panel(agents, panes, query)[i].workspace_id == attention_panel(
            agents,
            panes,
            query,
        )[j].workspace_id && attention_panel(agents, panes, query)[i].pane_id == attention_panel(
            agents,
            panes,
            query,
        )[j].pane_id),
{
    let needle = needle_of(query);
    let first = Seq::new(agents.len(), |i: int| agent_row(agents[i], panes, needle));
    let list = urgent_panes(panes, query);
    let rest = Seq::new(
        list.len(),
        |i: int|
            if is_agent_pane(agents, list[i]) {
                Seq::<AttentionPanelView>::empty()
            } else {
                seq![plain_row(list[i])]
            },
    );
    let n = flat(first).len() as int;
    assert(plain_rows(list, agents) == flat(rest));
    if i < n {
        let k = lemma_flat_source(first, i);
        if j < n {
            let m = lemma_flat_source(first, j);
            assert(k != m);
            if k < m {
                assert(!(agents[k].replica_id@ == agents[m].replica_id@ && agents[k].pane_id
                    == agents[m].pane_id));
            } else {
                assert(!(agents[m].replica_id@ == agents[k].replica_id@ && agents[m].pane_id
                    == agents[k].pane_id));
            }
        } else {
            assert(agent_live(agents[k]));
            law_agent_panes_are_not_repeated(list, agents, j - n, k);
        }
    } else {
        let k = lemma_flat_source(rest, i - n);
        let m = lemma_flat_source(rest, j - n);
        lemma_filter_keeps_distinct(panes, shown_panes(needle));
        lemma_sort_keeps_distinct(panes.filter(shown_panes(needle)), by_urgency());
        assert(k != m);
        if k < m {
            assert(!same_pane(list[k], list[m]));
        } else {
            assert(!same_pane(list[m], list[k]));
        }
    }
}

// ---------------------------------------------------------------------------
// The third tab: search hits.
// ---------------------------------------------------------------------------

/// A search hit.
#[derive(Debug, PartialEq, Eq)]
pub struct SearchRow {
    pub workspace_id: String,
    pub tab_id: u32,
    pub pane_id: u32,
    pub seq: u64,
    pub line: String,
}

impl Clone for SearchRow {
    fn clone(&self) -> (r: Self)
        ensures
            r == *self,
    {
        SearchRow {
            workspace_id: self.workspace_id.clone(),
            tab_id: self.tab_id,
            pane_id: self.pane_id,
            seq: self.seq,
            line: self.line.clone(),
        }
    }
}

impl From<ClientSearchHit> for SearchRow {
    fn from(hit: ClientSearchHit) -> (r: Self) {
        SearchRow {
            workspace_id: hit.workspace_id,
            tab_id: hit.tab_id,
            pane_id: hit.pane_id,
            seq: hit.seq,
            line: hit.line,
        }
    }
}

impl vstd::std_specs::convert::FromSpecImpl<ClientSearchHit> for SearchRow {
    open spec fn obeys_from_spec() -> bool {
        true
    }

    open spec fn from_spec(hit: ClientSearchHit) -> Self {
        SearchRow {
            workspace_id: hit.workspace_id,
            tab_id: hit.tab_id,
            pane_id: hit.pane_id,
            seq: hit.seq,
            line: hit.line,
        }
    }
}

/// A hit matches in its line or its workspace.
pub open spec fn hit_matches(needle: Seq<char>) -> spec_fn(SearchRow) -> bool {
    |h: SearchRow|
        needle.len() == 0 || contains(lowercase_of(h.line@), needle) || contains(
            lowercase_of(h.workspace_id@),
            needle,
        )
}

/// Keeps the hits that match, and tells whether none is left.
pub fn search_rows(query: &str, hits: Vec<SearchRow>) -> (r: (Vec<SearchRow>, bool))
    ensures
        r.0@ == hits@.filter(hit_matches(needle_of(query@))),
        r.1 == (r.0@.len() == 0),
{
    let needle = lower_needle(query);
    let ghost p = hit_matches(needle@);
    let mut out: Vec<SearchRow> = Vec::new();
    let mut i: usize = 0;
    proof {
        lemma_filter_none(hits@, p);
    }
    while i < hits.len()
        invariant
            i <= hits.len(),
            p == hit_matches(needle@),
            out@ == hits@.take(i as int).filter(p),
        decreases hits.len() - i,
    {
        proof {
            lemma_filter_step(hits@, p, i as int);
        }
        if needle.as_str().is_empty() || holds_lower(hits[i].line.as_str(), needle.as_str())
            || holds_lower(hits[i].workspace_id.as_str(), needle.as_str()) {
            out.push(hits[i].clone());
        }
        i += 1;
    }
    proof {
        lemma_filter_none(hits@, p);
    }
    let placeholder = out.len() == 0;
    (out, placeholder)
}

/// A blank query keeps every hit.
pub proof fn law_blank_query_keeps_every_hit(hits: Seq<SearchRow>, query: Seq<char>)
    requires
        all_white(query),
    ensures
        hits.filter(hit_matches(needle_of(query))) == hits,
    decreases hits.len(),
{
    let p = hit_matches(needle_of(query));
    lemma_filter_none(hits, p);
    if hits.len() == 0 {
        assert(hits.take(0) =~= hits);
    } else {
        let n = hits.len() - 1;
        lemma_filter_step(hits, p, n);
        law_blank_query_keeps_every_hit(hits.take(n), query);
        assert(hits =~= hits.take(n).push(hits[n]));
    }
}

/// A hit lies where the search looks.
pub open spec fn in_scope(scope: SearchScope, workspace: Seq<char>, pane: u32) -> spec_fn(
    ClientSearchHit,
) -> bool {
    |h: ClientSearchHit|
        match scope {
            SearchScope::Pane => h.workspace_id@ == workspace && h.pane_id == pane,
            SearchScope::Workspace => h.workspace_id@ == workspace,
            SearchScope::All => true,
        }
}

/// Returns the hits that lie where the search looks; none for a blank query.
pub fn search_hits(
    query: &str,
    scope: SearchScope,
    active_workspace: &str,
    active_pane: u32,
    hits: &Vec<ClientSearchHit>,
) -> (r: Vec<SearchRow>)
    ensures
        all_white(query@) ==> r.len() == 0,
        !all_white(query@) ==> {
            let kept = hits@.filter(in_scope(scope, active_workspace@, active_pane));
            r@ == Seq::new(
                kept.len(),
                |i: int|
                    SearchRow {
                        workspace_id: kept[i].workspace_id,
                        tab_id: kept[i].tab_id,
                        pane_id: kept[i].pane_id,
                        seq: kept[i].seq,
                        line: kept[i].line,
                    },
            )
        },
{
    let mut out: Vec<SearchRow> = Vec::new();
    if is_blank(query) {
        return out;
    }
    let ghost p = in_scope(scope, active_workspace@, active_pane);
    let mut i: usize = 0;
    proof {
        lemma_filter_none(hits@, p);
    }
    while i < hits.len()
        invariant
            i <= hits.len(),
            p == in_scope(scope, active_workspace@, active_pane),
            out.len() == hits@.take(i as int).filter(p).len(),
            forall|j: int|
                0 <= j < out.len() ==> {
                    let h = hits@.take(i as int).filter(p)[j];
                    #[trigger] out@[j] == (SearchRow {
                        workspace_id: h.workspace_id,
                        tab_id: h.tab_id,
                        pane_id: h.pane_id,
                        seq: h.seq,
                        line: h.line,
                    })
                },
        decreases hits.len() - i,
    {
        proof {
            lemma_filter_step(hits@, p, i as int);
        }
        let inside = match scope {
            SearchScope::Pane => hits[i].pane_id == active_pane && same(
                hits[i].workspace_id.as_str(),
                active_workspace,
            ),
            SearchScope::Workspace => same(hits[i].workspace_id.as_str(), active_workspace),
            SearchScope::All => true,
        };
        if inside {
            out.push(
                SearchRow {
                    workspace_id: hits[i].workspace_id.clone(),
                    tab_id: hits[i].tab_id,
                    pane_id: hits[i].pane_id,
                    seq: hits[i].seq,
                    line: hits[i].line.clone(),
                },
            );
        }
        i += 1;
    }
    proof {
        lemma_filter_none(hits@, p);
    }
    out
}

} // verus!
