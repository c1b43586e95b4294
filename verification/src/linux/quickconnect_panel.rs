//! The quick-connect panel without its widgets: its size, the rows of its
//! list, what a key does, and when the list is built anew.
use vstd::prelude::*;
use vstd::string::*;

use crate::client::attention::{status_of, ClientAttentionPane, ClientAttentionStatus};
use crate::linux::existing::{runtime_name, transport_text, ExistingEntry, ExistingRuntime};
use crate::linux::panel_model::{
    existing_items, item_views, nav_items, root_items, root_items_with_existing_and_search,
    ExistingNav, ExistingPanelState, PanelItem, PanelItemView, QuickBadge,
};
use crate::linux::panel_rows::{
    tab_number, AttentionPanelRow, PanelModel, PanelTab, SearchRow, SearchScope, WorkspaceRow,
};
use crate::linux::quick_pick_model::panel_list_heights;
use crate::linux::target::TargetConfig;
use crate::linux::workspace_sidebar_model::{ActivityIndicator, AgentSidebarItem};
use crate::seqs::{first_where, is_first, lemma_first_where, lemma_no_first};
use crate::text::find::{has_prefix, starts_with};
use crate::text::number::{
    decimal, lemma_decimal_reads_back, lemma_u32_reads_back, parse_u32, push_decimal, u32_of,
};
use crate::text::split::{cut_at_last, find_last, lemma_cut_at_last};
use crate::text::{
    chars_of, clone_strings, concat2, concat3, is_blank, opt_view, same, string_of, trimmed, views,
};

verus! {

// ---------------------------------------------------------------------------
// The size.
// ---------------------------------------------------------------------------

/// The greatest width of the panel.
pub const PANEL_MAX_WIDTH: i32 = 640;

/// The size of the panel and of its list.
#[derive(Debug, Clone, Copy, PartialEq, Eq)]
pub struct PanelSize {
    pub width: i32,
    pub height: i32,
    pub list_height: i32,
}

/// The width of the panel in a window: a margin of sixteen on both sides, as
/// far as it goes.
pub open spec fn panel_width(parent_w: int) -> int {
    if parent_w <= 0 {
        PANEL_MAX_WIDTH as int
    } else if parent_w - 32 < 1 {
        1
    } else if parent_w - 32 > PANEL_MAX_WIDTH {
        PANEL_MAX_WIDTH as int
    } else {
        parent_w - 32
    }
}

/// Returns the size of the panel in a window.
pub fn panel_size(parent_w: i32, parent_h: i32) -> (r: PanelSize)
    ensures
        r.width == panel_width(parent_w as int),
        r.height == if parent_h < 400 {
            200
        } else if parent_h > 841 {
            420
        } else {
            parent_h as int / 2
        },
        r.list_height == r.height - 44,
{
    let h: i32 = if parent_h < 400 {
        400
    } else {
        parent_h
    };
    let (height, list_height) = panel_list_heights(h);
    let width: i32 = if parent_w <= 0 {
        PANEL_MAX_WIDTH
    } else if parent_w - 32 < 1 {
        1
    } else if parent_w - 32 > PANEL_MAX_WIDTH {
        PANEL_MAX_WIDTH
    } else {
        parent_w - 32
    };
    PanelSize { width, height, list_height }
}

// ---------------------------------------------------------------------------
// The state of a workspace.
// ---------------------------------------------------------------------------

/// Some pane of the workspace is in the given state.
pub open spec fn some_pane_is(
    panes: Seq<ClientAttentionPane>,
    workspace: Seq<char>,
    status: ClientAttentionStatus,
) -> bool {
    exists|i: int|
        0 <= i < panes.len() && (#[trigger] panes[i]).workspace_id@ == workspace && status_of(
            panes[i].status@,
        ) == status
}

/// Some pane belongs to the workspace.
pub open spec fn some_pane_of(panes: Seq<ClientAttentionPane>, workspace: Seq<char>) -> bool {
    exists|i: int| 0 <= i < panes.len() && (#[trigger] panes[i]).workspace_id@ == workspace
}

/// The state of a workspace: blocked goes before done, and done before
/// anything else.
pub open spec fn workspace_state(
    panes: Seq<ClientAttentionPane>,
    workspace: Seq<char>,
) -> Option<ClientAttentionStatus> {
    if some_pane_is(panes, workspace, ClientAttentionStatus::Blocked) {
        Some(ClientAttentionStatus::Blocked)
    } else if some_pane_is(panes, workspace, ClientAttentionStatus::Done) {
        Some(ClientAttentionStatus::Done)
    } else if some_pane_of(panes, workspace) {
        Some(ClientAttentionStatus::Idle)
    } else {
        None
    }
}

/// Returns the state of a workspace, where a pane of it is known.
pub fn workspace_status(panes: &Vec<ClientAttentionPane>, workspace: &str) -> (r: Option<
    ClientAttentionStatus,
>)
    ensures
        r == workspace_state(panes@, workspace@),
{
    let mut state: Option<ClientAttentionStatus> = None;
    let mut i: usize = 0;
    while i < panes.len()
        invariant
            i <= panes.len(),
            state == workspace_state(panes@.take(i as int), workspace@),
        decreases panes.len() - i,
    {
        let pane = &panes[i];
        let ghost seen = panes@.take(i as int);
        let ghost next = panes@.take(i + 1);
        let ghost mine = pane.workspace_id@ == workspace@;
        proof {
            assert(next.last() == *pane);
            assert forall|s: ClientAttentionStatus| #[trigger]
                some_pane_is(next, workspace@, s) == (some_pane_is(seen, workspace@, s) || (mine
                    && status_of(pane.status@) == s)) by {
                if some_pane_is(seen, workspace@, s) {
                    let j = choose|j: int|
                        0 <= j < seen.len() && (#[trigger] seen[j]).workspace_id@ == workspace@
                            && status_of(seen[j].status@) == s;
                    assert(next[j] == seen[j]);
                }
                if mine && status_of(pane.status@) == s {
                    assert(next[i as int].workspace_id@ == workspace@);
                }
                if some_pane_is(next, workspace@, s) {
                    let j = choose|j: int|
                        0 <= j < next.len() && (#[trigger] next[j]).workspace_id@ == workspace@
                            && status_of(next[j].status@) == s;
                    if j < i {
                        assert(seen[j] == next[j]);
                    }
                }
            }
            assert(some_pane_of(next, workspace@) == (some_pane_of(seen, workspace@) || mine)) by {
                if some_pane_of(seen, workspace@) {
                    let j = choose|j: int|
                        0 <= j < seen.len() && (#[trigger] seen[j]).workspace_id@ == workspace@;
                    assert(next[j] == seen[j]);
                }
                if mine {
                    assert(next[i as int].workspace_id@ == workspace@);
                }
                if some_pane_of(next, workspace@) {
                    let j = choose|j: int|
                        0 <= j < next.len() && (#[trigger] next[j]).workspace_id@ == workspace@;
                    if j < i {
                        assert(seen[j] == next[j]);
                    }
                }
            }
        }
        if same(pane.workspace_id.as_str(), workspace) {
            let kind = pane.status_kind();
            state = match (state, kind) {
                (_, ClientAttentionStatus::Blocked) => Some(ClientAttentionStatus::Blocked),
                (Some(ClientAttentionStatus::Blocked), _) => Some(ClientAttentionStatus::Blocked),
                (_, ClientAttentionStatus::Done) => Some(ClientAttentionStatus::Done),
                (Some(s), _) => Some(s),
                (None, _) => Some(ClientAttentionStatus::Idle),
            };
        }
        i += 1;
    }
    assert(panes@.take(i as int) =~= panes@);
    state
}

// ---------------------------------------------------------------------------
// What the panel is opened with.
// ---------------------------------------------------------------------------

/// What the panel is opened with. `workspaces` is the root list, and
/// `workspace_search_items` what a query finds beyond it.
#[derive(Debug)]
pub struct PanelShowArgs {
    pub initial_tab: PanelTab,
    pub workspaces: Vec<PanelItem>,
    pub workspace_search_items: Vec<PanelItem>,
    pub agents: Vec<AgentSidebarItem>,
    pub attention: Vec<ClientAttentionPane>,
    pub existing: ExistingPanelState,
}

impl PanelShowArgs {
    /// Returns the items of the first tab before they are filtered: the root
    /// list with what a query finds beyond it, or a list of running
    /// workspaces.
    pub fn items(&self, query: &str, empty_title: &str) -> (r: Vec<PanelItem>)
        ensures
            item_views(r@) == if self.existing.nav is Root {
                root_items(
                    item_views(self.workspaces@),
                    item_views(self.workspace_search_items@),
                    self.existing,
                    query@,
                )
            } else {
                seq![PanelItemView::Back] + nav_items(self.existing, empty_title@)
            },
    {
        match self.existing.nav {
            ExistingNav::Root => root_items_with_existing_and_search(
                &self.workspaces,
                &self.workspace_search_items,
                &self.existing,
                query,
            ),
            _ => existing_items(&self.existing, empty_title),
        }
    }
}

// ---------------------------------------------------------------------------
// Rows.
// ---------------------------------------------------------------------------

/// What activating a row does: nothing, what its item stands for, or a jump
/// to a line of a pane.
#[derive(Debug, PartialEq, Eq)]
pub enum RowAction {
    Nothing,
    Item(usize),
    Jump { workspace_id: String, pane_id: u32, seq: u64 },
}

/// The view of a [`RowAction`].
pub enum RowActionView {
    Nothing,
    Item(usize),
    Jump { workspace_id: Seq<char>, pane_id: u32, seq: u64 },
}

impl View for RowAction {
    type V = RowActionView;

    open spec fn view(&self) -> RowActionView {
        match *self {
            RowAction::Nothing => RowActionView::Nothing,
            RowAction::Item(i) => RowActionView::Item(i),
            RowAction::Jump { workspace_id, pane_id, seq } => RowActionView::Jump {
                workspace_id: workspace_id@,
                pane_id,
                seq,
            },
        }
    }
}

/// A row of the list: the name of its widget, its text where it has one line
/// only, the mark before it, whether it can be activated and what that does.
#[derive(Debug, PartialEq, Eq)]
pub struct ListRow {
    pub name: String,
    pub text: Option<String>,
    pub mark: Option<String>,
    pub activatable: bool,
    pub action: RowAction,
}

/// The view of a [`ListRow`].
pub struct ListRowView {
    pub name: Seq<char>,
    pub text: Option<Seq<char>>,
    pub mark: Option<Seq<char>>,
    pub activatable: bool,
    pub action: RowActionView,
}

impl View for ListRow {
    type V = ListRowView;

    open spec fn view(&self) -> ListRowView {
        ListRowView {
            name: self.name@,
            text: opt_view(self.text),
            mark: opt_view(self.mark),
            activatable: self.activatable,
            action: self.action@,
        }
    }
}

/// The views of rows.
pub open spec fn row_views(rows: Seq<ListRow>) -> Seq<ListRowView> {
    Seq::new(rows.len(), |i: int| rows[i]@)
}

fn push_row(rows: &mut Vec<ListRow>, row: ListRow)
    ensures
        row_views(final(rows)@) == row_views(old(rows)@).push(row@),
{
    rows.push(row);
    assert(row_views(rows@) =~= row_views(old(rows)@).push(row@));
}

/// The texts of the list in the user's language.
#[derive(Debug)]
pub struct PanelTexts {
    pub new_project: String,
    pub back: String,
    pub probing: String,
}

/// The name by which an existing workspace is connected to.
pub fn existing_connect_name(entry: &ExistingEntry) -> (r: String)
    ensures
        r@ == transport_text(entry.transport),
{
    entry.transport.label()
}

/// What tells an existing workspace apart within its host: the ids of Herdr
/// workspaces are unique only inside a session, so the session is part of it.
pub open spec fn existing_identity(entry: ExistingEntry) -> Seq<char> {
    let own = match entry.herdr_workspace_id {
        Some(id) => id@,
        None => match entry.tmux_session {
            Some(s) => s@,
            None => entry.title@,
        },
    };
    if entry.runtime == ExistingRuntime::Herdr {
        own + "-"@ + (match entry.herdr_session {
            Some(s) => s@,
            None => "default"@,
        })
    } else {
        own
    }
}

/// The widget name of the row of an existing workspace.
pub open spec fn existing_row_name(entry: ExistingEntry) -> Seq<char> {
    "muxterm-existing-row-"@ + runtime_name(entry.runtime) + "-"@ + transport_text(entry.transport)
        + "-"@ + existing_identity(entry)
}

fn name_existing(entry: &ExistingEntry) -> (r: String)
    ensures
        r@ == existing_row_name(*entry),
{
    let mut name = "muxterm-existing-row-".to_owned();
    name.append(entry.runtime.as_str());
    name.append("-");
    let connect = existing_connect_name(entry);
    name.append(connect.as_str());
    name.append("-");
    let own = match &entry.herdr_workspace_id {
        Some(id) => id.clone(),
        None => match &entry.tmux_session {
            Some(s) => s.clone(),
            None => entry.title.clone(),
        },
    };
    let ghost head = name@;
    name.append(own.as_str());
    if entry.runtime == ExistingRuntime::Herdr {
        name.append("-");
        match &entry.herdr_session {
            Some(s) => name.append(s.as_str()),
            None => name.append("default"),
        }
        assert(name@ =~= head + existing_identity(*entry));
    }
    name
}

/// The widget name of an item.
pub open spec fn item_name(item: PanelItem) -> Seq<char> {
    match item {
        PanelItem::Target(entry, _) => entry.id@,
        PanelItem::NewProject => "__new_project__"@,
        PanelItem::Folder { id, .. } => "muxterm-"@ + id@,
        PanelItem::Back => "muxterm-existing-back"@,
        PanelItem::Existing(row) => existing_row_name(row.entry),
        PanelItem::Host { alias } => "muxterm-existing-host-"@ + alias@,
        PanelItem::Loading => "muxterm-existing-ssh-loading"@,
        PanelItem::Empty { .. } => "muxterm-existing-empty"@,
    }
}

/// The text of an item that has one line.
pub open spec fn item_text(item: PanelItem, texts: PanelTexts) -> Option<Seq<char>> {
    match item {
        PanelItem::Target(_, _) => None,
        PanelItem::Existing(_) => None,
        PanelItem::NewProject => Some("＋ "@ + texts.new_project@),
        PanelItem::Folder { title, .. } => Some(title@),
        PanelItem::Back => Some(texts.back@),
        PanelItem::Host { alias } => Some(alias@),
        PanelItem::Loading => Some(texts.probing@),
        PanelItem::Empty { title } => Some(title@),
    }
}

/// The mark for a state.
pub open spec fn state_mark(status: ClientAttentionStatus) -> Seq<char> {
    match status {
        ClientAttentionStatus::Blocked => "● "@,
        ClientAttentionStatus::Done => "✓ "@,
        _ => ""@,
    }
}

/// The row of an item at a position; only targets carry a mark.
pub open spec fn item_row(row: WorkspaceRow, texts: PanelTexts, index: int) -> ListRowView {
    ListRowView {
        name: item_name(row.item),
        text: item_text(row.item, texts),
        mark: match (row.item, row.status) {
            (PanelItem::Target(_, _), Some(status)) => Some(state_mark(status)),
            _ => None,
        },
        activatable: !(row.item is Loading || row.item is Empty),
        action: RowActionView::Item(index as usize),
    }
}

fn mark_of(status: ClientAttentionStatus) -> (r: String)
    ensures
        r@ == state_mark(status),
{
    match status {
        ClientAttentionStatus::Blocked => "● ".to_owned(),
        ClientAttentionStatus::Done => "✓ ".to_owned(),
        _ => "".to_owned(),
    }
}

fn row_of_item(row: &WorkspaceRow, texts: &PanelTexts, index: usize) -> (r: ListRow)
    ensures
        r@ == item_row(*row, *texts, index as int),
{
    let (name, text, activatable) = match &row.item {
        PanelItem::Target(entry, _) => (entry.id.clone(), None, true),
        PanelItem::NewProject => (
            "__new_project__".to_owned(),
            Some(concat2("＋ ", texts.new_project.as_str())),
            true,
        ),
        PanelItem::Folder { id, title } => (concat2("muxterm-", id), Some(title.clone()), true),
        PanelItem::Back => ("muxterm-existing-back".to_owned(), Some(texts.back.clone()), true),
        PanelItem::Existing(existing) => (name_existing(&existing.entry), None, true),
        PanelItem::Host { alias } => (
            concat2("muxterm-existing-host-", alias.as_str()),
            Some(alias.clone()),
            true,
        ),
        PanelItem::Loading => (
            "muxterm-existing-ssh-loading".to_owned(),
            Some(texts.probing.clone()),
            false,
        ),
        PanelItem::Empty { title } => (
            "muxterm-existing-empty".to_owned(),
            Some(title.clone()),
            false,
        ),
    };
    let mark = match (&row.item, row.status) {
        (PanelItem::Target(_, _), Some(status)) => Some(mark_of(status)),
        _ => None,
    };
    ListRow { name, text, mark, activatable, action: RowAction::Item(index) }
}

/// Returns the rows of the first tab.
pub fn workspace_list(rows: &Vec<WorkspaceRow>, texts: &PanelTexts) -> (r: Vec<ListRow>)
    ensures
        row_views(r@) == Seq::new(rows@.len(), |i: int| item_row(rows@[i], *texts, i)),
{
    let mut out: Vec<ListRow> = Vec::new();
    let ghost wanted = Seq::new(rows@.len(), |i: int| item_row(rows@[i], *texts, i));
    let mut i: usize = 0;
    assert(row_views(out@) =~= wanted.take(0));
    while i < rows.len()
        invariant
            i <= rows.len(),
            wanted == Seq::new(rows@.len(), |i: int| item_row(rows@[i], *texts, i)),
            row_views(out@) == wanted.take(i as int),
        decreases rows.len() - i,
    {
        let row = row_of_item(&rows[i], texts, i);
        push_row(&mut out, row);
        assert(wanted.take(i + 1) =~= wanted.take(i as int).push(wanted[i as int]));
        i += 1;
    }
    assert(wanted.take(i as int) =~= wanted);
    out
}

/// A row that only says something.
pub open spec fn plain_row(text: Seq<char>) -> ListRowView {
    ListRowView {
        name: Seq::<char>::empty(),
        text: Some(text),
        mark: None,
        activatable: false,
        action: RowActionView::Nothing,
    }
}

/// The widget name of the row of a pane.
pub open spec fn attention_name(workspace: Seq<char>, pane: u32) -> Seq<char> {
    "muxterm-attention-"@ + workspace + seq!['-'] + decimal(pane as nat)
}

/// The row of a pane that wants attention.
pub open spec fn attention_row(row: AttentionPanelRow) -> ListRowView {
    ListRowView {
        name: attention_name(row.workspace_id@, row.pane_id),
        text: None,
        mark: None,
        activatable: true,
        action: RowActionView::Jump {
            workspace_id: row.workspace_id@,
            pane_id: row.pane_id,
            seq: 0,
        },
    }
}

/// The rows of the second tab: the number of panes, a word where there are
/// none, and the panes.
pub open spec fn attention_rows(
    rows: Seq<AttentionPanelRow>,
    count: Seq<char>,
    empty: Seq<char>,
) -> Seq<ListRowView> {
    seq![plain_row(count)] + (if rows.len() == 0 {
        seq![plain_row(empty)]
    } else {
        Seq::<ListRowView>::empty()
    }) + Seq::new(rows.len(), |i: int| attention_row(rows[i]))
}

fn say(text: &str) -> (r: ListRow)
    ensures
        r@ == plain_row(text@),
{
    ListRow {
        name: String::new(),
        text: Some(text.to_owned()),
        mark: None,
        activatable: false,
        action: RowAction::Nothing,
    }
}

fn row_of_pane(row: &AttentionPanelRow) -> (r: ListRow)
    ensures
        r@ == attention_row(*row),
{
    let mut name = concat3("muxterm-attention-", row.workspace_id.as_str(), "-");
    proof {
        reveal_strlit("-");
        assert("-"@ =~= seq!['-']);
    }
    push_decimal(&mut name, row.pane_id as u64);
    ListRow {
        name,
        text: None,
        mark: None,
        activatable: true,
        action: RowAction::Jump {
            workspace_id: row.workspace_id.clone(),
            pane_id: row.pane_id,
            seq: 0,
        },
    }
}

/// Returns the rows of the second tab.
pub fn attention_list(rows: &Vec<AttentionPanelRow>, count: &str, empty: &str) -> (r: Vec<ListRow>)
    ensures
        row_views(r@) == attention_rows(rows@, count@, empty@),
{
    let mut out: Vec<ListRow> = Vec::new();
    push_row(&mut out, say(count));
    if rows.len() == 0 {
        push_row(&mut out, say(empty));
    }
    let ghost head = row_views(out@);
    let ghost wanted = Seq::new(rows@.len(), |i: int| attention_row(rows@[i]));
    let mut i: usize = 0;
    assert(head + wanted.take(0) =~= head);
    while i < rows.len()
        invariant
            i <= rows.len(),
            wanted == Seq::new(rows@.len(), |i: int| attention_row(rows@[i])),
            row_views(out@) == head + wanted.take(i as int),
        decreases rows.len() - i,
    {
        let row = row_of_pane(&rows[i]);
        push_row(&mut out, row);
        assert(head + wanted.take(i + 1) =~= (head + wanted.take(i as int)).push(
            wanted[i as int],
        ));
        i += 1;
    }
    assert(wanted.take(i as int) =~= wanted);
    assert(row_views(out@) =~= attention_rows(rows@, count@, empty@));
    out
}

/// The row of a line that was found.
pub open spec fn hit_row(row: SearchRow) -> ListRowView {
    ListRowView {
        name: "muxterm-search-hit-"@ + row.workspace_id@ + "-"@ + decimal(row.pane_id as nat)
            + "-"@ + decimal(row.seq as nat),
        text: Some(
            row.workspace_id@ + " · "@ + decimal(row.pane_id as nat) + " · "@ + row.line@,
        ),
        mark: None,
        activatable: true,
        action: RowActionView::Jump {
            workspace_id: row.workspace_id@,
            pane_id: row.pane_id,
            seq: row.seq,
        },
    }
}

fn row_of_hit(row: &SearchRow) -> (r: ListRow)
    ensures
        r@ == hit_row(*row),
{
    let mut name = concat3("muxterm-search-hit-", row.workspace_id.as_str(), "-");
    push_decimal(&mut name, row.pane_id as u64);
    name.append("-");
    push_decimal(&mut name, row.seq);
    let mut text = concat2(row.workspace_id.as_str(), " · ");
    push_decimal(&mut text, row.pane_id as u64);
    text.append(" · ");
    text.append(row.line.as_str());
    ListRow {
        name,
        text: Some(text),
        mark: None,
        activatable: true,
        action: RowAction::Jump {
            workspace_id: row.workspace_id.clone(),
            pane_id: row.pane_id,
            seq: row.seq,
        },
    }
}

/// Returns the rows of the third tab.
pub fn search_list(rows: &Vec<SearchRow>) -> (r: Vec<ListRow>)
    ensures
        row_views(r@) == Seq::new(rows@.len(), |i: int| hit_row(rows@[i])),
{
    let mut out: Vec<ListRow> = Vec::new();
    let ghost wanted = Seq::new(rows@.len(), |i: int| hit_row(rows@[i]));
    let mut i: usize = 0;
    assert(row_views(out@) =~= wanted.take(0));
    while i < rows.len()
        invariant
            i <= rows.len(),
            wanted == Seq::new(rows@.len(), |i: int| hit_row(rows@[i])),
            row_views(out@) == wanted.take(i as int),
        decreases rows.len() - i,
    {
        let row = row_of_hit(&rows[i]);
        push_row(&mut out, row);
        assert(wanted.take(i + 1) =~= wanted.take(i as int).push(wanted[i as int]));
        i += 1;
    }
    assert(wanted.take(i as int) =~= wanted);
    out
}

/// The pane that a widget name stands for.
pub open spec fn named_pane(name: Seq<char>) -> Option<(Seq<char>, u32)> {
    let head = "muxterm-attention-"@;
    if starts_with(name, head) {
        match cut_at_last(name.skip(head.len() as int), '-') {
            Some((workspace, pane)) => match u32_of(pane, 10) {
                Some(id) => Some((workspace, id)),
                None => None,
            },
            None => None,
        }
    } else {
        None
    }
}

/// Returns the pane that the name of a selected row stands for; it is the one
/// that the menu mutes.
pub fn selected_pane(name: &str) -> (r: Option<(String, u32)>)
    ensures
        match r {
            Some((w, p)) => named_pane(name@) == Some((w@, p)),
            None => named_pane(name@) is None,
        },
{
    let letters = chars_of(name);
    let head = chars_of("muxterm-attention-");
    if !has_prefix(&letters, &head) {
        return None;
    }
    let n: usize = head.len();
    let rest = string_of(&letters, n, letters.len());
    assert(rest@ =~= name@.skip(n as int));
    let tail = chars_of(rest.as_str());
    match find_last(&tail, '-') {
        None => None,
        Some(i) => {
            match parse_u32(&tail, i + 1, 10) {
                None => None,
                Some(pane) => {
                    let workspace = string_of(&tail, 0, i);
                    assert(workspace@ =~= tail@.take(i as int));
                    Some((workspace, pane))
                },
            }
        },
    }
}

/// The row of a pane stands for that pane, whatever its workspace is called.
pub proof fn law_attention_row_names_its_pane(workspace: Seq<char>, pane: u32)
    ensures
        named_pane(attention_name(workspace, pane)) == Some((workspace, pane)),
{
    let head = "muxterm-attention-"@;
    let name = attention_name(workspace, pane);
    let digits = decimal(pane as nat);
    lemma_u32_reads_back(pane);
    lemma_decimal_reads_back(pane as nat);
    assert forall|i: int| 0 <= i < digits.len() implies digits[i] != '-' by {
        assert('0' <= digits[i]);
    }
    assert(name.take(head.len() as int) =~= head);
    assert(name.skip(head.len() as int) =~= workspace + seq!['-'] + digits);
    lemma_cut_at_last(workspace, '-', digits);
}

/// The rows that a list can select when it is built: all of them; in the
/// second tab those that lead to a pane.
pub open spec fn selectable(tab: PanelTab) -> spec_fn(ListRowView) -> bool {
    |row: ListRowView| tab != PanelTab::Attention || row.action is Jump
}

/// The row that a list selects when it is built: the first that it can.
pub open spec fn first_selected(tab: PanelTab, rows: Seq<ListRowView>) -> Option<int> {
    first_where(rows, selectable(tab))
}

/// The pane that the menu mutes once a row is selected: the one that its name
/// stands for, else the one of before.
pub open spec fn pane_meant(before: Option<(Seq<char>, u32)>, name: Option<Seq<char>>) -> Option<
    (Seq<char>, u32),
> {
    match name {
        Some(name) => match named_pane(name) {
            Some(pane) => Some(pane),
            None => before,
        },
        None => before,
    }
}

/// The view of a pane that the menu mutes.
pub open spec fn pane_view(pane: Option<(String, u32)>) -> Option<(Seq<char>, u32)> {
    match pane {
        Some((workspace, id)) => Some((workspace@, id)),
        None => None,
    }
}

/// Returns the pane that the menu mutes once a row with this name, or none,
/// is selected.
pub fn select_row(before: Option<(String, u32)>, name: Option<&str>) -> (r: Option<(String, u32)>)
    ensures
        pane_view(r) == pane_meant(
            pane_view(before),
            match name {
                Some(name) => Some(name@),
                None => None,
            },
        ),
{
    match name {
        Some(name) => match selected_pane(name) {
            Some(pane) => Some(pane),
            None => before,
        },
        None => before,
    }
}

/// Returns the row that a list selects when it is built, and the pane that the
/// menu then mutes; none is meant before.
pub fn select_first(tab: PanelTab, rows: &Vec<ListRow>) -> (r: (
    Option<usize>,
    Option<(String, u32)>,
))
    ensures
        match r.0 {
            Some(i) => {
                &&& first_selected(tab, row_views(rows@)) == Some(i as int)
                &&& pane_view(r.1) == pane_meant(None, Some(rows@[i as int].name@))
            },
            None => first_selected(tab, row_views(rows@)) is None && r.1 is None,
        },
{
    let ghost list = row_views(rows@);
    let mut i: usize = 0;
    while i < rows.len()
        invariant
            i <= rows.len(),
            list == row_views(rows@),
            forall|j: int| 0 <= j < i ==> !selectable(tab)(#[trigger] list[j]),
        decreases rows.len() - i,
    {
        let leads = match &rows[i].action {
            RowAction::Jump { .. } => true,
            _ => false,
        };
        assert(list[i as int] == rows@[i as int]@);
        if tab != PanelTab::Attention || leads {
            proof {
                lemma_first_where(list, selectable(tab), i as int);
            }
            return (Some(i), select_row(None, Some(rows[i].name.as_str())));
        }
        i += 1;
    }
    proof {
        lemma_no_first(list, selectable(tab));
    }
    (None, None)
}

/// The second tab selects its first pane, behind the row with the number, and
/// means it; without panes it selects nothing.
pub proof fn law_the_first_pane_is_meant(
    rows: Seq<AttentionPanelRow>,
    count: Seq<char>,
    empty: Seq<char>,
)
    ensures
        rows.len() == 0 ==> first_selected(PanelTab::Attention, attention_rows(rows, count, empty))
            is None,
        rows.len() > 0 ==> {
            &&& first_selected(PanelTab::Attention, attention_rows(rows, count, empty)) == Some(
                1int,
            )
            &&& pane_meant(None, Some(attention_rows(rows, count, empty)[1].name)) == Some(
                (rows[0].workspace_id@, rows[0].pane_id),
            )
        },
{
    let list = attention_rows(rows, count, empty);
    let p = selectable(PanelTab::Attention);
    assert(list[0] == plain_row(count));
    if rows.len() == 0 {
        assert(list[1] == plain_row(empty));
        lemma_no_first(list, p);
    } else {
        assert(list[1] == attention_row(rows[0]));
        assert(is_first(list, p, 1));
        lemma_first_where(list, p, 1);
        law_attention_row_names_its_pane(rows[0].workspace_id@, rows[0].pane_id);
    }
}

/// The other tabs select their first row.
pub proof fn law_the_first_row_is_selected(tab: PanelTab, rows: Seq<ListRowView>)
    requires
        tab != PanelTab::Attention,
    ensures
        rows.len() == 0 ==> first_selected(tab, rows) is None,
        rows.len() > 0 ==> first_selected(tab, rows) == Some(0int),
{
    if rows.len() == 0 {
        lemma_no_first(rows, selectable(tab));
    } else {
        assert(is_first(rows, selectable(tab), 0));
        lemma_first_where(rows, selectable(tab), 0);
    }
}

/// Returns for how many seconds an entry of the menu mutes a pane: 5, 10 and
/// 30 minutes, 1, 4 and 24 hours.
pub fn mute_seconds(entry: usize) -> (r: Option<u64>)
    ensures
        r == (match entry {
            0 => Some(300u64),
            1 => Some(600u64),
            2 => Some(1800u64),
            3 => Some(3600u64),
            4 => Some(14400u64),
            5 => Some(86400u64),
            _ => None,
        }),
{
    match entry {
        0 => Some(300),
        1 => Some(600),
        2 => Some(1800),
        3 => Some(3600),
        4 => Some(14400),
        5 => Some(86400),
        _ => None,
    }
}

// ---------------------------------------------------------------------------
// The lines of a row.
// ---------------------------------------------------------------------------

/// The second line of a target: its subtitle, and its path where it has one.
pub open spec fn target_line(subtitle: Seq<char>, path: Seq<char>) -> Seq<char> {
    if trimmed(path).len() == 0 {
        subtitle
    } else {
        subtitle + " · "@ + path
    }
}

/// Returns the second line of a target.
pub fn target_row(subtitle: &str, config: &TargetConfig) -> (r: String)
    ensures
        r@ == target_line(subtitle@, config.path@),
{
    if is_blank(config.path.as_str()) {
        subtitle.to_owned()
    } else {
        concat3(subtitle, " · ", config.path.as_str())
    }
}

/// Returns the second line of an existing workspace.
pub fn existing_row(entry: &ExistingEntry) -> (r: String)
    ensures
        r@ == runtime_name(entry.runtime) + " @ "@ + transport_text(entry.transport),
{
    let connect = existing_connect_name(entry);
    concat3(entry.runtime.as_str(), " @ ", connect.as_str())
}

/// Whether a host answers.
#[derive(Debug, Clone, Copy, PartialEq, Eq, Structural)]
pub enum SshReach {
    Reachable,
    Unreachable,
    Unknown,
}

/// Returns the hint of the dot that shows whether a host answers.
pub fn reachability_dot(reach: SshReach) -> (r: &'static str)
    ensures
        r@ == (match reach {
            SshReach::Reachable => "SSH reachable"@,
            SshReach::Unreachable => "SSH unreachable"@,
            SshReach::Unknown => "SSH reachability unknown"@,
        }),
{
    match reach {
        SshReach::Reachable => "SSH reachable",
        SshReach::Unreachable => "SSH unreachable",
        SshReach::Unknown => "SSH reachability unknown",
    }
}

/// Returns the style class of a badge.
pub fn badge_class(badge: QuickBadge) -> (r: &'static str)
    ensures
        r@ == (match badge {
            QuickBadge::Recent => "qc-badge-recent"@,
            QuickBadge::Project => "qc-badge-project"@,
        }),
{
    match badge {
        QuickBadge::Recent => "qc-badge-recent",
        QuickBadge::Project => "qc-badge-project",
    }
}

/// Returns the style class of the dot of a pane; a quiet pane has no dot.
pub fn attention_panel_row(indicator: ActivityIndicator) -> (r: Option<&'static str>)
    ensures
        match indicator {
            ActivityIndicator::Running => r is Some && (r->0)@ == "running"@,
            ActivityIndicator::Done => r is Some && (r->0)@ == "done"@,
            ActivityIndicator::Quiet => r is None,
        },
{
    match indicator {
        ActivityIndicator::Running => Some("running"),
        ActivityIndicator::Done => Some("done"),
        ActivityIndicator::Quiet => None,
    }
}

// ---------------------------------------------------------------------------
// The controller.
// ---------------------------------------------------------------------------

/// The panel while it is open. The list is built anew a moment after the last
/// change: every request takes the next number and only the latest counts.
#[derive(Debug)]
pub struct PanelController {
    pub model: PanelModel,
    pub finished: bool,
    pub generation: u64,
    pub pending: Option<u64>,
}

/// When the list of a panel is built anew.
pub struct RebuildView {
    pub finished: bool,
    pub generation: u64,
    pub pending: Option<u64>,
}

/// The number of the next request.
pub open spec fn next_number(n: u64) -> u64 {
    if n == u64::MAX {
        0
    } else {
        (n + 1) as u64
    }
}

/// A request to build the list anew.
pub open spec fn requested(s: RebuildView) -> RebuildView {
    if s.finished {
        s
    } else {
        RebuildView {
            generation: next_number(s.generation),
            pending: Some(next_number(s.generation)),
            ..s
        }
    }
}

/// The timer of a request builds the list.
pub open spec fn fires(s: RebuildView, token: u64) -> bool {
    !s.finished && s.pending == Some(token)
}

/// The state after the timer of a request.
pub open spec fn fired(s: RebuildView, token: u64) -> RebuildView {
    if fires(s, token) {
        RebuildView { pending: None, ..s }
    } else {
        s
    }
}

/// A waiting request is carried out at once.
pub open spec fn flushed(s: RebuildView) -> RebuildView {
    if !s.finished && s.pending is Some {
        RebuildView { generation: next_number(s.generation), pending: None, ..s }
    } else {
        s
    }
}

/// What the tabulator key did.
#[derive(Debug, PartialEq, Eq)]
pub enum TabKey {
    Completed(String),
    Cycled,
}

impl PanelController {
    /// When the list is built anew.
    pub open spec fn rebuild(&self) -> RebuildView {
        RebuildView {
            finished: self.finished,
            generation: self.generation,
            pending: self.pending,
        }
    }

    /// Opens the panel with a tab.
    pub fn show(initial: PanelTab) -> (r: Self)
        ensures
            r.model.tab == initial,
            r.model.query@ == Seq::<char>::empty(),
            r.model.scope == SearchScope::All,
            r.rebuild() == (RebuildView { finished: false, generation: 0, pending: None }),
    {
        PanelController {
            model: PanelModel::open(initial),
            finished: false,
            generation: 0,
            pending: None,
        }
    }

    /// Closes the panel. Returns whether it was open.
    pub fn dismiss(&mut self) -> (r: bool)
        ensures
            r == !old(self).rebuild().finished,
            final(self).rebuild() == (RebuildView { finished: true, ..old(self).rebuild() }),
            final(self).model == old(self).model,
    {
        let was = self.finished;
        self.finished = true;
        !was
    }

    /// Asks for the list to be built anew. Returns the number of the request
    /// for its timer.
    pub fn schedule_rebuild(&mut self) -> (r: Option<u64>)
        ensures
            final(self).rebuild() == requested(old(self).rebuild()),
            final(self).model == old(self).model,
            r == if old(self).rebuild().finished {
                None
            } else {
                final(self).rebuild().pending
            },
    {
        if self.finished {
            return None;
        }
        let generation: u64 = self.generation.wrapping_add(1);
        self.generation = generation;
        self.pending = Some(generation);
        Some(generation)
    }

    /// The timer of a request. Returns whether the list is built now.
    pub fn rebuild_timer(&mut self, token: u64) -> (r: bool)
        ensures
            r == fires(old(self).rebuild(), token),
            final(self).rebuild() == fired(old(self).rebuild(), token),
            final(self).model == old(self).model,
    {
        if self.finished {
            return false;
        }
        match self.pending {
            Some(n) => {
                if n == token {
                    self.pending = None;
                    true
                } else {
                    false
                }
            },
            None => false,
        }
    }

    /// Carries out a waiting request before a row is activated by the enter
    /// key. Returns whether the list is built now.
    pub fn flush_rebuild(&mut self) -> (r: bool)
        ensures
            r == (!old(self).rebuild().finished && old(self).rebuild().pending is Some),
            final(self).rebuild() == flushed(old(self).rebuild()),
            final(self).model == old(self).model,
    {
        if self.finished || self.pending.is_none() {
            return false;
        }
        self.pending = None;
        self.generation = self.generation.wrapping_add(1);
        true
    }

    /// New results of a probe concern the first tab only. Returns whether the
    /// list is to be built anew.
    pub fn refresh_current(&self) -> (r: bool)
        ensures
            r == (self.model.tab == PanelTab::Workspaces),
    {
        self.model.tab == PanelTab::Workspaces
    }

    /// Chooses a tab. Returns whether it is another one.
    pub fn choose_tab(&mut self, tab: PanelTab) -> (r: bool)
        ensures
            r == (old(self).model.tab != tab),
            final(self).model == (PanelModel { tab, ..old(self).model }),
            final(self).rebuild() == old(self).rebuild(),
    {
        let changed = self.model.tab != tab;
        self.model.tab = tab;
        changed
    }

    /// Chooses where to search. Returns whether it is somewhere else.
    pub fn choose_scope(&mut self, scope: SearchScope) -> (r: bool)
        ensures
            r == (old(self).model.scope != scope),
            final(self).model == (PanelModel { scope, ..old(self).model }),
            final(self).rebuild() == old(self).rebuild(),
    {
        let changed = self.model.scope != scope;
        self.model.scope = scope;
        changed
    }

    /// Takes a query.
    pub fn set_query(&mut self, query: String)
        ensures
            final(self).model == (PanelModel { query, ..old(self).model }),
            final(self).rebuild() == old(self).rebuild(),
    {
        self.model.query = query;
    }

    /// The tabulator key: completes the query where `completed` differs from
    /// `query`, else goes to another tab. A query that is already complete
    /// therefore never holds the key back.
    pub fn press_tab(&mut self, query: &str, completed: Option<String>, back: bool) -> (r: TabKey)
        ensures
            final(self).rebuild() == old(self).rebuild(),
            if completed matches Some(c) && old(self).model.tab == PanelTab::Workspaces && c@
                != query@ {
                r == TabKey::Completed(completed->0) && final(self).model == old(self).model
            } else {
                &&& r is Cycled
                &&& tab_number(final(self).model.tab) == (tab_number(old(self).model.tab) + (
                if back {
                    2int
                } else {
                    1int
                })) % 3
                &&& final(self).model.query == old(self).model.query
                &&& final(self).model.scope == old(self).model.scope
            },
    {
        if self.model.tab == PanelTab::Workspaces {
            if let Some(text) = completed {
                if !same(text.as_str(), query) {
                    return TabKey::Completed(text);
                }
            }
        }
        self.model.cycle_tab(back);
        TabKey::Cycled
    }

    /// Returns what the row at a position does; nothing once the panel is
    /// closed.
    pub fn activate_row<'a>(&self, rows: &'a Vec<ListRow>, index: usize) -> (r: Option<
        &'a RowAction,
    >)
        ensures
            match r {
                Some(a) => !self.rebuild().finished && index < rows.len()
                    && rows@[index as int].action == *a,
                None => self.rebuild().finished || index >= rows.len(),
            },
    {
        if self.finished || index >= rows.len() {
            None
        } else {
            Some(&rows[index].action)
        }
    }
}

/// What a row leads to.
#[derive(Debug)]
pub enum VisibleAction {
    Connect(TargetConfig),
    ExistingConnect(ExistingEntry),
    NewProject,
    Navigate(ExistingNav),
    Jump { workspace_id: String, pane_id: u32, seq: u64 },
    Nothing,
}

/// What carrying out an action asks of the window besides the action itself.
#[derive(Debug, Clone, Copy, PartialEq, Eq, Structural)]
pub enum ActionEffect {
    /// The panel goes first; `told` tells whether the window hears of it.
    Close { told: bool },
    /// The list is built anew once the timer of the request runs out, and the
    /// query is typed on.
    Rebuild { timer: Option<u64> },
    /// The panel stays as it is.
    Stay,
}

/// The action closes the panel before it is carried out.
pub open spec fn closes_panel(action: VisibleAction) -> bool {
    action is Connect || action is ExistingConnect || action is NewProject
}

impl PanelController {
    /// Carries out an action as far as the panel is concerned: connecting and
    /// a new project close it, going to another list changes where it stands,
    /// and a jump leaves it to the window.
    pub fn run_action(&mut self, action: &VisibleAction, state: &mut ExistingPanelState) -> (r:
        ActionEffect)
        ensures
            final(self).model == old(self).model,
            match *action {
                VisibleAction::Navigate(next) => {
                    &&& nav_same(final(state).nav, next)
                    &&& *final(state) == (ExistingPanelState {
                        nav: final(state).nav,
                        ..*old(state)
                    })
                    &&& final(self).rebuild() == requested(old(self).rebuild())
                    &&& r == (ActionEffect::Rebuild {
                        timer: if old(self).rebuild().finished {
                            None
                        } else {
                            final(self).rebuild().pending
                        },
                    })
                },
                _ => {
                    &&& *final(state) == *old(state)
                    &&& if closes_panel(*action) {
                        &&& final(self).rebuild() == (RebuildView {
                            finished: true,
                            ..old(self).rebuild()
                        })
                        &&& r == (ActionEffect::Close { told: !old(self).rebuild().finished })
                    } else {
                        &&& final(self).rebuild() == old(self).rebuild()
                        &&& r == ActionEffect::Stay
                    }
                },
            },
    {
        match action {
            VisibleAction::Connect(_) => ActionEffect::Close { told: self.dismiss() },
            VisibleAction::ExistingConnect(_) => ActionEffect::Close { told: self.dismiss() },
            VisibleAction::NewProject => ActionEffect::Close { told: self.dismiss() },
            VisibleAction::Navigate(next) => {
                state.nav = copy_nav(next);
                ActionEffect::Rebuild { timer: self.schedule_rebuild() }
            },
            VisibleAction::Jump { .. } => ActionEffect::Stay,
            VisibleAction::Nothing => ActionEffect::Stay,
        }
    }
}

/// Two places in the lists are the same.
pub open spec fn nav_same(a: ExistingNav, b: ExistingNav) -> bool {
    match (a, b) {
        (ExistingNav::SshHost { alias: x }, ExistingNav::SshHost { alias: y }) => x@ == y@,
        _ => a == b,
    }
}

fn copy_nav(nav: &ExistingNav) -> (r: ExistingNav)
    ensures
        nav_same(r, *nav),
{
    match nav {
        ExistingNav::Root => ExistingNav::Root,
        ExistingNav::Home => ExistingNav::Home,
        ExistingNav::Local => ExistingNav::Local,
        ExistingNav::SshHosts => ExistingNav::SshHosts,
        ExistingNav::SshHost { alias } => ExistingNav::SshHost { alias: alias.clone() },
    }
}

/// Which parts of the panel a tab shows.
#[derive(Debug, Clone, Copy, PartialEq, Eq, Structural)]
pub struct TabParts {
    pub search_status: bool,
    pub scope_bar: bool,
    pub attention_actions: bool,
}

/// Returns which parts a tab shows; `placeholder` tells whether the search has
/// nothing to list yet.
pub fn tab_parts(tab: PanelTab, placeholder: bool) -> (r: TabParts)
    ensures
        r.search_status == (tab == PanelTab::Search && placeholder),
        r.scope_bar == (tab == PanelTab::Search),
        r.attention_actions == (tab == PanelTab::Attention),
{
    TabParts {
        search_status: tab == PanelTab::Search && placeholder,
        scope_bar: tab == PanelTab::Search,
        attention_actions: tab == PanelTab::Attention,
    }
}

/// The hosts that a query can be completed with.
pub fn completion_aliases(state: &ExistingPanelState) -> (r: Vec<String>)
    ensures
        views(r@) == views(state.ssh_aliases@) + views(state.hosts@),
{
    let mut out = clone_strings(&state.ssh_aliases);
    let mut more = clone_strings(&state.hosts);
    let ghost both = out@ + more@;
    out.append(&mut more);
    assert(out@ =~= both);
    assert(views(both) =~= views(state.ssh_aliases@) + views(state.hosts@));
    out
}

// ---------------------------------------------------------------------------
// The arrow keys.
// ---------------------------------------------------------------------------

/// The first row from `from` on that can be activated, downwards or upwards.
pub open spec fn reachable(rows: Seq<bool>, from: int, down: bool) -> Option<int>
    decreases if down {
        rows.len() - from
    } else {
        from + 1
    },
{
    if from < 0 || from >= rows.len() {
        None
    } else if rows[from] {
        Some(from)
    } else if down {
        reachable(rows, from + 1, down)
    } else {
        reachable(rows, from - 1, down)
    }
}

/// Where an arrow key starts to look: beside the selected row, else at the
/// end it comes from.
pub open spec fn arrow_start(rows: int, selected: Option<usize>, down: bool) -> int {
    match selected {
        Some(i) => if down {
            i + 1
        } else {
            i - 1
        },
        None => if down {
            0
        } else {
            rows - 1
        },
    }
}

/// Returns the row that an arrow key selects; none where the selection stays.
/// `rows` tells which rows can be activated.
pub fn press_arrow(rows: &Vec<bool>, selected: Option<usize>, down: bool) -> (r: Option<usize>)
    ensures
        match r {
            Some(i) => reachable(
                rows@,
                arrow_start(rows@.len() as int, selected, down),
                down,
            ) == Some(i as int),
            None => reachable(rows@, arrow_start(rows@.len() as int, selected, down), down)
                is None,
        },
{
    let n: usize = rows.len();
    if down {
        let mut next: usize = match selected {
            Some(i) => {
                if i >= n {
                    return None;
                }
                i + 1
            },
            None => 0,
        };
        let ghost start = arrow_start(n as int, selected, true);
        while next < n
            invariant
                n == rows.len(),
                next <= n,
                reachable(rows@, start, true) == reachable(rows@, next as int, true),
                start == arrow_start(n as int, selected, true),
                down,
            decreases n - next,
        {
            if rows[next] {
                return Some(next);
            }
            next += 1;
        }
        None
    } else {
        let mut above: usize = match selected {
            Some(i) => {
                if i > n {
                    return None;
                }
                i
            },
            None => n,
        };
        let ghost start = arrow_start(n as int, selected, false);
        while above > 0
            invariant
                n == rows.len(),
                above <= n,
                reachable(rows@, start, false) == reachable(rows@, above - 1, false),
                start == arrow_start(n as int, selected, false),
                !down,
            decreases above,
        {
            if rows[above - 1] {
                return Some(above - 1);
            }
            above -= 1;
        }
        None
    }
}

proof fn lemma_reachable(rows: Seq<bool>, from: int, down: bool)
    ensures
        reachable(rows, from, down) matches Some(i) ==> 0 <= i < rows.len() && rows[i] && (if down {
            i >= from
        } else {
            i <= from
        }),
    decreases if down {
        rows.len() - from
    } else {
        from + 1
    },
{
    if 0 <= from < rows.len() && !rows[from] {
        if down {
            lemma_reachable(rows, from + 1, down);
        } else {
            lemma_reachable(rows, from - 1, down);
        }
    }
}

/// The arrow keys select rows that can be activated, and move in their
/// direction.
pub proof fn law_arrows_select_activatable_rows(rows: Seq<bool>, selected: usize, down: bool)
    ensures
        reachable(rows, arrow_start(rows.len() as int, Some(selected), down), down) matches Some(
            i,
        ) ==> 0 <= i < rows.len() && rows[i] && (if down {
            i > selected
        } else {
            i < selected
        }),
{
    lemma_reachable(rows, arrow_start(rows.len() as int, Some(selected), down), down);
}

/// Of several requests in a row only the last builds the list, and only once.
pub proof fn law_only_the_last_request_builds(s: RebuildView)
    requires
        !s.finished,
    ensures
        ({
            let one = requested(s);
            let two = requested(one);
            let first = one.pending->0;
            let last = two.pending->0;
            &&& !fires(two, first)
            &&& fires(fired(two, first), last)
            &&& !fires(fired(fired(two, first), last), last)
        }),
{
}

/// A request that was carried out at once is not carried out again by its
/// timer.
pub proof fn law_flushed_request_does_not_fire(s: RebuildView, token: u64)
    requires
        !s.finished,
        s.pending is Some,
    ensures
        !fires(flushed(s), token),
{
}

/// A closed panel builds nothing any more.
pub proof fn law_closed_panel_builds_nothing(s: RebuildView, token: u64)
    requires
        s.finished,
    ensures
        requested(s) == s,
        flushed(s) == s,
        !fires(s, token),
{
}

} // verus!
