//! The quick-connect panel: its rows and how they are filtered.
use vstd::prelude::*;

use crate::linux::existing::ExistingEntry;
use crate::linux::target::TargetConfig;
use crate::seqs::{find, flat, is_first, lemma_find, lemma_first_where, lemma_no_first};
use crate::text::find::contains;
use crate::text::order::{
    insert_by, lemma_sorted_elements, stable_sorted, text_le, text_less,
};
use crate::text::{all_white, clone_opt, contains_string, is_blank, opt_view, same, views};

verus! {

// ---------------------------------------------------------------------------
// Items.
// ---------------------------------------------------------------------------

/// Why an entry is offered.
#[derive(Debug, Clone, Copy, PartialEq, Eq, Structural)]
pub enum QuickBadge {
    Recent,
    Project,
}

/// A target to connect to. `id` is the identity by which targets are told
/// apart.
#[derive(Debug, PartialEq, Eq)]
pub struct QuickConnectEntry {
    pub id: String,
    pub config: TargetConfig,
    pub badges: Vec<QuickBadge>,
    pub project_id: Option<String>,
}

/// The view of a [`QuickConnectEntry`].
pub struct EntryView {
    pub id: Seq<char>,
    pub config: TargetConfig,
    pub badges: Seq<QuickBadge>,
    pub project_id: Option<Seq<char>>,
}

impl View for QuickConnectEntry {
    type V = EntryView;

    open spec fn view(&self) -> EntryView {
        EntryView {
            id: self.id@,
            config: self.config,
            badges: self.badges@,
            project_id: opt_view(self.project_id),
        }
    }
}

impl Clone for QuickConnectEntry {
    fn clone(&self) -> (r: Self)
        ensures
            r@ == self@,
    {
        let mut badges: Vec<QuickBadge> = Vec::new();
        let mut i: usize = 0;
        while i < self.badges.len()
            invariant
                i <= self.badges.len(),
                badges@ == self.badges@.take(i as int),
            decreases self.badges.len() - i,
        {
            badges.push(self.badges[i]);
            assert(self.badges@.take(i + 1) =~= self.badges@.take(i as int).push(
                self.badges@[i as int],
            ));
            i += 1;
        }
        assert(self.badges@.take(self.badges@.len() as int) =~= self.badges@);
        QuickConnectEntry {
            id: self.id.clone(),
            config: self.config.clone(),
            badges,
            project_id: clone_opt(&self.project_id),
        }
    }
}

impl QuickConnectEntry {
    /// An entry that belongs to no project.
    pub fn new(id: String, config: TargetConfig, badges: Vec<QuickBadge>) -> (r: Self)
        ensures
            r.id@ == id@,
            r.config == config,
            r.badges@ == badges@,
            r.project_id is None,
    {
        QuickConnectEntry { id, config, badges, project_id: None }
    }
}

/// A workspace that already runs, with the identity by which it is told apart
/// from targets.
#[derive(Debug, PartialEq, Eq)]
pub struct ExistingRow {
    pub entry: ExistingEntry,
    pub id: String,
}

impl Clone for ExistingRow {
    fn clone(&self) -> (r: Self)
        ensures
            r == *self,
    {
        ExistingRow { entry: self.entry.clone(), id: self.id.clone() }
    }
}

/// One item of the panel.
#[derive(Debug, PartialEq, Eq)]
pub enum PanelItem {
    Target(QuickConnectEntry, bool),
    NewProject,
    Folder { id: &'static str, title: String },
    Back,
    Existing(ExistingRow),
    Host { alias: String },
    Loading,
    Empty { title: String },
}

/// The view of a [`PanelItem`].
pub enum PanelItemView {
    Target(EntryView, bool),
    NewProject,
    Folder { id: Seq<char>, title: Seq<char> },
    Back,
    Existing(ExistingRow),
    Host { alias: Seq<char> },
    Loading,
    Empty { title: Seq<char> },
}

impl View for PanelItem {
    type V = PanelItemView;

    open spec fn view(&self) -> PanelItemView {
        match *self {
            PanelItem::Target(entry, current) => PanelItemView::Target(entry@, current),
            PanelItem::NewProject => PanelItemView::NewProject,
            PanelItem::Folder { id, title } => PanelItemView::Folder { id: id@, title: title@ },
            PanelItem::Back => PanelItemView::Back,
            PanelItem::Existing(row) => PanelItemView::Existing(row),
            PanelItem::Host { alias } => PanelItemView::Host { alias: alias@ },
            PanelItem::Loading => PanelItemView::Loading,
            PanelItem::Empty { title } => PanelItemView::Empty { title: title@ },
        }
    }
}

impl Clone for PanelItem {
    fn clone(&self) -> (r: Self)
        ensures
            r@ == self@,
    {
        match self {
            PanelItem::Target(entry, current) => PanelItem::Target(entry.clone(), *current),
            PanelItem::NewProject => PanelItem::NewProject,
            PanelItem::Folder { id, title } => PanelItem::Folder { id: *id, title: title.clone() },
            PanelItem::Back => PanelItem::Back,
            PanelItem::Existing(row) => PanelItem::Existing(row.clone()),
            PanelItem::Host { alias } => PanelItem::Host { alias: alias.clone() },
            PanelItem::Loading => PanelItem::Loading,
            PanelItem::Empty { title } => PanelItem::Empty { title: title.clone() },
        }
    }
}

/// The views of items.
pub open spec fn item_views(s: Seq<PanelItem>) -> Seq<PanelItemView> {
    Seq::new(s.len(), |i: int| s[i]@)
}

fn push_item(items: &mut Vec<PanelItem>, item: PanelItem)
    ensures
        item_views(final(items)@) == item_views(old(items)@).push(item@),
{
    items.push(item);
    assert(item_views(items@) =~= item_views(old(items)@).push(item@));
}

/// Copies items.
pub fn clone_items(items: &Vec<PanelItem>) -> (r: Vec<PanelItem>)
    ensures
        item_views(r@) == item_views(items@),
{
    let mut out: Vec<PanelItem> = Vec::new();
    let mut i: usize = 0;
    while i < items.len()
        invariant
            i <= items.len(),
            out.len() == i,
            forall|j: int| 0 <= j < i ==> (#[trigger] out@[j])@ == items@[j]@,
        decreases items.len() - i,
    {
        out.push(items[i].clone());
        i += 1;
    }
    assert(item_views(out@) =~= item_views(items@));
    out
}

/// Where the list of running workspaces stands.
#[derive(Debug, Clone, PartialEq, Eq)]
pub enum ExistingNav {
    Root,
    Home,
    Local,
    SshHosts,
    SshHost { alias: String },
}

impl Default for ExistingNav {
    fn default() -> (r: Self)
        ensures
            r is Root,
    {
        ExistingNav::Root
    }
}

/// What is known of the workspaces that run.
#[derive(Debug, Clone)]
pub struct ExistingPanelState {
    pub nav: ExistingNav,
    pub locals: Vec<ExistingRow>,
    pub hosts: Vec<String>,
    pub remote: Vec<(String, Vec<ExistingRow>)>,
    pub ssh_aliases: Vec<String>,
    pub probe_inflight: bool,
}

/// No host is listed twice.
pub open spec fn distinct_hosts(remote: Seq<(String, Vec<ExistingRow>)>) -> bool {
    forall|i: int, j: int|
        0 <= i < j < remote.len() ==> (#[trigger] remote[i]).0@ != (#[trigger] remote[j]).0@
}

impl Default for ExistingPanelState {
    fn default() -> (r: Self)
        ensures
            r.wf(),
            r.nav is Root,
            r.locals@ == Seq::<ExistingRow>::empty(),
            r.hosts@ == Seq::<String>::empty(),
            r.remote@ == Seq::<(String, Vec<ExistingRow>)>::empty(),
            r.ssh_aliases@ == Seq::<String>::empty(),
            !r.probe_inflight,
    {
        ExistingPanelState {
            nav: ExistingNav::Root,
            locals: Vec::new(),
            hosts: Vec::new(),
            remote: Vec::new(),
            ssh_aliases: Vec::new(),
            probe_inflight: false,
        }
    }
}

impl ExistingPanelState {
    /// The rows of a host are known once at most.
    pub open spec fn wf(&self) -> bool {
        distinct_hosts(self.remote@)
    }

    /// Notes the rows of a host in place of those that were known.
    pub fn set_remote(&mut self, alias: &str, rows: Vec<ExistingRow>)
        ensures
            old(self).wf() ==> final(self).wf(),
            *final(self) == (ExistingPanelState { remote: final(self).remote, ..*old(self) }),
            remote_rows(final(self).remote@, alias@) == rows@,
            forall|other: Seq<char>|
                other != alias@ ==> #[trigger] remote_rows(final(self).remote@, other)
                    == remote_rows(old(self).remote@, other),
    {
        let ghost before = self.remote@;
        let mut i: usize = 0;
        while i < self.remote.len()
            invariant
                i <= self.remote.len(),
                *self == *old(self),
                before == self.remote@,
                forall|j: int| 0 <= j < i ==> (#[trigger] before[j]).0@ != alias@,
            decreases self.remote.len() - i,
        {
            if same(self.remote[i].0.as_str(), alias) {
                let entry = (alias.to_owned(), rows);
                self.remote.set(i, entry);
                proof {
                    let after = before.update(i as int, entry);
                    assert(self.remote@ == after);
                    lemma_first_where(after, host_is(alias@), i as int);
                    assert forall|other: Seq<char>| other != alias@ implies #[trigger] remote_rows(
                        after,
                        other,
                    ) == remote_rows(before, other) by {
                        lemma_other_host_update(before, i as int, entry, other);
                    }
                }
                return ;
            }
            i += 1;
        }
        let entry = (alias.to_owned(), rows);
        self.remote.push(entry);
        proof {
            let after = before.push(entry);
            assert(self.remote@ == after);
            assert forall|j: int| 0 <= j < before.len() implies !host_is(alias@)(
                #[trigger] after[j],
            ) by {
                assert(after[j] == before[j]);
            }
            lemma_first_where(after, host_is(alias@), before.len() as int);
            assert forall|other: Seq<char>| other != alias@ implies #[trigger] remote_rows(
                after,
                other,
            ) == remote_rows(before, other) by {
                lemma_other_host_push(before, entry, other);
            }
        }
    }
}

proof fn lemma_other_host_update(
    before: Seq<(String, Vec<ExistingRow>)>,
    i: int,
    entry: (String, Vec<ExistingRow>),
    other: Seq<char>,
)
    requires
        0 <= i < before.len(),
        before[i].0@ == entry.0@,
        entry.0@ != other,
    ensures
        remote_rows(before.update(i, entry), other) == remote_rows(before, other),
{
    let after = before.update(i, entry);
    let p = host_is(other);
    if exists|k: int| is_first(before, p, k) {
        let k = choose|k: int| is_first(before, p, k);
        lemma_first_where(before, p, k);
        assert forall|j: int| 0 <= j < k implies !p(#[trigger] after[j]) by {
            assert(!p(before[j]));
        }
        lemma_first_where(after, p, k);
    } else {
        lemma_find(before, p);
        assert forall|j: int| 0 <= j < before.len() implies !p(#[trigger] before[j]) by {}
        lemma_no_first(before, p);
        assert forall|j: int| 0 <= j < after.len() implies !p(#[trigger] after[j]) by {
            assert(!p(before[j]));
        }
        lemma_no_first(after, p);
    }
}

proof fn lemma_other_host_push(
    before: Seq<(String, Vec<ExistingRow>)>,
    entry: (String, Vec<ExistingRow>),
    other: Seq<char>,
)
    requires
        entry.0@ != other,
    ensures
        remote_rows(before.push(entry), other) == remote_rows(before, other),
{
    let after = before.push(entry);
    let p = host_is(other);
    if exists|k: int| is_first(before, p, k) {
        let k = choose|k: int| is_first(before, p, k);
        lemma_first_where(before, p, k);
        assert forall|j: int| 0 <= j < k implies !p(#[trigger] after[j]) by {
            assert(!p(before[j]));
        }
        lemma_first_where(after, p, k);
    } else {
        lemma_find(before, p);
        lemma_no_first(before, p);
        assert forall|j: int| 0 <= j < after.len() implies !p(#[trigger] after[j]) by {
            if j < before.len() {
                assert(!p(before[j]));
            }
        }
        lemma_no_first(after, p);
    }
}

// ---------------------------------------------------------------------------
// The root list.
// ---------------------------------------------------------------------------

/// How many recent targets the root list shows.
pub const ROOT_RECENT_LIMIT: usize = 5;

/// The entry was used recently.
pub open spec fn is_recent(badges: Seq<QuickBadge>) -> bool {
    badges.contains(QuickBadge::Recent)
}

/// The item of an entry. An entry that was not used recently belongs to its
/// project.
pub open spec fn target_item(
    entry: EntryView,
    current_id: Option<Seq<char>>,
    project_id: Option<Seq<char>>,
) -> PanelItemView {
    PanelItemView::Target(
        if is_recent(entry.badges) {
            entry
        } else {
            EntryView { project_id, ..entry }
        },
        current_id == Some(entry.id),
    )
}

/// The items of entries, and at the end the one for a new project.
pub open spec fn target_items(
    entries: Seq<QuickConnectEntry>,
    current_id: Option<Seq<char>>,
    project_ids: Seq<Option<String>>,
) -> Seq<PanelItemView> {
    Seq::new(
        entries.len(),
        |i: int| target_item(entries[i]@, current_id, opt_view(project_ids[i])),
    ).push(PanelItemView::NewProject)
}

fn has_recent(badges: &Vec<QuickBadge>) -> (r: bool)
    ensures
        r == is_recent(badges@),
{
    let mut i: usize = 0;
    while i < badges.len()
        invariant
            i <= badges.len(),
            forall|j: int| 0 <= j < i ==> badges@[j] != QuickBadge::Recent,
        decreases badges.len() - i,
    {
        if badges[i] == QuickBadge::Recent {
            assert(badges@[i as int] == QuickBadge::Recent);
            return true;
        }
        i += 1;
    }
    false
}

/// Returns the items of entries. `project_ids` are the projects of the
/// entries.
pub fn build_items(
    entries: &Vec<QuickConnectEntry>,
    current_id: Option<&str>,
    project_ids: &Vec<Option<String>>,
) -> (r: Vec<PanelItem>)
    requires
        project_ids.len() == entries.len(),
    ensures
        item_views(r@) == target_items(
            entries@,
            match current_id {
                Some(s) => Some(s@),
                None => None,
            },
            project_ids@,
        ),
{
    let ghost current = match current_id {
        Some(s) => Some(s@),
        None => None,
    };
    let mut out: Vec<PanelItem> = Vec::new();
    let mut i: usize = 0;
    while i < entries.len()
        invariant
            i <= entries.len(),
            project_ids.len() == entries.len(),
            current == match current_id {
                Some(s) => Some(s@),
                None => None,
            },
            out.len() == i,
            forall|j: int|
                0 <= j < i ==> (#[trigger] out@[j])@ == target_item(
                    entries@[j]@,
                    current,
                    opt_view(project_ids@[j]),
                ),
        decreases entries.len() - i,
    {
        let mut entry = entries[i].clone();
        let is_current = match current_id {
            Some(s) => same(s, entry.id.as_str()),
            None => false,
        };
        if !has_recent(&entry.badges) {
            entry.project_id = clone_opt(&project_ids[i]);
        }
        out.push(PanelItem::Target(entry, is_current));
        i += 1;
    }
    out.push(PanelItem::NewProject);
    assert(item_views(out@) =~= target_items(entries@, current, project_ids@));
    out
}

/// Returns how many recent entries a search looks at: all of them.
pub fn search_recent_limit(recents: usize) -> (r: usize)
    ensures
        r == recents,
{
    recents
}

/// Returns the items that a search looks at: those of all entries.
pub fn build_search_items(
    entries: &Vec<QuickConnectEntry>,
    current_id: Option<&str>,
    project_ids: &Vec<Option<String>>,
) -> (r: Vec<PanelItem>)
    requires
        project_ids.len() == entries.len(),
    ensures
        item_views(r@) == target_items(
            entries@,
            match current_id {
                Some(s) => Some(s@),
                None => None,
            },
            project_ids@,
        ),
{
    build_items(entries, current_id, project_ids)
}

/// The folder of running workspaces.
pub open spec fn existing_folder(title: Seq<char>) -> PanelItemView {
    PanelItemView::Folder { id: "existing-connections"@, title }
}

/// Returns the root list: the folder of running workspaces, then the targets,
/// then the item for a new project.
pub fn build_root_items(
    folder_title: &str,
    entries: &Vec<QuickConnectEntry>,
    current_id: Option<&str>,
    project_ids: &Vec<Option<String>>,
) -> (r: Vec<PanelItem>)
    requires
        project_ids.len() == entries.len(),
    ensures
        item_views(r@) == seq![existing_folder(folder_title@)] + target_items(
            entries@,
            match current_id {
                Some(s) => Some(s@),
                None => None,
            },
            project_ids@,
        ),
{
    let mut rest = build_items(entries, current_id, project_ids);
    let ghost tail = item_views(rest@);
    let mut out: Vec<PanelItem> = Vec::new();
    out.push(PanelItem::Folder { id: "existing-connections", title: folder_title.to_owned() });
    out.append(&mut rest);
    assert(item_views(out@) =~= seq![existing_folder(folder_title@)] + tail);
    out
}

// ---------------------------------------------------------------------------
// Running workspaces among the search results.
// ---------------------------------------------------------------------------

/// The order of rows by identity.
pub open spec fn rows_by_id() -> spec_fn(ExistingRow, ExistingRow) -> bool {
    |a: ExistingRow, b: ExistingRow| text_le(a.id@, b.id@)
}

/// The order of hosts by alias.
pub open spec fn hosts_by_alias() -> spec_fn((usize, String), (usize, String)) -> bool {
    |a: (usize, String), b: (usize, String)| text_le(a.1@, b.1@)
}

/// The hosts in the order of their aliases, with their positions.
pub open spec fn ordered_hosts(remote: Seq<(String, Vec<ExistingRow>)>) -> Seq<(usize, String)> {
    stable_sorted(
        Seq::new(remote.len(), |i: int| (i as usize, remote[i].0)),
        hosts_by_alias(),
    )
}

/// The rows of this machine, then those of the hosts by alias.
pub open spec fn all_rows(
    locals: Seq<ExistingRow>,
    remote: Seq<(String, Vec<ExistingRow>)>,
) -> Seq<ExistingRow> {
    let hosts = ordered_hosts(remote);
    locals + flat(Seq::new(hosts.len(), |i: int| remote[hosts[i].0 as int].1@))
}

/// A row with the identity stands among the rows.
pub open spec fn has_row_id(rows: Seq<ExistingRow>, id: Seq<char>) -> bool {
    exists|i: int| 0 <= i < rows.len() && (#[trigger] rows[i]).id@ == id
}

/// The first row of every identity.
pub open spec fn distinct_rows(rows: Seq<ExistingRow>) -> Seq<ExistingRow>
    decreases rows.len(),
{
    if rows.len() == 0 {
        rows
    } else {
        let rest = distinct_rows(rows.drop_last());
        if has_row_id(rows.drop_last(), rows.last().id@) {
            rest
        } else {
            rest.push(rows.last())
        }
    }
}

/// The running workspaces in the order of their identities, each once.
pub open spec fn root_rows(state: ExistingPanelState) -> Seq<ExistingRow> {
    distinct_rows(stable_sorted(all_rows(state.locals@, state.remote@), rows_by_id()))
}

fn row_not_after(a: &ExistingRow, b: &ExistingRow) -> (r: bool)
    ensures
        r == rows_by_id()(*a, *b),
{
    !text_less(b.id.as_str(), a.id.as_str())
}

fn host_not_after(a: &(usize, String), b: &(usize, String)) -> (r: bool)
    ensures
        r == hosts_by_alias()(*a, *b),
{
    !text_less(b.1.as_str(), a.1.as_str())
}

fn sorted_hosts(remote: &Vec<(String, Vec<ExistingRow>)>) -> (r: Vec<(usize, String)>)
    ensures
        r@ == ordered_hosts(remote@),
        forall|i: int| 0 <= i < r.len() ==> (#[trigger] r@[i]).0 < remote.len(),
{
    let ghost pairs = Seq::new(remote@.len(), |i: int| (i as usize, remote@[i].0));
    let mut out: Vec<(usize, String)> = Vec::new();
    let mut i: usize = 0;
    assert(stable_sorted(pairs.take(0), hosts_by_alias()) =~= Seq::<(usize, String)>::empty());
    while i < remote.len()
        invariant
            i <= remote.len(),
            pairs == Seq::new(remote@.len(), |i: int| (i as usize, remote@[i].0)),
            out@ == stable_sorted(pairs.take(i as int), hosts_by_alias()),
        decreases remote.len() - i,
    {
        assert(pairs.take(i + 1).drop_last() =~= pairs.take(i as int));
        assert(pairs.take(i + 1).last() == (i, remote@[i as int].0));
        insert_by(&mut out, (i, remote[i].0.clone()), host_not_after, Ghost(hosts_by_alias()));
        i += 1;
    }
    proof {
        assert(pairs.take(pairs.len() as int) =~= pairs);
        lemma_sorted_elements(pairs, hosts_by_alias());
        assert forall|i: int| 0 <= i < out.len() implies (#[trigger] out@[i]).0
            < remote.len() by {
            assert(pairs.contains(out@[i]));
            let k = choose|k: int| 0 <= k < pairs.len() && pairs[k] == out@[i];
            assert(pairs[k].0 == k);
        }
    }
    out
}

fn append_rows(out: &mut Vec<ExistingRow>, rows: &Vec<ExistingRow>)
    ensures
        final(out)@ == old(out)@ + rows@,
{
    let mut i: usize = 0;
    assert(out@ =~= old(out)@ + rows@.take(0));
    while i < rows.len()
        invariant
            i <= rows.len(),
            out@ == old(out)@ + rows@.take(i as int),
        decreases rows.len() - i,
    {
        out.push(rows[i].clone());
        assert(rows@.take(i + 1) =~= rows@.take(i as int).push(rows@[i as int]));
        assert(out@ =~= old(out)@ + rows@.take(i + 1));
        i += 1;
    }
    assert(rows@.take(rows@.len() as int) =~= rows@);
}

fn gather_rows(state: &ExistingPanelState) -> (r: Vec<ExistingRow>)
    ensures
        r@ == all_rows(state.locals@, state.remote@),
{
    let mut out: Vec<ExistingRow> = Vec::new();
    append_rows(&mut out, &state.locals);
    assert(out@ =~= state.locals@);
    let hosts = sorted_hosts(&state.remote);
    let ghost lists = Seq::new(hosts@.len(), |i: int| state.remote@[hosts@[i].0 as int].1@);
    let mut i: usize = 0;
    assert(out@ =~= state.locals@ + flat(lists.take(0)));
    while i < hosts.len()
        invariant
            i <= hosts.len(),
            forall|i: int| 0 <= i < hosts.len() ==> (#[trigger] hosts@[i]).0 < state.remote.len(),
            lists == Seq::new(hosts@.len(), |i: int| state.remote@[hosts@[i].0 as int].1@),
            out@ == state.locals@ + flat(lists.take(i as int)),
        decreases hosts.len() - i,
    {
        let k: usize = hosts[i].0;
        append_rows(&mut out, &state.remote[k].1);
        assert(lists.take(i + 1).drop_last() =~= lists.take(i as int));
        assert(lists.take(i + 1).last() == state.remote@[k as int].1@);
        assert(out@ =~= state.locals@ + flat(lists.take(i + 1)));
        i += 1;
    }
    assert(lists.take(lists.len() as int) =~= lists);
    out
}

fn contains_row_id(rows: &Vec<ExistingRow>, n: usize, id: &str) -> (r: bool)
    requires
        n <= rows.len(),
    ensures
        r == has_row_id(rows@.take(n as int), id@),
{
    let mut i: usize = 0;
    while i < n
        invariant
            i <= n <= rows.len(),
            forall|j: int| 0 <= j < i ==> (#[trigger] rows@.take(n as int)[j]).id@ != id@,
        decreases n - i,
    {
        if same(rows[i].id.as_str(), id) {
            assert(rows@.take(n as int)[i as int].id@ == id@);
            return true;
        }
        i += 1;
    }
    false
}

fn existing_rows(state: &ExistingPanelState) -> (r: Vec<ExistingRow>)
    ensures
        r@ == root_rows(*state),
{
    let all = gather_rows(state);
    let mut sorted: Vec<ExistingRow> = Vec::new();
    let mut i: usize = 0;
    assert(stable_sorted(all@.take(0), rows_by_id()) =~= Seq::<ExistingRow>::empty());
    while i < all.len()
        invariant
            i <= all.len(),
            sorted@ == stable_sorted(all@.take(i as int), rows_by_id()),
        decreases all.len() - i,
    {
        assert(all@.take(i + 1).drop_last() =~= all@.take(i as int));
        insert_by(&mut sorted, all[i].clone(), row_not_after, Ghost(rows_by_id()));
        i += 1;
    }
    assert(all@.take(all@.len() as int) =~= all@);
    let mut out: Vec<ExistingRow> = Vec::new();
    let mut k: usize = 0;
    assert(distinct_rows(sorted@.take(0)) =~= Seq::<ExistingRow>::empty());
    while k < sorted.len()
        invariant
            k <= sorted.len(),
            out@ == distinct_rows(sorted@.take(k as int)),
        decreases sorted.len() - k,
    {
        assert(sorted@.take(k + 1).drop_last() =~= sorted@.take(k as int));
        if !contains_row_id(&sorted, k, sorted[k].id.as_str()) {
            out.push(sorted[k].clone());
        }
        k += 1;
    }
    assert(sorted@.take(sorted@.len() as int) =~= sorted@);
    out
}

/// Rows as items.
pub open spec fn row_items(rows: Seq<ExistingRow>) -> Seq<PanelItemView> {
    Seq::new(rows.len(), |i: int| PanelItemView::Existing(rows[i]))
}

fn push_rows(items: &mut Vec<PanelItem>, rows: &Vec<ExistingRow>)
    ensures
        item_views(final(items)@) == item_views(old(items)@) + row_items(rows@),
{
    let ghost before = item_views(items@);
    let mut i: usize = 0;
    assert(item_views(items@) =~= before + row_items(rows@).take(0));
    while i < rows.len()
        invariant
            i <= rows.len(),
            item_views(items@) == before + row_items(rows@).take(i as int),
        decreases rows.len() - i,
    {
        push_item(items, PanelItem::Existing(rows[i].clone()));
        assert(row_items(rows@).take(i + 1) =~= row_items(rows@).take(i as int).push(
            PanelItemView::Existing(rows@[i as int]),
        ));
        assert(item_views(items@) =~= before + row_items(rows@).take(i + 1));
        i += 1;
    }
    assert(row_items(rows@).take(rows@.len() as int) =~= row_items(rows@));
}

/// Returns the running workspaces as items, in the order of their identities,
/// each once.
pub fn existing_root_items(existing: &ExistingPanelState) -> (r: Vec<PanelItem>)
    ensures
        item_views(r@) == row_items(root_rows(*existing)),
{
    let rows = existing_rows(existing);
    let mut out: Vec<PanelItem> = Vec::new();
    push_rows(&mut out, &rows);
    assert(item_views(out@) =~= row_items(rows@));
    out
}

/// The identities of the targets among items.
pub open spec fn target_ids(items: Seq<PanelItemView>) -> Set<Seq<char>>
    decreases items.len(),
{
    if items.len() == 0 {
        Set::<Seq<char>>::empty()
    } else {
        let rest = target_ids(items.drop_last());
        match items.last() {
            PanelItemView::Target(entry, _) => rest.insert(entry.id),
            _ => rest,
        }
    }
}

/// The targets among items whose identity is not among `seen` and does not
/// stand before them.
pub open spec fn new_targets(items: Seq<PanelItemView>, seen: Set<Seq<char>>) -> Seq<PanelItemView>
    decreases items.len(),
{
    if items.len() == 0 {
        Seq::<PanelItemView>::empty()
    } else {
        let init = items.drop_last();
        let rest = new_targets(init, seen);
        match items.last() {
            PanelItemView::Target(entry, _) => if seen.union(target_ids(init)).contains(entry.id) {
                rest
            } else {
                rest.push(items.last())
            },
            _ => rest,
        }
    }
}

/// The rows whose identity is not among `seen`, as items.
pub open spec fn new_rows(rows: Seq<ExistingRow>, seen: Set<Seq<char>>) -> Seq<PanelItemView>
    decreases rows.len(),
{
    if rows.len() == 0 {
        Seq::<PanelItemView>::empty()
    } else {
        let rest = new_rows(rows.drop_last(), seen);
        if seen.contains(rows.last().id@) {
            rest
        } else {
            rest.push(PanelItemView::Existing(rows.last()))
        }
    }
}

/// The root list while something is searched for: the list itself, the
/// targets that it leaves out, and the running workspaces.
pub open spec fn root_items(
    base: Seq<PanelItemView>,
    search: Seq<PanelItemView>,
    existing: ExistingPanelState,
    query: Seq<char>,
) -> Seq<PanelItemView> {
    if all_white(query) {
        base
    } else {
        let rows = root_rows(existing);
        let seen = target_ids(base);
        base + new_targets(search, seen) + (if rows.len() == 0 && existing.probe_inflight {
            seq![PanelItemView::Loading]
        } else {
            Seq::<PanelItemView>::empty()
        }) + new_rows(rows, seen.union(target_ids(search)))
    }
}

/// The strings are exactly the members of a set.
spec fn lists_set(ids: Seq<String>, set: Set<Seq<char>>) -> bool {
    forall|id: Seq<char>| views(ids).contains(id) <==> set.contains(id)
}

proof fn lemma_lists_insert(before: Seq<String>, after: Seq<String>, set: Set<Seq<char>>, id: Seq<
    char,
>)
    requires
        lists_set(before, set),
        views(after) == views(before).push(id),
    ensures
        lists_set(after, set.insert(id)),
{
    assert forall|x: Seq<char>| views(after).contains(x) <==> set.insert(id).contains(x) by {
        if views(before).contains(x) {
            let k = choose|k: int| 0 <= k < views(before).len() && views(before)[k] == x;
            assert(views(after)[k] == x);
        }
        if x == id {
            assert(views(after)[views(before).len() as int] == x);
        }
        if views(after).contains(x) && x != id {
            let k = choose|k: int| 0 <= k < views(after).len() && views(after)[k] == x;
            assert(views(before)[k] == x);
        }
    }
}

fn note_id(seen: &mut Vec<String>, id: &str, Ghost(set): Ghost<Set<Seq<char>>>)
    requires
        lists_set(old(seen)@, set),
    ensures
        lists_set(final(seen)@, set.insert(id@)),
{
    if contains_string(seen, id) {
        assert(set.insert(id@) =~= set);
    } else {
        seen.push(id.to_owned());
        assert(views(seen@) =~= views(old(seen)@).push(id@));
        proof {
            lemma_lists_insert(old(seen)@, seen@, set, id@);
        }
    }
}

/// Returns the root list for a query without the targets that it leaves out.
pub fn root_items_with_existing(
    base: &Vec<PanelItem>,
    existing: &ExistingPanelState,
    query: &str,
) -> (r: Vec<PanelItem>)
    ensures
        item_views(r@) == root_items(
            item_views(base@),
            Seq::<PanelItemView>::empty(),
            *existing,
            query@,
        ),
{
    let none: Vec<PanelItem> = Vec::new();
    assert(item_views(none@) =~= Seq::<PanelItemView>::empty());
    root_items_with_existing_and_search(base, &none, existing, query)
}

/// Returns the root list for a query: the list itself where nothing is
/// searched for, else with the targets that it leaves out and the running
/// workspaces behind it.
pub fn root_items_with_existing_and_search(
    base: &Vec<PanelItem>,
    search_base: &Vec<PanelItem>,
    existing: &ExistingPanelState,
    query: &str,
) -> (r: Vec<PanelItem>)
    ensures
        item_views(r@) == root_items(
            item_views(base@),
            item_views(search_base@),
            *existing,
            query@,
        ),
{
    let mut items = clone_items(base);
    if is_blank(query) {
        return items;
    }
    let ghost bv = item_views(base@);
    let ghost sv = item_views(search_base@);
    let ghost base_ids = target_ids(bv);
    let mut seen: Vec<String> = Vec::new();
    let mut i: usize = 0;
    assert(lists_set(seen@, target_ids(bv.take(0))));
    while i < base.len()
        invariant
            i <= base.len(),
            bv == item_views(base@),
            lists_set(seen@, target_ids(bv.take(i as int))),
        decreases base.len() - i,
    {
        assert(bv.take(i + 1).drop_last() =~= bv.take(i as int));
        assert(bv.take(i + 1).last() == base@[i as int]@);
        if let PanelItem::Target(entry, _) = &base[i] {
            note_id(&mut seen, entry.id.as_str(), Ghost(target_ids(bv.take(i as int))));
        }
        i += 1;
    }
    assert(bv.take(bv.len() as int) =~= bv);
    let mut k: usize = 0;
    assert(item_views(items@) =~= bv + new_targets(sv.take(0), base_ids));
    assert(base_ids.union(target_ids(sv.take(0))) =~= base_ids);
    while k < search_base.len()
        invariant
            k <= search_base.len(),
            sv == item_views(search_base@),
            lists_set(seen@, base_ids.union(target_ids(sv.take(k as int)))),
            item_views(items@) == bv + new_targets(sv.take(k as int), base_ids),
        decreases search_base.len() - k,
    {
        let ghost shown = item_views(items@);
        let ghost set = base_ids.union(target_ids(sv.take(k as int)));
        assert(sv.take(k + 1).drop_last() =~= sv.take(k as int));
        assert(sv.take(k + 1).last() == search_base@[k as int]@);
        if let PanelItem::Target(entry, _) = &search_base[k] {
            let known = contains_string(&seen, entry.id.as_str());
            if !known {
                push_item(&mut items, search_base[k].clone());
            }
            note_id(&mut seen, entry.id.as_str(), Ghost(set));
            assert(base_ids.union(target_ids(sv.take(k + 1))) =~= set.insert(entry.id@));
        }
        assert(item_views(items@) =~= bv + new_targets(sv.take(k + 1), base_ids));
        k += 1;
    }
    assert(sv.take(sv.len() as int) =~= sv);
    let ghost all_ids = base_ids.union(target_ids(sv));
    let rows = existing_rows(existing);
    if rows.len() == 0 && existing.probe_inflight {
        push_item(&mut items, PanelItem::Loading);
    }
    let ghost head = item_views(items@);
    assert(head =~= bv + new_targets(sv, base_ids) + (if rows@.len() == 0
        && existing.probe_inflight {
        seq![PanelItemView::Loading]
    } else {
        Seq::<PanelItemView>::empty()
    }));
    let mut m: usize = 0;
    assert(item_views(items@) =~= head + new_rows(rows@.take(0), all_ids));
    while m < rows.len()
        invariant
            m <= rows.len(),
            lists_set(seen@, all_ids),
            item_views(items@) == head + new_rows(rows@.take(m as int), all_ids),
        decreases rows.len() - m,
    {
        assert(rows@.take(m + 1).drop_last() =~= rows@.take(m as int));
        if !contains_string(&seen, rows[m].id.as_str()) {
            push_item(&mut items, PanelItem::Existing(rows[m].clone()));
        }
        assert(item_views(items@) =~= head + new_rows(rows@.take(m + 1), all_ids));
        m += 1;
    }
    assert(rows@.take(rows@.len() as int) =~= rows@);
    items
}

// ---------------------------------------------------------------------------
// The folder of running workspaces.
// ---------------------------------------------------------------------------

pub open spec fn host_is(alias: Seq<char>) -> spec_fn((String, Vec<ExistingRow>)) -> bool {
    |e: (String, Vec<ExistingRow>)| e.0@ == alias
}

/// The rows of a host; none where nothing is known of it.
pub open spec fn remote_rows(remote: Seq<(String, Vec<ExistingRow>)>, alias: Seq<char>) -> Seq<
    ExistingRow,
> {
    match find(remote, host_is(alias)) {
        Some(e) => e.1@,
        None => Seq::<ExistingRow>::empty(),
    }
}

/// The rows of this machine and of the listed hosts, one after the other.
pub open spec fn known_rows(
    locals: Seq<ExistingRow>,
    hosts: Seq<String>,
    remote: Seq<(String, Vec<ExistingRow>)>,
) -> Seq<ExistingRow> {
    locals + flat(Seq::new(hosts.len(), |i: int| remote_rows(remote, hosts[i]@)))
}

/// A place of the folder without rows: still looking, or empty.
pub open spec fn no_rows(looking: bool, empty_title: Seq<char>) -> Seq<PanelItemView> {
    if looking {
        seq![PanelItemView::Loading]
    } else {
        seq![PanelItemView::Empty { title: empty_title }]
    }
}

/// The folders of running workspaces: those of this machine, and those that
/// are reached over SSH.
pub open spec fn home_folders() -> Seq<PanelItemView> {
    seq![
        PanelItemView::Folder { id: "existing-local"@, title: "Local"@ },
        PanelItemView::Folder { id: "existing-ssh"@, title: "SSH"@ },
    ]
}

/// The place that a folder leads to.
pub open spec fn folder_place(id: Seq<char>) -> Option<ExistingNav> {
    if id == "existing-connections"@ {
        Some(ExistingNav::Home)
    } else if id == "existing-local"@ {
        Some(ExistingNav::Local)
    } else if id == "existing-ssh"@ {
        Some(ExistingNav::SshHosts)
    } else {
        None
    }
}

/// Returns the place that a folder leads to.
pub fn folder_nav(id: &str) -> (r: Option<ExistingNav>)
    ensures
        r == folder_place(id@),
{
    if same(id, "existing-connections") {
        Some(ExistingNav::Home)
    } else if same(id, "existing-local") {
        Some(ExistingNav::Local)
    } else if same(id, "existing-ssh") {
        Some(ExistingNav::SshHosts)
    } else {
        None
    }
}

/// The items of a place of the folder, behind the way back.
pub open spec fn nav_items(s: ExistingPanelState, empty_title: Seq<char>) -> Seq<PanelItemView> {
    match s.nav {
        ExistingNav::Home => home_folders(),
        ExistingNav::Root => {
            let rows = known_rows(s.locals@, s.hosts@, s.remote@);
            if rows.len() == 0 {
                no_rows(s.probe_inflight, empty_title)
            } else {
                row_items(rows)
            }
        },
        ExistingNav::Local => if s.locals@.len() == 0 {
            no_rows(false, empty_title)
        } else {
            row_items(s.locals@)
        },
        ExistingNav::SshHosts => if s.hosts@.len() == 0 {
            no_rows(s.probe_inflight, empty_title)
        } else {
            Seq::new(
                s.hosts@.len(),
                |i: int| PanelItemView::Host { alias: s.hosts@[i]@ },
            )
        },
        ExistingNav::SshHost { alias } => {
            let rows = remote_rows(s.remote@, alias@);
            if rows.len() == 0 {
                no_rows(false, empty_title)
            } else {
                row_items(rows)
            }
        },
    }
}

fn rows_of_host(remote: &Vec<(String, Vec<ExistingRow>)>, alias: &str) -> (r: Vec<ExistingRow>)
    ensures
        r@ == remote_rows(remote@, alias@),
{
    let mut out: Vec<ExistingRow> = Vec::new();
    let mut i: usize = 0;
    while i < remote.len()
        invariant
            i <= remote.len(),
            out@ == Seq::<ExistingRow>::empty(),
            forall|j: int| 0 <= j < i ==> (#[trigger] remote@[j]).0@ != alias@,
        decreases remote.len() - i,
    {
        if same(remote[i].0.as_str(), alias) {
            proof {
                lemma_first_where(remote@, host_is(alias@), i as int);
            }
            append_rows(&mut out, &remote[i].1);
            assert(out@ =~= remote@[i as int].1@);
            return out;
        }
        i += 1;
    }
    proof {
        lemma_no_first(remote@, host_is(alias@));
    }
    out
}

fn push_no_rows(items: &mut Vec<PanelItem>, looking: bool, empty_title: &str)
    ensures
        item_views(final(items)@) == item_views(old(items)@) + no_rows(looking, empty_title@),
{
    if looking {
        push_item(items, PanelItem::Loading);
    } else {
        push_item(items, PanelItem::Empty { title: empty_title.to_owned() });
    }
    assert(item_views(items@) =~= item_views(old(items)@) + no_rows(looking, empty_title@));
}

/// Returns the items of a place of the folder.
pub fn existing_items(state: &ExistingPanelState, empty_title: &str) -> (r: Vec<PanelItem>)
    ensures
        item_views(r@) == seq![PanelItemView::Back] + nav_items(*state, empty_title@),
{
    let mut items: Vec<PanelItem> = Vec::new();
    items.push(PanelItem::Back);
    assert(item_views(items@) =~= seq![PanelItemView::Back]);
    match &state.nav {
        ExistingNav::Home => {
            push_item(
                &mut items,
                PanelItem::Folder { id: "existing-local", title: "Local".to_owned() },
            );
            push_item(
                &mut items,
                PanelItem::Folder { id: "existing-ssh", title: "SSH".to_owned() },
            );
            assert(item_views(items@) =~= seq![PanelItemView::Back] + home_folders());
        },
        ExistingNav::Root => {
            let mut rows: Vec<ExistingRow> = Vec::new();
            append_rows(&mut rows, &state.locals);
            let ghost lists = Seq::new(
                state.hosts@.len(),
                |i: int| remote_rows(state.remote@, state.hosts@[i]@),
            );
            let mut i: usize = 0;
            assert(rows@ =~= state.locals@ + flat(lists.take(0)));
            while i < state.hosts.len()
                invariant
                    i <= state.hosts.len(),
                    lists == Seq::new(
                        state.hosts@.len(),
                        |i: int| remote_rows(state.remote@, state.hosts@[i]@),
                    ),
                    rows@ == state.locals@ + flat(lists.take(i as int)),
                decreases state.hosts.len() - i,
            {
                let mut more = rows_of_host(&state.remote, state.hosts[i].as_str());
                rows.append(&mut more);
                assert(lists.take(i + 1).drop_last() =~= lists.take(i as int));
                assert(rows@ =~= state.locals@ + flat(lists.take(i + 1)));
                i += 1;
            }
            assert(lists.take(lists.len() as int) =~= lists);
            if rows.len() == 0 {
                push_no_rows(&mut items, state.probe_inflight, empty_title);
            } else {
                push_rows(&mut items, &rows);
            }
        },
        ExistingNav::Local => {
            if state.locals.len() == 0 {
                push_no_rows(&mut items, false, empty_title);
            } else {
                push_rows(&mut items, &state.locals);
            }
        },
        ExistingNav::SshHosts => {
            if state.hosts.len() == 0 {
                push_no_rows(&mut items, state.probe_inflight, empty_title);
            } else {
                let ghost before = item_views(items@);
                let ghost hosts = Seq::new(
                    state.hosts@.len(),
                    |i: int| PanelItemView::Host { alias: state.hosts@[i]@ },
                );
                let mut i: usize = 0;
                assert(item_views(items@) =~= before + hosts.take(0));
                while i < state.hosts.len()
                    invariant
                        i <= state.hosts.len(),
                        hosts == Seq::new(
                            state.hosts@.len(),
                            |i: int| PanelItemView::Host { alias: state.hosts@[i]@ },
                        ),
                        item_views(items@) == before + hosts.take(i as int),
                    decreases state.hosts.len() - i,
                {
                    push_item(&mut items, PanelItem::Host { alias: state.hosts[i].clone() });
                    assert(hosts.take(i + 1) =~= hosts.take(i as int).push(hosts[i as int]));
                    assert(item_views(items@) =~= before + hosts.take(i + 1));
                    i += 1;
                }
                assert(hosts.take(hosts.len() as int) =~= hosts);
            }
        },
        ExistingNav::SshHost { alias } => {
            let rows = rows_of_host(&state.remote, alias.as_str());
            if rows.len() == 0 {
                push_no_rows(&mut items, false, empty_title);
            } else {
                push_rows(&mut items, &rows);
            }
        },
    }
    items
}

/// The folders at home lead to the two lists, whatever is known of them.
pub proof fn law_home_leads_to_both_lists(s: ExistingPanelState, empty_title: Seq<char>)
    requires
        s.nav is Home,
    ensures
        nav_items(s, empty_title).len() == 2,
        nav_items(s, empty_title)[0] matches PanelItemView::Folder { id, .. } && folder_place(id)
            == Some(ExistingNav::Local),
        nav_items(s, empty_title)[1] matches PanelItemView::Folder { id, .. } && folder_place(id)
            == Some(ExistingNav::SshHosts),
{
    reveal_strlit("existing-connections");
    reveal_strlit("existing-local");
    reveal_strlit("existing-ssh");
    assert("existing-connections"@.len() == 20);
    assert("existing-local"@.len() == 14);
    assert("existing-ssh"@.len() == 12);
}

/// Every identity of a running workspace is listed once at most.
pub proof fn law_running_workspaces_are_listed_once(rows: Seq<ExistingRow>, i: int, j: int)
    requires
        0 <= i < j < distinct_rows(rows).len(),
    ensures
        distinct_rows(rows)[i].id@ != distinct_rows(rows)[j].id@,
    decreases rows.len(),
{
    let init = rows.drop_last();
    lemma_distinct_members(init);
    if !has_row_id(init, rows.last().id@) && j == distinct_rows(init).len() {
        assert(init.contains(distinct_rows(init)[i]));
        let k = choose|k: int| 0 <= k < init.len() && init[k] == distinct_rows(init)[i];
        assert(init[k].id@ == distinct_rows(init)[i].id@);
    } else {
        law_running_workspaces_are_listed_once(init, i, j);
    }
}

proof fn lemma_distinct_members(rows: Seq<ExistingRow>)
    ensures
        forall|i: int|
            0 <= i < distinct_rows(rows).len() ==> rows.contains(#[trigger] distinct_rows(rows)[i]),
    decreases rows.len(),
{
    if rows.len() > 0 {
        let init = rows.drop_last();
        lemma_distinct_members(init);
        let r = distinct_rows(rows);
        assert forall|i: int| 0 <= i < r.len() implies rows.contains(#[trigger] r[i]) by {
            if i < distinct_rows(init).len() {
                assert(init.contains(distinct_rows(init)[i]));
                let k = choose|k: int| 0 <= k < init.len() && init[k] == distinct_rows(init)[i];
                assert(rows[k] == r[i]);
            } else {
                assert(rows[rows.len() - 1] == r[i]);
            }
        }
    }
}

/// Without a query the root list stays as it is.
pub proof fn law_blank_query_adds_nothing(
    base: Seq<PanelItemView>,
    search: Seq<PanelItemView>,
    existing: ExistingPanelState,
    query: Seq<char>,
)
    requires
        all_white(query),
    ensures
        root_items(base, search, existing, query) == base,
{
}

} // verus!
