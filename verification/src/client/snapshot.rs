//! One workspace as the core reported it, and its topology as JSON.
use vstd::prelude::*;

use crate::client::call::FfiClient;
use crate::client::types::{
    client_layout_first_pane, ClientLayout, ClientPane, ClientTab, ClientWorkspace,
};
use crate::json::{
    bool_text, json_bool, json_list, json_member, json_object, json_opt_number, json_quote,
    json_string, list_text, member_text, object_text, opt_number_text,
};
use crate::seqs::{find, flat, lemma_first_where, lemma_no_first};
use crate::text::number::{decimal, decimal_string};
use crate::text::{concat2, same, views};

verus! {

/// One workspace with its tabs, panes, layouts and pane output.
#[derive(Debug, Clone)]
pub struct FfiWorkspaceSnapshot {
    pub workspace: ClientWorkspace,
    pub tabs: Vec<ClientTab>,
    pub panes: Vec<(u32, Vec<ClientPane>)>,
    pub layouts: Vec<(u32, Option<ClientLayout>)>,
    pub outputs: Vec<(u32, Vec<u8>)>,
}

// Conditions on rows.

pub open spec fn tab_active() -> spec_fn(ClientTab) -> bool {
    |t: ClientTab| t.is_active
}

pub open spec fn pane_active() -> spec_fn(ClientPane) -> bool {
    |p: ClientPane| p.is_active
}

pub open spec fn pane_is(id: u32) -> spec_fn(ClientPane) -> bool {
    |p: ClientPane| p.id == id
}

pub open spec fn panes_entry_is(tab: u32) -> spec_fn((u32, Vec<ClientPane>)) -> bool {
    |e: (u32, Vec<ClientPane>)| e.0 == tab
}

pub open spec fn layout_entry_is(tab: u32) -> spec_fn((u32, Option<ClientLayout>)) -> bool {
    |e: (u32, Option<ClientLayout>)| e.0 == tab
}

pub open spec fn output_entry_is(pane: u32) -> spec_fn((u32, Vec<u8>)) -> bool {
    |e: (u32, Vec<u8>)| e.0 == pane
}

pub open spec fn workspace_is(id: Seq<char>) -> spec_fn(ClientWorkspace) -> bool {
    |w: ClientWorkspace| w.id@ == id
}

/// The first active tab.
pub open spec fn active_tab(tabs: Seq<ClientTab>) -> Option<u32> {
    match find(tabs, tab_active()) {
        Some(t) => Some(t.id),
        None => None,
    }
}

/// The first active pane.
pub open spec fn active_pane(panes: Seq<ClientPane>) -> Option<u32> {
    match find(panes, pane_active()) {
        Some(p) => Some(p.id),
        None => None,
    }
}

/// The panes listed for a tab; none where the tab is not listed.
pub open spec fn panes_of(panes: Seq<(u32, Vec<ClientPane>)>, tab: u32) -> Seq<ClientPane> {
    match find(panes, panes_entry_is(tab)) {
        Some(e) => e.1@,
        None => Seq::<ClientPane>::empty(),
    }
}

/// The layout listed for a tab.
pub open spec fn layout_of(
    layouts: Seq<(u32, Option<ClientLayout>)>,
    tab: u32,
) -> Option<ClientLayout> {
    match find(layouts, layout_entry_is(tab)) {
        Some(e) => e.1,
        None => None,
    }
}

/// The output listed for a pane.
pub open spec fn output_of(outputs: Seq<(u32, Vec<u8>)>, pane: u32) -> Option<Seq<u8>> {
    match find(outputs, output_entry_is(pane)) {
        Some(e) => Some(e.1@),
        None => None,
    }
}

/// The panes of every tab, one tab after the other.
pub open spec fn all_panes(panes: Seq<(u32, Vec<ClientPane>)>) -> Seq<ClientPane> {
    flat(Seq::new(panes.len(), |i: int| panes[i].1@))
}

/// Returns the first active tab.
pub fn active_tab_id(tabs: &Vec<ClientTab>) -> (r: Option<u32>)
    ensures
        r == active_tab(tabs@),
{
    let mut i: usize = 0;
    while i < tabs.len()
        invariant
            i <= tabs.len(),
            forall|j: int| 0 <= j < i ==> !(#[trigger] tabs@[j]).is_active,
        decreases tabs.len() - i,
    {
        if tabs[i].is_active {
            proof {
                lemma_first_where(tabs@, tab_active(), i as int);
            }
            return Some(tabs[i].id);
        }
        i += 1;
    }
    proof {
        lemma_no_first(tabs@, tab_active());
    }
    None
}

/// Returns the first active pane.
pub fn find_active_pane(panes: &Vec<ClientPane>) -> (r: Option<u32>)
    ensures
        r == active_pane(panes@),
{
    let mut i: usize = 0;
    while i < panes.len()
        invariant
            i <= panes.len(),
            forall|j: int| 0 <= j < i ==> !(#[trigger] panes@[j]).is_active,
        decreases panes.len() - i,
    {
        if panes[i].is_active {
            proof {
                lemma_first_where(panes@, pane_active(), i as int);
            }
            return Some(panes[i].id);
        }
        i += 1;
    }
    proof {
        lemma_no_first(panes@, pane_active());
    }
    None
}

/// Copies panes.
pub fn clone_panes(panes: &Vec<ClientPane>) -> (r: Vec<ClientPane>)
    ensures
        r@ == panes@,
{
    let mut out: Vec<ClientPane> = Vec::new();
    append_panes(&mut out, panes);
    assert(out@ =~= panes@);
    out
}

fn append_panes(out: &mut Vec<ClientPane>, panes: &Vec<ClientPane>)
    ensures
        final(out)@ == old(out)@ + panes@,
{
    let mut i: usize = 0;
    assert(out@ =~= old(out)@ + panes@.take(0));
    while i < panes.len()
        invariant
            i <= panes.len(),
            out@ == old(out)@ + panes@.take(i as int),
        decreases panes.len() - i,
    {
        out.push(panes[i].clone());
        assert(panes@.take(i + 1) =~= panes@.take(i as int).push(panes@[i as int]));
        assert(out@ =~= old(out)@ + panes@.take(i + 1));
        i += 1;
    }
    assert(panes@.take(panes@.len() as int) =~= panes@);
}

/// Returns the panes listed for a tab.
pub fn tab_panes(panes: &Vec<(u32, Vec<ClientPane>)>, tab: u32) -> (r: Vec<ClientPane>)
    ensures
        r@ == panes_of(panes@, tab),
{
    let mut i: usize = 0;
    while i < panes.len()
        invariant
            i <= panes.len(),
            forall|j: int| 0 <= j < i ==> (#[trigger] panes@[j]).0 != tab,
        decreases panes.len() - i,
    {
        if panes[i].0 == tab {
            proof {
                lemma_first_where(panes@, panes_entry_is(tab), i as int);
            }
            return clone_panes(&panes[i].1);
        }
        i += 1;
    }
    proof {
        lemma_no_first(panes@, panes_entry_is(tab));
    }
    Vec::new()
}

/// Returns the panes of every tab, one tab after the other.
pub fn flat_panes(panes: &Vec<(u32, Vec<ClientPane>)>) -> (r: Vec<ClientPane>)
    ensures
        r@ == all_panes(panes@),
{
    let mut out: Vec<ClientPane> = Vec::new();
    let mut i: usize = 0;
    let ghost lists = Seq::new(panes@.len(), |i: int| panes@[i].1@);
    while i < panes.len()
        invariant
            i <= panes.len(),
            lists == Seq::new(panes@.len(), |i: int| panes@[i].1@),
            out@ == flat(lists.take(i as int)),
        decreases panes.len() - i,
    {
        append_panes(&mut out, &panes[i].1);
        assert(lists.take(i + 1).drop_last() =~= lists.take(i as int));
        i += 1;
    }
    assert(lists.take(lists.len() as int) =~= lists);
    out
}

/// Returns the position of the first pane with the given number.
pub fn find_pane(panes: &Vec<ClientPane>, id: u32) -> (r: Option<usize>)
    ensures
        match r {
            Some(i) => i < panes.len() && find(panes@, pane_is(id)) == Some(panes@[i as int]),
            None => find(panes@, pane_is(id)) == None::<ClientPane>,
        },
{
    let mut i: usize = 0;
    while i < panes.len()
        invariant
            i <= panes.len(),
            forall|j: int| 0 <= j < i ==> (#[trigger] panes@[j]).id != id,
        decreases panes.len() - i,
    {
        if panes[i].id == id {
            proof {
                lemma_first_where(panes@, pane_is(id), i as int);
            }
            return Some(i);
        }
        i += 1;
    }
    proof {
        lemma_no_first(panes@, pane_is(id));
    }
    None
}

/// Returns the layout listed for a tab.
pub fn tab_layout(layouts: &Vec<(u32, Option<ClientLayout>)>, tab: u32) -> (r: Option<
    ClientLayout,
>)
    ensures
        r == layout_of(layouts@, tab),
{
    let mut i: usize = 0;
    while i < layouts.len()
        invariant
            i <= layouts.len(),
            forall|j: int| 0 <= j < i ==> (#[trigger] layouts@[j]).0 != tab,
        decreases layouts.len() - i,
    {
        if layouts[i].0 == tab {
            proof {
                lemma_first_where(layouts@, layout_entry_is(tab), i as int);
            }
            return match &layouts[i].1 {
                Some(l) => Some(l.clone()),
                None => None,
            };
        }
        i += 1;
    }
    proof {
        lemma_no_first(layouts@, layout_entry_is(tab));
    }
    None
}

/// Returns the position of the output listed for a pane.
pub fn find_output(outputs: &Vec<(u32, Vec<u8>)>, pane: u32) -> (r: Option<usize>)
    ensures
        match r {
            Some(i) => i < outputs.len() && output_of(outputs@, pane) == Some(
                outputs@[i as int].1@,
            ),
            None => output_of(outputs@, pane) == None::<Seq<u8>>,
        },
{
    let mut i: usize = 0;
    while i < outputs.len()
        invariant
            i <= outputs.len(),
            forall|j: int| 0 <= j < i ==> (#[trigger] outputs@[j]).0 != pane,
        decreases outputs.len() - i,
    {
        if outputs[i].0 == pane {
            proof {
                lemma_first_where(outputs@, output_entry_is(pane), i as int);
            }
            return Some(i);
        }
        i += 1;
    }
    proof {
        lemma_no_first(outputs@, output_entry_is(pane));
    }
    None
}

/// Finds a workspace by its id; the error names the id.
pub fn find_workspace(workspaces: &Vec<ClientWorkspace>, id: &str) -> (r: Result<
    ClientWorkspace,
    String,
>)
    ensures
        match r {
            Ok(w) => find(workspaces@, workspace_is(id@)) == Some(w),
            Err(e) => find(workspaces@, workspace_is(id@)) == None::<ClientWorkspace> && e@
                == "Core workspace not found: "@ + id@,
        },
{
    let mut i: usize = 0;
    while i < workspaces.len()
        invariant
            i <= workspaces.len(),
            forall|j: int| 0 <= j < i ==> (#[trigger] workspaces@[j]).id@ != id@,
        decreases workspaces.len() - i,
    {
        if same(workspaces[i].id.as_str(), id) {
            proof {
                lemma_first_where(workspaces@, workspace_is(id@), i as int);
            }
            return Ok(workspaces[i].clone());
        }
        i += 1;
    }
    proof {
        lemma_no_first(workspaces@, workspace_is(id@));
    }
    Err(concat2("Core workspace not found: ", id))
}

// ---------------------------------------------------------------------------
// The topology as JSON.
// ---------------------------------------------------------------------------

/// A layout tree as JSON.
pub open spec fn layout_json(layout: ClientLayout) -> Seq<char>
    decreases layout,
{
    match layout {
        ClientLayout::Leaf { pane_id } => json_object(
            seq![json_member("Leaf"@, decimal(pane_id as nat))],
        ),
        ClientLayout::Split { horizontal, ratio, first, second } => json_object(
            seq![
                json_member(
                    "Split"@,
                    json_object(
                        seq![
                            json_member(
                                "dir"@,
                                json_string(
                                    if horizontal {
                                        "Horizontal"@
                                    } else {
                                        "Vertical"@
                                    },
                                ),
                            ),
                            json_member("first"@, layout_json(*first)),
                            json_member("ratio"@, decimal(ratio as nat)),
                            json_member("second"@, layout_json(*second)),
                        ],
                    ),
                ),
            ],
        ),
    }
}

/// A tab as JSON.
pub open spec fn tab_json(tab: ClientTab) -> Seq<char> {
    json_object(
        seq![
            json_member("active"@, json_bool(tab.is_active)),
            json_member("id"@, decimal(tab.id as nat)),
            json_member("name"@, json_string(tab.name@)),
        ],
    )
}

/// A pane of a tab as JSON.
pub open spec fn pane_json(tab: u32, pane: ClientPane) -> Seq<char> {
    json_object(
        seq![
            json_member("active"@, json_bool(pane.is_active)),
            json_member("cols"@, decimal(pane.cols as nat)),
            json_member("id"@, decimal(pane.id as nat)),
            json_member("rows"@, decimal(pane.rows as nat)),
            json_member("tab"@, decimal(tab as nat)),
            json_member("title"@, json_string(pane.title@)),
        ],
    )
}

/// The pane that is active in a tab: the first active one, else the first of
/// the layout.
pub open spec fn layout_active(panes: Seq<ClientPane>, layout: ClientLayout) -> u32 {
    match active_pane(panes) {
        Some(p) => p,
        None => layout.leaves()[0],
    }
}

/// The layout of a tab as JSON, where the tab has one.
pub open spec fn layout_entry(
    tab: u32,
    panes: Seq<(u32, Vec<ClientPane>)>,
    layouts: Seq<(u32, Option<ClientLayout>)>,
) -> Seq<Seq<char>> {
    match layout_of(layouts, tab) {
        Some(layout) => seq![
            json_object(
                seq![
                    json_member(
                        "active"@,
                        decimal(layout_active(panes_of(panes, tab), layout) as nat),
                    ),
                    json_member("tab"@, decimal(tab as nat)),
                    json_member("tree"@, layout_json(layout)),
                ],
            ),
        ],
        None => Seq::<Seq<char>>::empty(),
    }
}

/// The panes of one tab as JSON.
pub open spec fn pane_entries(entry: (u32, Vec<ClientPane>)) -> Seq<Seq<char>> {
    Seq::new(entry.1@.len(), |i: int| pane_json(entry.0, entry.1@[i]))
}

/// The topology of a workspace as JSON.
pub open spec fn topology_json(
    workspace: ClientWorkspace,
    workspace_id: Seq<char>,
    tabs: Seq<ClientTab>,
    panes: Seq<(u32, Vec<ClientPane>)>,
    layouts: Seq<(u32, Option<ClientLayout>)>,
) -> Seq<char> {
    let tab = active_tab(tabs);
    let pane = match tab {
        Some(t) => active_pane(panes_of(panes, t)),
        None => None,
    };
    json_object(
        seq![
            json_member("kind"@, json_string("workspace_topology"@)),
            json_member(
                "snapshot"@,
                json_object(
                    seq![
                        json_member("active_pane"@, json_opt_number(pane)),
                        json_member("active_tab"@, json_opt_number(tab)),
                        json_member(
                            "layouts"@,
                            json_list(
                                flat(
                                    Seq::new(
                                        tabs.len(),
                                        |i: int| layout_entry(tabs[i].id, panes, layouts),
                                    ),
                                ),
                            ),
                        ),
                        json_member(
                            "panes"@,
                            json_list(
                                flat(Seq::new(panes.len(), |i: int| pane_entries(panes[i]))),
                            ),
                        ),
                        json_member(
                            "tabs"@,
                            json_list(Seq::new(tabs.len(), |i: int| tab_json(tabs[i]))),
                        ),
                        json_member("workspace_name"@, json_string(workspace.name@)),
                        json_member("workspace_runtime"@, json_string(workspace.runtime@)),
                    ],
                ),
            ),
            json_member("workspace_id"@, json_string(workspace_id)),
        ],
    )
}

/// Returns a layout tree as JSON.
pub fn client_layout_to_json(layout: &ClientLayout) -> (r: String)
    ensures
        r@ == layout_json(*layout),
    decreases *layout,
{
    let mut outer: Vec<String> = Vec::new();
    match layout {
        ClientLayout::Leaf { pane_id } => {
            outer.push(member_text("Leaf", decimal_string(*pane_id as u64).as_str()));
            assert(views(outer@) =~= seq![json_member("Leaf"@, decimal(*pane_id as nat))]);
        },
        ClientLayout::Split { horizontal, ratio, first, second } => {
            let dir = if *horizontal {
                "Horizontal"
            } else {
                "Vertical"
            };
            let mut m: Vec<String> = Vec::new();
            m.push(member_text("dir", json_quote(dir).as_str()));
            m.push(member_text("first", client_layout_to_json(first).as_str()));
            m.push(member_text("ratio", decimal_string(*ratio as u64).as_str()));
            m.push(member_text("second", client_layout_to_json(second).as_str()));
            assert(views(m@) =~= seq![
                json_member("dir"@, json_string(dir@)),
                json_member("first"@, layout_json(**first)),
                json_member("ratio"@, decimal(*ratio as nat)),
                json_member("second"@, layout_json(**second)),
            ]);
            outer.push(member_text("Split", object_text(&m).as_str()));
            assert(views(outer@) =~= seq![json_member("Split"@, json_object(views(m@)))]);
        },
    }
    object_text(&outer)
}

fn tab_text(tab: &ClientTab) -> (r: String)
    ensures
        r@ == tab_json(*tab),
{
    let mut m: Vec<String> = Vec::new();
    m.push(member_text("active", bool_text(tab.is_active).as_str()));
    m.push(member_text("id", decimal_string(tab.id as u64).as_str()));
    m.push(member_text("name", json_quote(tab.name.as_str()).as_str()));
    assert(views(m@) =~= seq![
        json_member("active"@, json_bool(tab.is_active)),
        json_member("id"@, decimal(tab.id as nat)),
        json_member("name"@, json_string(tab.name@)),
    ]);
    object_text(&m)
}

fn pane_text(tab: u32, pane: &ClientPane) -> (r: String)
    ensures
        r@ == pane_json(tab, *pane),
{
    let mut m: Vec<String> = Vec::new();
    m.push(member_text("active", bool_text(pane.is_active).as_str()));
    m.push(member_text("cols", decimal_string(pane.cols as u64).as_str()));
    m.push(member_text("id", decimal_string(pane.id as u64).as_str()));
    m.push(member_text("rows", decimal_string(pane.rows as u64).as_str()));
    m.push(member_text("tab", decimal_string(tab as u64).as_str()));
    m.push(member_text("title", json_quote(pane.title.as_str()).as_str()));
    assert(views(m@) =~= seq![
        json_member("active"@, json_bool(pane.is_active)),
        json_member("cols"@, decimal(pane.cols as nat)),
        json_member("id"@, decimal(pane.id as nat)),
        json_member("rows"@, decimal(pane.rows as nat)),
        json_member("tab"@, decimal(tab as nat)),
        json_member("title"@, json_string(pane.title@)),
    ]);
    object_text(&m)
}

fn layout_texts(
    tabs: &Vec<ClientTab>,
    panes: &Vec<(u32, Vec<ClientPane>)>,
    layouts: &Vec<(u32, Option<ClientLayout>)>,
) -> (r: Vec<String>)
    ensures
        views(r@) == flat(
            Seq::new(tabs@.len(), |i: int| layout_entry(tabs@[i].id, panes@, layouts@)),
        ),
{
    let ghost all = Seq::new(tabs@.len(), |i: int| layout_entry(tabs@[i].id, panes@, layouts@));
    let mut out: Vec<String> = Vec::new();
    let mut i: usize = 0;
    assert(views(out@) =~= flat(all.take(0)));
    while i < tabs.len()
        invariant
            i <= tabs.len(),
            all == Seq::new(tabs@.len(), |i: int| layout_entry(tabs@[i].id, panes@, layouts@)),
            views(out@) == flat(all.take(i as int)),
        decreases tabs.len() - i,
    {
        let tab: u32 = tabs[i].id;
        let ghost before = views(out@);
        match tab_layout(layouts, tab) {
            Some(layout) => {
                let own = tab_panes(panes, tab);
                let active: u32 = match find_active_pane(&own) {
                    Some(p) => p,
                    None => client_layout_first_pane(&layout),
                };
                let mut m: Vec<String> = Vec::new();
                m.push(member_text("active", decimal_string(active as u64).as_str()));
                m.push(member_text("tab", decimal_string(tab as u64).as_str()));
                m.push(member_text("tree", client_layout_to_json(&layout).as_str()));
                assert(views(m@) =~= seq![
                    json_member("active"@, decimal(active as nat)),
                    json_member("tab"@, decimal(tab as nat)),
                    json_member("tree"@, layout_json(layout)),
                ]);
                out.push(object_text(&m));
                assert(views(out@) =~= before + layout_entry(tab, panes@, layouts@));
            },
            None => {
                assert(views(out@) =~= before + layout_entry(tab, panes@, layouts@));
            },
        }
        assert(all.take(i + 1).drop_last() =~= all.take(i as int));
        i += 1;
    }
    assert(all.take(all.len() as int) =~= all);
    out
}

fn pane_texts(panes: &Vec<(u32, Vec<ClientPane>)>) -> (r: Vec<String>)
    ensures
        views(r@) == flat(Seq::new(panes@.len(), |i: int| pane_entries(panes@[i]))),
{
    let ghost all = Seq::new(panes@.len(), |i: int| pane_entries(panes@[i]));
    let mut out: Vec<String> = Vec::new();
    let mut i: usize = 0;
    assert(views(out@) =~= flat(all.take(0)));
    while i < panes.len()
        invariant
            i <= panes.len(),
            all == Seq::new(panes@.len(), |i: int| pane_entries(panes@[i])),
            views(out@) == flat(all.take(i as int)),
        decreases panes.len() - i,
    {
        let ghost before = views(out@);
        let ghost entry = panes@[i as int];
        let n: usize = panes[i].1.len();
        let mut k: usize = 0;
        assert(views(out@) =~= before + pane_entries(entry).take(0));
        while k < n
            invariant
                i < panes.len(),
                entry == panes@[i as int],
                n == entry.1@.len(),
                k <= n,
                views(out@) == before + pane_entries(entry).take(k as int),
            decreases n - k,
        {
            let ghost inner = views(out@);
            out.push(pane_text(panes[i].0, &panes[i].1[k]));
            assert(views(out@) =~= inner.push(pane_json(entry.0, entry.1@[k as int])));
            assert(pane_entries(entry).take(k + 1) =~= pane_entries(entry).take(k as int).push(
                pane_json(entry.0, entry.1@[k as int]),
            ));
            assert(views(out@) =~= before + pane_entries(entry).take(k + 1));
            k += 1;
        }
        assert(pane_entries(entry).take(n as int) =~= pane_entries(entry));
        assert(all.take(i + 1).drop_last() =~= all.take(i as int));
        i += 1;
    }
    assert(all.take(all.len() as int) =~= all);
    out
}

impl FfiClient {
    /// Returns the topology of a workspace as JSON text: its tabs, panes and
    /// layouts, but no pane output. The error names a workspace that is not
    /// listed.
    pub fn workspace_topology_json(
        workspaces: &Vec<ClientWorkspace>,
        workspace_id: &str,
        tabs: &Vec<ClientTab>,
        panes_by_tab: &Vec<(u32, Vec<ClientPane>)>,
        layouts: &Vec<(u32, Option<ClientLayout>)>,
    ) -> (r: Result<String, String>)
        ensures
            match find(workspaces@, workspace_is(workspace_id@)) {
                Some(w) => r matches Ok(text) && text@ == topology_json(
                    w,
                    workspace_id@,
                    tabs@,
                    panes_by_tab@,
                    layouts@,
                ),
                None => r matches Err(e) && e@ == "Core workspace not found: "@ + workspace_id@,
            },
    {
        let workspace = match find_workspace(workspaces, workspace_id) {
            Ok(w) => w,
            Err(e) => {
                return Err(e);
            },
        };
        let tab = active_tab_id(tabs);
        let pane = match tab {
            Some(t) => {
                let own = tab_panes(panes_by_tab, t);
                find_active_pane(&own)
            },
            None => None,
        };
        let mut tab_items: Vec<String> = Vec::new();
        let mut i: usize = 0;
        while i < tabs.len()
            invariant
                i <= tabs.len(),
                tab_items.len() == i,
                forall|j: int| 0 <= j < i ==> (#[trigger] tab_items@[j])@ == tab_json(tabs@[j]),
            decreases tabs.len() - i,
        {
            tab_items.push(tab_text(&tabs[i]));
            i += 1;
        }
        assert(views(tab_items@) =~= Seq::new(tabs@.len(), |i: int| tab_json(tabs@[i])));
        let layout_items = layout_texts(tabs, panes_by_tab, layouts);
        let pane_items = pane_texts(panes_by_tab);
        let mut s: Vec<String> = Vec::new();
        s.push(member_text("active_pane", opt_number_text(pane).as_str()));
        s.push(member_text("active_tab", opt_number_text(tab).as_str()));
        s.push(member_text("layouts", list_text(&layout_items).as_str()));
        s.push(member_text("panes", list_text(&pane_items).as_str()));
        s.push(member_text("tabs", list_text(&tab_items).as_str()));
        s.push(member_text("workspace_name", json_quote(workspace.name.as_str()).as_str()));
        s.push(member_text("workspace_runtime", json_quote(workspace.runtime.as_str()).as_str()));
        assert(views(s@) =~= seq![
            json_member("active_pane"@, json_opt_number(pane)),
            json_member("active_tab"@, json_opt_number(tab)),
            json_member("layouts"@, json_list(views(layout_items@))),
            json_member("panes"@, json_list(views(pane_items@))),
            json_member("tabs"@, json_list(views(tab_items@))),
            json_member("workspace_name"@, json_string(workspace.name@)),
            json_member("workspace_runtime"@, json_string(workspace.runtime@)),
        ]);
        let mut m: Vec<String> = Vec::new();
        m.push(member_text("kind", json_quote("workspace_topology").as_str()));
        m.push(member_text("snapshot", object_text(&s).as_str()));
        m.push(member_text("workspace_id", json_quote(workspace_id).as_str()));
        assert(views(m@) =~= seq![
            json_member("kind"@, json_string("workspace_topology"@)),
            json_member("snapshot"@, json_object(views(s@))),
            json_member("workspace_id"@, json_string(workspace_id@)),
        ]);
        Ok(object_text(&m))
    }
}

} // verus!
