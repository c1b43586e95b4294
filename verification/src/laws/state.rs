//! What the command line prints of a state: its workspace, tabs, panes and
//! trees, and the text of a pane.
use vstd::prelude::*;

use crate::cli::command::{CliCommand, OutputFormat};
use crate::cli::format::{
    captured_text, display_output, filled, layout_output, leaf_line, leaf_lines, node_json,
        pane_active_in,
    shown_lines, size_of, tab_block, tab_line,
};
use crate::cli::state::{
    json_escape, state_layout, state_layout_json, state_leaf_lines, state_output, state_pane_json,
    state_tab_block, state_tab_json, StateLayout, StateSnapshot,
};
use crate::client::event::utf8_lossy;
use crate::client::snapshot::{
    active_pane, active_tab, all_panes, layout_of, output_of, panes_of, FfiWorkspaceSnapshot,
};
use crate::client::types::{ClientLayout, ClientPane, ClientTab};
use crate::seqs::{find, flat, lemma_first_where, lemma_no_first};
use crate::text::lines::trimmed_end;
use crate::text::number::decimal;
use crate::text::split::join;

verus! {

// ---------------------------------------------------------------------------
// Trees.
// ---------------------------------------------------------------------------

/// The panes of a tree are those of its first part and then those of its
/// second.
pub proof fn law_the_panes_of_a_tree(layout: ClientLayout)
    ensures
        layout matches ClientLayout::Leaf { pane_id } ==> layout.leaves() == seq![pane_id],
        layout matches ClientLayout::Split { first: a, second: b, .. } ==> layout.leaves()
            == a.leaves() + b.leaves(),
{
}

/// Each line of the tree has the marks of its place and says where it is
/// active.
pub proof fn law_every_line_of_the_tree(
    last_tab: bool,
    last_leaf: bool,
    active: bool,
    tab: ClientTab,
    pane: u32,
    size: Seq<char>,
    gap: Seq<char>,
    bar: Seq<char>,
    corner: Seq<char>,
    tab_corner: Seq<char>,
    mark: Seq<char>,
    tab_mark: Seq<char>,
)
    requires
        last_tab ==> bar == "   "@ && tab_corner == "└─"@,
        !last_tab ==> bar == "│  "@ && tab_corner == "├─"@,
        last_leaf ==> corner == "└─"@,
        !last_leaf ==> corner == "├─"@,
        active ==> mark == " [active]"@,
        !active ==> mark == ""@,
        tab.is_active ==> tab_mark == " [active]"@,
        !tab.is_active ==> tab_mark == ""@,
    ensures
        leaf_line(last_tab, last_leaf, pane, size, gap, active) == bar + "   "@ + corner + " @"@
            + decimal(pane as nat) + " "@ + size + gap + mark + "\n"@,
        tab_line(last_tab, tab) == tab_corner + " tab t"@ + decimal(tab.id as nat) + ": "@
            + tab.name@ + tab_mark + "\n"@,
{
}

/// The size of a pane is its width and its height.
pub proof fn law_the_size_of_a_pane(panes: Seq<ClientPane>, pane: u32, k: int)
    ensures
        0 <= k < panes.len() && panes[k].id == pane && (forall|j: int|
            0 <= j < k ==> (#[trigger] panes[j]).id != pane) ==> size_of(panes, pane) == decimal(
            panes[k].cols as nat,
        ) + "x"@ + decimal(panes[k].rows as nat),
        (forall|j: int| 0 <= j < panes.len() ==> (#[trigger] panes[j]).id != pane) ==> size_of(
            panes,
            pane,
        ).len() == 0,
{
    lemma_pane(panes, pane, k);
}

proof fn lemma_pane(panes: Seq<ClientPane>, pane: u32, k: int)
    ensures
        0 <= k < panes.len() && panes[k].id == pane && (forall|j: int|
            0 <= j < k ==> (#[trigger] panes[j]).id != pane) ==> find(
            panes,
            crate::client::snapshot::pane_is(pane),
        ) == Some(panes[k]),
        (forall|j: int| 0 <= j < panes.len() ==> (#[trigger] panes[j]).id != pane) ==> find(
            panes,
            crate::client::snapshot::pane_is(pane),
        ) is None,
{
    let f = crate::client::snapshot::pane_is(pane);
    if 0 <= k < panes.len() && panes[k].id == pane && (forall|j: int|
        0 <= j < k ==> (#[trigger] panes[j]).id != pane) {
        lemma_first_where(panes, f, k);
    }
    if forall|j: int| 0 <= j < panes.len() ==> (#[trigger] panes[j]).id != pane {
        lemma_no_first(panes, f);
    }
}

/// A pane is active in a tab where the first pane of its number there is.
pub proof fn law_what_is_active_in_a_tab(
    panes: Seq<(u32, Vec<ClientPane>)>,
    tab: u32,
    pane: u32,
    k: int,
)
    ensures
        ({
            let here = panes_of(panes, tab);
            &&& 0 <= k < here.len() && here[k].id == pane && (forall|j: int|
                0 <= j < k ==> (#[trigger] here[j]).id != pane) ==> pane_active_in(panes, tab, pane)
                == here[k].is_active
            &&& (forall|j: int| 0 <= j < here.len() ==> (#[trigger] here[j]).id != pane)
                ==> !pane_active_in(panes, tab, pane)
        }),
{
    lemma_pane(panes_of(panes, tab), pane, k);
}

/// A tab of the tree has its line, and below it one line for each pane of its
/// layout, in their order; the last of them is marked as such.
pub proof fn law_a_tab_of_the_tree(s: FfiWorkspaceSnapshot, tab: u32, last: bool, j: int)
    ensures
        layout_of(s.layouts@, tab) is None ==> leaf_lines(s, tab, last).len() == 0,
        layout_of(s.layouts@, tab) matches Some(l) ==> {
            &&& leaf_lines(s, tab, last).len() == l.leaves().len()
            &&& 0 <= j < l.leaves().len() ==> leaf_lines(s, tab, last)[j] == leaf_line(
                last,
                j == l.leaves().len() - 1,
                l.leaves()[j],
                size_of(all_panes(s.panes@), l.leaves()[j]),
                Seq::<char>::empty(),
                pane_active_in(s.panes@, tab, l.leaves()[j]),
            )
        },
        0 <= j < s.tabs@.len() ==> tab_block(s, j) == tab_line(j == s.tabs@.len() - 1, s.tabs@[j])
            + flat(leaf_lines(s, s.tabs@[j].id, j == s.tabs@.len() - 1)),
{
}

/// The same of a recorded state: there the layout itself says which pane is
/// active.
pub proof fn law_a_tab_of_a_recorded_tree(s: StateSnapshot, tab: u32, last: bool, j: int)
    ensures
        state_layout(s.layouts@, tab) is None ==> state_leaf_lines(s, tab, last).len() == 0,
        state_layout(s.layouts@, tab) matches Some(l) ==> {
            &&& state_leaf_lines(s, tab, last).len() == l.tree.leaves().len()
            &&& 0 <= j < l.tree.leaves().len() ==> state_leaf_lines(s, tab, last)[j] == leaf_line(
                last,
                j == l.tree.leaves().len() - 1,
                l.tree.leaves()[j],
                size_of(all_panes(s.panes@), l.tree.leaves()[j]),
                " "@,
                l.tree.leaves()[j] == l.active,
            )
        },
        0 <= j < s.tabs@.len() ==> state_tab_block(s, j) == tab_line(
            j == s.tabs@.len() - 1,
            s.tabs@[j],
        ) + flat(state_leaf_lines(s, s.tabs@[j].id, j == s.tabs@.len() - 1)),
{
}

/// The layout of a tab is the first that is recorded under its number.
pub proof fn law_the_recorded_layout_of_a_tab(
    layouts: Seq<(u32, StateLayout)>,
    live: Seq<(u32, Option<ClientLayout>)>,
    outputs: Seq<(u32, Vec<u8>)>,
    n: u32,
    k: int,
)
    ensures
        0 <= k < layouts.len() && layouts[k].0 == n && (forall|j: int|
            0 <= j < k ==> (#[trigger] layouts[j]).0 != n) ==> state_layout(layouts, n) == Some(
            layouts[k].1,
        ),
        (forall|j: int| 0 <= j < layouts.len() ==> (#[trigger] layouts[j]).0 != n) ==> state_layout(
            layouts,
            n,
        ) is None,
        0 <= k < live.len() && live[k].0 == n && (forall|j: int|
            0 <= j < k ==> (#[trigger] live[j]).0 != n) ==> layout_of(live, n) == live[k].1,
        (forall|j: int| 0 <= j < live.len() ==> (#[trigger] live[j]).0 != n) ==> layout_of(live, n)
            is None,
        0 <= k < outputs.len() && outputs[k].0 == n && (forall|j: int|
            0 <= j < k ==> (#[trigger] outputs[j]).0 != n) ==> output_of(outputs, n) == Some(
            outputs[k].1@,
        ),
        (forall|j: int| 0 <= j < outputs.len() ==> (#[trigger] outputs[j]).0 != n) ==> output_of(
            outputs,
            n,
        ) is None,
{
    let f = crate::cli::state::state_layout_is(n);
    let g = crate::client::snapshot::layout_entry_is(n);
    let h = crate::client::snapshot::output_entry_is(n);
    if 0 <= k < layouts.len() && layouts[k].0 == n && (forall|j: int|
        0 <= j < k ==> (#[trigger] layouts[j]).0 != n) {
        lemma_first_where(layouts, f, k);
    }
    if forall|j: int| 0 <= j < layouts.len() ==> (#[trigger] layouts[j]).0 != n {
        lemma_no_first(layouts, f);
    }
    if 0 <= k < live.len() && live[k].0 == n && (forall|j: int|
        0 <= j < k ==> (#[trigger] live[j]).0 != n) {
        lemma_first_where(live, g, k);
    }
    if forall|j: int| 0 <= j < live.len() ==> (#[trigger] live[j]).0 != n {
        lemma_no_first(live, g);
    }
    if 0 <= k < outputs.len() && outputs[k].0 == n && (forall|j: int|
        0 <= j < k ==> (#[trigger] outputs[j]).0 != n) {
        lemma_first_where(outputs, h, k);
    }
    if forall|j: int| 0 <= j < outputs.len() ==> (#[trigger] outputs[j]).0 != n {
        lemma_no_first(outputs, h);
    }
}

// ---------------------------------------------------------------------------
// Texts of panes.
// ---------------------------------------------------------------------------

/// The text of the pane that is named is printed, else that of the active
/// one; nothing where there is none.
pub proof fn law_which_text_is_captured(
    s: StateSnapshot,
    live: FfiWorkspaceSnapshot,
    pane: u32,
    bytes: Seq<u8>,
    lines: Option<usize>,
    format: OutputFormat,
)
    ensures
        output_of(s.outputs@, pane) == Some(bytes) ==> state_output(
            s,
            (CliCommand::CapturePane { target: Some(pane), lines }),
            format,
        ) == shown_lines(utf8_lossy(bytes), lines),
        output_of(s.outputs@, pane) == Some(bytes) && s.active_pane == Some(pane) ==> state_output(
            s,
            (CliCommand::CapturePane { target: None, lines }),
            format,
        ) == shown_lines(utf8_lossy(bytes), lines),
        output_of(s.outputs@, pane) is None ==> state_output(
            s,
            (CliCommand::CapturePane { target: Some(pane), lines }),
            format,
        ).len() == 0,
        s.active_pane is None ==> state_output(
            s,
            (CliCommand::CapturePane { target: None, lines }),
            format,
        ).len() == 0,
        output_of(live.outputs@, pane) == Some(bytes) ==> captured_text(live, Some(pane))
            == utf8_lossy(bytes),
        output_of(live.outputs@, pane) is None ==> captured_text(live, Some(pane)).len() == 0,
{
}

/// All of a text is shown unless a number of lines is given.
pub proof fn law_how_much_of_a_text(text: Seq<char>)
    ensures
        shown_lines(text, None) == text,
{
}

/// A message is about the first pane of the number, and empty where there is
/// none.
pub proof fn law_whom_a_message_is_about(
    panes: Seq<ClientPane>,
    pane: u32,
    format: Seq<char>,
    k: int,
)
    ensures
        0 <= k < panes.len() && panes[k].id == pane && (forall|j: int|
            0 <= j < k ==> (#[trigger] panes[j]).id != pane) ==> display_output(panes, pane, format)
            == filled(format, panes[k]),
        (forall|j: int| 0 <= j < panes.len() ==> (#[trigger] panes[j]).id != pane)
            ==> display_output(panes, pane, format).len() == 0,
{
    lemma_pane(panes, pane, k);
}

// ---------------------------------------------------------------------------
// Recorded states.
// ---------------------------------------------------------------------------

/// Quotes and backslashes get a backslash before them; every other character
/// stays.
pub proof fn law_what_is_escaped(s: &str, r: String)
    requires
        call_ensures(json_escape, (s,), r),
    ensures
        !s@.contains('"') && !s@.contains('\\') ==> r@ == s@,
        s@ == seq!['"'] ==> r@ == seq!['\\', '"'],
        s@ == seq!['\\'] ==> r@ == seq!['\\', '\\'],
{
    reveal_strlit("\\\\");
    reveal_strlit("\\\"");
    let once = crate::text::split::replaced(s@, '\\', "\\\\"@);
    if !s@.contains('"') && !s@.contains('\\') {
        crate::laws::text::lemma_nothing_to_replace(s@, '\\', "\\\\"@);
        crate::laws::text::lemma_nothing_to_replace(once, '"', "\\\""@);
    }
    if s@ == seq!['"'] {
        crate::laws::text::lemma_nothing_to_replace(s@, '\\', "\\\\"@);
        crate::laws::text::law_one_character_is_replaced('"', '"', "\\\""@);
        assert(r@ =~= seq!['\\', '"']);
    }
    if s@ == seq!['\\'] {
        crate::laws::text::law_one_character_is_replaced('\\', '\\', "\\\\"@);
        assert(once =~= seq!['\\', '\\']);
        crate::laws::text::lemma_nothing_to_replace(once, '"', "\\\""@);
    }
}

/// A tab, a pane and a layout of a recorded state as JSON.
pub proof fn law_rows_of_a_recorded_state(
    tab: ClientTab,
    pane: ClientPane,
    layout: StateLayout,
    panes: nat,
    name: Seq<char>,
    flag: Seq<char>,
    pane_flag: Seq<char>,
)
    requires
        name == crate::cli::state::json_escaped(tab.name@),
        tab.is_active ==> flag == "true"@,
        !tab.is_active ==> flag == "false"@,
        pane.is_active ==> pane_flag == "true"@,
        !pane.is_active ==> pane_flag == "false"@,
    ensures
        state_tab_json(tab, panes) == "{\"id\":\"t"@ + decimal(tab.id as nat) + "\",\"name\":\""@
            + name + "\",\"panes\":"@ + decimal(panes) + ",\"active\":"@ + flag + "}"@,
        state_pane_json(pane) == "{\"id\":\"@"@ + decimal(pane.id as nat) + "\",\"active\":"@
            + pane_flag + ",\"size\":{\"w\":"@ + decimal(pane.cols as nat) + ",\"h\":"@ + decimal(
            pane.rows as nat,
        ) + "}}"@,
        state_layout_json(tab, Some(layout)) == "{\"id\":\"t"@ + decimal(tab.id as nat)
            + "\",\"name\":\""@ + name + "\",\"active\":"@ + flag + ",\"tree\":"@ + node_json(
            layout.tree,
        ) + "}"@,
        state_layout_json(tab, None) == "{\"id\":\"t"@ + decimal(tab.id as nat) + "\",\"name\":\""@
            + name + "\",\"active\":"@ + flag + ",\"tree\":"@ + "null"@ + "}"@,
{
}

/// What is printed of a recorded state: one row for each tab, and one for each
/// pane of the tab that is named or else of the active one.
pub proof fn law_queries_of_a_recorded_state(
    s: StateSnapshot,
    tab: u32,
    tabs: Seq<Seq<char>>,
    rows: Seq<Seq<char>>,
)
    requires
        tabs.len() == s.tabs@.len(),
        forall|i: int|
            0 <= i < tabs.len() ==> #[trigger] tabs[i] == crate::cli::format::tab_row_text(
                s.tabs@[i],
                panes_of(s.panes@, s.tabs@[i].id).len(),
            ),
        rows.len() == panes_of(s.panes@, tab).len(),
        forall|i: int|
            0 <= i < rows.len() ==> #[trigger] rows[i] == crate::cli::format::pane_row_text(
                panes_of(s.panes@, tab)[i],
            ),
    ensures
        state_output(s, CliCommand::ListTabs, OutputFormat::Text) == join(tabs, "\n"@),
        state_output(s, (CliCommand::ListPanes { tab: Some(tab) }), OutputFormat::Text) == join(
            rows,
            "\n"@,
        ),
        s.active_tab == Some(tab) ==> state_output(
            s,
            (CliCommand::ListPanes { tab: None }),
            OutputFormat::Text,
        ) == join(rows, "\n"@),
        s.active_tab is None ==> state_output(
            s,
            (CliCommand::ListPanes { tab: None }),
            OutputFormat::Text,
        ).len() == 0,
        state_output(s, CliCommand::ListWorkspaces, OutputFormat::Text) == s.workspace_name@
            + " ("@ + s.workspace_runtime@ + "): attached"@,
        s.tabs@.len() == 0 ==> state_output(s, CliCommand::ListLayout, OutputFormat::Text)
            == "(no tab)"@,
{
    assert(Seq::new(
        s.tabs@.len(),
        |i: int|
            crate::cli::format::tab_row_text(s.tabs@[i], panes_of(s.panes@, s.tabs@[i].id).len()),
    ) =~= tabs);
    let panes = panes_of(s.panes@, tab);
    assert(Seq::new(panes.len(), |i: int| crate::cli::format::pane_row_text(panes[i])) =~= rows);
    assert(join(Seq::<Seq<char>>::empty(), "\n"@).len() == 0);
    if s.active_tab is None {
        let none = crate::cli::state::state_listed_panes(s, None);
        assert(Seq::new(none.len(), |i: int| crate::cli::format::pane_row_text(none[i]))
            =~= Seq::<Seq<char>>::empty());
    }
}

/// Texts are escaped part by part.
pub proof fn law_parts_are_escaped_alone(a: &str, b: &str, ab: &str, x: String, y: String,
    r: String)
    requires
        ab@ == a@ + b@,
        call_ensures(json_escape, (a,), x),
        call_ensures(json_escape, (b,), y),
        call_ensures(json_escape, (ab,), r),
    ensures
        r@ == x@ + y@,
{
    let slashes = "\\\\"@;
    crate::laws::text::law_parts_are_replaced_alone(a@, b@, '\\', slashes);
    crate::laws::text::law_parts_are_replaced_alone(
        crate::text::split::replaced(a@, '\\', slashes),
        crate::text::split::replaced(b@, '\\', slashes),
        '"',
        "\\\""@,
    );
}

/// Without a name the text of the active pane of the active tab is captured.
pub proof fn law_what_is_captured_without_a_name(
    s: FfiWorkspaceSnapshot,
    tab: u32,
    pane: u32,
    bytes: Seq<u8>,
)
    ensures
        active_tab(s.tabs@) == Some(tab) && active_pane(panes_of(s.panes@, tab)) == Some(pane)
            && output_of(s.outputs@, pane) == Some(bytes) ==> captured_text(s, None) == utf8_lossy(
            bytes,
        ),
        active_tab(s.tabs@) is None ==> captured_text(s, None).len() == 0,
{
}

/// The tree is printed with its head and then tab by tab, without the blanks
/// at its end; without a tab that is said.
pub proof fn law_the_tree_is_printed_tab_by_tab(
    s: FfiWorkspaceSnapshot,
    trees: Seq<Seq<char>>,
    recorded: StateSnapshot,
    blocks: Seq<Seq<char>>,
    recorded_blocks: Seq<Seq<char>>,
)
    requires
        blocks.len() == s.tabs@.len(),
        forall|i: int| 0 <= i < blocks.len() ==> #[trigger] blocks[i] == tab_block(s, i),
        recorded_blocks.len() == recorded.tabs@.len(),
        forall|i: int|
            0 <= i < recorded_blocks.len() ==> #[trigger] recorded_blocks[i] == state_tab_block(
                recorded,
                i,
            ),
    ensures
        s.tabs@.len() == 0 ==> layout_output(s, trees, OutputFormat::Text) == "(no tab)"@,
        s.tabs@.len() > 0 ==> layout_output(s, trees, OutputFormat::Text) == trimmed_end(
            "workspace "@ + s.workspace.runtime@ + ": "@ + s.workspace.name@ + "\n"@ + flat(blocks),
        ),
        recorded.tabs@.len() > 0 ==> state_output(
            recorded,
            CliCommand::ListLayout,
            OutputFormat::Text,
        ) == trimmed_end(
            "workspace "@ + recorded.workspace_runtime@ + ": "@ + recorded.workspace_name@ + "\n"@
                + flat(recorded_blocks),
        ),
{
    assert(Seq::new(s.tabs@.len(), |i: int| tab_block(s, i)) =~= blocks);
    assert(Seq::new(recorded.tabs@.len(), |i: int| state_tab_block(recorded, i))
        =~= recorded_blocks);
}

/// The workspace of a recorded state as JSON.
pub proof fn law_the_workspace_of_a_recorded_state(s: StateSnapshot, name: Seq<char>)
    requires
        name == crate::cli::state::json_escaped(s.workspace_name@),
    ensures
        state_output(s, CliCommand::ListWorkspaces, OutputFormat::Json) == "[{\"id\":\"local/"@
            + s.workspace_runtime@ + "/"@ + name + "\",\"name\":\""@ + name
            + "\",\"runtime\":\""@ + s.workspace_runtime@
            + "\",\"transport\":\"local\",\"in_pool\":true}]"@,
{
}

} // verus!
