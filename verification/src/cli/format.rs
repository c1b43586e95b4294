//! What a query prints, from a snapshot of one workspace.
use vstd::prelude::*;
use vstd::string::*;
use vstd::utf8::*;

use crate::cli::command::{CliCommand, OutputFormat};
use crate::client::event::{from_utf8_lossy, utf8_lossy};
use crate::client::snapshot::{
    active_pane, active_tab, active_tab_id, all_panes, find_active_pane, find_output, find_pane,
    flat_panes, layout_of, output_of, pane_is, panes_of, tab_layout, tab_panes,
    FfiWorkspaceSnapshot,
};
use crate::client::types::{ClientLayout, ClientPane, ClientTab, ClientWorkspace};
use crate::json::{
    bool_text, json_bool, json_list, json_member, json_object, json_quote, json_reparsed,
    json_string, list_text, member_text, object_text, reparse,
};
use crate::seqs::{find, flat};
use crate::text::lines::{
    last_lines, substitute, substituted, tail_lines, trim_end, trimmed_end,
};
use crate::text::number::{decimal, decimal_string, push_decimal};
use crate::text::split::{join, join_strings};
use crate::text::{concat2, views};

verus! {

// ---------------------------------------------------------------------------
// Rows.
// ---------------------------------------------------------------------------

/// The mark behind a name.
pub open spec fn star(active: bool) -> Seq<char> {
    if active {
        "*"@
    } else {
        " "@
    }
}

fn star_text(active: bool) -> (r: &'static str)
    ensures
        r@ == star(active),
{
    if active {
        "*"
    } else {
        " "
    }
}

/// The mark behind an active tab or pane in a tree.
pub open spec fn active_mark(active: bool) -> Seq<char> {
    if active {
        " [active]"@
    } else {
        ""@
    }
}

pub(crate) fn active_mark_text(active: bool) -> (r: &'static str)
    ensures
        r@ == active_mark(active),
{
    if active {
        " [active]"
    } else {
        ""
    }
}

/// A workspace as JSON.
pub open spec fn workspace_row_json(w: ClientWorkspace) -> Seq<char> {
    json_object(
        seq![
            json_member("id"@, json_string(w.id@)),
            json_member("in_pool"@, json_bool(true)),
            json_member("name"@, json_string(w.name@)),
            json_member("runtime"@, json_string(w.runtime@)),
            json_member("transport"@, json_string("local"@)),
        ],
    )
}

/// A workspace as text.
pub open spec fn workspace_row_text(w: ClientWorkspace) -> Seq<char> {
    w.name@ + " ("@ + w.runtime@ + "): "@ + (if w.active {
        "attached"@
    } else {
        "open"@
    })
}

/// The workspaces as they are printed.
pub open spec fn workspaces_output(
    workspaces: Seq<ClientWorkspace>,
    format: OutputFormat,
) -> Seq<char> {
    match format {
        OutputFormat::Json => json_list(
            Seq::new(workspaces.len(), |i: int| workspace_row_json(workspaces[i])),
        ),
        OutputFormat::Text => join(
            Seq::new(workspaces.len(), |i: int| workspace_row_text(workspaces[i])),
            "\n"@,
        ),
    }
}

/// A tab with the number of its panes as JSON.
pub open spec fn tab_row_json(tab: ClientTab, panes: nat) -> Seq<char> {
    json_object(
        seq![
            json_member("active"@, json_bool(tab.is_active)),
            json_member("id"@, json_string("t"@ + decimal(tab.id as nat))),
            json_member("name"@, json_string(tab.name@)),
            json_member("panes"@, decimal(panes)),
        ],
    )
}

/// A tab with the number of its panes as text.
pub open spec fn tab_row_text(tab: ClientTab, panes: nat) -> Seq<char> {
    "t"@ + decimal(tab.id as nat) + ": "@ + tab.name@ + star(tab.is_active) + " ("@ + decimal(panes)
        + " panes)"@
}

/// The tabs as they are printed.
pub open spec fn tabs_output(s: FfiWorkspaceSnapshot, format: OutputFormat) -> Seq<char> {
    match format {
        OutputFormat::Json => json_list(
            Seq::new(
                s.tabs@.len(),
                |i: int| tab_row_json(s.tabs@[i], panes_of(s.panes@, s.tabs@[i].id).len()),
            ),
        ),
        OutputFormat::Text => join(
            Seq::new(
                s.tabs@.len(),
                |i: int| tab_row_text(s.tabs@[i], panes_of(s.panes@, s.tabs@[i].id).len()),
            ),
            "\n"@,
        ),
    }
}

/// A pane as JSON.
pub open spec fn pane_row_json(pane: ClientPane) -> Seq<char> {
    json_object(
        seq![
            json_member("active"@, json_bool(pane.is_active)),
            json_member("id"@, json_string("@"@ + decimal(pane.id as nat))),
            json_member(
                "size"@,
                json_object(
                    seq![
                        json_member("h"@, decimal(pane.rows as nat)),
                        json_member("w"@, decimal(pane.cols as nat)),
                    ],
                ),
            ),
        ],
    )
}

/// A pane as text.
pub open spec fn pane_row_text(pane: ClientPane) -> Seq<char> {
    "@"@ + decimal(pane.id as nat) + star(pane.is_active) + " "@ + decimal(pane.cols as nat) + "x"@
        + decimal(pane.rows as nat)
}

/// The panes of a tab; of the active one where none is named.
pub open spec fn listed_panes(s: FfiWorkspaceSnapshot, tab: Option<u32>) -> Seq<ClientPane> {
    match (tab, active_tab(s.tabs@)) {
        (Some(t), _) => panes_of(s.panes@, t),
        (None, Some(t)) => panes_of(s.panes@, t),
        (None, None) => Seq::<ClientPane>::empty(),
    }
}

/// The panes of a tab as they are printed.
pub open spec fn panes_output(
    s: FfiWorkspaceSnapshot,
    tab: Option<u32>,
    format: OutputFormat,
) -> Seq<char> {
    let panes = listed_panes(s, tab);
    match format {
        OutputFormat::Json => json_list(
            Seq::new(panes.len(), |i: int| pane_row_json(panes[i])),
        ),
        OutputFormat::Text => join(
            Seq::new(panes.len(), |i: int| pane_row_text(panes[i])),
            "\n"@,
        ),
    }
}

// ---------------------------------------------------------------------------
// The layout tree.
// ---------------------------------------------------------------------------

/// A layout node as JSON text.
pub open spec fn node_json(layout: ClientLayout) -> Seq<char>
    decreases layout,
{
    match layout {
        ClientLayout::Leaf { pane_id } => "\"@"@ + decimal(pane_id as nat) + "\""@,
        ClientLayout::Split { horizontal, ratio, first, second } =>
            "{\"type\":\"split\",\"dir\":\""@ + (if horizontal {
            "horizontal"@
        } else {
            "vertical"@
        }) + "\",\"ratio\":"@ + decimal(ratio as nat) + ",\"first\":"@ + node_json(*first)
            + ",\"second\":"@ + node_json(*second) + "}"@,
    }
}

/// The tree of a tab as it stands inside a larger document.
pub open spec fn tree_json(layout: Option<ClientLayout>) -> Seq<char> {
    match layout {
        Some(l) => match json_reparsed(encode_utf8(node_json(l))) {
            Some(text) => text,
            None => "null"@,
        },
        None => "null"@,
    }
}

/// A tab with its tree as JSON.
pub open spec fn layout_row_json(tab: ClientTab, tree: Seq<char>) -> Seq<char> {
    json_object(
        seq![
            json_member("active"@, json_bool(tab.is_active)),
            json_member("id"@, json_string("t"@ + decimal(tab.id as nat))),
            json_member("name"@, json_string(tab.name@)),
            json_member("tree"@, tree),
        ],
    )
}

/// The line of a tab.
pub open spec fn tab_line(last: bool, tab: ClientTab) -> Seq<char> {
    (if last {
        "└─"@
    } else {
        "├─"@
    }) + " tab t"@ + decimal(tab.id as nat) + ": "@ + tab.name@ + active_mark(tab.is_active)
        + "\n"@
}

/// The size of a pane; empty where the pane is not listed.
pub open spec fn size_of(panes: Seq<ClientPane>, id: u32) -> Seq<char> {
    match find(panes, pane_is(id)) {
        Some(p) => decimal(p.cols as nat) + "x"@ + decimal(p.rows as nat),
        None => Seq::<char>::empty(),
    }
}

/// The line of a pane.
pub open spec fn leaf_line(
    last_tab: bool,
    last_leaf: bool,
    pane: u32,
    size: Seq<char>,
    gap: Seq<char>,
    active: bool,
) -> Seq<char> {
    (if last_tab {
        "   "@
    } else {
        "│  "@
    }) + "   "@ + (if last_leaf {
        "└─"@
    } else {
        "├─"@
    }) + " @"@ + decimal(pane as nat) + " "@ + size + gap + active_mark(active) + "\n"@
}

/// A pane of a tab is listed as active.
pub open spec fn pane_active_in(
    panes: Seq<(u32, Vec<ClientPane>)>,
    tab: u32,
    pane: u32,
) -> bool {
    match find(panes_of(panes, tab), pane_is(pane)) {
        Some(p) => p.is_active,
        None => false,
    }
}

/// The lines of the panes of a tab.
pub open spec fn leaf_lines(s: FfiWorkspaceSnapshot, tab: u32, last_tab: bool) -> Seq<Seq<char>> {
    match layout_of(s.layouts@, tab) {
        Some(layout) => Seq::new(
            layout.leaves().len(),
            |j: int|
                leaf_line(
                    last_tab,
                    j + 1 == layout.leaves().len(),
                    layout.leaves()[j],
                    size_of(all_panes(s.panes@), layout.leaves()[j]),
                    Seq::<char>::empty(),
                    pane_active_in(s.panes@, tab, layout.leaves()[j]),
                ),
        ),
        None => Seq::<Seq<char>>::empty(),
    }
}

/// The lines of a tab and its panes.
pub open spec fn tab_block(s: FfiWorkspaceSnapshot, i: int) -> Seq<char> {
    let last = i + 1 == s.tabs@.len();
    tab_line(last, s.tabs@[i]) + flat(leaf_lines(s, s.tabs@[i].id, last))
}

/// The first line of a tree.
pub open spec fn tree_head(runtime: Seq<char>, name: Seq<char>) -> Seq<char> {
    "workspace "@ + runtime + ": "@ + name + "\n"@
}

/// The layout as it is printed, given the tree of each tab.
pub open spec fn layout_output(
    s: FfiWorkspaceSnapshot,
    trees: Seq<Seq<char>>,
    format: OutputFormat,
) -> Seq<char> {
    match format {
        OutputFormat::Json => json_list(
            Seq::new(s.tabs@.len(), |i: int| layout_row_json(s.tabs@[i], trees[i])),
        ),
        OutputFormat::Text => if s.tabs@.len() == 0 {
            "(no tab)"@
        } else {
            trimmed_end(
                tree_head(s.workspace.runtime@, s.workspace.name@) + flat(
                    Seq::new(s.tabs@.len(), |i: int| tab_block(s, i)),
                ),
            )
        },
    }
}

/// The trees of the tabs.
pub open spec fn trees_of(s: FfiWorkspaceSnapshot) -> Seq<Seq<char>> {
    Seq::new(s.tabs@.len(), |i: int| tree_json(layout_of(s.layouts@, s.tabs@[i].id)))
}

/// The pane whose output is printed: the named one, else the active pane of
/// the active tab.
pub open spec fn captured_pane(s: FfiWorkspaceSnapshot, pane: Option<u32>) -> Option<u32> {
    match pane {
        Some(p) => Some(p),
        None => match active_tab(s.tabs@) {
            Some(t) => active_pane(panes_of(s.panes@, t)),
            None => None,
        },
    }
}

/// The text of a pane; empty where there is none.
pub open spec fn captured_text(s: FfiWorkspaceSnapshot, pane: Option<u32>) -> Seq<char> {
    match captured_pane(s, pane) {
        Some(p) => match output_of(s.outputs@, p) {
            Some(bytes) => utf8_lossy(bytes),
            None => Seq::<char>::empty(),
        },
        None => Seq::<char>::empty(),
    }
}

/// All of a text, or its last lines.
pub open spec fn shown_lines(text: Seq<char>, lines: Option<usize>) -> Seq<char> {
    match lines {
        Some(n) => last_lines(text, n as nat),
        None => text,
    }
}

/// A message with what it names of a pane filled in, one after the other.
pub open spec fn filled(format: Seq<char>, pane: ClientPane) -> Seq<char> {
    let a = substituted(format, "#{pane_id}"@, "@"@ + decimal(pane.id as nat));
    let b = substituted(a, "#{pane_active}"@, json_bool(pane.is_active));
    let c = substituted(b, "#{pane_width}"@, decimal(pane.cols as nat));
    let d = substituted(c, "#{pane_height}"@, decimal(pane.rows as nat));
    substituted(d, "#{pane_title}"@, pane.title@)
}

/// A message for a pane; empty where the pane is not listed.
pub open spec fn display_output(panes: Seq<ClientPane>, pane: u32, format: Seq<char>) -> Seq<char> {
    match find(panes, pane_is(pane)) {
        Some(p) => filled(format, p),
        None => Seq::<char>::empty(),
    }
}

/// What a query prints; nothing for any other command.
pub open spec fn query_output(
    workspaces: Seq<ClientWorkspace>,
    s: FfiWorkspaceSnapshot,
    cmd: CliCommand,
    format: OutputFormat,
) -> Seq<char> {
    match cmd {
        CliCommand::ListWorkspaces => workspaces_output(workspaces, format),
        CliCommand::ListTabs => tabs_output(s, format),
        CliCommand::ListPanes { tab } => panes_output(s, tab, format),
        CliCommand::ListLayout => layout_output(s, trees_of(s), format),
        CliCommand::CapturePane { target, lines } => shown_lines(captured_text(s, target), lines),
        CliCommand::DisplayMessage { target, format } => display_output(
            all_panes(s.panes@),
            target,
            format@,
        ),
        _ => Seq::<char>::empty(),
    }
}

// ---------------------------------------------------------------------------
// Printing.
// ---------------------------------------------------------------------------

fn workspace_row(w: &ClientWorkspace, format: OutputFormat) -> (r: String)
    ensures
        r@ == match format {
            OutputFormat::Json => workspace_row_json(*w),
            OutputFormat::Text => workspace_row_text(*w),
        },
{
    match format {
        OutputFormat::Json => {
            let mut m: Vec<String> = Vec::new();
            m.push(member_text("id", json_quote(w.id.as_str()).as_str()));
            m.push(member_text("in_pool", bool_text(true).as_str()));
            m.push(member_text("name", json_quote(w.name.as_str()).as_str()));
            m.push(member_text("runtime", json_quote(w.runtime.as_str()).as_str()));
            m.push(member_text("transport", json_quote("local").as_str()));
            assert(views(m@) =~= seq![
                json_member("id"@, json_string(w.id@)),
                json_member("in_pool"@, json_bool(true)),
                json_member("name"@, json_string(w.name@)),
                json_member("runtime"@, json_string(w.runtime@)),
                json_member("transport"@, json_string("local"@)),
            ]);
            object_text(&m)
        },
        OutputFormat::Text => {
            let mut out = w.name.clone();
            out.append(" (");
            out.append(w.runtime.as_str());
            out.append("): ");
            out.append(
                if w.active {
                    "attached"
                } else {
                    "open"
                },
            );
            out
        },
    }
}

/// Prints the workspaces.
pub fn format_ffi_workspaces(workspaces: &Vec<ClientWorkspace>, format: OutputFormat) -> (r: String)
    ensures
        r@ == workspaces_output(workspaces@, format),
{
    let mut items: Vec<String> = Vec::new();
    let mut i: usize = 0;
    while i < workspaces.len()
        invariant
            i <= workspaces.len(),
            items.len() == i,
            forall|j: int|
                0 <= j < i ==> (#[trigger] items@[j])@ == match format {
                    OutputFormat::Json => workspace_row_json(workspaces@[j]),
                    OutputFormat::Text => workspace_row_text(workspaces@[j]),
                },
        decreases workspaces.len() - i,
    {
        items.push(workspace_row(&workspaces[i], format));
        i += 1;
    }
    match format {
        OutputFormat::Json => {
            assert(views(items@) =~= Seq::new(
                workspaces@.len(),
                |i: int| workspace_row_json(workspaces@[i]),
            ));
            list_text(&items)
        },
        OutputFormat::Text => {
            assert(views(items@) =~= Seq::new(
                workspaces@.len(),
                |i: int| workspace_row_text(workspaces@[i]),
            ));
            join_strings(&items, "\n")
        },
    }
}

fn tab_row(tab: &ClientTab, panes: usize, format: OutputFormat) -> (r: String)
    ensures
        r@ == match format {
            OutputFormat::Json => tab_row_json(*tab, panes as nat),
            OutputFormat::Text => tab_row_text(*tab, panes as nat),
        },
{
    match format {
        OutputFormat::Json => {
            let id = concat2("t", decimal_string(tab.id as u64).as_str());
            let mut m: Vec<String> = Vec::new();
            m.push(member_text("active", bool_text(tab.is_active).as_str()));
            m.push(member_text("id", json_quote(id.as_str()).as_str()));
            m.push(member_text("name", json_quote(tab.name.as_str()).as_str()));
            m.push(member_text("panes", decimal_string(panes as u64).as_str()));
            assert(views(m@) =~= seq![
                json_member("active"@, json_bool(tab.is_active)),
                json_member("id"@, json_string("t"@ + decimal(tab.id as nat))),
                json_member("name"@, json_string(tab.name@)),
                json_member("panes"@, decimal(panes as nat)),
            ]);
            object_text(&m)
        },
        OutputFormat::Text => {
            let mut out = "t".to_owned();
            push_decimal(&mut out, tab.id as u64);
            out.append(": ");
            out.append(tab.name.as_str());
            out.append(star_text(tab.is_active));
            out.append(" (");
            push_decimal(&mut out, panes as u64);
            out.append(" panes)");
            out
        },
    }
}

/// Prints the tabs.
pub fn format_ffi_tabs(snapshot: &FfiWorkspaceSnapshot, format: OutputFormat) -> (r: String)
    ensures
        r@ == tabs_output(*snapshot, format),
{
    let tabs = &snapshot.tabs;
    let mut items: Vec<String> = Vec::new();
    let mut i: usize = 0;
    while i < tabs.len()
        invariant
            *tabs == snapshot.tabs,
            i <= tabs.len(),
            items.len() == i,
            forall|j: int|
                0 <= j < i ==> (#[trigger] items@[j])@ == match format {
                    OutputFormat::Json => tab_row_json(
                        tabs@[j],
                        panes_of(snapshot.panes@, tabs@[j].id).len(),
                    ),
                    OutputFormat::Text => tab_row_text(
                        tabs@[j],
                        panes_of(snapshot.panes@, tabs@[j].id).len(),
                    ),
                },
        decreases tabs.len() - i,
    {
        let own = tab_panes(&snapshot.panes, tabs[i].id);
        items.push(tab_row(&tabs[i], own.len(), format));
        i += 1;
    }
    match format {
        OutputFormat::Json => {
            assert(views(items@) =~= Seq::new(
                tabs@.len(),
                |i: int| tab_row_json(tabs@[i], panes_of(snapshot.panes@, tabs@[i].id).len()),
            ));
            list_text(&items)
        },
        OutputFormat::Text => {
            assert(views(items@) =~= Seq::new(
                tabs@.len(),
                |i: int| tab_row_text(tabs@[i], panes_of(snapshot.panes@, tabs@[i].id).len()),
            ));
            join_strings(&items, "\n")
        },
    }
}

fn pane_row(pane: &ClientPane, format: OutputFormat) -> (r: String)
    ensures
        r@ == match format {
            OutputFormat::Json => pane_row_json(*pane),
            OutputFormat::Text => pane_row_text(*pane),
        },
{
    match format {
        OutputFormat::Json => {
            let id = concat2("@", decimal_string(pane.id as u64).as_str());
            let mut size: Vec<String> = Vec::new();
            size.push(member_text("h", decimal_string(pane.rows as u64).as_str()));
            size.push(member_text("w", decimal_string(pane.cols as u64).as_str()));
            assert(views(size@) =~= seq![
                json_member("h"@, decimal(pane.rows as nat)),
                json_member("w"@, decimal(pane.cols as nat)),
            ]);
            let mut m: Vec<String> = Vec::new();
            m.push(member_text("active", bool_text(pane.is_active).as_str()));
            m.push(member_text("id", json_quote(id.as_str()).as_str()));
            m.push(member_text("size", object_text(&size).as_str()));
            assert(views(m@) =~= seq![
                json_member("active"@, json_bool(pane.is_active)),
                json_member("id"@, json_string("@"@ + decimal(pane.id as nat))),
                json_member("size"@, json_object(views(size@))),
            ]);
            object_text(&m)
        },
        OutputFormat::Text => {
            let mut out = "@".to_owned();
            push_decimal(&mut out, pane.id as u64);
            out.append(star_text(pane.is_active));
            out.append(" ");
            push_decimal(&mut out, pane.cols as u64);
            out.append("x");
            push_decimal(&mut out, pane.rows as u64);
            out
        },
    }
}

/// Prints panes.
pub fn pane_rows(panes: &Vec<ClientPane>, format: OutputFormat) -> (r: String)
    ensures
        r@ == match format {
            OutputFormat::Json => json_list(
                Seq::new(panes@.len(), |i: int| pane_row_json(panes@[i])),
            ),
            OutputFormat::Text => join(
                Seq::new(panes@.len(), |i: int| pane_row_text(panes@[i])),
                "\n"@,
            ),
        },
{
    let mut items: Vec<String> = Vec::new();
    let mut i: usize = 0;
    while i < panes.len()
        invariant
            i <= panes.len(),
            items.len() == i,
            forall|j: int|
                0 <= j < i ==> (#[trigger] items@[j])@ == match format {
                    OutputFormat::Json => pane_row_json(panes@[j]),
                    OutputFormat::Text => pane_row_text(panes@[j]),
                },
        decreases panes.len() - i,
    {
        items.push(pane_row(&panes[i], format));
        i += 1;
    }
    match format {
        OutputFormat::Json => {
            assert(views(items@) =~= Seq::new(panes@.len(), |i: int| pane_row_json(panes@[i])));
            list_text(&items)
        },
        OutputFormat::Text => {
            assert(views(items@) =~= Seq::new(panes@.len(), |i: int| pane_row_text(panes@[i])));
            join_strings(&items, "\n")
        },
    }
}

/// Prints the panes of a tab; of the active one where none is named.
pub fn format_ffi_panes(
    snapshot: &FfiWorkspaceSnapshot,
    tab_id: Option<u32>,
    format: OutputFormat,
) -> (r: String)
    ensures
        r@ == panes_output(*snapshot, tab_id, format),
{
    let tab = match tab_id {
        Some(t) => Some(t),
        None => active_tab_id(&snapshot.tabs),
    };
    let panes: Vec<ClientPane> = match tab {
        Some(t) => tab_panes(&snapshot.panes, t),
        None => Vec::new(),
    };
    assert(panes@ =~= listed_panes(*snapshot, tab_id));
    pane_rows(&panes, format)
}

/// Returns a layout node as JSON text.
pub fn ffi_layout_node_to_json(layout: &ClientLayout) -> (r: String)
    ensures
        r@ == node_json(*layout),
    decreases *layout,
{
    match layout {
        ClientLayout::Leaf { pane_id } => {
            let mut out = "\"@".to_owned();
            push_decimal(&mut out, *pane_id as u64);
            out.append("\"");
            out
        },
        ClientLayout::Split { horizontal, ratio, first, second } => {
            let mut out = "{\"type\":\"split\",\"dir\":\"".to_owned();
            out.append(
                if *horizontal {
                    "horizontal"
                } else {
                    "vertical"
                },
            );
            out.append("\",\"ratio\":");
            push_decimal(&mut out, *ratio as u64);
            out.append(",\"first\":");
            out.append(ffi_layout_node_to_json(first).as_str());
            out.append(",\"second\":");
            out.append(ffi_layout_node_to_json(second).as_str());
            out.append("}");
            out
        },
    }
}

/// Returns the panes of a tree from first to last.
pub fn ffi_layout_leaves(layout: &ClientLayout) -> (r: Vec<u32>)
    ensures
        r@ == layout.leaves(),
    decreases *layout,
{
    match layout {
        ClientLayout::Leaf { pane_id } => {
            let mut out: Vec<u32> = Vec::new();
            out.push(*pane_id);
            assert(out@ =~= layout.leaves());
            out
        },
        ClientLayout::Split { first, second, .. } => {
            let mut out = ffi_layout_leaves(first);
            let mut rest = ffi_layout_leaves(second);
            out.append(&mut rest);
            out
        },
    }
}

/// Tells whether a pane of a tab is listed as active.
pub fn ffi_pane_is_active(snapshot: &FfiWorkspaceSnapshot, tab_id: u32, pane_id: u32) -> (r: bool)
    ensures
        r == pane_active_in(snapshot.panes@, tab_id, pane_id),
{
    let own = tab_panes(&snapshot.panes, tab_id);
    match find_pane(&own, pane_id) {
        Some(i) => own[i].is_active,
        None => false,
    }
}

/// Returns the size of a pane as text.
pub fn size_text(panes: &Vec<ClientPane>, id: u32) -> (r: String)
    ensures
        r@ == size_of(panes@, id),
{
    match find_pane(panes, id) {
        Some(i) => {
            let mut out = decimal_string(panes[i].cols as u64);
            out.append("x");
            push_decimal(&mut out, panes[i].rows as u64);
            out
        },
        None => String::new(),
    }
}

/// Appends the line of a tab.
pub fn push_tab_line(out: &mut String, last: bool, tab: &ClientTab)
    ensures
        final(out)@ == old(out)@ + tab_line(last, *tab),
{
    out.append(
        if last {
            "└─"
        } else {
            "├─"
        },
    );
    out.append(" tab t");
    push_decimal(out, tab.id as u64);
    out.append(": ");
    out.append(tab.name.as_str());
    out.append(active_mark_text(tab.is_active));
    out.append("\n");
    assert(out@ =~= old(out)@ + tab_line(last, *tab));
}

/// Appends the line of a pane.
pub fn push_leaf_line(
    out: &mut String,
    last_tab: bool,
    last_leaf: bool,
    pane: u32,
    size: &str,
    gap: &str,
    active: bool,
)
    ensures
        final(out)@ == old(out)@ + leaf_line(last_tab, last_leaf, pane, size@, gap@, active),
{
    out.append(
        if last_tab {
            "   "
        } else {
            "│  "
        },
    );
    out.append("   ");
    out.append(
        if last_leaf {
            "└─"
        } else {
            "├─"
        },
    );
    out.append(" @");
    push_decimal(out, pane as u64);
    out.append(" ");
    out.append(size);
    out.append(gap);
    out.append(active_mark_text(active));
    out.append("\n");
    assert(out@ =~= old(out)@ + leaf_line(last_tab, last_leaf, pane, size@, gap@, active));
}

/// Returns the first line of a tree.
pub fn tree_head_text(runtime: &str, name: &str) -> (r: String)
    ensures
        r@ == tree_head(runtime@, name@),
{
    let mut out = "workspace ".to_owned();
    out.append(runtime);
    out.append(": ");
    out.append(name);
    out.append("\n");
    out
}

fn push_leaf_lines(
    out: &mut String,
    snapshot: &FfiWorkspaceSnapshot,
    panes: &Vec<ClientPane>,
    tab: u32,
    last_tab: bool,
)
    requires
        panes@ == all_panes(snapshot.panes@),
    ensures
        final(out)@ == old(out)@ + flat(leaf_lines(*snapshot, tab, last_tab)),
{
    match tab_layout(&snapshot.layouts, tab) {
        Some(layout) => {
            let leaves = ffi_layout_leaves(&layout);
            let ghost lines = leaf_lines(*snapshot, tab, last_tab);
            let mut j: usize = 0;
            assert(out@ =~= old(out)@ + flat(lines.take(0)));
            while j < leaves.len()
                invariant
                    j <= leaves.len(),
                    leaves@ == layout.leaves(),
                    layout_of(snapshot.layouts@, tab) == Some(layout),
                    panes@ == all_panes(snapshot.panes@),
                    lines == leaf_lines(*snapshot, tab, last_tab),
                    out@ == old(out)@ + flat(lines.take(j as int)),
                decreases leaves.len() - j,
            {
                let pane: u32 = leaves[j];
                let size = size_text(panes, pane);
                let active = ffi_pane_is_active(snapshot, tab, pane);
                let ghost before = out@;
                push_leaf_line(
                    out,
                    last_tab,
                    j + 1 == leaves.len(),
                    pane,
                    size.as_str(),
                    "",
                    active,
                );
                proof {
                    reveal_strlit("");
                    assert(""@ =~= Seq::<char>::empty());
                    assert(lines.take(j + 1).drop_last() =~= lines.take(j as int));
                    assert(out@ == before + lines[j as int]);
                    assert(out@ =~= old(out)@ + flat(lines.take(j + 1)));
                }
                j += 1;
            }
            assert(lines.take(lines.len() as int) =~= lines);
        },
        None => {
            assert(out@ =~= old(out)@ + flat(leaf_lines(*snapshot, tab, last_tab)));
        },
    }
}

/// Returns the tree of a tab as it stands inside a larger document.
fn tree_text(layout: &Option<ClientLayout>) -> (r: String)
    ensures
        r@ == tree_json(*layout),
{
    match layout {
        Some(l) => {
            let text = ffi_layout_node_to_json(l);
            let again = reparse(text.as_str().as_bytes());
            match again {
                Some(t) => t,
                None => "null".to_owned(),
            }
        },
        None => "null".to_owned(),
    }
}

/// Prints the layout, given the tree of each tab.
pub fn format_layout_with(
    snapshot: &FfiWorkspaceSnapshot,
    trees: &Vec<String>,
    format: OutputFormat,
) -> (r: String)
    requires
        trees.len() == snapshot.tabs.len(),
    ensures
        r@ == layout_output(*snapshot, views(trees@), format),
{
    let tabs = &snapshot.tabs;
    match format {
        OutputFormat::Json => {
            let mut items: Vec<String> = Vec::new();
            let mut i: usize = 0;
            while i < tabs.len()
                invariant
                    *tabs == snapshot.tabs,
                    trees.len() == tabs.len(),
                    i <= tabs.len(),
                    items.len() == i,
                    forall|j: int|
                        0 <= j < i ==> (#[trigger] items@[j])@ == layout_row_json(
                            tabs@[j],
                            trees@[j]@,
                        ),
                decreases tabs.len() - i,
            {
                let id = concat2("t", decimal_string(tabs[i].id as u64).as_str());
                let mut m: Vec<String> = Vec::new();
                m.push(member_text("active", bool_text(tabs[i].is_active).as_str()));
                m.push(member_text("id", json_quote(id.as_str()).as_str()));
                m.push(member_text("name", json_quote(tabs[i].name.as_str()).as_str()));
                m.push(member_text("tree", trees[i].as_str()));
                assert(views(m@) =~= seq![
                    json_member("active"@, json_bool(tabs@[i as int].is_active)),
                    json_member("id"@, json_string("t"@ + decimal(tabs@[i as int].id as nat))),
                    json_member("name"@, json_string(tabs@[i as int].name@)),
                    json_member("tree"@, trees@[i as int]@),
                ]);
                items.push(object_text(&m));
                i += 1;
            }
            assert(views(items@) =~= Seq::new(
                tabs@.len(),
                |i: int| layout_row_json(tabs@[i], views(trees@)[i]),
            ));
            list_text(&items)
        },
        OutputFormat::Text => {
            if tabs.len() == 0 {
                return "(no tab)".to_owned();
            }
            let panes = flat_panes(&snapshot.panes);
            let mut out = tree_head_text(
                snapshot.workspace.runtime.as_str(),
                snapshot.workspace.name.as_str(),
            );
            let ghost head = out@;
            let ghost blocks = Seq::new(tabs@.len(), |i: int| tab_block(*snapshot, i));
            let mut i: usize = 0;
            assert(out@ =~= head + flat(blocks.take(0)));
            while i < tabs.len()
                invariant
                    *tabs == snapshot.tabs,
                    i <= tabs.len(),
                    panes@ == all_panes(snapshot.panes@),
                    blocks == Seq::new(tabs@.len(), |i: int| tab_block(*snapshot, i)),
                    out@ == head + flat(blocks.take(i as int)),
                decreases tabs.len() - i,
            {
                let last = i + 1 == tabs.len();
                push_tab_line(&mut out, last, &tabs[i]);
                push_leaf_lines(&mut out, snapshot, &panes, tabs[i].id, last);
                assert(blocks.take(i + 1).drop_last() =~= blocks.take(i as int));
                assert(out@ =~= head + flat(blocks.take(i + 1)));
                i += 1;
            }
            assert(blocks.take(blocks.len() as int) =~= blocks);
            trim_end(out.as_str())
        },
    }
}

/// Prints the layout.
pub fn format_ffi_layout(snapshot: &FfiWorkspaceSnapshot, format: OutputFormat) -> (r: String)
    ensures
        r@ == layout_output(*snapshot, trees_of(*snapshot), format),
{
    let mut trees: Vec<String> = Vec::new();
    let mut i: usize = 0;
    while i < snapshot.tabs.len()
        invariant
            i <= snapshot.tabs.len(),
            trees.len() == i,
            forall|j: int|
                0 <= j < i ==> (#[trigger] trees@[j])@ == tree_json(
                    layout_of(snapshot.layouts@, snapshot.tabs@[j].id),
                ),
        decreases snapshot.tabs.len() - i,
    {
        let layout = tab_layout(&snapshot.layouts, snapshot.tabs[i].id);
        trees.push(tree_text(&layout));
        i += 1;
    }
    assert(views(trees@) =~= trees_of(*snapshot));
    format_layout_with(snapshot, &trees, format)
}

/// Prints a text, or its last lines.
pub fn show_lines(text: String, lines: Option<usize>) -> (r: String)
    ensures
        r@ == shown_lines(text@, lines),
{
    match lines {
        Some(n) => tail_lines(text.as_str(), n),
        None => text,
    }
}

/// Prints the output of a pane.
pub fn format_ffi_capture(
    snapshot: &FfiWorkspaceSnapshot,
    pane_id: Option<u32>,
    lines: Option<usize>,
) -> (r: String)
    ensures
        r@ == shown_lines(captured_text(*snapshot, pane_id), lines),
{
    let pane = match pane_id {
        Some(p) => Some(p),
        None => match active_tab_id(&snapshot.tabs) {
            Some(t) => {
                let own = tab_panes(&snapshot.panes, t);
                find_active_pane(&own)
            },
            None => None,
        },
    };
    let text = match pane {
        Some(p) => match find_output(&snapshot.outputs, p) {
            Some(i) => from_utf8_lossy(&snapshot.outputs[i].1),
            None => String::new(),
        },
        None => String::new(),
    };
    assert(text@ =~= captured_text(*snapshot, pane_id));
    show_lines(text, lines)
}

/// Fills in what a message names of a pane.
pub fn fill_message(format: &str, pane: &ClientPane) -> (r: String)
    ensures
        r@ == filled(format@, *pane),
{
    proof {
        reveal_strlit("#{pane_id}");
        reveal_strlit("#{pane_active}");
        reveal_strlit("#{pane_width}");
        reveal_strlit("#{pane_height}");
        reveal_strlit("#{pane_title}");
    }
    let id = concat2("@", decimal_string(pane.id as u64).as_str());
    let a = substitute(format, "#{pane_id}", id.as_str());
    let b = substitute(a.as_str(), "#{pane_active}", bool_text(pane.is_active).as_str());
    let c = substitute(b.as_str(), "#{pane_width}", decimal_string(pane.cols as u64).as_str());
    let d = substitute(c.as_str(), "#{pane_height}", decimal_string(pane.rows as u64).as_str());
    substitute(d.as_str(), "#{pane_title}", pane.title.as_str())
}

/// Prints a message for a pane.
pub fn format_ffi_display(snapshot: &FfiWorkspaceSnapshot, pane_id: u32, format: &str) -> (r:
    String)
    ensures
        r@ == display_output(all_panes(snapshot.panes@), pane_id, format@),
{
    let panes = flat_panes(&snapshot.panes);
    match find_pane(&panes, pane_id) {
        Some(i) => fill_message(format, &panes[i]),
        None => String::new(),
    }
}

/// Prints what a query asks for, of all workspaces or of the one in the
/// snapshot; nothing for any other command.
pub fn format_ffi_output(
    workspaces: &Vec<ClientWorkspace>,
    snapshot: &FfiWorkspaceSnapshot,
    cmd: &CliCommand,
    format: OutputFormat,
) -> (r: String)
    ensures
        r@ == query_output(workspaces@, *snapshot, *cmd, format),
{
    match cmd {
        CliCommand::ListWorkspaces => format_ffi_workspaces(workspaces, format),
        CliCommand::ListTabs => format_ffi_tabs(snapshot, format),
        CliCommand::ListPanes { tab } => format_ffi_panes(snapshot, *tab, format),
        CliCommand::ListLayout => format_ffi_layout(snapshot, format),
        CliCommand::CapturePane { target, lines } => format_ffi_capture(snapshot, *target, *lines),
        CliCommand::DisplayMessage { target, format: message } => format_ffi_display(
            snapshot,
            *target,
            message.as_str(),
        ),
        _ => String::new(),
    }
}

} // verus!
