//! What a query prints inside a daemon, from the state of its one workspace.
//!
//! The daemon writes its JSON by hand: members stand in a fixed order, and
//! only quotes and backslashes are escaped.
use vstd::prelude::*;
use vstd::string::*;

use crate::cli::command::{CliCommand, OutputFormat};
use crate::cli::format::{
    display_output, fill_message, leaf_line, node_json, pane_row_text, push_leaf_line,
    push_tab_line, show_lines, shown_lines, size_of, size_text, tab_line, tab_row_text, tree_head,
    tree_head_text, ffi_layout_leaves, ffi_layout_node_to_json, pane_rows,
};
use crate::client::event::{from_utf8_lossy, utf8_lossy};
use crate::client::snapshot::{
    all_panes, find_output, find_pane, flat_panes, output_of, panes_of, tab_panes,
};
use crate::client::types::{ClientLayout, ClientPane, ClientTab};
use crate::json::{bool_text, json_bool};
use crate::seqs::{find, flat, lemma_first_where, lemma_flat_step, lemma_no_first};
use crate::text::lines::{trim_end, trimmed_end};
use crate::text::number::{decimal, push_decimal};
use crate::text::split::{join, join_strings, replace_char, replaced};
use crate::text::views;

verus! {

/// A layout tree and the pane that is active in it.
#[derive(Debug, Clone, PartialEq, Eq)]
pub struct StateLayout {
    pub tree: ClientLayout,
    pub active: u32,
}

/// The state of one workspace.
#[derive(Debug, Clone)]
pub struct StateSnapshot {
    pub workspace_name: String,
    pub workspace_runtime: String,
    pub tabs: Vec<ClientTab>,
    pub panes: Vec<(u32, Vec<ClientPane>)>,
    pub layouts: Vec<(u32, StateLayout)>,
    pub outputs: Vec<(u32, Vec<u8>)>,
    pub active_tab: Option<u32>,
    pub active_pane: Option<u32>,
}

pub open spec fn state_layout_is(tab: u32) -> spec_fn((u32, StateLayout)) -> bool {
    |e: (u32, StateLayout)| e.0 == tab
}

/// The layout of a tab.
pub open spec fn state_layout(layouts: Seq<(u32, StateLayout)>, tab: u32) -> Option<StateLayout> {
    match find(layouts, state_layout_is(tab)) {
        Some(e) => Some(e.1),
        None => None,
    }
}

/// A string with backslashes and quotes escaped.
pub open spec fn json_escaped(s: Seq<char>) -> Seq<char> {
    replaced(replaced(s, '\\', "\\\\"@), '"', "\\\""@)
}

/// Escapes backslashes, then quotes.
pub fn json_escape(s: &str) -> (r: String)
    ensures
        r@ == json_escaped(s@),
{
    let a = replace_char(s, '\\', "\\\\");
    replace_char(a.as_str(), '"', "\\\"")
}

/// The workspace as it is printed.
pub open spec fn state_workspaces(s: StateSnapshot, format: OutputFormat) -> Seq<char> {
    let name = s.workspace_name@;
    let runtime = s.workspace_runtime@;
    match format {
        OutputFormat::Json => "[{\"id\":\"local/"@ + runtime + "/"@ + json_escaped(name)
            + "\",\"name\":\""@ + json_escaped(name) + "\",\"runtime\":\""@ + runtime
            + "\",\"transport\":\"local\",\"in_pool\":true}]"@,
        OutputFormat::Text => name + " ("@ + runtime + "): attached"@,
    }
}

/// A tab as JSON.
pub open spec fn state_tab_json(tab: ClientTab, panes: nat) -> Seq<char> {
    "{\"id\":\"t"@ + decimal(tab.id as nat) + "\",\"name\":\""@ + json_escaped(tab.name@)
        + "\",\"panes\":"@ + decimal(panes) + ",\"active\":"@ + json_bool(tab.is_active) + "}"@
}

/// Items as a list.
pub open spec fn listed(items: Seq<Seq<char>>) -> Seq<char> {
    "["@ + join(items, ","@) + "]"@
}

/// The tabs as they are printed.
pub open spec fn state_tabs(s: StateSnapshot, format: OutputFormat) -> Seq<char> {
    match format {
        OutputFormat::Json => listed(
            Seq::new(
                s.tabs@.len(),
                |i: int| state_tab_json(s.tabs@[i], panes_of(s.panes@, s.tabs@[i].id).len()),
            ),
        ),
        OutputFormat::Text => join(
            Seq::new(
                s.tabs@.len(),
                |i: int| tab_row_text(s.tabs@[i], panes_of(s.panes@, s.tabs@[i].id).len()),
            ),
            "\n"@,
        ),
    }
}

/// A pane as JSON.
pub open spec fn state_pane_json(pane: ClientPane) -> Seq<char> {
    "{\"id\":\"@"@ + decimal(pane.id as nat) + "\",\"active\":"@ + json_bool(pane.is_active)
        + ",\"size\":{\"w\":"@ + decimal(pane.cols as nat) + ",\"h\":"@ + decimal(
        pane.rows as nat,
    ) + "}}"@
}

/// The panes of a tab; of the active one where none is named.
pub open spec fn state_listed_panes(s: StateSnapshot, tab: Option<u32>) -> Seq<ClientPane> {
    match (tab, s.active_tab) {
        (Some(t), _) => panes_of(s.panes@, t),
        (None, Some(t)) => panes_of(s.panes@, t),
        (None, None) => Seq::<ClientPane>::empty(),
    }
}

/// The panes of a tab as they are printed.
pub open spec fn state_panes(s: StateSnapshot, tab: Option<u32>, format: OutputFormat) -> Seq<
    char,
> {
    let panes = state_listed_panes(s, tab);
    match format {
        OutputFormat::Json => listed(Seq::new(panes.len(), |i: int| state_pane_json(panes[i]))),
        OutputFormat::Text => join(
            Seq::new(panes.len(), |i: int| pane_row_text(panes[i])),
            "\n"@,
        ),
    }
}

/// A tab with its tree as JSON.
pub open spec fn state_layout_json(tab: ClientTab, layout: Option<StateLayout>) -> Seq<char> {
    "{\"id\":\"t"@ + decimal(tab.id as nat) + "\",\"name\":\""@ + json_escaped(tab.name@)
        + "\",\"active\":"@ + json_bool(tab.is_active) + ",\"tree\":"@ + (match layout {
        Some(l) => node_json(l.tree),
        None => "null"@,
    }) + "}"@
}

/// The lines of the panes of a tab.
pub open spec fn state_leaf_lines(s: StateSnapshot, tab: u32, last_tab: bool) -> Seq<Seq<char>> {
    match state_layout(s.layouts@, tab) {
        Some(layout) => Seq::new(
            layout.tree.leaves().len(),
            |j: int|
                leaf_line(
                    last_tab,
                    j + 1 == layout.tree.leaves().len(),
                    layout.tree.leaves()[j],
                    size_of(all_panes(s.panes@), layout.tree.leaves()[j]),
                    " "@,
                    layout.tree.leaves()[j] == layout.active,
                ),
        ),
        None => Seq::<Seq<char>>::empty(),
    }
}

/// The lines of a tab and its panes.
pub open spec fn state_tab_block(s: StateSnapshot, i: int) -> Seq<char> {
    let last = i + 1 == s.tabs@.len();
    tab_line(last, s.tabs@[i]) + flat(state_leaf_lines(s, s.tabs@[i].id, last))
}

/// The layout as it is printed.
pub open spec fn state_layouts(s: StateSnapshot, format: OutputFormat) -> Seq<char> {
    match format {
        OutputFormat::Json => listed(
            Seq::new(
                s.tabs@.len(),
                |i: int| state_layout_json(s.tabs@[i], state_layout(s.layouts@, s.tabs@[i].id)),
            ),
        ),
        OutputFormat::Text => if s.tabs@.len() == 0 {
            "(no tab)"@
        } else {
            trimmed_end(
                tree_head(s.workspace_runtime@, s.workspace_name@) + flat(
                    Seq::new(s.tabs@.len(), |i: int| state_tab_block(s, i)),
                ),
            )
        },
    }
}

/// The output of a pane, or its last lines; empty where there is none.
pub open spec fn state_capture(s: StateSnapshot, target: Option<u32>, lines: Option<usize>) -> Seq<
    char,
> {
    let pane = match target {
        Some(p) => Some(p),
        None => s.active_pane,
    };
    match pane {
        Some(p) => match output_of(s.outputs@, p) {
            Some(bytes) => shown_lines(utf8_lossy(bytes), lines),
            None => Seq::<char>::empty(),
        },
        None => Seq::<char>::empty(),
    }
}

/// What a query prints; nothing for any other command.
pub open spec fn state_output(s: StateSnapshot, cmd: CliCommand, format: OutputFormat) -> Seq<char> {
    match cmd {
        CliCommand::ListWorkspaces => state_workspaces(s, format),
        CliCommand::ListTabs => state_tabs(s, format),
        CliCommand::ListPanes { tab } => state_panes(s, tab, format),
        CliCommand::ListLayout => state_layouts(s, format),
        CliCommand::CapturePane { target, lines } => state_capture(s, target, lines),
        CliCommand::DisplayMessage { target, format } => display_output(
            all_panes(s.panes@),
            target,
            format@,
        ),
        _ => Seq::<char>::empty(),
    }
}

fn list_of(items: &Vec<String>) -> (r: String)
    ensures
        r@ == listed(views(items@)),
{
    let mut out = "[".to_owned();
    out.append(join_strings(items, ",").as_str());
    out.append("]");
    out
}

fn find_state_layout(layouts: &Vec<(u32, StateLayout)>, tab: u32) -> (r: Option<usize>)
    ensures
        match r {
            Some(i) => i < layouts.len() && state_layout(layouts@, tab) == Some(
                layouts@[i as int].1,
            ),
            None => state_layout(layouts@, tab) == None::<StateLayout>,
        },
{
    let mut i: usize = 0;
    while i < layouts.len()
        invariant
            i <= layouts.len(),
            forall|j: int| 0 <= j < i ==> (#[trigger] layouts@[j]).0 != tab,
        decreases layouts.len() - i,
    {
        if layouts[i].0 == tab {
            proof {
                lemma_first_where(layouts@, state_layout_is(tab), i as int);
            }
            return Some(i);
        }
        i += 1;
    }
    proof {
        lemma_no_first(layouts@, state_layout_is(tab));
    }
    None
}

fn format_workspaces(state: &StateSnapshot, format: OutputFormat) -> (r: String)
    ensures
        r@ == state_workspaces(*state, format),
{
    let name = state.workspace_name.as_str();
    let runtime = state.workspace_runtime.as_str();
    match format {
        OutputFormat::Json => {
            let escaped = json_escape(name);
            let mut out = "[{\"id\":\"local/".to_owned();
            out.append(runtime);
            out.append("/");
            out.append(escaped.as_str());
            out.append("\",\"name\":\"");
            out.append(escaped.as_str());
            out.append("\",\"runtime\":\"");
            out.append(runtime);
            out.append("\",\"transport\":\"local\",\"in_pool\":true}]");
            out
        },
        OutputFormat::Text => {
            let mut out = state.workspace_name.clone();
            out.append(" (");
            out.append(runtime);
            out.append("): attached");
            out
        },
    }
}

fn state_tab_row(tab: &ClientTab, panes: usize, format: OutputFormat) -> (r: String)
    ensures
        r@ == match format {
            OutputFormat::Json => state_tab_json(*tab, panes as nat),
            OutputFormat::Text => tab_row_text(*tab, panes as nat),
        },
{
    match format {
        OutputFormat::Json => {
            let mut out = "{\"id\":\"t".to_owned();
            push_decimal(&mut out, tab.id as u64);
            out.append("\",\"name\":\"");
            out.append(json_escape(tab.name.as_str()).as_str());
            out.append("\",\"panes\":");
            push_decimal(&mut out, panes as u64);
            out.append(",\"active\":");
            out.append(bool_text(tab.is_active).as_str());
            out.append("}");
            out
        },
        OutputFormat::Text => {
            let mut out = "t".to_owned();
            push_decimal(&mut out, tab.id as u64);
            out.append(": ");
            out.append(tab.name.as_str());
            out.append(
                if tab.is_active {
                    "*"
                } else {
                    " "
                },
            );
            out.append(" (");
            push_decimal(&mut out, panes as u64);
            out.append(" panes)");
            out
        },
    }
}

fn format_tabs(state: &StateSnapshot, format: OutputFormat) -> (r: String)
    ensures
        r@ == state_tabs(*state, format),
{
    let tabs = &state.tabs;
    let mut items: Vec<String> = Vec::new();
    let mut i: usize = 0;
    while i < tabs.len()
        invariant
            *tabs == state.tabs,
            i <= tabs.len(),
            items.len() == i,
            forall|j: int|
                0 <= j < i ==> (#[trigger] items@[j])@ == match format {
                    OutputFormat::Json => state_tab_json(
                        tabs@[j],
                        panes_of(state.panes@, tabs@[j].id).len(),
                    ),
                    OutputFormat::Text => tab_row_text(
                        tabs@[j],
                        panes_of(state.panes@, tabs@[j].id).len(),
                    ),
                },
        decreases tabs.len() - i,
    {
        let own = tab_panes(&state.panes, tabs[i].id);
        items.push(state_tab_row(&tabs[i], own.len(), format));
        i += 1;
    }
    match format {
        OutputFormat::Json => {
            assert(views(items@) =~= Seq::new(
                tabs@.len(),
                |i: int| state_tab_json(tabs@[i], panes_of(state.panes@, tabs@[i].id).len()),
            ));
            list_of(&items)
        },
        OutputFormat::Text => {
            assert(views(items@) =~= Seq::new(
                tabs@.len(),
                |i: int| tab_row_text(tabs@[i], panes_of(state.panes@, tabs@[i].id).len()),
            ));
            join_strings(&items, "\n")
        },
    }
}

fn state_pane_row(pane: &ClientPane) -> (r: String)
    ensures
        r@ == state_pane_json(*pane),
{
    let mut out = "{\"id\":\"@".to_owned();
    push_decimal(&mut out, pane.id as u64);
    out.append("\",\"active\":");
    out.append(bool_text(pane.is_active).as_str());
    out.append(",\"size\":{\"w\":");
    push_decimal(&mut out, pane.cols as u64);
    out.append(",\"h\":");
    push_decimal(&mut out, pane.rows as u64);
    out.append("}}");
    out
}

fn format_panes(state: &StateSnapshot, tab: Option<u32>, format: OutputFormat) -> (r: String)
    ensures
        r@ == state_panes(*state, tab, format),
{
    let tab_id = match tab {
        Some(t) => Some(t),
        None => state.active_tab,
    };
    let panes: Vec<ClientPane> = match tab_id {
        Some(t) => tab_panes(&state.panes, t),
        None => Vec::new(),
    };
    assert(panes@ =~= state_listed_panes(*state, tab));
    match format {
        OutputFormat::Json => {
            let mut items: Vec<String> = Vec::new();
            let mut i: usize = 0;
            while i < panes.len()
                invariant
                    i <= panes.len(),
                    items.len() == i,
                    forall|j: int|
                        0 <= j < i ==> (#[trigger] items@[j])@ == state_pane_json(panes@[j]),
                decreases panes.len() - i,
            {
                items.push(state_pane_row(&panes[i]));
                i += 1;
            }
            assert(views(items@) =~= Seq::new(panes@.len(), |i: int| state_pane_json(panes@[i])));
            list_of(&items)
        },
        OutputFormat::Text => pane_rows(&panes, OutputFormat::Text),
    }
}

fn push_state_leaf_lines(
    out: &mut String,
    state: &StateSnapshot,
    panes: &Vec<ClientPane>,
    tab: u32,
    last_tab: bool,
)
    requires
        panes@ == all_panes(state.panes@),
    ensures
        final(out)@ == old(out)@ + flat(state_leaf_lines(*state, tab, last_tab)),
{
    match find_state_layout(&state.layouts, tab) {
        Some(k) => {
            let layout = &state.layouts[k].1;
            let leaves = ffi_layout_leaves(&layout.tree);
            let ghost lines = state_leaf_lines(*state, tab, last_tab);
            let mut j: usize = 0;
            assert(out@ =~= old(out)@ + flat(lines.take(0)));
            while j < leaves.len()
                invariant
                    j <= leaves.len(),
                    leaves@ == layout.tree.leaves(),
                    state_layout(state.layouts@, tab) == Some(*layout),
                    panes@ == all_panes(state.panes@),
                    lines == state_leaf_lines(*state, tab, last_tab),
                    out@ == old(out)@ + flat(lines.take(j as int)),
                decreases leaves.len() - j,
            {
                let pane: u32 = leaves[j];
                let size = size_text(panes, pane);
                let ghost before = out@;
                push_leaf_line(
                    out,
                    last_tab,
                    j + 1 == leaves.len(),
                    pane,
                    size.as_str(),
                    " ",
                    pane == layout.active,
                );
                proof {
                    assert(lines.take(j + 1).drop_last() =~= lines.take(j as int));
                    assert(out@ == before + lines[j as int]);
                    assert(out@ =~= old(out)@ + flat(lines.take(j + 1)));
                }
                j += 1;
            }
            assert(lines.take(lines.len() as int) =~= lines);
        },
        None => {
            assert(out@ =~= old(out)@ + flat(state_leaf_lines(*state, tab, last_tab)));
        },
    }
}

fn format_layout(state: &StateSnapshot, format: OutputFormat) -> (r: String)
    ensures
        r@ == state_layouts(*state, format),
{
    let tabs = &state.tabs;
    match format {
        OutputFormat::Json => {
            let mut items: Vec<String> = Vec::new();
            let mut i: usize = 0;
            while i < tabs.len()
                invariant
                    *tabs == state.tabs,
                    i <= tabs.len(),
                    items.len() == i,
                    forall|j: int|
                        0 <= j < i ==> (#[trigger] items@[j])@ == state_layout_json(
                            tabs@[j],
                            state_layout(state.layouts@, tabs@[j].id),
                        ),
                decreases tabs.len() - i,
            {
                let mut out = "{\"id\":\"t".to_owned();
                push_decimal(&mut out, tabs[i].id as u64);
                out.append("\",\"name\":\"");
                out.append(json_escape(tabs[i].name.as_str()).as_str());
                out.append("\",\"active\":");
                out.append(bool_text(tabs[i].is_active).as_str());
                out.append(",\"tree\":");
                match find_state_layout(&state.layouts, tabs[i].id) {
                    Some(k) => {
                        out.append(ffi_layout_node_to_json(&state.layouts[k].1.tree).as_str());
                    },
                    None => {
                        out.append("null");
                    },
                }
                out.append("}");
                items.push(out);
                i += 1;
            }
            assert(views(items@) =~= Seq::new(
                tabs@.len(),
                |i: int| state_layout_json(tabs@[i], state_layout(state.layouts@, tabs@[i].id)),
            ));
            list_of(&items)
        },
        OutputFormat::Text => format_layout_tree(state),
    }
}

fn push_tab_block(out: &mut String, state: &StateSnapshot, panes: &Vec<ClientPane>, i: usize)
    requires
        i < state.tabs@.len(),
        panes@ == all_panes(state.panes@),
    ensures
        final(out)@ == old(out)@ + state_tab_block(*state, i as int),
{
    let last = i == state.tabs.len() - 1;
    push_tab_line(out, last, &state.tabs[i]);
    push_state_leaf_lines(out, state, panes, state.tabs[i].id, last);
    assert(out@ =~= old(out)@ + state_tab_block(*state, i as int));
}

#[verifier::spinoff_prover]
fn format_layout_tree(state: &StateSnapshot) -> (r: String)
    ensures
        r@ == state_layouts(*state, OutputFormat::Text),
{
    if state.tabs.len() == 0 {
        return "(no tab)".to_owned();
    }
    let panes = flat_panes(&state.panes);
    let mut out = tree_head_text(state.workspace_runtime.as_str(), state.workspace_name.as_str());
    let ghost head = out@;
    let ghost blocks = Seq::new(state.tabs@.len(), |i: int| state_tab_block(*state, i));
    let mut i: usize = 0;
    assert(out@ =~= head + flat(blocks.take(0)));
    while i < state.tabs.len()
        invariant
            i <= state.tabs.len(),
            panes@ == all_panes(state.panes@),
            blocks.len() == state.tabs@.len(),
            forall|j: int|
                0 <= j < blocks.len() ==> #[trigger] blocks[j] == state_tab_block(*state, j),
            out@ == head + flat(blocks.take(i as int)),
        decreases state.tabs.len() - i,
    {
        push_tab_block(&mut out, state, &panes, i);
        proof {
            lemma_flat_step(blocks, i as int);
        }
        assert(out@ =~= head + flat(blocks.take(i + 1)));
        i += 1;
    }
    assert(blocks.take(blocks.len() as int) =~= blocks);
    trim_end(out.as_str())
}

fn format_capture(state: &StateSnapshot, target: Option<u32>, lines: Option<usize>) -> (r: String)
    ensures
        r@ == state_capture(*state, target, lines),
{
    let pane = match target {
        Some(p) => Some(p),
        None => state.active_pane,
    };
    match pane {
        Some(p) => match find_output(&state.outputs, p) {
            Some(i) => show_lines(from_utf8_lossy(&state.outputs[i].1), lines),
            None => String::new(),
        },
        None => String::new(),
    }
}

fn format_display(state: &StateSnapshot, target: u32, message: &str) -> (r: String)
    ensures
        r@ == display_output(all_panes(state.panes@), target, message@),
{
    let panes = flat_panes(&state.panes);
    match find_pane(&panes, target) {
        Some(i) => fill_message(message, &panes[i]),
        None => String::new(),
    }
}

/// Prints what a query asks for; nothing for any other command.
pub fn format_output(state: &StateSnapshot, cmd: &CliCommand, format: OutputFormat) -> (r: String)
    ensures
        r@ == state_output(*state, *cmd, format),
{
    match cmd {
        CliCommand::ListWorkspaces => format_workspaces(state, format),
        CliCommand::ListTabs => format_tabs(state, format),
        CliCommand::ListPanes { tab } => format_panes(state, *tab, format),
        CliCommand::ListLayout => format_layout(state, format),
        CliCommand::CapturePane { target, lines } => format_capture(state, *target, *lines),
        CliCommand::DisplayMessage { target, format: message } => format_display(
            state,
            *target,
            message.as_str(),
        ),
        _ => String::new(),
    }
}

} // verus!
