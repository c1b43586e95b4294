//! The command line: what its queries print, and what its commands ask for.
use vstd::prelude::*;
use vstd::string::*;
use vstd::utf8::encode_utf8;

use crate::cli::command::{CliCommand, OutputFormat};
use crate::cli::format::{
    captured_pane, filled, leaf_line, listed_panes, node_json, pane_row_text, query_output,
    shown_lines, tab_line, tab_row_text, tree_head, workspace_row_text,
};
use crate::cli::routing::{
    attach_target, chosen_workspace, flag_value, plan_of, session_name_of, CommandPlanView,
};
use crate::client::call::CoreCallView;
use crate::client::snapshot::{active_pane, active_tab, panes_of, FfiWorkspaceSnapshot};
use crate::client::types::{ClientLayout, ClientPane, ClientTab, ClientWorkspace};
use crate::laws::tasks::asks;
use crate::seqs::{lemma_first_where, lemma_no_first};
use crate::text::find::starts_with;
use crate::text::lines::{lines_of, substituted};
use crate::text::number::{
    decimal, lemma_decimal_injective, lemma_decimal_nonempty,
};
use crate::text::split::join;

verus! {

// ---------------------------------------------------------------------------
// The layout tree.
// ---------------------------------------------------------------------------

/// A split is written with its direction, its ratio, and its first half before
/// its second; a pane by its number.
pub proof fn law_a_split_is_written_with_its_direction(
    pane_id: u32,
    ratio: u32,
    first: Box<ClientLayout>,
    second: Box<ClientLayout>,
)
    ensures
        node_json((ClientLayout::Leaf { pane_id })) == "\"@"@ + decimal(pane_id as nat) + "\""@,
        node_json((ClientLayout::Split { horizontal: true, ratio, first, second }))
            == "{\"type\":\"split\",\"dir\":\"horizontal\",\"ratio\":"@ + decimal(ratio as nat)
            + ",\"first\":"@ + node_json(*first) + ",\"second\":"@ + node_json(*second) + "}"@,
        node_json((ClientLayout::Split { horizontal: false, ratio, first, second }))
            == "{\"type\":\"split\",\"dir\":\"vertical\",\"ratio\":"@ + decimal(ratio as nat)
            + ",\"first\":"@ + node_json(*first) + ",\"second\":"@ + node_json(*second) + "}"@,
{
    reveal_strlit("{\"type\":\"split\",\"dir\":\"");
    reveal_strlit("horizontal");
    reveal_strlit("vertical");
    reveal_strlit("\",\"ratio\":");
    reveal_strlit("{\"type\":\"split\",\"dir\":\"horizontal\",\"ratio\":");
    reveal_strlit("{\"type\":\"split\",\"dir\":\"vertical\",\"ratio\":");
    assert("{\"type\":\"split\",\"dir\":\""@ + "horizontal"@ + "\",\"ratio\":"@
        =~= "{\"type\":\"split\",\"dir\":\"horizontal\",\"ratio\":"@);
    assert("{\"type\":\"split\",\"dir\":\""@ + "vertical"@ + "\",\"ratio\":"@
        =~= "{\"type\":\"split\",\"dir\":\"vertical\",\"ratio\":"@);
}

/// The text of a split begins with its own direction and never with the other
/// one.
pub proof fn law_the_direction_can_be_read(layout: ClientLayout)
    ensures
        starts_with(node_json(layout), "{\"type\":\"split\",\"dir\":\"horizontal\""@) <==> (
        layout matches ClientLayout::Split { horizontal, .. } && horizontal),
        starts_with(node_json(layout), "{\"type\":\"split\",\"dir\":\"vertical\""@) <==> (
        layout matches ClientLayout::Split { horizontal, .. } && !horizontal),
{
    let h = "{\"type\":\"split\",\"dir\":\"horizontal\""@;
    let v = "{\"type\":\"split\",\"dir\":\"vertical\""@;
    reveal_strlit("{\"type\":\"split\",\"dir\":\"horizontal\"");
    reveal_strlit("{\"type\":\"split\",\"dir\":\"vertical\"");
    reveal_strlit("{\"type\":\"split\",\"dir\":\"horizontal\",\"ratio\":");
    reveal_strlit("{\"type\":\"split\",\"dir\":\"vertical\",\"ratio\":");
    reveal_strlit("\"@");
    let t = node_json(layout);
    match layout {
        ClientLayout::Leaf { pane_id } => {
            law_a_split_is_written_with_its_direction(
                pane_id,
                0,
                Box::new(layout),
                Box::new(layout),
            );
            assert(t[0] == '"');
            if starts_with(t, h) {
                assert(t.take(h.len() as int)[0] == h[0]);
            }
            if starts_with(t, v) {
                assert(t.take(v.len() as int)[0] == v[0]);
            }
        },
        ClientLayout::Split { horizontal, ratio, first, second } => {
            law_a_split_is_written_with_its_direction(0, ratio, first, second);
            if horizontal {
                assert(t.take(h.len() as int) =~= h);
                if starts_with(t, v) {
                    assert(t.take(v.len() as int)[23] == v[23]);
                }
            } else {
                assert(t.take(v.len() as int) =~= v);
                if starts_with(t, h) {
                    assert(t.take(h.len() as int)[23] == h[23]);
                }
            }
        },
    }
}

/// Numbers in front of the same character that is no digit, at the start of the
/// same text, are the same.
proof fn lemma_number_ends(m: nat, x: Seq<char>, n: nat, y: Seq<char>, c: char)
    requires
        decimal(m) + seq![c] + x == decimal(n) + seq![c] + y,
        !('0' <= c <= '9'),
    ensures
        m == n,
        x == y,
{
    lemma_decimal_nonempty(m);
    lemma_decimal_nonempty(n);
    let a = decimal(m);
    let b = decimal(n);
    let s = a + seq![c] + x;
    let t = b + seq![c] + y;
    if a.len() < b.len() {
        assert(s[a.len() as int] == c);
        assert(t[a.len() as int] == b[a.len() as int]);
    } else if b.len() < a.len() {
        assert(t[b.len() as int] == c);
        assert(s[b.len() as int] == a[b.len() as int]);
    } else {
        assert(s.take(a.len() as int) =~= a);
        assert(t.take(b.len() as int) =~= b);
        lemma_decimal_injective(m, n);
        assert(s.skip(a.len() as int + 1) =~= x);
        assert(t.skip(b.len() as int + 1) =~= y);
    }
}

proof fn lemma_same_front(p: Seq<char>, x: Seq<char>, y: Seq<char>)
    requires
        p + x == p + y,
    ensures
        x == y,
{
    assert((p + x).skip(p.len() as int) =~= x);
    assert((p + y).skip(p.len() as int) =~= y);
}

spec fn split_head(horizontal: bool) -> Seq<char> {
    if horizontal {
        "{\"type\":\"split\",\"dir\":\"horizontal\",\"ratio\":"@
    } else {
        "{\"type\":\"split\",\"dir\":\"vertical\",\"ratio\":"@
    }
}

proof fn lemma_leaf_shape(m: u32, x: Seq<char>)
    ensures
        node_json((ClientLayout::Leaf { pane_id: m })) + x
            == "\"@"@ + (decimal(m as nat) + seq!['"']
            + x),
        "\"@"@.len() == 2,
        "\"@"@[0] == '"',
{
    reveal_strlit("\"@");
    reveal_strlit("\"");
    let d = ClientLayout::Leaf { pane_id: m };
    law_a_split_is_written_with_its_direction(m, 0, Box::new(d), Box::new(d));
    assert("\""@ =~= seq!['"']);
    assert(node_json(d) + x =~= "\"@"@ + (decimal(m as nat) + seq!['"'] + x));
}

proof fn lemma_split_shape(
    horizontal: bool,
    ratio: u32,
    first: Box<ClientLayout>,
    second: Box<ClientLayout>,
    x: Seq<char>,
)
    ensures
        node_json((ClientLayout::Split { horizontal, ratio, first, second })) + x == split_head(
            horizontal,
        ) + (decimal(ratio as nat) + seq![','] + (",\"first\":"@.drop_first() + (node_json(*first)
            + (
        ",\"second\":"@ + (node_json(*second) + ("}"@ + x)))))),
        split_head(horizontal).len() > 24,
        split_head(horizontal)[0] == '{',
        split_head(horizontal)[23] == if horizontal {
            'h'
        } else {
            'v'
        },
{
    reveal_strlit("{\"type\":\"split\",\"dir\":\"horizontal\",\"ratio\":");
    reveal_strlit("{\"type\":\"split\",\"dir\":\"vertical\",\"ratio\":");
    law_a_split_is_written_with_its_direction(0, ratio, first, second);
    lemma_first_mark();
    let mark = ",\"first\":"@.drop_first();
    lemma_regroup(
        split_head(horizontal),
        decimal(ratio as nat),
        seq![','],
        mark,
        node_json(*first),
        ",\"second\":"@,
        node_json(*second),
        "}"@,
        x,
    );
}

proof fn lemma_first_mark()
    ensures
        ",\"first\":"@ == seq![','] + ",\"first\":"@.drop_first(),
{
    reveal_strlit(",\"first\":");
    assert(",\"first\":"@ =~= seq![','] + ",\"first\":"@.drop_first());
}

proof fn lemma_regroup(
    a: Seq<char>,
    b: Seq<char>,
    c: Seq<char>,
    d: Seq<char>,
    e: Seq<char>,
    f: Seq<char>,
    g: Seq<char>,
    h: Seq<char>,
    x: Seq<char>,
)
    ensures
        (a + b + (c + d) + e + f + g + h) + x == a + (b + c + (d + (e + (f + (g + (h + x)))))),
{
    let p = a + b + (c + d);
    assert((p + e + f + g + h) + x =~= p + (e + (f + (g + (h + x)))));
    let y = e + (f + (g + (h + x)));
    assert(p + y =~= a + (b + c + (d + y)));
}

proof fn lemma_nodes_end(a: ClientLayout, x: Seq<char>, b: ClientLayout, y: Seq<char>)
    requires
        node_json(a) + x == node_json(b) + y,
    ensures
        a == b,
        x == y,
    decreases a,
{
    let s = node_json(a) + x;
    match (a, b) {
        (ClientLayout::Leaf { pane_id: m }, ClientLayout::Leaf { pane_id: n }) => {
            lemma_leaf_shape(m, x);
            lemma_leaf_shape(n, y);
            lemma_same_front(
                "\"@"@,
                decimal(m as nat) + seq!['"'] + x,
                decimal(n as nat) + seq!['"'] + y,
            );
            lemma_number_ends(m as nat, x, n as nat, y, '"');
        },
        (
            ClientLayout::Split { horizontal: h, ratio: r, first: f, second: g },
            ClientLayout::Split { horizontal: k, ratio: q, first: u, second: w },
        ) => {
            lemma_split_shape(h, r, f, g, x);
            lemma_split_shape(k, q, u, w, y);
            assert(s[23] == split_head(h)[23]);
            assert(s[23] == split_head(k)[23]);
            assert(h == k);
            let mark = ",\"first\":"@.drop_first();
            let next = ",\"second\":"@;
            let p2 = node_json(*g) + ("}"@ + x);
            let q2 = node_json(*w) + ("}"@ + y);
            let p1 = node_json(*f) + (next + p2);
            let q1 = node_json(*u) + (next + q2);
            lemma_same_front(
                split_head(h),
                decimal(r as nat) + seq![','] + (mark + p1),
                decimal(q as nat) + seq![','] + (mark + q1),
            );
            lemma_number_ends(r as nat, mark + p1, q as nat, mark + q1, ',');
            lemma_same_front(mark, p1, q1);
            lemma_nodes_end(*f, next + p2, *u, next + q2);
            lemma_same_front(next, p2, q2);
            lemma_nodes_end(*g, "}"@ + x, *w, "}"@ + y);
            lemma_same_front("}"@, x, y);
        },
        (
            ClientLayout::Leaf { pane_id: m },
            ClientLayout::Split { horizontal: k, ratio: q, first: u, second: w },
        ) => {
            lemma_leaf_shape(m, x);
            lemma_split_shape(k, q, u, w, y);
            assert(s[0] == "\"@"@[0]);
            assert(s[0] == split_head(k)[0]);
        },
        (
            ClientLayout::Split { horizontal: h, ratio: r, first: f, second: g },
            ClientLayout::Leaf { pane_id: n },
        ) => {
            lemma_leaf_shape(n, y);
            lemma_split_shape(h, r, f, g, x);
            assert(s[0] == "\"@"@[0]);
            assert(s[0] == split_head(h)[0]);
        },
    }
}

/// The tree can be read back from its text: two trees with the same text are
/// the same, in every direction, ratio and pane.
pub proof fn law_the_tree_can_be_read_back(a: ClientLayout, b: ClientLayout)
    requires
        node_json(a) == node_json(b),
    ensures
        a == b,
{
    let none = Seq::<char>::empty();
    assert(node_json(a) + none =~= node_json(b) + none);
    lemma_nodes_end(a, none, b, none);
}

// ---------------------------------------------------------------------------
// Rows of text.
// ---------------------------------------------------------------------------

/// A workspace is printed with its name, its runtime and whether it is
/// attached.
pub proof fn law_the_row_of_a_workspace(w: ClientWorkspace)
    ensures
        w.active ==> workspace_row_text(w) == w.name@ + " ("@ + w.runtime@ + "): "@ + "attached"@,
        !w.active ==> workspace_row_text(w) == w.name@ + " ("@ + w.runtime@ + "): "@ + "open"@,
{
}

/// A tab is printed with its number, its name, a star where it is active, and
/// the number of its panes.
pub proof fn law_the_row_of_a_tab(tab: ClientTab, panes: nat)
    ensures
        tab.is_active ==> tab_row_text(tab, panes) == "t"@ + decimal(tab.id as nat) + ": "@
            + tab.name@ + "*"@ + " ("@ + decimal(panes) + " panes)"@,
        !tab.is_active ==> tab_row_text(tab, panes) == "t"@ + decimal(tab.id as nat) + ": "@
            + tab.name@ + " "@ + " ("@ + decimal(panes) + " panes)"@,
{
}

/// A pane is printed with its number, a star where it is active, its width and
/// its height.
pub proof fn law_the_row_of_a_pane_on_the_command_line(pane: ClientPane)
    ensures
        pane.is_active ==> pane_row_text(pane) == "@"@ + decimal(pane.id as nat) + "*"@ + " "@
            + decimal(pane.cols as nat) + "x"@ + decimal(pane.rows as nat),
        !pane.is_active ==> pane_row_text(pane) == "@"@ + decimal(pane.id as nat) + " "@ + " "@
            + decimal(pane.cols as nat) + "x"@ + decimal(pane.rows as nat),
{
}

/// The lines of the tree: the last tab and the last pane of a tab have the
/// corner, the others the branch, and what is active says so.
pub proof fn law_the_lines_of_the_tree(
    tab: ClientTab,
    pane: u32,
    size: Seq<char>,
    gap: Seq<char>,
    runtime: Seq<char>,
    name: Seq<char>,
)
    ensures
        tree_head(runtime, name) == "workspace "@ + runtime + ": "@ + name + "\n"@,
        tab.is_active ==> tab_line(true, tab) == "└─"@ + " tab t"@ + decimal(tab.id as nat)
            + ": "@ + tab.name@ + " [active]"@ + "\n"@,
        tab.is_active ==> tab_line(false, tab) == "├─"@ + " tab t"@ + decimal(tab.id as nat)
            + ": "@ + tab.name@ + " [active]"@ + "\n"@,
        !tab.is_active ==> tab_line(true, tab) == "└─"@ + " tab t"@ + decimal(tab.id as nat)
            + ": "@ + tab.name@ + ""@ + "\n"@,
        leaf_line(true, true, pane, size, gap, true) == "   "@ + "   "@ + "└─"@ + " @"@ + decimal(
            pane as nat,
        ) + " "@ + size + gap + " [active]"@ + "\n"@,
        leaf_line(false, true, pane, size, gap, true) == "│  "@ + "   "@ + "└─"@ + " @"@ + decimal(
            pane as nat,
        ) + " "@ + size + gap + " [active]"@ + "\n"@,
        leaf_line(true, false, pane, size, gap, false) == "   "@ + "   "@ + "├─"@ + " @"@ + decimal(
            pane as nat,
        ) + " "@ + size + gap + ""@ + "\n"@,
        leaf_line(false, false, pane, size, gap, false)
            == "│  "@ + "   "@ + "├─"@ + " @"@ + decimal(
            pane as nat,
        ) + " "@ + size + gap + ""@ + "\n"@,
{
}

/// Each query prints one row for each thing it lists, in its order, separated
/// by line ends.
pub proof fn law_text_queries_print_one_row_each(
    workspaces: Seq<ClientWorkspace>,
    s: FfiWorkspaceSnapshot,
    tab: Option<u32>,
)
    ensures
        query_output(workspaces, s, CliCommand::ListWorkspaces, OutputFormat::Text) == join(
            Seq::new(workspaces.len(), |i: int| workspace_row_text(workspaces[i])),
            "\n"@,
        ),
        query_output(workspaces, s, CliCommand::ListTabs, OutputFormat::Text) == join(
            Seq::new(
                s.tabs@.len(),
                |i: int| tab_row_text(s.tabs@[i], panes_of(s.panes@, s.tabs@[i].id).len()),
            ),
            "\n"@,
        ),
        query_output(workspaces, s, (CliCommand::ListPanes { tab }), OutputFormat::Text) == join(
            Seq::new(listed_panes(s, tab).len(), |i: int| pane_row_text(listed_panes(s, tab)[i])),
            "\n"@,
        ),
{
}

/// What is not a query prints nothing.
pub proof fn law_other_commands_print_nothing(
    workspaces: Seq<ClientWorkspace>,
    s: FfiWorkspaceSnapshot,
    cmd: CliCommand,
    format: OutputFormat,
)
    requires
        !(cmd is ListWorkspaces) && !(cmd is ListTabs) && !(cmd is ListPanes)
            && !(cmd is ListLayout),
        !(cmd is CapturePane) && !(cmd is DisplayMessage),
    ensures
        query_output(workspaces, s, cmd, format).len() == 0,
{
}

// ---------------------------------------------------------------------------
// Which panes, which text.
// ---------------------------------------------------------------------------

/// The panes of a tab are those of the first entry for it.
pub proof fn law_panes_of_a_tab(panes: Seq<(u32, Vec<ClientPane>)>, tab: u32, k: int)
    ensures
        0 <= k < panes.len() && panes[k].0 == tab && (forall|j: int|
            0 <= j < k ==> (#[trigger] panes[j]).0 != tab) ==> panes_of(panes, tab) == panes[k].1@,
        (forall|j: int| 0 <= j < panes.len() ==> (#[trigger] panes[j]).0 != tab) ==> panes_of(
            panes,
            tab,
        ).len() == 0,
{
    let f = |e: (u32, Vec<ClientPane>)| e.0 == tab;
    assert(f =~= crate::client::snapshot::panes_entry_is(tab));
    if 0 <= k < panes.len() && panes[k].0 == tab && (forall|j: int|
        0 <= j < k ==> (#[trigger] panes[j]).0 != tab) {
        lemma_first_where(panes, f, k);
    }
    if forall|j: int| 0 <= j < panes.len() ==> (#[trigger] panes[j]).0 != tab {
        lemma_no_first(panes, f);
    }
}

/// The active tab is the first that is active, and so is the active pane.
pub proof fn law_what_is_active(tabs: Seq<ClientTab>, panes: Seq<ClientPane>, k: int)
    ensures
        0 <= k < tabs.len() && tabs[k].is_active && (forall|j: int|
            0 <= j < k ==> !(#[trigger] tabs[j]).is_active)
                ==> active_tab(tabs) == Some(tabs[k].id),
        (forall|j: int| 0 <= j < tabs.len() ==> !(#[trigger] tabs[j]).is_active) ==> active_tab(
            tabs,
        ) is None,
        0 <= k < panes.len() && panes[k].is_active && (forall|j: int|
            0 <= j < k ==> !(#[trigger] panes[j]).is_active) ==> active_pane(panes) == Some(
            panes[k].id,
        ),
        (forall|j: int| 0 <= j < panes.len() ==> !(#[trigger] panes[j]).is_active) ==> active_pane(
            panes,
        ) is None,
{
    let f = |t: ClientTab| t.is_active;
    let g = |p: ClientPane| p.is_active;
    assert(f =~= crate::client::snapshot::tab_active());
    assert(g =~= crate::client::snapshot::pane_active());
    if 0 <= k < tabs.len() && tabs[k].is_active && (forall|j: int|
        0 <= j < k ==> !(#[trigger] tabs[j]).is_active) {
        lemma_first_where(tabs, f, k);
    }
    if forall|j: int| 0 <= j < tabs.len() ==> !(#[trigger] tabs[j]).is_active {
        lemma_no_first(tabs, f);
    }
    if 0 <= k < panes.len() && panes[k].is_active && (forall|j: int|
        0 <= j < k ==> !(#[trigger] panes[j]).is_active) {
        lemma_first_where(panes, g, k);
    }
    if forall|j: int| 0 <= j < panes.len() ==> !(#[trigger] panes[j]).is_active {
        lemma_no_first(panes, g);
    }
}

/// A named tab or pane is the one that is listed or captured; without a name
/// it is the active one, and where none is active there is none.
pub proof fn law_a_name_wins_over_what_is_active(s: FfiWorkspaceSnapshot, n: u32)
    ensures
        listed_panes(s, Some(n)) == panes_of(s.panes@, n),
        active_tab(s.tabs@) == Some(n) ==> listed_panes(s, None) == panes_of(s.panes@, n),
        active_tab(s.tabs@) is None ==> listed_panes(s, None).len() == 0,
        captured_pane(s, Some(n)) == Some(n),
        active_tab(s.tabs@) == Some(n) ==> captured_pane(s, None) == active_pane(
            panes_of(s.panes@, n),
        ),
        active_tab(s.tabs@) is None ==> captured_pane(s, None) is None,
{
}

/// A capture is the whole text, or the last lines of it: all of them where it
/// has no more, and else as many as were asked for.
pub proof fn law_a_capture_ends_with_the_text(text: Seq<char>, n: usize)
    ensures
        shown_lines(text, None) == text,
        lines_of(text).len() <= n ==> shown_lines(text, Some(n)) == join(lines_of(text), "\n"@),
        lines_of(text).len() > n ==> shown_lines(text, Some(n)) == join(
            lines_of(text).subrange(lines_of(text).len() - n, lines_of(text).len() as int),
            "\n"@,
        ),
{
    let all = lines_of(text);
    assert(all.skip(0) =~= all);
    if all.len() > n {
        assert(all.skip(all.len() - n) =~= all.subrange(all.len() - n, all.len() as int));
    }
}

// ---------------------------------------------------------------------------
// Messages.
// ---------------------------------------------------------------------------

/// A text without the sign that a placeholder begins with.
pub open spec fn has_no_mark(s: Seq<char>) -> bool {
    forall|i: int| 0 <= i < s.len() ==> s[i] != '#'
}

proof fn lemma_kept(a: Seq<char>, rest: Seq<char>, from: Seq<char>, to: Seq<char>)
    requires
        has_no_mark(a),
        from.len() > 0,
        from[0] == '#',
    ensures
        substituted(a + rest, from, to) == a + substituted(rest, from, to),
    decreases a.len(),
{
    if a.len() == 0 {
        assert(a + rest =~= rest);
        assert(a + substituted(rest, from, to) =~= substituted(rest, from, to));
    } else {
        let s = a + rest;
        if starts_with(s, from) {
            assert(s.take(from.len() as int)[0] == from[0]);
            assert(s[0] == a[0]);
        }
        lemma_kept(a.drop_first(), rest, from, to);
        assert(s.drop_first() =~= a.drop_first() + rest);
        assert(seq![a[0]] + (a.drop_first() + substituted(rest, from, to)) =~= a + substituted(
            rest,
            from,
            to,
        ));
    }
}

proof fn lemma_kept_whole(a: Seq<char>, from: Seq<char>, to: Seq<char>)
    requires
        has_no_mark(a),
        from.len() > 0,
        from[0] == '#',
    ensures
        substituted(a, from, to) == a,
{
    let none = Seq::<char>::empty();
    lemma_kept(a, none, from, to);
    assert(a + none =~= a);
    assert(a + substituted(none, from, to) =~= a);
}

/// A placeholder is no other one where they differ in some letter.
proof fn lemma_other_mark(word: Seq<char>, rest: Seq<char>, from: Seq<char>, to: Seq<char>, k: int)
    requires
        word.len() > 0,
        word[0] == '#',
        has_no_mark(word.drop_first()),
        from.len() > 0,
        from[0] == '#',
        0 < k < from.len(),
        k < word.len(),
        word[k] != from[k],
        has_no_mark(rest),
    ensures
        substituted(word + rest, from, to) == word + rest,
{
    let s = word + rest;
    if starts_with(s, from) {
        assert(s.take(from.len() as int)[k] == from[k]);
        assert(s[k] == word[k]);
    }
    let tail = word.drop_first() + rest;
    assert(s.drop_first() =~= tail);
    assert(has_no_mark(tail));
    lemma_kept_whole(tail, from, to);
    assert(s =~= seq!['#'] + tail);
}

proof fn lemma_this_mark(word: Seq<char>, rest: Seq<char>, to: Seq<char>)
    requires
        word.len() > 0,
        word[0] == '#',
        has_no_mark(rest),
    ensures
        substituted(word + rest, word, to) == to + rest,
{
    let s = word + rest;
    assert(s.take(word.len() as int) =~= word);
    assert(s.skip(word.len() as int) =~= rest);
    lemma_kept_whole(rest, word, to);
}

proof fn lemma_digits_have_no_mark(n: nat)
    ensures
        has_no_mark(decimal(n)),
{
    lemma_decimal_nonempty(n);
    assert forall|i: int| 0 <= i < decimal(n).len() implies decimal(n)[i] != '#' by {
        assert('0' <= decimal(n)[i] <= '9');
    }
}

proof fn lemma_marks()
    ensures
        "#{pane_id}"@ =~= seq!['#', '{', 'p', 'a', 'n', 'e', '_', 'i', 'd', '}'],
        "#{pane_active}"@ =~= seq![
            '#', '{', 'p', 'a', 'n', 'e', '_', 'a', 'c', 't', 'i', 'v', 'e', '}',
        ],
        "#{pane_width}"@ =~= seq![
            '#', '{', 'p', 'a', 'n', 'e', '_', 'w', 'i', 'd', 't', 'h', '}',
        ],
        "#{pane_height}"@ =~= seq![
            '#', '{', 'p', 'a', 'n', 'e', '_', 'h', 'e', 'i', 'g', 'h', 't', '}',
        ],
        "#{pane_title}"@ =~= seq![
            '#', '{', 'p', 'a', 'n', 'e', '_', 't', 'i', 't', 'l', 'e', '}',
        ],
        has_no_mark("#{pane_id}"@.drop_first()),
        has_no_mark("#{pane_active}"@.drop_first()),
        has_no_mark("#{pane_width}"@.drop_first()),
        has_no_mark("#{pane_height}"@.drop_first()),
        has_no_mark("#{pane_title}"@.drop_first()),
{
    reveal_strlit("#{pane_id}");
    reveal_strlit("#{pane_active}");
    reveal_strlit("#{pane_width}");
    reveal_strlit("#{pane_height}");
    reveal_strlit("#{pane_title}");
}

/// What each placeholder stands for.
pub open spec fn stands_for(word: Seq<char>, pane: ClientPane) -> Option<Seq<char>> {
    if word == "#{pane_id}"@ {
        Some("@"@ + decimal(pane.id as nat))
    } else if word == "#{pane_active}"@ {
        Some(
            if pane.is_active {
                "true"@
            } else {
                "false"@
            },
        )
    } else if word == "#{pane_width}"@ {
        Some(decimal(pane.cols as nat))
    } else if word == "#{pane_height}"@ {
        Some(decimal(pane.rows as nat))
    } else if word == "#{pane_title}"@ {
        Some(pane.title@)
    } else {
        None
    }
}

/// One substitution on a text with one placeholder in it: it is filled in
/// where it is the one meant, and else stays.
proof fn lemma_one_mark(
    a: Seq<char>,
    word: Seq<char>,
    b: Seq<char>,
    from: Seq<char>,
    to: Seq<char>,
)
    requires
        has_no_mark(a),
        has_no_mark(b),
        word.len() > 7,
        word[0] == '#',
        has_no_mark(word.drop_first()),
        from.len() > 7,
        from[0] == '#',
        word != from ==> word[7] != from[7],
    ensures
        substituted(a + word + b, from, to) == if word == from {
            a + to + b
        } else {
            a + word + b
        },
{
    assert(a + word + b =~= a + (word + b));
    lemma_kept(a, word + b, from, to);
    if word == from {
        lemma_this_mark(word, b, to);
        assert(a + (to + b) =~= a + to + b);
    } else {
        lemma_other_mark(word, b, from, to, 7);
    }
}

proof fn lemma_unmarked(a: Seq<char>, to: Seq<char>, b: Seq<char>, from: Seq<char>, x: Seq<char>)
    requires
        has_no_mark(a),
        has_no_mark(b),
        has_no_mark(to),
        from.len() > 0,
        from[0] == '#',
    ensures
        substituted(a + to + b, from, x) == a + to + b,
{
    assert(has_no_mark(a + to + b));
    lemma_kept_whole(a + to + b, from, x);
}

/// A text without placeholders is printed as it is.
pub proof fn law_plain_messages_stay(text: Seq<char>, pane: ClientPane)
    requires
        has_no_mark(text),
    ensures
        filled(text, pane) == text,
{
    lemma_marks();
    lemma_kept_whole(text, "#{pane_id}"@, "@"@ + decimal(pane.id as nat));
    lemma_kept_whole(text, "#{pane_active}"@, crate::json::json_bool(pane.is_active));
    lemma_kept_whole(text, "#{pane_width}"@, decimal(pane.cols as nat));
    lemma_kept_whole(text, "#{pane_height}"@, decimal(pane.rows as nat));
    lemma_kept_whole(text, "#{pane_title}"@, pane.title@);
}

/// Each placeholder is filled with what it names, wherever it stands in a text:
/// the number of the pane, whether it is active, its width, its height and its
/// title.
pub proof fn law_placeholders_are_filled(
    a: Seq<char>,
    word: Seq<char>,
    b: Seq<char>,
    pane: ClientPane,
)
    requires
        has_no_mark(a),
        has_no_mark(b),
        stands_for(word, pane) is Some,
    ensures
        filled(a + word + b, pane) == a + stands_for(word, pane)->0 + b,
{
    lemma_marks();
    reveal_strlit("@");
    reveal_strlit("true");
    reveal_strlit("false");
    let id = "@"@ + decimal(pane.id as nat);
    let active = crate::json::json_bool(pane.is_active);
    let cols = decimal(pane.cols as nat);
    let rows = decimal(pane.rows as nat);
    lemma_digits_have_no_mark(pane.id as nat);
    lemma_digits_have_no_mark(pane.cols as nat);
    lemma_digits_have_no_mark(pane.rows as nat);
    assert(has_no_mark(id));
    assert(has_no_mark(active));
    let t = a + word + b;
    let (w1, w2, w3, w4, w5) = (
        "#{pane_id}"@,
        "#{pane_active}"@,
        "#{pane_width}"@,
        "#{pane_height}"@,
        "#{pane_title}"@,
    );
    lemma_one_mark(a, word, b, w1, id);
    lemma_one_mark(a, word, b, w2, active);
    lemma_one_mark(a, word, b, w3, cols);
    lemma_one_mark(a, word, b, w4, rows);
    lemma_one_mark(a, word, b, w5, pane.title@);
    if word == w1 {
        lemma_unmarked(a, id, b, w2, active);
        lemma_unmarked(a, id, b, w3, cols);
        lemma_unmarked(a, id, b, w4, rows);
        lemma_unmarked(a, id, b, w5, pane.title@);
    } else if word == w2 {
        lemma_unmarked(a, active, b, w3, cols);
        lemma_unmarked(a, active, b, w4, rows);
        lemma_unmarked(a, active, b, w5, pane.title@);
    } else if word == w3 {
        lemma_unmarked(a, cols, b, w4, rows);
        lemma_unmarked(a, cols, b, w5, pane.title@);
    } else if word == w4 {
        lemma_unmarked(a, rows, b, w5, pane.title@);
    }
}

// ---------------------------------------------------------------------------
// Commands.
// ---------------------------------------------------------------------------

/// A command asks the core for one task in its workspace.
pub open spec fn runs(
    plan: CommandPlanView,
    workspace: Seq<char>,
    type_: int,
    pane: u32,
    tab: u32,
    dir: int,
) -> bool {
    plan matches CommandPlanView::Call { operation, call } && operation == "task"@ && (
    call matches CoreCallView::ExecuteWorkspace { workspace_id, task } && workspace_id == workspace
        && asks(task, type_, pane, tab, dir))
}

/// Each command asks for its own task, in the workspace of the session, with
/// the pane or the tab that it names or else the active one.
pub proof fn law_each_command_asks_for_its_task(
    workspace: Seq<char>,
    n: u32,
    m: u32,
    tab: Option<u32>,
    pane: Option<u32>,
)
    requires
        !workspace.contains('\0'),
    ensures
        runs(plan_of(CliCommand::CloseWorkspace, workspace, tab, pane), workspace, 14, 0, 0, 0),
        runs(plan_of(CliCommand::Detach, workspace, tab, pane), workspace, 13, 0, 0, 0),
        runs(
            plan_of((CliCommand::KillTab { target: Some(n) }), workspace, tab, pane),
            workspace,
            4,
            0,
            n,
            0,
        ),
        runs(
            plan_of((CliCommand::KillTab { target: None }), workspace, Some(m), pane),
            workspace,
            4,
            0,
            m,
            0,
        ),
        runs(
            plan_of((CliCommand::SelectTab { target: n }), workspace, tab, pane),
            workspace,
            2,
            0,
            n,
            0,
        ),
        runs(
            plan_of(
                (CliCommand::SplitPane { horizontal: true, target: Some(n) }),
                workspace,
                tab,
                pane,
            ),
            workspace,
            5,
            n,
            0,
            1,
        ),
        runs(
            plan_of(
                (CliCommand::SplitPane { horizontal: false, target: None }),
                workspace,
                tab,
                Some(m),
            ),
            workspace,
            5,
            m,
            0,
            2,
        ),
        runs(
            plan_of((CliCommand::KillPane { target: Some(n) }), workspace, tab, pane),
            workspace,
            3,
            n,
            0,
            0,
        ),
        runs(
            plan_of((CliCommand::KillPane { target: None }), workspace, tab, Some(m)),
            workspace,
            3,
            m,
            0,
            0,
        ),
        runs(
            plan_of((CliCommand::SelectPane { target: n }), workspace, tab, pane),
            workspace,
            8,
            n,
            0,
            0,
        ),
{
}

/// Names go with their tasks: a new tab may have one, a tab and a workspace are
/// given theirs.
pub proof fn law_names_go_with_their_tasks(
    workspace: Seq<char>,
    name: String,
    n: u32,
    tab: Option<u32>,
    pane: Option<u32>,
)
    requires
        !workspace.contains('\0'),
        !name@.contains('\0'),
    ensures
        ({
            let plan = plan_of((CliCommand::NewTab { name: Some(name) }), workspace, tab, pane);
            plan matches CommandPlanView::Call { operation, call } && operation == "new tab"@ && (
            call matches CoreCallView::ExecuteWorkspace { workspace_id, task } && workspace_id
                == workspace && task.type_ == 1 && task.name == Some(name@) && task.target_tab == 0
                && task.target_pane == 0)
        }),
        ({
            let plan = plan_of((CliCommand::NewTab { name: None }), workspace, tab, pane);
            plan matches CommandPlanView::Call { operation, call } && (
            call matches CoreCallView::ExecuteWorkspace { workspace_id, task } && workspace_id
                == workspace && task.type_ == 1 && task.name is None)
        }),
        ({
            let plan = plan_of((CliCommand::RenameTab { new_name: name }), workspace, Some(n),
                pane);
            plan matches CommandPlanView::Call { operation, call } && operation == "rename tab"@
                && (
            call matches CoreCallView::ExecuteWorkspace { workspace_id, task } && workspace_id
                == workspace && task.type_ == 15 && task.name == Some(name@) && task.target_tab == n
                && task.target_pane == 0)
        }),
        ({
            let plan = plan_of((CliCommand::RenameWorkspace { new_name: name }), workspace, tab,
                pane);
            plan matches CommandPlanView::Call { operation, call } && operation
                == "rename workspace"@ && (
            call matches CoreCallView::ExecuteWorkspace { workspace_id, task } && workspace_id
                == workspace && task.type_ == 16 && task.name == Some(name@) && task.target_tab == 0
                && task.target_pane == 0)
        }),
{
}

/// Sizes: both together, the width alone along the first axis, the height alone
/// along the second, and none is an error.
pub proof fn law_sizes_go_to_their_axis(
    workspace: Seq<char>,
    n: u32,
    width: u16,
    height: u16,
    tab: Option<u32>,
    pane: Option<u32>,
)
    requires
        !workspace.contains('\0'),
    ensures
        plan_of(
            (CliCommand::ResizePane { target: n, width: Some(width), height: Some(height) }),
            workspace,
            tab,
            pane,
        ) matches CommandPlanView::Call { operation, call } && call
            == (CoreCallView::WorkspaceResizePane {
            workspace_id: workspace,
            pane_id: n,
            cols: width,
            rows: height,
        }),
        plan_of(
            (CliCommand::ResizePane { target: n, width: Some(width), height: None }),
            workspace,
            tab,
            pane,
        ) matches CommandPlanView::Call { operation, call } && (
        call matches CoreCallView::WorkspaceResizePaneAxis { workspace_id, pane_id, axis, size }
            && workspace_id == workspace && pane_id == n && axis == 1 && size == width),
        plan_of(
            (CliCommand::ResizePane { target: n, width: None, height: Some(height) }),
            workspace,
            tab,
            pane,
        ) matches CommandPlanView::Call { operation, call } && (
        call matches CoreCallView::WorkspaceResizePaneAxis { workspace_id, pane_id, axis, size }
            && workspace_id == workspace && pane_id == n && axis == 2 && size == height),
        plan_of(
            (CliCommand::ResizePane { target: n, width: None, height: None }),
            workspace,
            tab,
            pane,
        ) == CommandPlanView::Fail("resize pane requires a size"@),
        plan_of((CliCommand::ResizeClient { width, height }), workspace, tab,
            pane) matches CommandPlanView::Call {
            operation,
            call,
        } && call == (CoreCallView::WorkspaceResizeClient {
            workspace_id: workspace,
            cols: width,
            rows: height,
        }),
{
}

/// Keys and raw bytes go to the pane that is named, or else to the active one,
/// all of them; without a pane nothing is sent.
pub proof fn law_input_goes_to_its_pane(
    workspace: Seq<char>,
    n: u32,
    m: u32,
    text: String,
    data: Vec<u8>,
    tab: Option<u32>,
    pane: Option<u32>,
)
    requires
        !workspace.contains('\0'),
        data@.len() > 0,
        encode_utf8(text@).len() > 0,
    ensures
        plan_of((CliCommand::WriteRaw { target: Some(n), data }), workspace, tab,
            pane) matches CommandPlanView::Call {
            operation,
            call,
        } && operation == "write raw"@ && call == (CoreCallView::WorkspaceSendInput {
            workspace_id: workspace,
            pane_id: n,
            data: data@,
        }),
        plan_of((CliCommand::WriteRaw { target: None, data }), workspace, tab,
            Some(m)) matches CommandPlanView::Call {
            operation,
            call,
        } && call == (CoreCallView::WorkspaceSendInput {
            workspace_id: workspace,
            pane_id: m,
            data: data@,
        }),
        plan_of((CliCommand::SendKeys { target: Some(n), text }), workspace, tab,
            pane) matches CommandPlanView::Call {
            operation,
            call,
        } && operation == "send keys"@ && call == (CoreCallView::WorkspaceSendInput {
            workspace_id: workspace,
            pane_id: n,
            data: encode_utf8(text@),
        }),
        plan_of((CliCommand::SendKeys { target: None, text }), workspace, tab,
            Some(m)) matches CommandPlanView::Call {
            operation,
            call,
        } && call == (CoreCallView::WorkspaceSendInput {
            workspace_id: workspace,
            pane_id: m,
            data: encode_utf8(text@),
        }),
        plan_of((CliCommand::WriteRaw { target: None, data }), workspace, tab, None)
            == CommandPlanView::Fail("Core returned no active pane"@),
        plan_of((CliCommand::SendKeys { target: None, text }), workspace, tab, None)
            == CommandPlanView::Fail("Core returned no active pane"@),
        plan_of((CliCommand::KillPane { target: None }), workspace, tab, None)
            == CommandPlanView::Fail("Core returned no active pane"@),
        plan_of((CliCommand::KillTab { target: None }), workspace, None, pane)
            == CommandPlanView::Fail("Core returned no active tab"@),
        plan_of((CliCommand::RenameTab { new_name: text }), workspace, None, pane)
            == CommandPlanView::Fail("Core returned no active tab"@),
{
}

/// The value of a flag is the argument behind its first occurrence.
pub proof fn law_a_flag_is_followed_by_its_value(args: Seq<String>, flag: Seq<char>, k: int)
    requires
        0 <= k < args.len(),
        args[k]@ == flag,
        forall|j: int| 0 <= j < k ==> (#[trigger] args[j])@ != flag,
    ensures
        k + 1 < args.len() ==> flag_value(args, flag) == Some(args[k + 1]@),
        k + 1 == args.len() ==> flag_value(args, flag) is None,
{
    let f = |a: String| a@ == flag;
    assert(f =~= crate::cli::routing::arg_is(flag));
    lemma_first_where(args, f, k);
}

/// Without the flag there is no value.
pub proof fn law_a_missing_flag_has_no_value(args: Seq<String>, flag: Seq<char>)
    requires
        forall|j: int| 0 <= j < args.len() ==> (#[trigger] args[j])@ != flag,
    ensures
        flag_value(args, flag) is None,
{
    let f = |a: String| a@ == flag;
    assert(f =~= crate::cli::routing::arg_is(flag));
    lemma_no_first(args, f);
}

/// The session is the one that a new workspace names, else the one behind
/// `-s`.
pub proof fn law_the_name_of_the_session(args: Seq<String>, cmd: CliCommand, name: String)
    ensures
        session_name_of((CliCommand::NewWorkspace { socket: Some(name) }), args) == Some(name@),
        session_name_of((CliCommand::NewWorkspace { socket: None }), args) == flag_value(
            args,
            "-s"@,
        ),
        !(cmd is NewWorkspace) ==> session_name_of(cmd, args) == flag_value(args, "-s"@),
        attach_target((CliCommand::AttachWorkspace { target: name }), None) == Some(name@),
        !(cmd is AttachWorkspace) ==> attach_target(cmd, Some(name@)) == Some(name@),
        !(cmd is AttachWorkspace) ==> attach_target(cmd, None) is None,
{
}

/// A session works in the first workspace that is active, else in the first.
pub proof fn law_the_workspace_of_a_session(workspaces: Seq<ClientWorkspace>, k: int)
    ensures
        0 <= k < workspaces.len() && workspaces[k].active && (forall|j: int|
            0 <= j < k ==> !(#[trigger] workspaces[j]).active) ==> chosen_workspace(workspaces)
            == Some(workspaces[k]),
        workspaces.len() > 0 && (forall|j: int|
            0 <= j < workspaces.len() ==> !(#[trigger] workspaces[j]).active) ==> chosen_workspace(
            workspaces,
        ) == Some(workspaces[0]),
        workspaces.len() == 0 ==> chosen_workspace(workspaces) is None,
{
    let f = |w: ClientWorkspace| w.active;
    assert(f =~= crate::cli::routing::workspace_active());
    if 0 <= k < workspaces.len() && workspaces[k].active && (forall|j: int|
        0 <= j < k ==> !(#[trigger] workspaces[j]).active) {
        lemma_first_where(workspaces, f, k);
    }
    if forall|j: int| 0 <= j < workspaces.len() ==> !(#[trigger] workspaces[j]).active {
        lemma_no_first(workspaces, f);
    }
}

} // verus!
