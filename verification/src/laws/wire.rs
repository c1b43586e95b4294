//! The JSON texts that are printed and sent: which fields they have, under
//! which names, and with which values.
use vstd::prelude::*;
use vstd::string::*;

use crate::cli::format::{
    layout_output, layout_row_json, pane_row_json, panes_output, listed_panes, tab_row_json,
    tabs_output, workspace_row_json, workspaces_output,
};
use crate::cli::command::OutputFormat;
use crate::client::config::{
    intent_word, target_json, ClientAttentionConfig,
};
use crate::client::request::{
    attention_json, candidate_json, identity_json, open_request_json, operation_json, patch_json,
    string_list,
};
use crate::client::snapshot::{
    active_pane, active_tab, layout_entry, layout_json, layout_of, pane_entries, pane_json,
    panes_of, tab_json, topology_json, FfiWorkspaceSnapshot,
};
use crate::client::types::{
    ClientCandidateRef, ClientExistingCandidateRef, ClientJsonPatchOperation, ClientLayout,
    ClientOpenIntent, ClientOpenRequest, ClientPane, ClientTab, ClientTarget, ClientWorkspace,
};
use crate::json::{
    json_bool, json_list, json_member, json_object, json_opt_number, json_opt_string, json_string,
};
use crate::laws::json::{array, lemma_optional, lemma_parts, lemma_record, nothing, record, truth};
use crate::seqs::flat;
use crate::text::number::decimal;
use crate::text::opt_view;

verus! {

// ---------------------------------------------------------------------------
// What queries print.
// ---------------------------------------------------------------------------

/// A workspace in JSON.
pub proof fn law_json_of_a_workspace(w: ClientWorkspace)
    ensures
        workspace_row_json(w) == record(
            seq![
            ("id"@, json_string(w.id@)),
            ("in_pool"@, truth(true)),
            ("name"@, json_string(w.name@)),
            ("runtime"@, json_string(w.runtime@)),
            ("transport"@, json_string("local"@)),
            ],
        ),
{
    lemma_parts(Seq::<Seq<char>>::empty(), true);
    let members = seq![
        json_member("id"@, json_string(w.id@)),
        json_member("in_pool"@, json_bool(true)),
        json_member("name"@, json_string(w.name@)),
        json_member("runtime"@, json_string(w.runtime@)),
        json_member("transport"@, json_string("local"@)),
    ];
    let fields = seq![
        ("id"@, json_string(w.id@)),
        ("in_pool"@, truth(true)),
        ("name"@, json_string(w.name@)),
        ("runtime"@, json_string(w.runtime@)),
        ("transport"@, json_string("local"@)),
    ];
    lemma_record(members, fields);
}

/// A tab in JSON.
pub proof fn law_json_of_a_tab(tab: ClientTab, panes: nat)
    ensures
        tab_row_json(tab, panes) == record(
            seq![
            ("active"@, truth(tab.is_active)),
            ("id"@, json_string("t"@ + decimal(tab.id as nat))),
            ("name"@, json_string(tab.name@)),
            ("panes"@, decimal(panes)),
            ],
        ),
{
    lemma_parts(Seq::<Seq<char>>::empty(), tab.is_active);
    let members = seq![
        json_member("active"@, json_bool(tab.is_active)),
        json_member("id"@, json_string("t"@ + decimal(tab.id as nat))),
        json_member("name"@, json_string(tab.name@)),
        json_member("panes"@, decimal(panes)),
    ];
    let fields = seq![
        ("active"@, truth(tab.is_active)),
        ("id"@, json_string("t"@ + decimal(tab.id as nat))),
        ("name"@, json_string(tab.name@)),
        ("panes"@, decimal(panes)),
    ];
    lemma_record(members, fields);
}

/// A pane in JSON, with its width and height.
pub proof fn law_json_of_a_pane(pane: ClientPane)
    ensures
        pane_row_json(pane) == record(
            seq![
            ("active"@, truth(pane.is_active)),
            ("id"@, json_string("@"@ + decimal(pane.id as nat))),
            ("size"@, record(seq![("h"@, decimal(pane.rows as nat)), ("w"@,
                decimal(pane.cols as nat))])),
            ],
        ),
{
    lemma_parts(Seq::<Seq<char>>::empty(), pane.is_active);
    lemma_record(
        seq![json_member("h"@, decimal(pane.rows as nat)), json_member("w"@,
            decimal(pane.cols as nat))],
        seq![("h"@, decimal(pane.rows as nat)), ("w"@, decimal(pane.cols as nat))],
    );
    let members = seq![
        json_member("active"@, json_bool(pane.is_active)),
        json_member("id"@, json_string("@"@ + decimal(pane.id as nat))),
        json_member("size"@, json_object(seq![json_member("h"@, decimal(pane.rows as nat)),
            json_member("w"@, decimal(pane.cols as nat))])),
    ];
    let fields = seq![
        ("active"@, truth(pane.is_active)),
        ("id"@, json_string("@"@ + decimal(pane.id as nat))),
        ("size"@, record(seq![("h"@, decimal(pane.rows as nat)), ("w"@,
            decimal(pane.cols as nat))])),
    ];
    lemma_record(members, fields);
}

/// The layout of a tab in JSON.
pub proof fn law_json_of_a_layout(tab: ClientTab, tree: Seq<char>)
    ensures
        layout_row_json(tab, tree) == record(
            seq![
            ("active"@, truth(tab.is_active)),
            ("id"@, json_string("t"@ + decimal(tab.id as nat))),
            ("name"@, json_string(tab.name@)),
            ("tree"@, tree),
            ],
        ),
{
    lemma_parts(Seq::<Seq<char>>::empty(), tab.is_active);
    let members = seq![
        json_member("active"@, json_bool(tab.is_active)),
        json_member("id"@, json_string("t"@ + decimal(tab.id as nat))),
        json_member("name"@, json_string(tab.name@)),
        json_member("tree"@, tree),
    ];
    let fields = seq![
        ("active"@, truth(tab.is_active)),
        ("id"@, json_string("t"@ + decimal(tab.id as nat))),
        ("name"@, json_string(tab.name@)),
        ("tree"@, tree),
    ];
    lemma_record(members, fields);
}

/// Each query prints a list with one value for each thing it lists, in order.
pub proof fn law_json_queries_print_lists(
    workspaces: Seq<ClientWorkspace>,
    s: FfiWorkspaceSnapshot,
    tab: Option<u32>,
    trees: Seq<Seq<char>>,
)
    ensures
        workspaces_output(workspaces, OutputFormat::Json) == array(
            Seq::new(workspaces.len(), |i: int| workspace_row_json(workspaces[i])),
        ),
        tabs_output(s, OutputFormat::Json) == array(
            Seq::new(
                s.tabs@.len(),
                |i: int| tab_row_json(s.tabs@[i], panes_of(s.panes@, s.tabs@[i].id).len()),
            ),
        ),
        panes_output(s, tab, OutputFormat::Json) == array(
            Seq::new(listed_panes(s, tab).len(), |i: int| pane_row_json(listed_panes(s, tab)[i])),
        ),
        layout_output(s, trees, OutputFormat::Json) == array(
            Seq::new(s.tabs@.len(), |i: int| layout_row_json(s.tabs@[i], trees[i])),
        ),
{
    lemma_parts(Seq::new(workspaces.len(), |i: int| workspace_row_json(workspaces[i])), true);
    lemma_parts(
        Seq::new(
            s.tabs@.len(),
            |i: int| tab_row_json(s.tabs@[i], panes_of(s.panes@, s.tabs@[i].id).len()),
        ),
        true,
    );
    lemma_parts(
        Seq::new(listed_panes(s, tab).len(), |i: int| pane_row_json(listed_panes(s, tab)[i])),
        true,
    );
    lemma_parts(Seq::new(s.tabs@.len(), |i: int| layout_row_json(s.tabs@[i], trees[i])), true);
}

// ---------------------------------------------------------------------------
// The topology of a workspace.
// ---------------------------------------------------------------------------

/// A tab of a topology.
pub proof fn law_topology_of_a_tab(tab: ClientTab)
    ensures
        tab_json(tab) == record(
            seq![
            ("active"@, truth(tab.is_active)),
            ("id"@, decimal(tab.id as nat)),
            ("name"@, json_string(tab.name@)),
            ],
        ),
{
    lemma_parts(Seq::<Seq<char>>::empty(), tab.is_active);
    let members = seq![
        json_member("active"@, json_bool(tab.is_active)),
        json_member("id"@, decimal(tab.id as nat)),
        json_member("name"@, json_string(tab.name@)),
    ];
    let fields = seq![
        ("active"@, truth(tab.is_active)),
        ("id"@, decimal(tab.id as nat)),
        ("name"@, json_string(tab.name@)),
    ];
    lemma_record(members, fields);
}

/// A pane of a topology, with the tab it stands in.
pub proof fn law_topology_of_a_pane(tab: u32, pane: ClientPane)
    ensures
        pane_json(tab, pane) == record(
            seq![
            ("active"@, truth(pane.is_active)),
            ("cols"@, decimal(pane.cols as nat)),
            ("id"@, decimal(pane.id as nat)),
            ("rows"@, decimal(pane.rows as nat)),
            ("tab"@, decimal(tab as nat)),
            ("title"@, json_string(pane.title@)),
            ],
        ),
{
    lemma_parts(Seq::<Seq<char>>::empty(), pane.is_active);
    let members = seq![
        json_member("active"@, json_bool(pane.is_active)),
        json_member("cols"@, decimal(pane.cols as nat)),
        json_member("id"@, decimal(pane.id as nat)),
        json_member("rows"@, decimal(pane.rows as nat)),
        json_member("tab"@, decimal(tab as nat)),
        json_member("title"@, json_string(pane.title@)),
    ];
    let fields = seq![
        ("active"@, truth(pane.is_active)),
        ("cols"@, decimal(pane.cols as nat)),
        ("id"@, decimal(pane.id as nat)),
        ("rows"@, decimal(pane.rows as nat)),
        ("tab"@, decimal(tab as nat)),
        ("title"@, json_string(pane.title@)),
    ];
    lemma_record(members, fields);
}

/// A layout of a topology: a pane, or a split with its direction, its halves
/// and its ratio.
pub proof fn law_topology_of_a_layout(
    pane_id: u32,
    ratio: u32,
    first: Box<ClientLayout>,
    second: Box<ClientLayout>,
)
    ensures
        layout_json((ClientLayout::Leaf { pane_id })) == record(
            seq![("Leaf"@, decimal(pane_id as nat))],
        ),
        layout_json((ClientLayout::Split { horizontal: true, ratio, first, second })) == record(
            seq![
                (
                    "Split"@,
                    record(
                        seq![
                            ("dir"@, json_string("Horizontal"@)),
                            ("first"@, layout_json(*first)),
                            ("ratio"@, decimal(ratio as nat)),
                            ("second"@, layout_json(*second)),
                        ],
                    ),
                ),
            ],
        ),
        layout_json((ClientLayout::Split { horizontal: false, ratio, first, second })) == record(
            seq![
                (
                    "Split"@,
                    record(
                        seq![
                            ("dir"@, json_string("Vertical"@)),
                            ("first"@, layout_json(*first)),
                            ("ratio"@, decimal(ratio as nat)),
                            ("second"@, layout_json(*second)),
                        ],
                    ),
                ),
            ],
        ),
{
    lemma_record(
        seq![json_member("Leaf"@, decimal(pane_id as nat))],
        seq![("Leaf"@, decimal(pane_id as nat))],
    );
    lemma_split_record("Horizontal"@, ratio, layout_json(*first), layout_json(*second));
    lemma_split_record("Vertical"@, ratio, layout_json(*first), layout_json(*second));
}

proof fn lemma_split_record(dir: Seq<char>, ratio: u32, a: Seq<char>, b: Seq<char>)
    ensures
        json_object(
            seq![
                json_member(
                    "Split"@,
                    json_object(
                        seq![
                            json_member("dir"@, json_string(dir)),
                            json_member("first"@, a),
                            json_member("ratio"@, decimal(ratio as nat)),
                            json_member("second"@, b),
                        ],
                    ),
                ),
            ],
        ) == record(
            seq![
                (
                    "Split"@,
                    record(
                        seq![
                            ("dir"@, json_string(dir)),
                            ("first"@, a),
                            ("ratio"@, decimal(ratio as nat)),
                            ("second"@, b),
                        ],
                    ),
                ),
            ],
        ),
{
    let inner = seq![
        json_member("dir"@, json_string(dir)),
        json_member("first"@, a),
        json_member("ratio"@, decimal(ratio as nat)),
        json_member("second"@, b),
    ];
    let fields = seq![
        ("dir"@, json_string(dir)),
        ("first"@, a),
        ("ratio"@, decimal(ratio as nat)),
        ("second"@, b),
    ];
    lemma_record(inner, fields);
    lemma_record(seq![json_member("Split"@, json_object(inner))], seq![("Split"@, record(fields))]);
}

/// A layout entry names the pane that is active in the tab, else the first of
/// the tree, and a tab without a layout has none.
pub proof fn law_topology_of_a_layout_entry(
    tab: u32,
    panes: Seq<(u32, Vec<ClientPane>)>,
    layouts: Seq<(u32, Option<ClientLayout>)>,
    layout: ClientLayout,
    active: u32,
)
    ensures
        layout_of(layouts, tab) is None ==> layout_entry(tab, panes, layouts).len() == 0,
        layout_of(layouts, tab) == Some(layout)
            && (active_pane(panes_of(panes, tab)) == Some(active)
            || (active_pane(panes_of(panes, tab)) is None && layout.leaves()[0] == active))
            ==> layout_entry(tab, panes, layouts) == seq![
            record(
                seq![
                    ("active"@, decimal(active as nat)),
                    ("tab"@, decimal(tab as nat)),
                    ("tree"@, layout_json(layout)),
                ],
            ),
        ],
{
    lemma_record(
        seq![
            json_member("active"@, decimal(active as nat)),
            json_member("tab"@, decimal(tab as nat)),
            json_member("tree"@, layout_json(layout)),
        ],
        seq![
            ("active"@, decimal(active as nat)),
            ("tab"@, decimal(tab as nat)),
            ("tree"@, layout_json(layout)),
        ],
    );
}

/// A number, or no value.
pub open spec fn number_or_nothing(n: Option<u32>) -> Seq<char> {
    match n {
        Some(k) => decimal(k as nat),
        None => nothing(),
    }
}

/// A topology names the workspace, its active tab and the active pane of that
/// tab, and lists all tabs, all panes and all layouts.
pub proof fn law_topology_of_a_workspace(
    workspace: ClientWorkspace,
    id: Seq<char>,
    tabs: Seq<ClientTab>,
    panes: Seq<(u32, Vec<ClientPane>)>,
    layouts: Seq<(u32, Option<ClientLayout>)>,
    pane: Option<u32>,
)
    requires
        active_tab(tabs) is None ==> pane is None,
        active_tab(tabs) matches Some(t) ==> pane == active_pane(panes_of(panes, t)),
    ensures
        topology_json(workspace, id, tabs, panes, layouts) == record(
            seq![
                ("kind"@, json_string("workspace_topology"@)),
                (
                    "snapshot"@,
                    record(
                        seq![
                            ("active_pane"@, number_or_nothing(pane)),
                            ("active_tab"@, number_or_nothing(active_tab(tabs))),
                            (
                                "layouts"@,
                                array(
                                    flat(
                                        Seq::new(
                                            tabs.len(),
                                            |i: int| layout_entry(tabs[i].id, panes, layouts),
                                        ),
                                    ),
                                ),
                            ),
                            (
                                "panes"@,
                                array(
                                    flat(Seq::new(panes.len(), |i: int| pane_entries(panes[i]))),
                                ),
                            ),
                            ("tabs"@, array(Seq::new(tabs.len(), |i: int| tab_json(tabs[i])))),
                            ("workspace_name"@, json_string(workspace.name@)),
                            ("workspace_runtime"@, json_string(workspace.runtime@)),
                        ],
                    ),
                ),
                ("workspace_id"@, json_string(id)),
            ],
        ),
{
    let tab = active_tab(tabs);
    let x = flat(Seq::new(tabs.len(), |i: int| layout_entry(tabs[i].id, panes, layouts)));
    let y = flat(Seq::new(panes.len(), |i: int| pane_entries(panes[i])));
    let z = Seq::new(tabs.len(), |i: int| tab_json(tabs[i]));
    lemma_optional(pane, None);
    lemma_optional(tab, None);
    lemma_parts(x, true);
    lemma_parts(y, true);
    lemma_parts(z, true);
    let inner = seq![
        json_member("active_pane"@, json_opt_number(pane)),
        json_member("active_tab"@, json_opt_number(tab)),
        json_member("layouts"@, json_list(x)),
        json_member("panes"@, json_list(y)),
        json_member("tabs"@, json_list(z)),
        json_member("workspace_name"@, json_string(workspace.name@)),
        json_member("workspace_runtime"@, json_string(workspace.runtime@)),
    ];
    let fields = seq![
        ("active_pane"@, number_or_nothing(pane)),
        ("active_tab"@, number_or_nothing(tab)),
        ("layouts"@, array(x)),
        ("panes"@, array(y)),
        ("tabs"@, array(z)),
        ("workspace_name"@, json_string(workspace.name@)),
        ("workspace_runtime"@, json_string(workspace.runtime@)),
    ];
    lemma_record(inner, fields);
    lemma_record(
        seq![
            json_member("kind"@, json_string("workspace_topology"@)),
            json_member("snapshot"@, json_object(inner)),
            json_member("workspace_id"@, json_string(id)),
        ],
        seq![
            ("kind"@, json_string("workspace_topology"@)),
            ("snapshot"@, record(fields)),
            ("workspace_id"@, json_string(id)),
        ],
    );
}

/// The panes of an entry are listed under its tab, in their order.
pub proof fn law_topology_of_the_panes_of_a_tab(entry: (u32, Vec<ClientPane>), i: int)
    requires
        0 <= i < entry.1@.len(),
    ensures
        pane_entries(entry).len() == entry.1@.len(),
        pane_entries(entry)[i] == pane_json(entry.0, entry.1@[i]),
{
}

// ---------------------------------------------------------------------------
// What is asked of the core.
// ---------------------------------------------------------------------------

/// The settings of attention.
pub proof fn law_json_of_the_attention_settings(c: ClientAttentionConfig)
    ensures
        attention_json(c) == record(
            seq![
            ("enabled"@, truth(c.enabled)),
            ("blocked_regex"@, array(Seq::new(c.blocked_regex@.len(),
                |i: int| json_string(c.blocked_regex@[i]@)))),
            ("debounce_ms"@, decimal(c.debounce_ms as nat)),
            ],
        ),
{
    lemma_parts(
        Seq::new(c.blocked_regex@.len(), |i: int| json_string(c.blocked_regex@[i]@)),
        c.enabled,
    );
    let members = seq![
        json_member("enabled"@, json_bool(c.enabled)),
        json_member("blocked_regex"@, string_list(c.blocked_regex@)),
        json_member("debounce_ms"@, decimal(c.debounce_ms as nat)),
    ];
    let fields = seq![
        ("enabled"@, truth(c.enabled)),
        ("blocked_regex"@, array(Seq::new(c.blocked_regex@.len(),
            |i: int| json_string(c.blocked_regex@[i]@)))),
        ("debounce_ms"@, decimal(c.debounce_ms as nat)),
    ];
    lemma_record(members, fields);
}

/// A target: what is not given is null.
pub proof fn law_json_of_a_target(t: ClientTarget)
    ensures
        target_json(t) == record(
            seq![
            ("name"@, json_string(t.name@)),
            ("path"@, json_string(t.path@)),
            ("runtime"@, json_string(t.runtime@)),
            ("session"@, match t.session { Some(s) => json_string(s@), None => nothing() }),
            ("socket"@, match t.socket { Some(s) => json_string(s@), None => nothing() }),
            ("target"@, match t.target { Some(s) => json_string(s@), None => nothing() }),
            ("transport"@, json_string(t.transport@)),
            ],
        ),
{
    lemma_optional(None, opt_view(t.session));
    lemma_optional(None, opt_view(t.socket));
    lemma_optional(None, opt_view(t.target));
    let members = seq![
        json_member("name"@, json_string(t.name@)),
        json_member("path"@, json_string(t.path@)),
        json_member("runtime"@, json_string(t.runtime@)),
        json_member("session"@, json_opt_string(opt_view(t.session))),
        json_member("socket"@, json_opt_string(opt_view(t.socket))),
        json_member("target"@, json_opt_string(opt_view(t.target))),
        json_member("transport"@, json_string(t.transport@)),
    ];
    let fields = seq![
        ("name"@, json_string(t.name@)),
        ("path"@, json_string(t.path@)),
        ("runtime"@, json_string(t.runtime@)),
        ("session"@, match t.session { Some(s) => json_string(s@), None => nothing() }),
        ("socket"@, match t.socket { Some(s) => json_string(s@), None => nothing() }),
        ("target"@, match t.target { Some(s) => json_string(s@), None => nothing() }),
        ("transport"@, json_string(t.transport@)),
    ];
    lemma_record(members, fields);
}

/// A patch operation has its value behind its path, where it has one.
pub proof fn law_json_of_a_patch(op: ClientJsonPatchOperation, patch: Seq<ClientJsonPatchOperation>)
    ensures
        op.value is None ==> operation_json(op) == record(
            seq![("op"@, json_string(op.op@)), ("path"@, json_string(op.path@))],
        ),
        op.value matches Some(v) ==> operation_json(op) == record(
            seq![("op"@, json_string(op.op@)), ("path"@, json_string(op.path@)), ("value"@, v@)],
        ),
        patch_json(patch) == array(Seq::new(patch.len(), |i: int| operation_json(patch[i]))),
{
    lemma_parts(Seq::new(patch.len(), |i: int| operation_json(patch[i])), true);
    let head = seq![
        json_member("op"@, json_string(op.op@)),
        json_member("path"@, json_string(op.path@)),
    ];
    let fields = seq![("op"@, json_string(op.op@)), ("path"@, json_string(op.path@))];
    match op.value {
        None => {
            assert(head + Seq::<Seq<char>>::empty() =~= head);
            lemma_record(head, fields);
        },
        Some(v) => {
            assert(head + seq![json_member("value"@, v@)] =~= head.push(json_member("value"@, v@)));
            assert(fields.push(("value"@, v@)) =~= seq![
                ("op"@, json_string(op.op@)),
                ("path"@, json_string(op.path@)),
                ("value"@, v@),
            ]);
            lemma_record(head.push(json_member("value"@, v@)), fields.push(("value"@, v@)));
        },
    }
}

/// An intent is one of two words.
pub proof fn law_words_of_intents()
    ensures
        intent_word(ClientOpenIntent::AttachOnly) == "attach_only"@,
        intent_word(ClientOpenIntent::CreateIfMissing) == "create_if_missing"@,
{
}

/// The fields of an identity: those that are not given are left out.
pub open spec fn identity_fields(c: ClientExistingCandidateRef) -> Seq<(Seq<char>, Seq<char>)> {
    seq![
        ("runtime_id"@, json_string(c.runtime_id@)),
        ("transport_id"@, json_string(c.transport_id@)),
        ("target"@, json_string(c.target@)),
    ] + (match c.session {
        Some(s) => seq![("session"@, json_string(s@))],
        None => Seq::<(Seq<char>, Seq<char>)>::empty(),
    }) + (match c.socket {
        Some(s) => seq![("socket"@, json_string(s@))],
        None => Seq::<(Seq<char>, Seq<char>)>::empty(),
    }) + (match c.workspace_id {
        Some(s) => seq![("workspace_id"@, json_string(s@))],
        None => Seq::<(Seq<char>, Seq<char>)>::empty(),
    })
}

/// An existing workspace is asked for by its identity.
pub proof fn law_json_of_an_identity(c: ClientExistingCandidateRef)
    ensures
        identity_json(c) == record(identity_fields(c)),
{
    let fields = identity_fields(c);
    let members = fields.map_values(|f: (Seq<char>, Seq<char>)| json_member(f.0, f.1));
    lemma_record(members, fields);
    let none = Seq::<Seq<char>>::empty();
    let a = match c.session {
        Some(s) => seq![json_member("session"@, json_string(s@))],
        None => none,
    };
    let b = match c.socket {
        Some(s) => seq![json_member("socket"@, json_string(s@))],
        None => none,
    };
    let d = match c.workspace_id {
        Some(s) => seq![json_member("workspace_id"@, json_string(s@))],
        None => none,
    };
    let head = seq![
        json_member("runtime_id"@, json_string(c.runtime_id@)),
        json_member("transport_id"@, json_string(c.transport_id@)),
        json_member("target"@, json_string(c.target@)),
    ];
    assert(members =~= head + a + b + d);
}

/// A candidate is written with its kind and what it is known by.
pub proof fn law_json_of_a_candidate(
    project: String,
    worktree: String,
    key: String,
    identity: ClientExistingCandidateRef,
)
    ensures
        candidate_json((ClientCandidateRef::Project { project_id: project })) == record(
            seq![
                ("kind"@, json_string("project"@)),
                ("value"@, record(seq![("project_id"@, json_string(project@))])),
            ],
        ),
        candidate_json(
            (ClientCandidateRef::Worktree { project_id: project, worktree_id: worktree }),
        ) == record(
            seq![
                ("kind"@, json_string("worktree"@)),
                (
                    "value"@,
                    record(
                        seq![
                            ("project_id"@, json_string(project@)),
                            ("worktree_id"@, json_string(worktree@)),
                        ],
                    ),
                ),
            ],
        ),
        candidate_json((ClientCandidateRef::Recent { key })) == record(
            seq![
                ("kind"@, json_string("recent"@)),
                ("value"@, record(seq![("key"@, json_string(key@))])),
            ],
        ),
        candidate_json((ClientCandidateRef::Existing { identity })) == record(
            seq![
                ("kind"@, json_string("existing"@)),
                ("value"@, record(seq![("identity"@, record(identity_fields(identity)))])),
            ],
        ),
{
    law_json_of_an_identity(identity);
    let p = seq![json_member("project_id"@, json_string(project@))];
    lemma_record(p, seq![("project_id"@, json_string(project@))]);
    lemma_kind("project"@, json_object(p));
    let w = seq![
        json_member("project_id"@, json_string(project@)),
        json_member("worktree_id"@, json_string(worktree@)),
    ];
    lemma_record(
        w,
        seq![("project_id"@, json_string(project@)), ("worktree_id"@, json_string(worktree@))],
    );
    lemma_kind("worktree"@, json_object(w));
    let k = seq![json_member("key"@, json_string(key@))];
    lemma_record(k, seq![("key"@, json_string(key@))]);
    lemma_kind("recent"@, json_object(k));
    let e = seq![json_member("identity"@, identity_json(identity))];
    lemma_record(e, seq![("identity"@, identity_json(identity))]);
    lemma_kind("existing"@, json_object(e));
}

proof fn lemma_kind(kind: Seq<char>, value: Seq<char>)
    ensures
        json_object(seq![json_member("kind"@, json_string(kind)), json_member("value"@, value)])
            == record(seq![("kind"@, json_string(kind)), ("value"@, value)]),
{
    lemma_record(
        seq![json_member("kind"@, json_string(kind)), json_member("value"@, value)],
        seq![("kind"@, json_string(kind)), ("value"@, value)],
    );
}

/// A request to open names the candidate, the intent, the template where there
/// is one, and whether the workspace comes to the front.
pub proof fn law_json_of_a_request_to_open(q: ClientOpenRequest)
    ensures
        q.template is None ==> open_request_json(q) == record(
            seq![
                ("candidate"@, candidate_json(q.candidate)),
                ("intent"@, json_string(intent_word(q.intent))),
                ("activate"@, truth(q.activate)),
            ],
        ),
        q.template matches Some(t) ==> open_request_json(q) == record(
            seq![
                ("candidate"@, candidate_json(q.candidate)),
                ("intent"@, json_string(intent_word(q.intent))),
                ("template"@, json_string(t@)),
                ("activate"@, truth(q.activate)),
            ],
        ),
{
    lemma_parts(Seq::<Seq<char>>::empty(), q.activate);
    let c = json_member("candidate"@, candidate_json(q.candidate));
    let i = json_member("intent"@, json_string(intent_word(q.intent)));
    let a = json_member("activate"@, json_bool(q.activate));
    match q.template {
        None => {
            assert(seq![c, i] + Seq::<Seq<char>>::empty() + seq![a] =~= seq![c, i, a]);
            lemma_record(
                seq![c, i, a],
                seq![
                    ("candidate"@, candidate_json(q.candidate)),
                    ("intent"@, json_string(intent_word(q.intent))),
                    ("activate"@, truth(q.activate)),
                ],
            );
        },
        Some(t) => {
            let m = json_member("template"@, json_string(t@));
            assert(seq![c, i] + seq![m] + seq![a] =~= seq![c, i, m, a]);
            lemma_record(
                seq![c, i, m, a],
                seq![
                    ("candidate"@, candidate_json(q.candidate)),
                    ("intent"@, json_string(intent_word(q.intent))),
                    ("template"@, json_string(t@)),
                    ("activate"@, truth(q.activate)),
                ],
            );
        },
    }
}

} // verus!
