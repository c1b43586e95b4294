//! What the client sends to the core as JSON.
use vstd::prelude::*;

use crate::client::config::{intent_name, intent_word, ClientAttentionConfig};
use crate::client::types::{
    ClientCandidateRef, ClientExistingCandidateRef, ClientJsonPatchOperation, ClientOpenRequest,
};
use crate::json::{
    bool_text, json_bool, json_list, json_member, json_object, json_quote, json_string, list_text,
    member_text, object_text,
};
use crate::text::number::{decimal, decimal_string};
use crate::text::{opt_view, views};

verus! {

/// Strings as a JSON list.
pub open spec fn string_list(s: Seq<String>) -> Seq<char> {
    json_list(Seq::new(s.len(), |i: int| json_string(s[i]@)))
}

fn strings_text(s: &Vec<String>) -> (r: String)
    ensures
        r@ == string_list(s@),
{
    let mut items: Vec<String> = Vec::new();
    let mut i: usize = 0;
    while i < s.len()
        invariant
            i <= s.len(),
            items.len() == i,
            forall|j: int| 0 <= j < i ==> (#[trigger] items@[j])@ == json_string(s@[j]@),
        decreases s.len() - i,
    {
        items.push(json_quote(s[i].as_str()));
        i += 1;
    }
    assert(views(items@) =~= Seq::new(s@.len(), |i: int| json_string(s@[i]@)));
    list_text(&items)
}

/// When attention is called for, as JSON.
pub open spec fn attention_json(c: ClientAttentionConfig) -> Seq<char> {
    json_object(
        seq![
            json_member("enabled"@, json_bool(c.enabled)),
            json_member("blocked_regex"@, string_list(c.blocked_regex@)),
            json_member("debounce_ms"@, decimal(c.debounce_ms as nat)),
        ],
    )
}

/// Returns when attention is called for as JSON text.
pub fn attention_text(config: &ClientAttentionConfig) -> (r: String)
    ensures
        r@ == attention_json(*config),
{
    let members = vec![
        member_text("enabled", bool_text(config.enabled).as_str()),
        member_text("blocked_regex", strings_text(&config.blocked_regex).as_str()),
        member_text("debounce_ms", decimal_string(config.debounce_ms).as_str()),
    ];
    assert(views(members@) =~= seq![
        json_member("enabled"@, json_bool(config.enabled)),
        json_member("blocked_regex"@, string_list(config.blocked_regex@)),
        json_member("debounce_ms"@, decimal(config.debounce_ms as nat)),
    ]);
    object_text(&members)
}

/// A member that is written only where it has a value.
pub open spec fn given(name: Seq<char>, value: Option<Seq<char>>) -> Seq<Seq<char>> {
    match value {
        Some(v) => seq![json_member(name, v)],
        None => Seq::<Seq<char>>::empty(),
    }
}

fn push_given(members: &mut Vec<String>, name: &str, value: &Option<String>, quoted: bool)
    ensures
        views(final(members)@) == views(old(members)@) + given(
            name@,
            match *value {
                Some(v) => Some(if quoted {
                    json_string(v@)
                } else {
                    v@
                }),
                None => None,
            },
        ),
{
    let ghost before = views(members@);
    if let Some(v) = value {
        if quoted {
            members.push(member_text(name, json_quote(v.as_str()).as_str()));
            assert(views(members@) =~= before + seq![json_member(name@, json_string(v@))]);
        } else {
            members.push(member_text(name, v.as_str()));
            assert(views(members@) =~= before + seq![json_member(name@, v@)]);
        }
    } else {
        assert(views(members@) =~= before + Seq::<Seq<char>>::empty());
    }
}

/// One operation of a patch as JSON; a removed value is not written.
pub open spec fn operation_json(op: ClientJsonPatchOperation) -> Seq<char> {
    json_object(
        seq![
            json_member("op"@, json_string(op.op@)),
            json_member("path"@, json_string(op.path@)),
        ] + given("value"@, opt_view(op.value)),
    )
}

/// A patch as JSON.
pub open spec fn patch_json(patch: Seq<ClientJsonPatchOperation>) -> Seq<char> {
    json_list(Seq::new(patch.len(), |i: int| operation_json(patch[i])))
}

fn operation_text(op: &ClientJsonPatchOperation) -> (r: String)
    ensures
        r@ == operation_json(*op),
{
    let mut members = vec![
        member_text("op", json_quote(op.op.as_str()).as_str()),
        member_text("path", json_quote(op.path.as_str()).as_str()),
    ];
    assert(views(members@) =~= seq![
        json_member("op"@, json_string(op.op@)),
        json_member("path"@, json_string(op.path@)),
    ]);
    push_given(&mut members, "value", &op.value, false);
    object_text(&members)
}

/// Returns a patch as JSON text.
pub fn patch_text(patch: &Vec<ClientJsonPatchOperation>) -> (r: String)
    ensures
        r@ == patch_json(patch@),
{
    let mut items: Vec<String> = Vec::new();
    let mut i: usize = 0;
    while i < patch.len()
        invariant
            i <= patch.len(),
            items.len() == i,
            forall|j: int| 0 <= j < i ==> (#[trigger] items@[j])@ == operation_json(patch@[j]),
        decreases patch.len() - i,
    {
        items.push(operation_text(&patch[i]));
        i += 1;
    }
    assert(views(items@) =~= Seq::new(patch@.len(), |i: int| operation_json(patch@[i])));
    list_text(&items)
}

/// The identity of an existing workspace as JSON.
pub open spec fn identity_json(c: ClientExistingCandidateRef) -> Seq<char> {
    json_object(
        seq![
            json_member("runtime_id"@, json_string(c.runtime_id@)),
            json_member("transport_id"@, json_string(c.transport_id@)),
            json_member("target"@, json_string(c.target@)),
        ] + given("session"@, quoted(opt_view(c.session))) + given(
            "socket"@,
            quoted(opt_view(c.socket)),
        ) + given("workspace_id"@, quoted(opt_view(c.workspace_id))),
    )
}

/// A string as a JSON value, where there is one.
pub open spec fn quoted(s: Option<Seq<char>>) -> Option<Seq<char>> {
    match s {
        Some(t) => Some(json_string(t)),
        None => None,
    }
}

fn identity_text(c: &ClientExistingCandidateRef) -> (r: String)
    ensures
        r@ == identity_json(*c),
{
    let mut members = vec![
        member_text("runtime_id", json_quote(c.runtime_id.as_str()).as_str()),
        member_text("transport_id", json_quote(c.transport_id.as_str()).as_str()),
        member_text("target", json_quote(c.target.as_str()).as_str()),
    ];
    assert(views(members@) =~= seq![
        json_member("runtime_id"@, json_string(c.runtime_id@)),
        json_member("transport_id"@, json_string(c.transport_id@)),
        json_member("target"@, json_string(c.target@)),
    ]);
    push_given(&mut members, "session", &c.session, true);
    push_given(&mut members, "socket", &c.socket, true);
    push_given(&mut members, "workspace_id", &c.workspace_id, true);
    object_text(&members)
}

/// The word for what a candidate is, and its identity as JSON.
pub open spec fn candidate_parts(c: ClientCandidateRef) -> (Seq<char>, Seq<char>) {
    match c {
        ClientCandidateRef::Project { project_id } => (
            "project"@,
            json_object(seq![json_member("project_id"@, json_string(project_id@))]),
        ),
        ClientCandidateRef::Worktree { project_id, worktree_id } => (
            "worktree"@,
            json_object(
                seq![
                    json_member("project_id"@, json_string(project_id@)),
                    json_member("worktree_id"@, json_string(worktree_id@)),
                ],
            ),
        ),
        ClientCandidateRef::Existing { identity } => (
            "existing"@,
            json_object(seq![json_member("identity"@, identity_json(identity))]),
        ),
        ClientCandidateRef::Recent { key } => (
            "recent"@,
            json_object(seq![json_member("key"@, json_string(key@))]),
        ),
    }
}

/// A candidate as JSON.
pub open spec fn candidate_json(c: ClientCandidateRef) -> Seq<char> {
    json_object(
        seq![
            json_member("kind"@, json_string(candidate_parts(c).0)),
            json_member("value"@, candidate_parts(c).1),
        ],
    )
}

fn one_member(name: &str, value: &str) -> (r: String)
    ensures
        r@ == json_object(seq![json_member(name@, value@)]),
{
    let members = vec![member_text(name, value)];
    assert(views(members@) =~= seq![json_member(name@, value@)]);
    object_text(&members)
}

fn candidate_text(c: &ClientCandidateRef) -> (r: String)
    ensures
        r@ == candidate_json(*c),
{
    let (kind, value): (&'static str, String) = match c {
        ClientCandidateRef::Project { project_id } => (
            "project",
            one_member("project_id", json_quote(project_id.as_str()).as_str()),
        ),
        ClientCandidateRef::Worktree { project_id, worktree_id } => {
            let members = vec![
                member_text("project_id", json_quote(project_id.as_str()).as_str()),
                member_text("worktree_id", json_quote(worktree_id.as_str()).as_str()),
            ];
            assert(views(members@) =~= seq![
                json_member("project_id"@, json_string(project_id@)),
                json_member("worktree_id"@, json_string(worktree_id@)),
            ]);
            ("worktree", object_text(&members))
        },
        ClientCandidateRef::Existing { identity } => (
            "existing",
            one_member("identity", identity_text(identity).as_str()),
        ),
        ClientCandidateRef::Recent { key } => (
            "recent",
            one_member("key", json_quote(key.as_str()).as_str()),
        ),
    };
    let members = vec![
        member_text("kind", json_quote(kind).as_str()),
        member_text("value", value.as_str()),
    ];
    assert(views(members@) =~= seq![
        json_member("kind"@, json_string(kind@)),
        json_member("value"@, value@),
    ]);
    object_text(&members)
}

/// A request to open a candidate as JSON.
pub open spec fn open_request_json(q: ClientOpenRequest) -> Seq<char> {
    json_object(
        seq![
            json_member("candidate"@, candidate_json(q.candidate)),
            json_member("intent"@, json_string(intent_word(q.intent))),
        ] + given("template"@, quoted(opt_view(q.template))) + seq![
            json_member("activate"@, json_bool(q.activate)),
        ],
    )
}

/// Returns a request to open a candidate as JSON text.
pub fn open_request_text(request: &ClientOpenRequest) -> (r: String)
    ensures
        r@ == open_request_json(*request),
{
    let mut members = vec![
        member_text("candidate", candidate_text(&request.candidate).as_str()),
        member_text("intent", json_quote(intent_name(request.intent)).as_str()),
    ];
    assert(views(members@) =~= seq![
        json_member("candidate"@, candidate_json(request.candidate)),
        json_member("intent"@, json_string(intent_word(request.intent))),
    ]);
    push_given(&mut members, "template", &request.template, true);
    let ghost before = views(members@);
    members.push(member_text("activate", bool_text(request.activate).as_str()));
    assert(views(members@) =~= before + seq![
        json_member("activate"@, json_bool(request.activate)),
    ]);
    object_text(&members)
}

} // verus!
