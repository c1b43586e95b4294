//! Configuration: defaults, paths and the transaction that changes it.
use vstd::prelude::*;
use vstd::string::*;

use crate::client::call::FfiClient;
use crate::client::types::{ClientJsonPatchOperation, ClientOpenIntent, ClientTarget};
use crate::json::{
    json_member, json_object, json_opt_string, json_quote, json_string, member_text, object_text,
    opt_string_text,
};
use crate::text::split::{
    join, join_strings, lemma_join_split, lemma_split_nonempty, lemma_split_push,
    lemma_split_whole, replace_char, replaced, split, split_on,
};
use crate::text::{all_white, concat2, is_blank, opt_view, views};

verus! {

// ---------------------------------------------------------------------------
// Sections and their defaults.
// ---------------------------------------------------------------------------

/// Which theme is used.
#[derive(Debug, Clone, PartialEq, Eq)]
pub struct ClientThemeConfig {
    pub name: String,
    pub light: String,
    pub dark: String,
}

pub fn default_client_font_family() -> (r: String)
    ensures
        r@ == "JetBrains Mono"@,
{
    "JetBrains Mono".to_owned()
}

pub fn default_client_theme_name() -> (r: String)
    ensures
        r@ == "system"@,
{
    "system".to_owned()
}

pub fn default_client_light_theme() -> (r: String)
    ensures
        r@ == "white"@,
{
    "white".to_owned()
}

pub fn default_client_dark_theme() -> (r: String)
    ensures
        r@ == "black"@,
{
    "black".to_owned()
}

impl Default for ClientThemeConfig {
    fn default() -> (r: Self)
        ensures
            r.name@ == "system"@,
            r.light@ == "white"@,
            r.dark@ == "black"@,
    {
        ClientThemeConfig {
            name: default_client_theme_name(),
            light: default_client_light_theme(),
            dark: default_client_dark_theme(),
        }
    }
}

/// How the status bar looks.
#[derive(Debug, Clone, PartialEq, Eq)]
pub struct ClientStatusbarConfig {
    pub mode: String,
}

pub fn default_client_statusbar_mode() -> (r: String)
    ensures
        r@ == "tmux"@,
{
    "tmux".to_owned()
}

impl Default for ClientStatusbarConfig {
    fn default() -> (r: Self)
        ensures
            r.mode@ == "tmux"@,
    {
        ClientStatusbarConfig { mode: default_client_statusbar_mode() }
    }
}

/// How many workspaces stay warm before a reminder.
#[derive(Debug, Clone, PartialEq, Eq)]
pub struct ClientPoolConfig {
    pub max_slots: u32,
}

pub fn default_client_pool_max_slots() -> (r: u32)
    ensures
        r == 20,
{
    20
}

impl Default for ClientPoolConfig {
    fn default() -> (r: Self)
        ensures
            r.max_slots == 20,
    {
        ClientPoolConfig { max_slots: default_client_pool_max_slots() }
    }
}

/// How tmux is used.
#[derive(Debug, Clone, PartialEq, Eq)]
pub struct ClientTmuxConfig {
    pub auto_mouse: bool,
    pub default_session: String,
    pub socket: String,
}

pub fn default_client_auto_mouse() -> (r: bool)
    ensures
        r,
{
    true
}

impl Default for ClientTmuxConfig {
    fn default() -> (r: Self)
        ensures
            r.auto_mouse,
            r.default_session@ == Seq::<char>::empty(),
            r.socket@ == Seq::<char>::empty(),
    {
        ClientTmuxConfig {
            auto_mouse: default_client_auto_mouse(),
            default_session: String::new(),
            socket: String::new(),
        }
    }
}

/// How much history is kept.
#[derive(Debug, Clone, PartialEq, Eq)]
pub struct ClientScrollbackConfig {
    pub lines: u32,
}

pub fn default_client_scrollback_lines() -> (r: u32)
    ensures
        r == 10_000,
{
    10_000
}

impl Default for ClientScrollbackConfig {
    fn default() -> (r: Self)
        ensures
            r.lines == 10_000,
    {
        ClientScrollbackConfig { lines: default_client_scrollback_lines() }
    }
}

/// A request activates its workspace unless it says otherwise.
pub fn default_activate() -> (r: bool)
    ensures
        r,
{
    true
}

/// When attention is called for.
#[derive(Debug, Clone, PartialEq, Eq)]
pub struct ClientAttentionConfig {
    pub enabled: bool,
    pub blocked_regex: Vec<String>,
    pub debounce_ms: u64,
}

impl Default for ClientAttentionConfig {
    fn default() -> (r: Self)
        ensures
            r.enabled,
            r.blocked_regex@ == Seq::<String>::empty(),
            r.debounce_ms == 100,
    {
        ClientAttentionConfig { enabled: true, blocked_regex: Vec::new(), debounce_ms: 100 }
    }
}

/// What happens when the last pane exits.
#[derive(Debug, Clone, Copy, PartialEq, Eq, Structural)]
pub enum ClientOnLastPaneExit {
    CloseWindow,
    KeepEmpty,
    NewShell,
}

impl Default for ClientOnLastPaneExit {
    fn default() -> (r: Self)
        ensures
            r == ClientOnLastPaneExit::CloseWindow,
    {
        ClientOnLastPaneExit::CloseWindow
    }
}

/// What happens when a program fails.
#[derive(Debug, Clone, Copy, PartialEq, Eq, Structural)]
pub enum ClientOnProgramExitAbnormal {
    Notify,
    Close,
    Keep,
}

impl Default for ClientOnProgramExitAbnormal {
    fn default() -> (r: Self)
        ensures
            r == ClientOnProgramExitAbnormal::Notify,
    {
        ClientOnProgramExitAbnormal::Notify
    }
}

/// What happens when something exits.
#[derive(Debug, Clone, Copy, PartialEq, Eq, Structural)]
pub struct ClientBehaviorConfig {
    pub on_last_pane_exit: ClientOnLastPaneExit,
    pub on_program_exit_abnormal: ClientOnProgramExitAbnormal,
}

impl Default for ClientBehaviorConfig {
    fn default() -> (r: Self)
        ensures
            r.on_last_pane_exit == ClientOnLastPaneExit::CloseWindow,
            r.on_program_exit_abnormal == ClientOnProgramExitAbnormal::Notify,
    {
        ClientBehaviorConfig {
            on_last_pane_exit: ClientOnLastPaneExit::CloseWindow,
            on_program_exit_abnormal: ClientOnProgramExitAbnormal::Notify,
        }
    }
}

// ---------------------------------------------------------------------------
// Paths.
// ---------------------------------------------------------------------------

/// One token of a JSON pointer: `~` becomes `~0`, then `/` becomes `~1`.
pub open spec fn pointer_token(part: Seq<char>) -> Seq<char> {
    replaced(replaced(part, '~', "~0"@), '/', "~1"@)
}

/// The JSON pointer for a dotted path.
pub open spec fn pointer_of(path: Seq<char>) -> Seq<char> {
    let parts = split_on(path, '.');
    "/"@ + join(Seq::new(parts.len(), |i: int| pointer_token(parts[i])), "/"@)
}

/// Turns a dotted path into a JSON pointer; a blank path is an error.
pub fn dotted_config_pointer(path: &str) -> (r: Result<String, &'static str>)
    ensures
        r is Err <==> all_white(path@),
        match r {
            Ok(pointer) => pointer@ == pointer_of(path@),
            Err(e) => e@ == "配置路径不能为空"@,
        },
{
    if is_blank(path) {
        return Err("配置路径不能为空");
    }
    let parts = split(path, '.');
    let mut tokens: Vec<String> = Vec::new();
    let mut i: usize = 0;
    while i < parts.len()
        invariant
            i <= parts.len(),
            tokens.len() == i,
            forall|j: int| 0 <= j < i ==> (#[trigger] tokens@[j])@ == pointer_token(parts@[j]@),
        decreases parts.len() - i,
    {
        let a = replace_char(parts[i].as_str(), '~', "~0");
        tokens.push(replace_char(a.as_str(), '/', "~1"));
        i += 1;
    }
    let ghost pieces = split_on(path@, '.');
    assert(views(parts@) == pieces);
    assert forall|j: int| 0 <= j < pieces.len() implies views(tokens@)[j] == pointer_token(
        pieces[j],
    ) by {
        assert(pieces[j] == parts@[j]@);
    }
    assert(views(tokens@) =~= Seq::new(pieces.len(), |i: int| pointer_token(pieces[i])));
    Ok(concat2("/", join_strings(&tokens, "/").as_str()))
}

/// The tokens of a pointer hold no `/`, so that the pointer can be read back.
pub proof fn law_pointer_token_holds_no_slash(part: Seq<char>)
    ensures
        !pointer_token(part).contains('/'),
{
    reveal_strlit("~0");
    reveal_strlit("~1");
    lemma_replaced_is_gone(replaced(part, '~', "~0"@), '/', "~1"@);
}

proof fn lemma_replaced_is_gone(s: Seq<char>, from: char, to: Seq<char>)
    requires
        !to.contains(from),
    ensures
        !replaced(s, from, to).contains(from),
    decreases s.len(),
{
    if s.len() > 0 {
        lemma_replaced_is_gone(s.drop_last(), from, to);
        let a = replaced(s.drop_last(), from, to);
        let b = if s.last() == from {
            to
        } else {
            seq![s.last()]
        };
        assert forall|k: int| 0 <= k < (a + b).len() implies (a + b)[k] != from by {
            if k < a.len() {
                assert(a.contains(a[k]));
            } else if s.last() == from {
                assert(to.contains(to[k - a.len()]));
            }
        }
    }
}

/// What a token of a JSON pointer stands for: `~1` for `/` and `~0` for `~`.
pub open spec fn token_part(token: Seq<char>) -> Seq<char>
    decreases token.len(),
{
    if token.len() == 0 {
        Seq::<char>::empty()
    } else if token.len() > 1 && token[0] == '~' && token[1] == '1' {
        seq!['/'] + token_part(token.skip(2))
    } else if token.len() > 1 && token[0] == '~' && token[1] == '0' {
        seq!['~'] + token_part(token.skip(2))
    } else {
        seq![token[0]] + token_part(token.drop_first())
    }
}

/// The dotted path that a JSON pointer stands for.
pub open spec fn path_of(pointer: Seq<char>) -> Seq<char> {
    let tokens = split_on(pointer.skip(1), '/');
    join(Seq::new(tokens.len(), |i: int| token_part(tokens[i])), seq!['.'])
}

proof fn lemma_replaced_parts(a: Seq<char>, b: Seq<char>, from: char, to: Seq<char>)
    ensures
        replaced(a + b, from, to) == replaced(a, from, to) + replaced(b, from, to),
    decreases b.len(),
{
    if b.len() == 0 {
        assert(a + b =~= a);
        assert(replaced(a, from, to) + replaced(b, from, to) =~= replaced(a, from, to));
    } else {
        let init = b.drop_last();
        lemma_replaced_parts(a, init, from, to);
        assert((a + b).drop_last() =~= a + init);
        assert((a + b).last() == b.last());
        assert(replaced(a + b, from, to) =~= replaced(a, from, to) + replaced(b, from, to));
    }
}

proof fn lemma_replaced_one(c: char, from: char, to: Seq<char>)
    ensures
        replaced(seq![c], from, to) == if c == from {
            to
        } else {
            seq![c]
        },
{
    let s = seq![c];
    assert(s.drop_last() =~= Seq::<char>::empty());
    assert(replaced(s.drop_last(), from, to) =~= Seq::<char>::empty());
    assert(replaced(s, from, to) =~= if c == from {
        to
    } else {
        seq![c]
    });
}

proof fn lemma_token_front(c: char, rest: Seq<char>)
    ensures
        pointer_token(seq![c] + rest) == (if c == '~' {
            seq!['~', '0']
        } else if c == '/' {
            seq!['~', '1']
        } else {
            seq![c]
        }) + pointer_token(rest),
{
    reveal_strlit("~0");
    reveal_strlit("~1");
    assert("~0"@ =~= seq!['~', '0']);
    assert("~1"@ =~= seq!['~', '1']);
    let first = replaced(seq![c], '~', "~0"@);
    lemma_replaced_parts(seq![c], rest, '~', "~0"@);
    lemma_replaced_parts(first, replaced(rest, '~', "~0"@), '/', "~1"@);
    lemma_replaced_one(c, '~', "~0"@);
    if c == '~' {
        assert(first =~= seq!['~'] + seq!['0']);
        lemma_replaced_parts(seq!['~'], seq!['0'], '/', "~1"@);
        lemma_replaced_one('~', '/', "~1"@);
        lemma_replaced_one('0', '/', "~1"@);
        assert(replaced(first, '/', "~1"@) =~= seq!['~', '0']);
    } else {
        lemma_replaced_one(c, '/', "~1"@);
    }
}

proof fn lemma_token_reads_back(part: Seq<char>)
    ensures
        token_part(pointer_token(part)) == part,
    decreases part.len(),
{
    if part.len() == 0 {
        assert(pointer_token(part) =~= Seq::<char>::empty());
        assert(part =~= Seq::<char>::empty());
    } else {
        let rest = part.drop_first();
        let t = pointer_token(rest);
        lemma_token_reads_back(rest);
        lemma_token_front(part[0], rest);
        assert(part =~= seq![part[0]] + rest);
        let whole = pointer_token(part);
        if part[0] == '~' || part[0] == '/' {
            assert(whole.skip(2) =~= t);
        } else {
            assert(whole =~= seq![part[0]] + t);
            assert(whole.drop_first() =~= t);
        }
        assert(token_part(whole) =~= part);
    }
}

proof fn lemma_split_join(parts: Seq<Seq<char>>, sep: char)
    requires
        parts.len() > 0,
        forall|i: int| 0 <= i < parts.len() ==> !(#[trigger] parts[i]).contains(sep),
    ensures
        split_on(join(parts, seq![sep]), sep) == parts,
    decreases parts.len(),
{
    if parts.len() == 1 {
        lemma_split_whole(parts[0], sep);
        assert(parts =~= seq![parts[0]]);
    } else {
        let init = parts.drop_last();
        assert forall|i: int| 0 <= i < init.len() implies !(#[trigger] init[i]).contains(sep) by {
            assert(!parts[i].contains(sep));
        }
        lemma_split_join(init, sep);
        assert(!parts[parts.len() - 1].contains(sep));
        lemma_split_push(join(init, seq![sep]), sep, parts.last());
        assert(parts =~= init.push(parts.last()));
    }
}

/// Every dotted path can be read back from its pointer.
pub proof fn law_pointer_reads_back(path: Seq<char>)
    ensures
        path_of(pointer_of(path)) == path,
{
    reveal_strlit("/");
    assert("/"@ =~= seq!['/']);
    let parts = split_on(path, '.');
    let tokens = Seq::new(parts.len(), |i: int| pointer_token(parts[i]));
    lemma_split_nonempty(path, '.');
    assert forall|i: int| 0 <= i < tokens.len() implies !(#[trigger] tokens[i]).contains('/') by {
        law_pointer_token_holds_no_slash(parts[i]);
    }
    lemma_split_join(tokens, '/');
    assert(pointer_of(path).skip(1) =~= join(tokens, seq!['/']));
    let back = Seq::new(tokens.len(), |i: int| token_part(tokens[i]));
    assert forall|i: int| 0 <= i < back.len() implies back[i] == parts[i] by {
        lemma_token_reads_back(parts[i]);
    }
    assert(back =~= parts);
    lemma_join_split(path, '.');
}

/// A patch that replaces one value.
pub fn replace(path: &str, value: String) -> (r: ClientJsonPatchOperation)
    ensures
        r.op@ == "replace"@,
        r.path@ == path@,
        opt_view(r.value) == Some(value@),
{
    ClientJsonPatchOperation { op: "replace".to_owned(), path: path.to_owned(), value: Some(value) }
}

impl FfiClient {
    /// The patch that sets the value at a dotted path; a blank path is an error.
    pub fn config_apply_path(dotted: &str, value: String) -> (r: Result<
        ClientJsonPatchOperation,
        &'static str,
    >)
        ensures
            r is Err <==> all_white(dotted@),
            r matches Ok(op) ==> op.op@ == "replace"@ && op.path@ == pointer_of(dotted@) && opt_view(
                op.value,
            ) == Some(value@),
            r matches Err(e) ==> e@ == "配置路径不能为空"@,
    {
        match dotted_config_pointer(dotted) {
            Ok(path) => Ok(replace(path.as_str(), value)),
            Err(e) => Err(e),
        }
    }
}

// ---------------------------------------------------------------------------
// The transaction.
// ---------------------------------------------------------------------------

/// What is asked of the core next while a patch is applied.
#[derive(Debug, Clone, PartialEq, Eq)]
pub enum ConfigTransaction {
    Begin,
    Patch { transaction: String },
    Commit { transaction: String },
    Cancel { transaction: String, error: String },
    Describe,
    Failed { error: String },
}

/// The step after `step`, given the answer to it. A failed patch or commit
/// cancels the transaction; its error is the one reported.
pub open spec fn next_step(step: ConfigTransaction, reply: Result<String, String>) -> ConfigTransaction {
    match (step, reply) {
        (ConfigTransaction::Begin, Ok(transaction)) => ConfigTransaction::Patch { transaction },
        (ConfigTransaction::Begin, Err(error)) => ConfigTransaction::Failed { error },
        (ConfigTransaction::Patch { transaction }, Ok(_)) => ConfigTransaction::Commit {
            transaction,
        },
        (ConfigTransaction::Patch { transaction }, Err(error)) => ConfigTransaction::Cancel {
            transaction,
            error,
        },
        (ConfigTransaction::Commit { transaction }, Ok(_)) => ConfigTransaction::Describe,
        (ConfigTransaction::Commit { transaction }, Err(error)) => ConfigTransaction::Cancel {
            transaction,
            error,
        },
        (ConfigTransaction::Cancel { transaction, error }, _) => ConfigTransaction::Failed {
            error,
        },
        (ConfigTransaction::Describe, Ok(_)) => ConfigTransaction::Describe,
        (ConfigTransaction::Describe, Err(error)) => ConfigTransaction::Failed { error },
        (ConfigTransaction::Failed { error }, _) => ConfigTransaction::Failed { error },
    }
}

impl FfiClient {
    /// Takes the answer to a step and returns the next step.
    pub fn config_apply(step: ConfigTransaction, reply: Result<String, String>) -> (r: ConfigTransaction)
        ensures
            r == next_step(step, reply),
    {
        match (step, reply) {
            (ConfigTransaction::Begin, Ok(transaction)) => ConfigTransaction::Patch { transaction },
            (ConfigTransaction::Begin, Err(error)) => ConfigTransaction::Failed { error },
            (ConfigTransaction::Patch { transaction }, Ok(_)) => ConfigTransaction::Commit {
                transaction,
            },
            (ConfigTransaction::Patch { transaction }, Err(error)) => ConfigTransaction::Cancel {
                transaction,
                error,
            },
            (ConfigTransaction::Commit { .. }, Ok(_)) => ConfigTransaction::Describe,
            (ConfigTransaction::Commit { transaction }, Err(error)) => ConfigTransaction::Cancel {
                transaction,
                error,
            },
            (ConfigTransaction::Cancel { error, .. }, _) => ConfigTransaction::Failed { error },
            (ConfigTransaction::Describe, Ok(_)) => ConfigTransaction::Describe,
            (ConfigTransaction::Describe, Err(error)) => ConfigTransaction::Failed { error },
            (ConfigTransaction::Failed { error }, _) => ConfigTransaction::Failed { error },
        }
    }
}

/// The steps of a transaction, given the answers.
pub open spec fn steps(replies: Seq<Result<String, String>>) -> Seq<ConfigTransaction>
    decreases replies.len(),
{
    if replies.len() == 0 {
        seq![ConfigTransaction::Begin]
    } else {
        let rest = steps(replies.drop_last());
        rest.push(next_step(rest.last(), replies.last()))
    }
}

proof fn lemma_steps_len(replies: Seq<Result<String, String>>)
    ensures
        steps(replies).len() == replies.len() + 1,
    decreases replies.len(),
{
    if replies.len() > 0 {
        lemma_steps_len(replies.drop_last());
    }
}

/// A transaction that was begun ends in one of two ways: it is committed and
/// described, or it is cancelled before the failure is reported.
pub proof fn law_begun_transaction_is_settled(
    begun: String,
    patched: Result<String, String>,
    committed: Result<String, String>,
)
    ensures
        ({
            let s1 = next_step(ConfigTransaction::Begin, Ok(begun));
            let s2 = next_step(s1, patched);
            let s3 = next_step(s2, committed);
            match (patched, committed) {
                (Ok(_), Ok(_)) => s3 == ConfigTransaction::Describe,
                (Ok(_), Err(error)) => s3 == (ConfigTransaction::Cancel {
                    transaction: begun,
                    error,
                }),
                (Err(error), _) => s2 == (ConfigTransaction::Cancel {
                    transaction: begun,
                    error,
                }) && s3 == (ConfigTransaction::Failed { error }),
            }
        }),
{
}

/// The configuration is described only after a commit was answered well.
pub proof fn law_described_only_after_commit(replies: Seq<Result<String, String>>)
    requires
        steps(replies).last() is Describe,
    ensures
        exists|i: int|
            0 <= i < replies.len() && #[trigger] steps(replies)[i] is Commit && replies[i] is Ok,
    decreases replies.len(),
{
    lemma_steps_len(replies);
    if replies.len() > 0 {
        let init = replies.drop_last();
        lemma_steps_len(init);
        let s = steps(init).last();
        if s is Describe {
            law_described_only_after_commit(init);
            let i = choose|i: int|
                0 <= i < init.len() && #[trigger] steps(init)[i] is Commit && init[i] is Ok;
            assert(steps(replies)[i] == steps(init)[i]);
            assert(replies[i] == init[i]);
        } else {
            assert(s is Commit);
            assert(steps(replies)[replies.len() - 1] == s);
        }
    }
}

// ---------------------------------------------------------------------------
// Opening a target.
// ---------------------------------------------------------------------------

/// A target as JSON.
pub open spec fn target_json(t: ClientTarget) -> Seq<char> {
    json_object(
        seq![
            json_member("name"@, json_string(t.name@)),
            json_member("path"@, json_string(t.path@)),
            json_member("runtime"@, json_string(t.runtime@)),
            json_member("session"@, json_opt_string(opt_view(t.session))),
            json_member("socket"@, json_opt_string(opt_view(t.socket))),
            json_member("target"@, json_opt_string(opt_view(t.target))),
            json_member("transport"@, json_string(t.transport@)),
        ],
    )
}

/// Returns a target as JSON text.
pub fn client_target_json(target: &ClientTarget) -> (r: String)
    ensures
        r@ == target_json(*target),
{
    let mut m: Vec<String> = Vec::new();
    m.push(member_text("name", json_quote(target.name.as_str()).as_str()));
    m.push(member_text("path", json_quote(target.path.as_str()).as_str()));
    m.push(member_text("runtime", json_quote(target.runtime.as_str()).as_str()));
    m.push(member_text("session", opt_string_text(&target.session).as_str()));
    m.push(member_text("socket", opt_string_text(&target.socket).as_str()));
    m.push(member_text("target", opt_string_text(&target.target).as_str()));
    m.push(member_text("transport", json_quote(target.transport.as_str()).as_str()));
    assert(views(m@) =~= seq![
        json_member("name"@, json_string(target.name@)),
        json_member("path"@, json_string(target.path@)),
        json_member("runtime"@, json_string(target.runtime@)),
        json_member("session"@, json_opt_string(opt_view(target.session))),
        json_member("socket"@, json_opt_string(opt_view(target.socket))),
        json_member("target"@, json_opt_string(opt_view(target.target))),
        json_member("transport"@, json_string(target.transport@)),
    ]);
    object_text(&m)
}

/// The word for an intent.
pub open spec fn intent_word(intent: ClientOpenIntent) -> Seq<char> {
    match intent {
        ClientOpenIntent::AttachOnly => "attach_only"@,
        ClientOpenIntent::CreateIfMissing => "create_if_missing"@,
    }
}

/// Returns the word for an intent.
pub fn intent_name(intent: ClientOpenIntent) -> (r: &'static str)
    ensures
        r@ == intent_word(intent),
{
    match intent {
        ClientOpenIntent::AttachOnly => "attach_only",
        ClientOpenIntent::CreateIfMissing => "create_if_missing",
    }
}

} // verus!
