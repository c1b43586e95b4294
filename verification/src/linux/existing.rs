//! Workspaces that already run and can be attached to.
use vstd::prelude::*;
use vstd::string::*;
use vstd::utf8::*;

use crate::client::types::{
    ClientCandidateRef, ClientExistingCandidateRef, ClientOpenIntent, ClientOpenRequest,
    ExistingCandidate,
};
use crate::text::number::{
    decimal, lemma_decimal_injective, lemma_decimal_nonempty, push_decimal,
};
use crate::text::order::{ascii_lower, ascii_lowercase};
use crate::text::split::{join, join_strings, lemma_join_front};
use crate::text::{clone_opt, concat3, opt_view, push_char, same, views};

verus! {

/// What a workspace runs in.
#[derive(Debug, Clone, Copy, PartialEq, Eq, Structural, Hash)]
pub enum ExistingRuntime {
    Shell,
    Tmux,
    Herdr,
}

/// The name of a runtime.
pub open spec fn runtime_name(r: ExistingRuntime) -> Seq<char> {
    match r {
        ExistingRuntime::Shell => "shell"@,
        ExistingRuntime::Tmux => "tmux"@,
        ExistingRuntime::Herdr => "herdr"@,
    }
}

/// The runtime that a word names, in small or capital letters.
pub open spec fn runtime_of(word: Seq<char>) -> Option<ExistingRuntime> {
    let w = ascii_lower(word);
    if w == "shell"@ {
        Some(ExistingRuntime::Shell)
    } else if w == "tmux"@ {
        Some(ExistingRuntime::Tmux)
    } else if w == "herdr"@ {
        Some(ExistingRuntime::Herdr)
    } else {
        None
    }
}

impl ExistingRuntime {
    /// Returns the name of the runtime.
    pub fn as_str(self) -> (r: &'static str)
        ensures
            r@ == runtime_name(self),
    {
        match self {
            ExistingRuntime::Shell => "shell",
            ExistingRuntime::Tmux => "tmux",
            ExistingRuntime::Herdr => "herdr",
        }
    }

    /// Reads the name of a runtime.
    pub fn parse(value: &str) -> (r: Option<Self>)
        ensures
            r == runtime_of(value@),
    {
        let w = ascii_lowercase(value);
        if same(w.as_str(), "shell") {
            Some(ExistingRuntime::Shell)
        } else if same(w.as_str(), "tmux") {
            Some(ExistingRuntime::Tmux)
        } else if same(w.as_str(), "herdr") {
            Some(ExistingRuntime::Herdr)
        } else {
            None
        }
    }
}

/// How a workspace is reached.
#[derive(Debug, PartialEq, Eq, Hash)]
pub enum ExistingTransport {
    Local,
    Ssh { name: String },
}

impl Clone for ExistingTransport {
    fn clone(&self) -> (r: Self)
        ensures
            r == *self,
    {
        match self {
            ExistingTransport::Local => ExistingTransport::Local,
            ExistingTransport::Ssh { name } => ExistingTransport::Ssh { name: name.clone() },
        }
    }
}

/// The transport as it is shown.
pub open spec fn transport_text(t: ExistingTransport) -> Seq<char> {
    match t {
        ExistingTransport::Local => "local"@,
        ExistingTransport::Ssh { name } => name@,
    }
}

impl ExistingTransport {
    /// Returns the transport as it is shown.
    pub fn label(&self) -> (r: String)
        ensures
            r@ == transport_text(*self),
    {
        match self {
            ExistingTransport::Local => "local".to_owned(),
            ExistingTransport::Ssh { name } => name.clone(),
        }
    }
}

/// A workspace that can be attached to.
#[derive(Debug, PartialEq, Eq)]
pub struct ExistingEntry {
    pub title: String,
    pub runtime: ExistingRuntime,
    pub transport: ExistingTransport,
    pub tmux_session: Option<String>,
    pub tmux_socket: Option<String>,
    pub herdr_session: Option<String>,
    pub herdr_workspace_id: Option<String>,
    pub herdr_socket: Option<String>,
}

impl Clone for ExistingEntry {
    fn clone(&self) -> (r: Self)
        ensures
            r == *self,
    {
        ExistingEntry {
            title: self.title.clone(),
            runtime: self.runtime,
            transport: self.transport.clone(),
            tmux_session: clone_opt(&self.tmux_session),
            tmux_socket: clone_opt(&self.tmux_socket),
            herdr_session: clone_opt(&self.herdr_session),
            herdr_workspace_id: clone_opt(&self.herdr_workspace_id),
            herdr_socket: clone_opt(&self.herdr_socket),
        }
    }
}

// ---------------------------------------------------------------------------
// From a candidate.
// ---------------------------------------------------------------------------

/// The transport of a candidate.
pub open spec fn candidate_transport(c: ExistingCandidate) -> Option<ExistingTransport> {
    if c.transport@ == "local"@ {
        Some(ExistingTransport::Local)
    } else if c.transport@ == "ssh"@ {
        Some(ExistingTransport::Ssh { name: c.target })
    } else {
        None
    }
}

/// An optional string where it is not empty.
pub open spec fn nonempty(s: Option<Seq<char>>) -> Option<Seq<char>> {
    match s {
        Some(t) => if t.len() > 0 {
            Some(t)
        } else {
            None
        },
        None => None,
    }
}

/// The Herdr session of a candidate: its session, else its namespace; where
/// that is missing or empty, the default session.
pub open spec fn candidate_herdr_session(c: ExistingCandidate) -> Seq<char> {
    let named = match c.session {
        Some(s) => Some(s@),
        None => opt_view(c.namespace),
    };
    match nonempty(named) {
        Some(s) => s,
        None => "default"@,
    }
}

/// `e` is the entry for a candidate with the given runtime and transport. Its
/// identity never comes from its title, but for a tmux session without name.
pub open spec fn entry_matches(
    e: ExistingEntry,
    c: ExistingCandidate,
    runtime: ExistingRuntime,
    transport: ExistingTransport,
) -> bool {
    let tmux = runtime == ExistingRuntime::Tmux;
    let herdr = runtime == ExistingRuntime::Herdr;
    &&& e.title@ == c.name@
    &&& e.runtime == runtime
    &&& e.transport == transport
    &&& opt_view(e.tmux_session) == if tmux {
        Some(
            match c.session {
                Some(s) => s@,
                None => c.name@,
            },
        )
    } else {
        None
    }
    &&& opt_view(e.tmux_socket) == if tmux {
        opt_view(c.socket)
    } else {
        None
    }
    &&& opt_view(e.herdr_session) == if herdr {
        Some(candidate_herdr_session(c))
    } else {
        None
    }
    &&& opt_view(e.herdr_workspace_id) == if herdr {
        nonempty(opt_view(c.workspace_id))
    } else {
        None
    }
    &&& opt_view(e.herdr_socket) == if herdr {
        opt_view(c.socket)
    } else {
        None
    }
}

fn keep_nonempty(s: Option<String>) -> (r: Option<String>)
    ensures
        opt_view(r) == nonempty(opt_view(s)),
{
    match s {
        Some(t) => if t.as_str().is_empty() {
            None
        } else {
            Some(t)
        },
        None => None,
    }
}

// ---------------------------------------------------------------------------
// Identity.
// ---------------------------------------------------------------------------

/// A string that may be missing.
pub open spec fn or_empty(s: Option<String>) -> Seq<char> {
    match s {
        Some(t) => t@,
        None => Seq::<char>::empty(),
    }
}

/// The transport in an identity.
pub open spec fn identity_transport(t: ExistingTransport) -> Seq<Seq<char>> {
    match t {
        ExistingTransport::Local => seq!["local"@, Seq::<char>::empty()],
        ExistingTransport::Ssh { name } => seq!["ssh"@, name@],
    }
}

/// A Herdr entry names its session, its socket and its workspace.
pub open spec fn herdr_complete(e: ExistingEntry) -> bool {
    or_empty(e.herdr_session).len() > 0 && or_empty(e.herdr_socket).len() > 0 && or_empty(
        e.herdr_workspace_id,
    ).len() > 0
}

/// What an entry is identified by.
pub open spec fn identity_parts(e: ExistingEntry) -> Seq<Seq<char>> {
    match e.runtime {
        ExistingRuntime::Shell => seq!["shell"@] + identity_transport(e.transport) + seq![e.title@],
        ExistingRuntime::Tmux => seq!["tmux"@] + identity_transport(e.transport) + seq![
            if or_empty(e.tmux_session).len() > 0 {
                or_empty(e.tmux_session)
            } else {
                e.title@
            },
            or_empty(e.tmux_socket),
        ],
        ExistingRuntime::Herdr => if herdr_complete(e) {
            seq!["herdr"@] + identity_transport(e.transport) + seq![
                or_empty(e.herdr_session),
                or_empty(e.herdr_socket),
                or_empty(e.herdr_workspace_id),
            ]
        } else {
            seq!["herdr-provisional"@] + identity_transport(e.transport) + seq![
                e.title@,
                Seq::<char>::empty(),
            ]
        },
    }
}

/// The length of a string in bytes.
pub open spec fn byte_len(s: Seq<char>) -> nat {
    encode_utf8(s).len()
}

/// A part with its length in bytes before it.
pub open spec fn coded_part(s: Seq<char>) -> Seq<char> {
    decimal(byte_len(s)) + seq![':'] + s
}

/// The parts with their lengths, as one string.
pub open spec fn coded(parts: Seq<Seq<char>>) -> Seq<char> {
    join(Seq::new(parts.len(), |i: int| coded_part(parts[i])), "|"@)
}

fn coded_string(s: &str) -> (r: String)
    ensures
        r@ == coded_part(s@),
{
    let mut out = String::new();
    let bytes: usize = s.as_bytes().len();
    push_decimal(&mut out, bytes as u64);
    push_char(&mut out, ':');
    out.append(s);
    assert(out@ =~= coded_part(s@));
    out
}

fn text_or_empty(s: &Option<String>) -> (r: String)
    ensures
        r@ == or_empty(*s),
{
    match s {
        Some(t) => t.clone(),
        None => String::new(),
    }
}

impl ExistingEntry {
    /// Takes over a candidate. A runtime or a transport that is not known is
    /// an error that names it.
    pub fn from_candidate(candidate: ExistingCandidate) -> (r: Result<Self, String>)
        ensures
            match runtime_of(candidate.runtime@) {
                Some(runtime) => match candidate_transport(candidate) {
                    Some(transport) => r matches Ok(e) && entry_matches(
                        e,
                        candidate,
                        runtime,
                        transport,
                    ),
                    None => r matches Err(m) && m@ == "unsupported Existing transport '"@
                        + candidate.transport@ + "' for "@ + candidate.name@,
                },
                None => r matches Err(m) && m@ == "unsupported Existing runtime '"@
                    + candidate.runtime@ + "' for "@ + candidate.name@,
            },
    {
        let runtime = match ExistingRuntime::parse(candidate.runtime.as_str()) {
            Some(r) => r,
            None => {
                let mut m = concat3(
                    "unsupported Existing runtime '",
                    candidate.runtime.as_str(),
                    "' for ",
                );
                m.append(candidate.name.as_str());
                return Err(m);
            },
        };
        let transport = if same(candidate.transport.as_str(), "local") {
            ExistingTransport::Local
        } else if same(candidate.transport.as_str(), "ssh") {
            ExistingTransport::Ssh { name: candidate.target.clone() }
        } else {
            let mut m = concat3(
                "unsupported Existing transport '",
                candidate.transport.as_str(),
                "' for ",
            );
            m.append(candidate.name.as_str());
            return Err(m);
        };
        let title = candidate.name.clone();
        match runtime {
            ExistingRuntime::Shell => Ok(
                ExistingEntry {
                    title,
                    runtime,
                    transport,
                    tmux_session: None,
                    tmux_socket: None,
                    herdr_session: None,
                    herdr_workspace_id: None,
                    herdr_socket: None,
                },
            ),
            ExistingRuntime::Tmux => {
                let session = match candidate.session {
                    Some(s) => s,
                    None => candidate.name,
                };
                Ok(
                    ExistingEntry {
                        title,
                        runtime,
                        transport,
                        tmux_session: Some(session),
                        tmux_socket: candidate.socket,
                        herdr_session: None,
                        herdr_workspace_id: None,
                        herdr_socket: None,
                    },
                )
            },
            ExistingRuntime::Herdr => {
                let named = match candidate.session {
                    Some(s) => Some(s),
                    None => candidate.namespace,
                };
                let session = match keep_nonempty(named) {
                    Some(s) => s,
                    None => "default".to_owned(),
                };
                Ok(
                    ExistingEntry {
                        title,
                        runtime,
                        transport,
                        tmux_session: None,
                        tmux_socket: None,
                        herdr_session: Some(session),
                        herdr_workspace_id: keep_nonempty(candidate.workspace_id),
                        herdr_socket: candidate.socket,
                    },
                )
            },
        }
    }

    /// An entry for a tmux session on a given socket.
    pub fn tmux(name: String, transport: ExistingTransport, socket: Option<String>) -> (r: Self)
        ensures
            r == (ExistingEntry {
                title: name,
                runtime: ExistingRuntime::Tmux,
                transport,
                tmux_session: Some(name),
                tmux_socket: socket,
                herdr_session: None,
                herdr_workspace_id: None,
                herdr_socket: None,
            }),
    {
        ExistingEntry {
            title: name.clone(),
            runtime: ExistingRuntime::Tmux,
            transport,
            tmux_session: Some(name),
            tmux_socket: socket,
            herdr_session: None,
            herdr_workspace_id: None,
            herdr_socket: None,
        }
    }

    /// Returns the second line of the row.
    pub fn subtitle(&self) -> (r: String)
        ensures
            r@ == runtime_name(self.runtime) + " @ "@ + transport_text(self.transport),
    {
        concat3(self.runtime.as_str(), " @ ", self.transport.label().as_str())
    }

    /// Returns the request that attaches to the entry. Its title plays no
    /// part.
    pub fn open_request(&self) -> (r: ClientOpenRequest)
        ensures
            r.intent == ClientOpenIntent::AttachOnly,
            r.template is None,
            r.activate,
            r.candidate matches ClientCandidateRef::Existing { identity } && {
                &&& identity.runtime_id@ == runtime_name(self.runtime)
                &&& identity.transport_id@ == match self.transport {
                    ExistingTransport::Local => "local"@,
                    ExistingTransport::Ssh { .. } => "ssh"@,
                }
                &&& identity.target@ == transport_text(self.transport)
                &&& identity.session == match self.runtime {
                    ExistingRuntime::Shell => None,
                    ExistingRuntime::Tmux => self.tmux_session,
                    ExistingRuntime::Herdr => self.herdr_session,
                }
                &&& identity.socket == match self.runtime {
                    ExistingRuntime::Shell => None,
                    ExistingRuntime::Tmux => self.tmux_socket,
                    ExistingRuntime::Herdr => self.herdr_socket,
                }
                &&& identity.workspace_id == match self.runtime {
                    ExistingRuntime::Herdr => self.herdr_workspace_id,
                    _ => None,
                }
            },
    {
        let transport_id = match &self.transport {
            ExistingTransport::Local => "local",
            ExistingTransport::Ssh { .. } => "ssh",
        };
        let none: Option<String> = None;
        let (session, socket, workspace_id): (Option<String>, Option<String>, Option<String>) =
            match self.runtime {
            ExistingRuntime::Shell => (None, None, None),
            ExistingRuntime::Tmux => (
                clone_opt(&self.tmux_session),
                clone_opt(&self.tmux_socket),
                None,
            ),
            ExistingRuntime::Herdr => (
                clone_opt(&self.herdr_session),
                clone_opt(&self.herdr_socket),
                clone_opt(&self.herdr_workspace_id),
            ),
        };
        ClientOpenRequest {
            candidate: ClientCandidateRef::Existing {
                identity: ClientExistingCandidateRef {
                    runtime_id: self.runtime.as_str().to_owned(),
                    transport_id: transport_id.to_owned(),
                    target: self.transport.label(),
                    session,
                    socket,
                    workspace_id,
                },
            },
            intent: ClientOpenIntent::AttachOnly,
            template: none,
            activate: true,
        }
    }

    /// Returns the identity by which entries are sorted and told apart.
    pub fn identity_key(&self) -> (r: String)
        ensures
            r@ == coded(identity_parts(*self)),
    {
        let mut parts: Vec<String> = Vec::new();
        let herdr_session = text_or_empty(&self.herdr_session);
        let herdr_socket = text_or_empty(&self.herdr_socket);
        let herdr_workspace = text_or_empty(&self.herdr_workspace_id);
        let complete = !herdr_session.as_str().is_empty() && !herdr_socket.as_str().is_empty()
            && !herdr_workspace.as_str().is_empty();
        let kind: &str = match self.runtime {
            ExistingRuntime::Shell => "shell",
            ExistingRuntime::Tmux => "tmux",
            ExistingRuntime::Herdr => if complete {
                "herdr"
            } else {
                "herdr-provisional"
            },
        };
        parts.push(coded_string(kind));
        match &self.transport {
            ExistingTransport::Local => {
                parts.push(coded_string("local"));
                parts.push(coded_string(""));
            },
            ExistingTransport::Ssh { name } => {
                parts.push(coded_string("ssh"));
                parts.push(coded_string(name.as_str()));
            },
        }
        proof {
            reveal_strlit("");
            assert(""@ =~= Seq::<char>::empty());
        }
        match self.runtime {
            ExistingRuntime::Shell => {
                parts.push(coded_string(self.title.as_str()));
            },
            ExistingRuntime::Tmux => {
                let session = text_or_empty(&self.tmux_session);
                if session.as_str().is_empty() {
                    parts.push(coded_string(self.title.as_str()));
                } else {
                    parts.push(coded_string(session.as_str()));
                }
                parts.push(coded_string(text_or_empty(&self.tmux_socket).as_str()));
            },
            ExistingRuntime::Herdr => {
                if complete {
                    parts.push(coded_string(herdr_session.as_str()));
                    parts.push(coded_string(herdr_socket.as_str()));
                    parts.push(coded_string(herdr_workspace.as_str()));
                } else {
                    parts.push(coded_string(self.title.as_str()));
                    parts.push(coded_string(""));
                }
            },
        }
        proof {
            let all = identity_parts(*self);
            assert(views(parts@) =~= Seq::new(all.len(), |i: int| coded_part(all[i])));
        }
        join_strings(&parts, "|")
    }

    /// Returns what a search looks at.
    pub fn search_fields(&self) -> (r: Vec<String>)
        ensures
            views(r@) == seq![
                self.title@,
                runtime_name(self.runtime),
                transport_text(self.transport),
                or_empty(self.tmux_session),
                or_empty(self.tmux_socket),
                or_empty(self.herdr_session),
                or_empty(self.herdr_socket),
                or_empty(self.herdr_workspace_id),
            ],
    {
        let mut out: Vec<String> = Vec::new();
        out.push(self.title.clone());
        out.push(self.runtime.as_str().to_owned());
        out.push(self.transport.label());
        out.push(text_or_empty(&self.tmux_session));
        out.push(text_or_empty(&self.tmux_socket));
        out.push(text_or_empty(&self.herdr_session));
        out.push(text_or_empty(&self.herdr_socket));
        out.push(text_or_empty(&self.herdr_workspace_id));
        assert(views(out@) =~= seq![
            self.title@,
            runtime_name(self.runtime),
            transport_text(self.transport),
            or_empty(self.tmux_session),
            or_empty(self.tmux_socket),
            or_empty(self.herdr_session),
            or_empty(self.herdr_socket),
            or_empty(self.herdr_workspace_id),
        ]);
        out
    }
}

// ---------------------------------------------------------------------------
// Laws.
// ---------------------------------------------------------------------------

/// A new title does not change the identity of a Herdr workspace that is
/// fully named, nor of a tmux session that has a name.
pub proof fn law_title_is_no_identity(e: ExistingEntry, title: String)
    requires
        (e.runtime == ExistingRuntime::Herdr && herdr_complete(e)) || (e.runtime
            == ExistingRuntime::Tmux && or_empty(e.tmux_session).len() > 0),
    ensures
        coded(identity_parts(ExistingEntry { title, ..e })) == coded(identity_parts(e)),
{
}

proof fn lemma_utf8_grows(a: Seq<char>, b: Seq<char>)
    requires
        a.len() < b.len(),
        b.take(a.len() as int) == a,
    ensures
        encode_utf8(a).len() < encode_utf8(b).len(),
    decreases a.len(),
{
    broadcast use vstd::utf8::char_is_scalar;

    if a.len() == 0 {
        assert(encode_utf8(a).len() == 0);
        assert(encode_utf8(b).len() > 0);
    } else {
        assert(a[0] == b[0]) by {
            assert(b.take(a.len() as int)[0] == b[0]);
        }
        assert(b.drop_first().take(a.len() - 1) =~= a.drop_first()) by {
            assert forall|i: int| 0 <= i < a.len() - 1 implies #[trigger] b.drop_first()[i]
                == a.drop_first()[i] by {
                assert(b.take(a.len() as int)[i + 1] == b[i + 1]);
            }
        }
        lemma_utf8_grows(a.drop_first(), b.drop_first());
    }
}

/// Two parts at the start of the same text with the same number of bytes are
/// the same.
proof fn lemma_same_bytes_same_part(a: Seq<char>, x: Seq<char>, b: Seq<char>, y: Seq<char>)
    requires
        a + x == b + y,
        encode_utf8(a).len() == encode_utf8(b).len(),
    ensures
        a == b,
        x == y,
{
    let s = a + x;
    let t = b + y;
    assert forall|i: int| 0 <= i < a.len() && i < b.len() implies #[trigger] a[i] == b[i] by {
        assert(s[i] == a[i]);
        assert(t[i] == b[i]);
    }
    if a.len() < b.len() {
        assert(b.take(a.len() as int) =~= a);
        lemma_utf8_grows(a, b);
    } else if b.len() < a.len() {
        assert(a.take(b.len() as int) =~= b);
        lemma_utf8_grows(b, a);
    } else {
        assert(a =~= b);
        assert(s.skip(a.len() as int) =~= x);
        assert(t.skip(b.len() as int) =~= y);
    }
}

/// Numbers before a colon at the start of the same text are the same.
proof fn lemma_same_number(m: nat, x: Seq<char>, n: nat, y: Seq<char>)
    requires
        decimal(m) + seq![':'] + x == decimal(n) + seq![':'] + y,
    ensures
        m == n,
        x == y,
{
    lemma_decimal_nonempty(m);
    lemma_decimal_nonempty(n);
    let a = decimal(m);
    let b = decimal(n);
    let s = a + seq![':'] + x;
    let t = b + seq![':'] + y;
    if a.len() < b.len() {
        assert(s[a.len() as int] == ':');
        assert(t[a.len() as int] == b[a.len() as int]);
    } else if b.len() < a.len() {
        assert(t[b.len() as int] == ':');
        assert(s[b.len() as int] == a[b.len() as int]);
    } else {
        assert(s.take(a.len() as int) =~= a);
        assert(t.take(b.len() as int) =~= b);
        lemma_decimal_injective(m, n);
        assert(s.skip(a.len() as int + 1) =~= x);
        assert(t.skip(b.len() as int + 1) =~= y);
    }
}

/// What stands behind the first part.
spec fn coded_rest(parts: Seq<Seq<char>>) -> Seq<char> {
    if parts.len() == 1 {
        Seq::<char>::empty()
    } else {
        "|"@ + coded(parts.drop_first())
    }
}

proof fn lemma_coded_front(parts: Seq<Seq<char>>)
    requires
        parts.len() > 0,
    ensures
        coded(parts) == decimal(byte_len(parts[0])) + seq![':'] + (parts[0] + coded_rest(parts)),
{
    let items = Seq::new(parts.len(), |i: int| coded_part(parts[i]));
    if parts.len() > 1 {
        lemma_join_front(items, "|"@);
        let rest = parts.drop_first();
        assert(items.drop_first() =~= Seq::new(rest.len(), |i: int| coded_part(rest[i])));
    }
    assert(coded(parts) =~= decimal(byte_len(parts[0])) + seq![':'] + (parts[0] + coded_rest(
        parts,
    )));
}

/// Identities that read the same consist of the same parts.
pub proof fn law_identity_tells_parts_apart(a: Seq<Seq<char>>, b: Seq<Seq<char>>)
    requires
        a.len() > 0,
        b.len() > 0,
        coded(a) == coded(b),
    ensures
        a == b,
    decreases a.len(),
{
    reveal_strlit("|");
    lemma_coded_front(a);
    lemma_coded_front(b);
    lemma_same_number(
        byte_len(a[0]),
        a[0] + coded_rest(a),
        byte_len(b[0]),
        b[0] + coded_rest(b),
    );
    lemma_same_bytes_same_part(a[0], coded_rest(a), b[0], coded_rest(b));
    if a.len() == 1 {
        if b.len() > 1 {
            assert(coded_rest(b).len() > 0);
        }
        assert(a =~= b);
    } else {
        assert(coded_rest(a).len() > 0);
        assert(b.len() > 1);
        let x = coded(a.drop_first());
        let y = coded(b.drop_first());
        assert(x =~= y) by {
            assert(("|"@ + x).skip(1) =~= x);
            assert(("|"@ + y).skip(1) =~= y);
        }
        law_identity_tells_parts_apart(a.drop_first(), b.drop_first());
        assert(a =~= seq![a[0]] + a.drop_first());
        assert(b =~= seq![b[0]] + b.drop_first());
    }
}

/// Two rows have the same key where they are identified by the same parts, and
/// only there, whatever characters the parts hold.
pub proof fn law_key_is_identity(a: ExistingEntry, b: ExistingEntry)
    ensures
        coded(identity_parts(a)) == coded(identity_parts(b)) <==> identity_parts(a)
            == identity_parts(b),
{
    if coded(identity_parts(a)) == coded(identity_parts(b)) {
        law_identity_tells_parts_apart(identity_parts(a), identity_parts(b));
    }
}

/// Two transports are the same: both local, or both over SSH to one host.
pub open spec fn same_transport(a: ExistingTransport, b: ExistingTransport) -> bool {
    match (a, b) {
        (ExistingTransport::Local, ExistingTransport::Local) => true,
        (ExistingTransport::Ssh { name: x }, ExistingTransport::Ssh { name: y }) => x@ == y@,
        _ => false,
    }
}

proof fn lemma_same_transport(a: ExistingTransport, b: ExistingTransport)
    ensures
        identity_transport(a)[0] == identity_transport(b)[0] && identity_transport(a)[1]
            == identity_transport(b)[1] <==> same_transport(a, b),
{
    reveal_strlit("local");
    reveal_strlit("ssh");
    assert("local"@.len() != "ssh"@.len());
}

/// Two fully named Herdr workspaces have the same key exactly when they are
/// the same session, socket and workspace on the same host; their titles play
/// no part.
pub proof fn law_herdr_key_is_identity(a: ExistingEntry, b: ExistingEntry)
    requires
        a.runtime == ExistingRuntime::Herdr && herdr_complete(a),
        b.runtime == ExistingRuntime::Herdr && herdr_complete(b),
    ensures
        coded(identity_parts(a)) == coded(identity_parts(b)) <==> {
            &&& same_transport(a.transport, b.transport)
            &&& or_empty(a.herdr_session) == or_empty(b.herdr_session)
            &&& or_empty(a.herdr_socket) == or_empty(b.herdr_socket)
            &&& or_empty(a.herdr_workspace_id) == or_empty(b.herdr_workspace_id)
        },
{
    let p = identity_parts(a);
    let q = identity_parts(b);
    law_key_is_identity(a, b);
    lemma_same_transport(a.transport, b.transport);
    assert(p[1] == identity_transport(a.transport)[0]);
    assert(p[2] == identity_transport(a.transport)[1]);
    assert(q[1] == identity_transport(b.transport)[0]);
    assert(q[2] == identity_transport(b.transport)[1]);
    assert(p == q <==> p[1] == q[1] && p[2] == q[2] && p[3] == q[3] && p[4] == q[4] && p[5]
        == q[5]) by {
        if p[1] == q[1] && p[2] == q[2] && p[3] == q[3] && p[4] == q[4] && p[5] == q[5] {
            assert(p =~= q);
        }
    }
}

/// Two tmux sessions with a name have the same key exactly when they are the
/// same session and socket on the same host; no socket counts as an empty one,
/// and their titles play no part.
pub proof fn law_tmux_key_is_identity(a: ExistingEntry, b: ExistingEntry)
    requires
        a.runtime == ExistingRuntime::Tmux && or_empty(a.tmux_session).len() > 0,
        b.runtime == ExistingRuntime::Tmux && or_empty(b.tmux_session).len() > 0,
    ensures
        coded(identity_parts(a)) == coded(identity_parts(b)) <==> {
            &&& same_transport(a.transport, b.transport)
            &&& or_empty(a.tmux_session) == or_empty(b.tmux_session)
            &&& or_empty(a.tmux_socket) == or_empty(b.tmux_socket)
        },
{
    let p = identity_parts(a);
    let q = identity_parts(b);
    law_key_is_identity(a, b);
    lemma_same_transport(a.transport, b.transport);
    assert(p[1] == identity_transport(a.transport)[0]);
    assert(p[2] == identity_transport(a.transport)[1]);
    assert(q[1] == identity_transport(b.transport)[0]);
    assert(q[2] == identity_transport(b.transport)[1]);
    assert(p == q <==> p[1] == q[1] && p[2] == q[2] && p[3] == q[3] && p[4] == q[4]) by {
        if p[1] == q[1] && p[2] == q[2] && p[3] == q[3] && p[4] == q[4] {
            assert(p =~= q);
        }
    }
}

/// Reading the name of a runtime gives back the runtime.
pub proof fn law_runtime_reads_back(r: ExistingRuntime)
    ensures
        runtime_of(runtime_name(r)) == Some(r),
{
    reveal_strlit("shell");
    reveal_strlit("tmux");
    reveal_strlit("herdr");
    assert(ascii_lower("shell"@) =~= "shell"@);
    assert(ascii_lower("tmux"@) =~= "tmux"@);
    assert(ascii_lower("herdr"@) =~= "herdr"@);
    assert("shell"@ != "tmux"@);
    assert("shell"@[0] != "herdr"@[0]);
    assert("tmux"@ != "herdr"@);
}

} // verus!
