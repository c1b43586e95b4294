//! What a workspace is opened on.
use vstd::prelude::*;

use crate::client::types::{ClientTarget, ClientWorkspace};
use crate::text::order::{ascii_lower, ascii_lowercase};
use crate::text::{clone_opt, opt_view, same};
use crate::workspace_id::{parse_workspace_id, parsed_id, WorkspaceId, WorkspaceIdView};

verus! {

/// What a target runs.
#[derive(Debug, Clone, Copy, PartialEq, Eq, Structural)]
pub enum TargetRuntime {
    Shell,
    Tmux,
    Herdr,
}

/// The name of a runtime.
pub open spec fn target_runtime_name(r: TargetRuntime) -> Seq<char> {
    match r {
        TargetRuntime::Shell => "shell"@,
        TargetRuntime::Tmux => "tmux"@,
        TargetRuntime::Herdr => "herdr"@,
    }
}

/// The runtime that a word names.
pub open spec fn target_runtime_of(word: Seq<char>) -> Option<TargetRuntime> {
    let w = ascii_lower(word);
    if w == "shell"@ {
        Some(TargetRuntime::Shell)
    } else if w == "tmux"@ {
        Some(TargetRuntime::Tmux)
    } else if w == "herdr"@ {
        Some(TargetRuntime::Herdr)
    } else {
        None
    }
}

impl TargetRuntime {
    /// Returns the name of the runtime.
    pub fn as_str(self) -> (r: &'static str)
        ensures
            r@ == target_runtime_name(self),
    {
        match self {
            TargetRuntime::Shell => "shell",
            TargetRuntime::Tmux => "tmux",
            TargetRuntime::Herdr => "herdr",
        }
    }

    /// Reads the name of a runtime.
    pub fn from_name(word: &str) -> (r: Option<Self>)
        ensures
            r == target_runtime_of(word@),
    {
        let w = ascii_lowercase(word);
        if same(w.as_str(), "shell") {
            Some(TargetRuntime::Shell)
        } else if same(w.as_str(), "tmux") {
            Some(TargetRuntime::Tmux)
        } else if same(w.as_str(), "herdr") {
            Some(TargetRuntime::Herdr)
        } else {
            None
        }
    }
}

/// How a target is reached.
#[derive(Debug, PartialEq, Eq)]
pub enum TargetTransport {
    Local,
    Ssh { name: String },
}

impl Clone for TargetTransport {
    fn clone(&self) -> (r: Self)
        ensures
            r == *self,
    {
        match self {
            TargetTransport::Local => TargetTransport::Local,
            TargetTransport::Ssh { name } => TargetTransport::Ssh { name: name.clone() },
        }
    }
}

/// The view of a [`TargetTransport`].
pub enum TargetTransportView {
    Local,
    Ssh { name: Seq<char> },
}

impl View for TargetTransport {
    type V = TargetTransportView;

    open spec fn view(&self) -> TargetTransportView {
        match *self {
            TargetTransport::Local => TargetTransportView::Local,
            TargetTransport::Ssh { name } => TargetTransportView::Ssh { name: name@ },
        }
    }
}

impl TargetTransport {
    /// Tells whether the target is reached over SSH.
    pub fn is_ssh(&self) -> (r: bool)
        ensures
            r == (*self is Ssh),
    {
        match self {
            TargetTransport::Local => false,
            TargetTransport::Ssh { .. } => true,
        }
    }

    /// The name of the transport and the host that it reaches.
    pub fn create_backend(&self) -> (r: (&'static str, Option<&str>))
        ensures
            match *self {
                TargetTransport::Local => r.0@ == "local"@ && r.1 is None,
                TargetTransport::Ssh { name } => r.0@ == "ssh"@ && r.1 is Some && (r.1->0)@
                    == name@,
            },
    {
        match self {
            TargetTransport::Local => ("local", None),
            TargetTransport::Ssh { name } => ("ssh", Some(name.as_str())),
        }
    }
}

/// What a workspace is opened on.
#[derive(Debug, PartialEq, Eq)]
pub struct TargetConfig {
    pub name: String,
    pub runtime: TargetRuntime,
    pub transport: TargetTransport,
    pub path: String,
    pub session: Option<String>,
    pub socket: Option<String>,
    pub workspace_id: Option<String>,
}

impl Clone for TargetConfig {
    fn clone(&self) -> (r: Self)
        ensures
            r == *self,
    {
        TargetConfig {
            name: self.name.clone(),
            runtime: self.runtime,
            transport: self.transport.clone(),
            path: self.path.clone(),
            session: clone_opt(&self.session),
            socket: clone_opt(&self.socket),
            workspace_id: clone_opt(&self.workspace_id),
        }
    }
}

/// The view of a [`TargetConfig`].
pub struct TargetConfigView {
    pub name: Seq<char>,
    pub runtime: TargetRuntime,
    pub transport: TargetTransportView,
    pub path: Seq<char>,
    pub session: Option<Seq<char>>,
    pub socket: Option<Seq<char>>,
    pub workspace_id: Option<Seq<char>>,
}

impl View for TargetConfig {
    type V = TargetConfigView;

    open spec fn view(&self) -> TargetConfigView {
        TargetConfigView {
            name: self.name@,
            runtime: self.runtime,
            transport: self.transport@,
            path: self.path@,
            session: opt_view(self.session),
            socket: opt_view(self.socket),
            workspace_id: opt_view(self.workspace_id),
        }
    }
}

/// A target without session, socket and workspace.
pub open spec fn plain_target(
    name: Seq<char>,
    runtime: TargetRuntime,
    transport: TargetTransportView,
    path: Seq<char>,
) -> TargetConfigView {
    TargetConfigView {
        name,
        runtime,
        transport,
        path,
        session: None,
        socket: None,
        workspace_id: None,
    }
}

impl TargetConfig {
    /// A target without session, socket and workspace.
    pub fn new(name: &str, runtime: TargetRuntime, transport: TargetTransport, path: &str) -> (r:
        Self)
        ensures
            r@ == plain_target(name@, runtime, transport@, path@),
    {
        TargetConfig {
            name: name.to_owned(),
            runtime,
            transport,
            path: path.to_owned(),
            session: None,
            socket: None,
            workspace_id: None,
        }
    }
}

/// The identity of a session on a target.
pub open spec fn id_for_config(c: TargetConfigView, session: Seq<char>) -> WorkspaceIdView {
    WorkspaceIdView {
        transport: match c.transport {
            TargetTransportView::Local => "local"@,
            TargetTransportView::Ssh { .. } => "ssh"@,
        },
        alias: match c.transport {
            TargetTransportView::Local => None,
            TargetTransportView::Ssh { name } => Some(name),
        },
        session,
        runtime: target_runtime_name(c.runtime),
        path: c.path,
    }
}

/// Returns the identity of a session on a target.
pub fn workspace_id_for_config(config: &TargetConfig, session: &str) -> (r: WorkspaceId)
    ensures
        r@ == id_for_config(config@, session@),
{
    let alias: Option<&str> = match &config.transport {
        TargetTransport::Ssh { name } => Some(name.as_str()),
        TargetTransport::Local => None,
    };
    let transport = if config.transport.is_ssh() {
        "ssh"
    } else {
        "local"
    };
    WorkspaceId::new(transport, alias, session, config.runtime.as_str(), config.path.as_str())
}

/// The target in the form in which the core takes it.
pub open spec fn is_target_of(t: ClientTarget, config: TargetConfig) -> bool {
    &&& t.name@ == config.name@
    &&& t.runtime@ == target_runtime_name(config.runtime)
    &&& t.transport@ == match config.transport {
        TargetTransport::Local => "local"@,
        TargetTransport::Ssh { .. } => "ssh"@,
    }
    &&& opt_view(t.target) == match config.transport {
        TargetTransport::Local => None,
        TargetTransport::Ssh { name } => Some(name@),
    }
    &&& t.path@ == config.path@
    &&& t.session == config.session
    &&& t.socket == config.socket
}

/// Returns a target in the form in which the core takes it.
pub fn client_target_from_config(config: &TargetConfig) -> (r: ClientTarget)
    ensures
        is_target_of(r, *config),
{
    let (transport, target): (&str, Option<String>) = match &config.transport {
        TargetTransport::Local => ("local", None),
        TargetTransport::Ssh { name } => ("ssh", Some(name.clone())),
    };
    ClientTarget {
        name: config.name.clone(),
        runtime: config.runtime.as_str().to_owned(),
        transport: transport.to_owned(),
        target,
        path: config.path.clone(),
        session: clone_opt(&config.session),
        socket: clone_opt(&config.socket),
    }
}

// ---------------------------------------------------------------------------
// From an open workspace.
// ---------------------------------------------------------------------------

/// The runtime that a word names; tmux where it names none.
pub open spec fn runtime_or_tmux(word: Seq<char>) -> TargetRuntime {
    match target_runtime_of(word) {
        Some(r) => r,
        None => TargetRuntime::Tmux,
    }
}

/// A string that may be missing.
pub open spec fn text_or(s: Option<String>, other: Seq<char>) -> Seq<char> {
    match s {
        Some(t) => t@,
        None => other,
    }
}

/// The target of an open workspace: what the core resolved it to where it is
/// known, else what its identity tells. `default_name` names a workspace
/// without a session.
pub open spec fn target_of(
    w: ClientWorkspace,
    tmux_socket: Option<Seq<char>>,
    default_name: Seq<char>,
) -> TargetConfigView {
    match w.resolved_target {
        Some(c) => TargetConfigView {
            name: text_or(c.name, w.name@),
            runtime: match c.runtime {
                Some(word) => match target_runtime_of(word@) {
                    Some(r) => r,
                    None => runtime_or_tmux(w.runtime@),
                },
                None => runtime_or_tmux(w.runtime@),
            },
            transport: if c.transport is Some && c.transport->0@ == "ssh"@ {
                TargetTransportView::Ssh { name: text_or(c.target, Seq::<char>::empty()) }
            } else {
                TargetTransportView::Local
            },
            path: text_or(c.path, Seq::<char>::empty()),
            session: opt_view(c.session),
            socket: match c.socket {
                Some(s) => Some(s@),
                None => tmux_socket,
            },
            workspace_id: opt_view(c.workspace_id),
        },
        None => match parsed_id(w.id@) {
            None => plain_target(
                w.name@,
                runtime_or_tmux(w.runtime@),
                TargetTransportView::Local,
                Seq::<char>::empty(),
            ),
            Some(id) => {
                let tmux = runtime_or_tmux(id.runtime) == TargetRuntime::Tmux;
                TargetConfigView {
                    name: if id.session.len() == 0 {
                        default_name
                    } else {
                        id.session
                    },
                    runtime: runtime_or_tmux(id.runtime),
                    transport: if id.transport == "ssh"@ && id.alias is Some {
                        TargetTransportView::Ssh { name: id.alias->0 }
                    } else {
                        TargetTransportView::Local
                    },
                    path: id.path,
                    session: if tmux && id.session.len() > 0 {
                        Some(id.session)
                    } else {
                        None
                    },
                    socket: if tmux {
                        tmux_socket
                    } else {
                        None
                    },
                    workspace_id: None,
                }
            },
        },
    }
}

fn runtime_or_default(word: &str) -> (r: TargetRuntime)
    ensures
        r == runtime_or_tmux(word@),
{
    match TargetRuntime::from_name(word) {
        Some(r) => r,
        None => TargetRuntime::Tmux,
    }
}

fn string_or(s: &Option<String>, other: &str) -> (r: String)
    ensures
        r@ == text_or(*s, other@),
{
    match s {
        Some(t) => t.clone(),
        None => other.to_owned(),
    }
}

fn socket_of(tmux_socket: Option<&str>) -> (r: Option<String>)
    ensures
        opt_view(r) == match tmux_socket {
            Some(s) => Some(s@),
            None => None,
        },
{
    match tmux_socket {
        Some(s) => Some(s.to_owned()),
        None => None,
    }
}

/// Returns the target of an open workspace.
pub fn workspace_to_draft_config(
    workspace: &ClientWorkspace,
    tmux_socket: Option<&str>,
    default_name: &str,
) -> (r: TargetConfig)
    ensures
        r@ == target_of(
            *workspace,
            match tmux_socket {
                Some(s) => Some(s@),
                None => None,
            },
            default_name@,
        ),
{
    proof {
        reveal_strlit("");
        assert(""@ =~= Seq::<char>::empty());
    }
    if let Some(c) = &workspace.resolved_target {
        let runtime = match &c.runtime {
            Some(word) => match TargetRuntime::from_name(word.as_str()) {
                Some(r) => r,
                None => runtime_or_default(workspace.runtime.as_str()),
            },
            None => runtime_or_default(workspace.runtime.as_str()),
        };
        let ssh = match &c.transport {
            Some(t) => same(t.as_str(), "ssh"),
            None => false,
        };
        let transport = if ssh {
            TargetTransport::Ssh { name: string_or(&c.target, "") }
        } else {
            TargetTransport::Local
        };
        let socket = match &c.socket {
            Some(s) => Some(s.clone()),
            None => socket_of(tmux_socket),
        };
        return TargetConfig {
            name: string_or(&c.name, workspace.name.as_str()),
            runtime,
            transport,
            path: string_or(&c.path, ""),
            session: clone_opt(&c.session),
            socket,
            workspace_id: clone_opt(&c.workspace_id),
        };
    }
    let id = match parse_workspace_id(workspace.id.as_str()) {
        Some(id) => id,
        None => {
            return TargetConfig::new(
                workspace.name.as_str(),
                runtime_or_default(workspace.runtime.as_str()),
                TargetTransport::Local,
                "",
            );
        },
    };
    let named = !id.session.as_str().is_empty();
    let name = if named {
        id.session.clone()
    } else {
        default_name.to_owned()
    };
    let runtime = runtime_or_default(id.runtime.as_str());
    let transport = if same(id.transport.as_str(), "ssh") {
        match &id.alias {
            Some(a) => TargetTransport::Ssh { name: a.clone() },
            None => TargetTransport::Local,
        }
    } else {
        TargetTransport::Local
    };
    let tmux = runtime == TargetRuntime::Tmux;
    let session = if tmux && named {
        Some(id.session.clone())
    } else {
        None
    };
    let socket = if tmux {
        socket_of(tmux_socket)
    } else {
        None
    };
    TargetConfig { name, runtime, transport, path: id.path, session, socket, workspace_id: None }
}

/// What the core resolved a workspace to decides over what its identity tells.
pub proof fn law_resolved_target_decides(
    a: ClientWorkspace,
    b: ClientWorkspace,
    socket: Option<Seq<char>>,
    name: Seq<char>,
)
    requires
        a.resolved_target is Some,
        a.resolved_target == b.resolved_target,
        a.name@ == b.name@,
        a.runtime@ == b.runtime@,
    ensures
        target_of(a, socket, name) == target_of(b, socket, name),
{
}

/// The identity made for a session on a target leads back to that target.
pub proof fn law_identity_leads_back(c: TargetConfigView, session: Seq<char>, w: ClientWorkspace)
    requires
        session.len() > 0,
        !session.contains('/'),
        c.transport matches TargetTransportView::Ssh { name } ==> name.len() > 0 && !name.contains(
            '/',
        ),
        w.resolved_target is None,
        w.id@ == crate::workspace_id::id_text(id_for_config(c, session)),
    ensures
        ({
            let t = target_of(w, None, Seq::<char>::empty());
            t.name == session && t.runtime == c.runtime && t.transport == c.transport && t.path
                == c.path
        }),
{
    reveal_strlit("local");
    reveal_strlit("ssh");
    reveal_strlit("shell");
    reveal_strlit("tmux");
    reveal_strlit("herdr");
    let id = id_for_config(c, session);
    assert(ascii_lower("shell"@) =~= "shell"@);
    assert(ascii_lower("tmux"@) =~= "tmux"@);
    assert(ascii_lower("herdr"@) =~= "herdr"@);
    assert("shell"@.len() != "tmux"@.len());
    assert("shell"@[0] != "herdr"@[0]);
    assert("tmux"@.len() != "herdr"@.len());
    assert("local"@.len() != "ssh"@.len());
    assert(!"local"@.contains('/'));
    assert(!"ssh"@.contains('/'));
    assert(!"shell"@.contains('/'));
    assert(!"tmux"@.contains('/'));
    assert(!"herdr"@.contains('/'));
    crate::workspace_id::law_identity_reads_back(id);
}

} // verus!
