//! How a managed terminal is reached: a broker PTY session behind a socket, or
//! a session of a tmux server.

use vstd::prelude::*;

verus! {

/// The socket of a broker session.
#[derive(Clone, Debug, PartialEq, Eq)]
pub struct SessionEndpoint {
    pub socket_path: String,
}

impl SessionEndpoint {
    pub fn unix_socket(socket_path: String) -> (r: Self)
        ensures
            r.socket_path == socket_path,
    {
        SessionEndpoint { socket_path }
    }

    /// Whether the socket path is empty.
    pub fn is_empty(&self) -> (r: bool)
        ensures
            r == (self.socket_path@.len() == 0),
    {
        self.socket_path.as_str().is_empty()
    }
}

/// The backend of a managed terminal.
#[derive(Clone, Debug, PartialEq, Eq)]
pub enum TerminalBackend {
    Pty { endpoint: SessionEndpoint },
    LegacyTmux { socket: String, session: String, window: String },
}

/// The model of a backend.
pub enum Backend {
    Pty { socket_path: Seq<char> },
    LegacyTmux { socket: Seq<char>, session: Seq<char>, window: Seq<char> },
}

impl View for TerminalBackend {
    type V = Backend;

    open spec fn view(&self) -> Backend {
        match self {
            TerminalBackend::Pty { endpoint } => Backend::Pty { socket_path: endpoint.socket_path@ },
            TerminalBackend::LegacyTmux { socket, session, window } => Backend::LegacyTmux {
                socket: socket@,
                session: session@,
                window: window@,
            },
        }
    }
}

impl TerminalBackend {
    /// A copy of the backend.
    pub fn duplicate(&self) -> (r: Self)
        ensures
            r == *self,
    {
        match self {
            TerminalBackend::Pty { endpoint } => TerminalBackend::Pty {
                endpoint: SessionEndpoint { socket_path: endpoint.socket_path.clone() },
            },
            TerminalBackend::LegacyTmux { socket, session, window } => TerminalBackend::LegacyTmux {
                socket: socket.clone(),
                session: session.clone(),
                window: window.clone(),
            },
        }
    }

    pub fn legacy_tmux(socket: String, session: String, window: String) -> (r: Self)
        ensures
            r == (TerminalBackend::LegacyTmux { socket, session, window }),
    {
        TerminalBackend::LegacyTmux { socket, session, window }
    }
}

/// The tmux window a legacy entry without one names.
pub open spec fn default_window() -> Seq<char> {
    "0"@
}

pub fn default_tmux_window() -> (r: String)
    ensures
        r@ == default_window(),
{
    "0".to_owned()
}

/// The tmux socket, session and window a backend names; empty for a PTY.
pub open spec fn legacy_fields(b: Backend) -> (Seq<char>, Seq<char>, Seq<char>) {
    match b {
        Backend::LegacyTmux { socket, session, window } => (socket, session, window),
        Backend::Pty { .. } => (Seq::empty(), Seq::empty(), Seq::empty()),
    }
}

pub fn legacy_fields_of(b: &TerminalBackend) -> (r: (String, String, String))
    ensures
        (r.0@, r.1@, r.2@) == legacy_fields(b@),
{
    match b {
        TerminalBackend::LegacyTmux { socket, session, window } => (socket.clone(), session.clone(), window.clone()),
        TerminalBackend::Pty { .. } => (String::new(), String::new(), String::new()),
    }
}

} // verus!
