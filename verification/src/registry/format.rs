//! The registry file: a JSON object whose `terminals` array holds one object per
//! managed terminal. Entries written before the backend field existed carry only
//! the `tmux_*` fields and are read as legacy tmux terminals.

use vstd::prelude::*;

use super::backend::{default_window, legacy_fields, legacy_fields_of, Backend, SessionEndpoint, TerminalBackend};
use super::model::{
    live_pty_without_endpoint, status_text, terminal_wf, ManagedTerminal, Registry, Terminal, TerminalStatus,
};
use crate::decode::{
    dec_opt_str, dec_str, dec_uint, dec_uuid, entries_of, entry, field_opt_str, field_str, field_uint,
    field_uuid, lemma_entry_absent, lemma_entry_at, lemma_field_names_distinct, opt_str_j, opt_str_json,
    opt_str_view, str_json, uuid_json, Entries, Field, JsonError,
};
use crate::ids::{uuid_hyphenated, uuid_parsed, TerminalId, WindowId, WorkspaceId};
use crate::json::{
    entries_model, items_model, json_parsed, json_wf, json_written_pretty, lemma_array_model,
    lemma_object_model, max_depth, parse_json, spec_field, write_json_pretty, Json, JsonValue,
};
use crate::protocol::codec::{id_j, id_reads_back, lemma_object_is, lemma_object_wf};
use crate::text::text_eq;

verus! {

// ---------------------------------------------------------------------------
// Writing.

/// The fields of a backend object, in order.
pub open spec fn backend_keys(b: Backend) -> Seq<Field> {
    match b {
        Backend::Pty { .. } => seq![Field::Kind, Field::Endpoint],
        Backend::LegacyTmux { .. } => seq![Field::Kind, Field::Socket, Field::Session, Field::Window],
    }
}

/// The JSON object of an endpoint.
pub open spec fn endpoint_json(socket_path: Seq<char>) -> Json {
    Json::Object(entries_of(seq![Field::SocketPath], seq![Json::Str(socket_path)]))
}

pub open spec fn backend_values(b: Backend) -> Seq<Json> {
    match b {
        Backend::Pty { socket_path } => seq![Json::Str("pty"@), endpoint_json(socket_path)],
        Backend::LegacyTmux { socket, session, window } => seq![
            Json::Str("legacy-tmux"@),
            Json::Str(socket),
            Json::Str(session),
            Json::Str(window),
        ],
    }
}

/// The JSON object of a backend, tagged by `kind`.
pub open spec fn backend_json(b: Backend) -> Json {
    Json::Object(entries_of(backend_keys(b), backend_values(b)))
}

/// A text field that is left out when empty.
pub open spec fn skip_empty_key(f: Field, s: Seq<char>) -> Seq<Field> {
    if s.len() == 0 {
        Seq::empty()
    } else {
        seq![f]
    }
}

pub open spec fn skip_empty_value(s: Seq<char>) -> Seq<Json> {
    if s.len() == 0 {
        Seq::empty()
    } else {
        seq![Json::Str(s)]
    }
}

/// The fields of a terminal object, in order; empty `tmux_*` fields are left out.
pub open spec fn terminal_keys(t: Terminal) -> Seq<Field> {
    seq![
        Field::TerminalId,
        Field::WorkspaceId,
        Field::WindowId,
        Field::WorkspacePath,
        Field::RepoRoot,
        Field::BranchName,
        Field::Backend,
    ] + skip_empty_key(Field::TmuxSocket, t.tmux_socket) + skip_empty_key(Field::TmuxSession, t.tmux_session)
        + skip_empty_key(Field::TmuxWindow, t.tmux_window) + seq![
        Field::CreatedAt,
        Field::LastSeenAt,
        Field::Status,
    ]
}

pub open spec fn terminal_values(t: Terminal) -> Seq<Json> {
    seq![
        id_j(t.terminal_id.value),
        Json::Str(t.workspace_id),
        id_j(t.window_id.value),
        Json::Str(t.workspace_path),
        Json::Str(t.repo_root),
        opt_str_j(t.branch_name),
        backend_json(t.backend),
    ] + skip_empty_value(t.tmux_socket) + skip_empty_value(t.tmux_session) + skip_empty_value(t.tmux_window)
        + seq![Json::UInt(t.created_at), Json::UInt(t.last_seen_at), Json::Str(status_text(t.status))]
}

/// The JSON object of a terminal.
pub open spec fn terminal_json(t: Terminal) -> Json {
    Json::Object(entries_of(terminal_keys(t), terminal_values(t)))
}

/// The JSON object of a registry.
pub open spec fn registry_json(ts: Seq<Terminal>) -> Json {
    Json::Object(
        entries_of(seq![Field::Terminals], seq![Json::Array(ts.map_values(|t: Terminal| terminal_json(t)))]),
    )
}

// ---------------------------------------------------------------------------
// Reading.

/// The backend an object decodes to, by its `kind`.
pub open spec fn backend_of_json(j: Json) -> Result<Backend, JsonError> {
    match j {
        Json::Object(es) => match dec_str(es, Field::Kind) {
            Err(e) => Err(e),
            Ok(kind) => if kind == "pty"@ {
                match spec_field(es, Field::Endpoint.spec_name()) {
                    None => Err(JsonError::MissingField(Field::Endpoint)),
                    Some(Json::Object(ep)) => match dec_str(ep, Field::SocketPath) {
                        Err(e) => Err(e),
                        Ok(p) => Ok(Backend::Pty { socket_path: p }),
                    },
                    Some(_) => Err(JsonError::WrongType(Field::Endpoint)),
                }
            } else if kind == "legacy-tmux"@ {
                match dec_str(es, Field::Socket) {
                    Err(e) => Err(e),
                    Ok(socket) => match dec_str(es, Field::Session) {
                        Err(e) => Err(e),
                        Ok(session) => match spec_field(es, Field::Window.spec_name()) {
                            None => Ok(Backend::LegacyTmux { socket, session, window: default_window() }),
                            Some(Json::Str(window)) => Ok(Backend::LegacyTmux { socket, session, window }),
                            Some(_) => Err(JsonError::WrongType(Field::Window)),
                        },
                    },
                }
            } else {
                Err(JsonError::UnknownVariant(Field::Kind))
            },
        },
        _ => Err(JsonError::NotAnObject),
    }
}

/// An optional backend field: absent or `null` is nothing.
pub open spec fn dec_opt_backend(es: Entries) -> Result<Option<Backend>, JsonError> {
    match spec_field(es, Field::Backend.spec_name()) {
        None => Ok(None),
        Some(Json::Null) => Ok(None),
        Some(j) => match backend_of_json(j) {
            Ok(b) => Ok(Some(b)),
            Err(e) => Err(e),
        },
    }
}

/// The status a name denotes.
pub open spec fn status_of_text(s: Seq<char>) -> Option<TerminalStatus> {
    if s == "starting"@ {
        Some(TerminalStatus::Starting)
    } else if s == "live"@ {
        Some(TerminalStatus::Live)
    } else if s == "detached"@ {
        Some(TerminalStatus::Detached)
    } else if s == "stale"@ {
        Some(TerminalStatus::Stale)
    } else if s == "exited"@ {
        Some(TerminalStatus::Exited)
    } else {
        None
    }
}

/// The status field: live when absent.
pub open spec fn dec_status(es: Entries) -> Result<TerminalStatus, JsonError> {
    match spec_field(es, Field::Status.spec_name()) {
        None => Ok(TerminalStatus::Live),
        Some(Json::Str(s)) => match status_of_text(s) {
            Some(st) => Ok(st),
            None => Err(JsonError::UnknownVariant(Field::Status)),
        },
        Some(_) => Err(JsonError::WrongType(Field::Status)),
    }
}

pub open spec fn unwrap_text_or(o: Option<Seq<char>>, d: Seq<char>) -> Seq<char> {
    match o {
        Some(s) => s,
        None => d,
    }
}

/// The backend of an entry: the one it names, or else the legacy tmux session
/// its `tmux_*` fields name (no socket or session when absent, window `0`).
pub open spec fn resolve_backend(
    b: Option<Backend>,
    socket: Option<Seq<char>>,
    session: Option<Seq<char>>,
    window: Option<Seq<char>>,
) -> Backend {
    match b {
        Some(b) => b,
        None => Backend::LegacyTmux {
            socket: unwrap_text_or(socket, Seq::empty()),
            session: unwrap_text_or(session, Seq::empty()),
            window: unwrap_text_or(window, default_window()),
        },
    }
}

/// The terminal an entry's fields decode to, field by field in declaration
/// order; a live PTY entry without a socket is refused.
pub open spec fn terminal_of_entries(es: Entries) -> Result<Terminal, JsonError> {
    match dec_uuid(es, Field::TerminalId) {
        Err(e) => Err(e),
        Ok(t) => match dec_str(es, Field::WorkspaceId) {
            Err(e) => Err(e),
            Ok(ws) => match dec_uuid(es, Field::WindowId) {
                Err(e) => Err(e),
                Ok(w) => match dec_str(es, Field::WorkspacePath) {
                    Err(e) => Err(e),
                    Ok(path) => match dec_str(es, Field::RepoRoot) {
                        Err(e) => Err(e),
                        Ok(root) => match dec_opt_str(es, Field::BranchName) {
                            Err(e) => Err(e),
                            Ok(branch) => match dec_opt_backend(es) {
                                Err(e) => Err(e),
                                Ok(b) => match dec_opt_str(es, Field::TmuxSocket) {
                                    Err(e) => Err(e),
                                    Ok(sock) => match dec_opt_str(es, Field::TmuxSession) {
                                        Err(e) => Err(e),
                                        Ok(sess) => match dec_opt_str(es, Field::TmuxWindow) {
                                            Err(e) => Err(e),
                                            Ok(win) => match dec_uint(es, Field::CreatedAt, 0xffff_ffff_ffff_ffff) {
                                                Err(e) => Err(e),
                                                Ok(created) => match dec_uint(
                                                    es,
                                                    Field::LastSeenAt,
                                                    0xffff_ffff_ffff_ffff,
                                                ) {
                                                    Err(e) => Err(e),
                                                    Ok(seen) => match dec_status(es) {
                                                        Err(e) => Err(e),
                                                        Ok(status) => {
                                                            let backend = resolve_backend(b, sock, sess, win);
                                                            if live_pty_without_endpoint(backend, status) {
                                                                Err(JsonError::LivePtyWithoutEndpoint)
                                                            } else {
                                                                let (s0, s1, s2) = legacy_fields(backend);
                                                                Ok(
                                                                    Terminal {
                                                                        terminal_id: TerminalId { value: t },
                                                                        workspace_id: ws,
                                                                        window_id: WindowId { value: w },
                                                                        workspace_path: path,
                                                                        repo_root: root,
                                                                        branch_name: branch,
                                                                        backend,
                                                                        tmux_socket: s0,
                                                                        tmux_session: s1,
                                                                        tmux_window: s2,
                                                                        created_at: created,
                                                                        last_seen_at: seen,
                                                                        status,
                                                                    },
                                                                )
                                                            }
                                                        },
                                                    },
                                                },
                                            },
                                        },
                                    },
                                },
                            },
                        },
                    },
                },
            },
        },
    }
}

pub open spec fn terminal_of_json(j: Json) -> Result<Terminal, JsonError> {
    match j {
        Json::Object(es) => terminal_of_entries(es),
        _ => Err(JsonError::NotAnObject),
    }
}

/// The terminals an array decodes to; the first refused item decides the error.
pub open spec fn terminals_of(items: Seq<Json>) -> Result<Seq<Terminal>, JsonError>
    decreases items.len(),
{
    if items.len() == 0 {
        Ok(Seq::empty())
    } else {
        match terminals_of(items.drop_last()) {
            Err(e) => Err(e),
            Ok(prev) => match terminal_of_json(items.last()) {
                Err(e) => Err(e),
                Ok(t) => Ok(prev.push(t)),
            },
        }
    }
}

/// The terminals a registry object lists; none when it has no `terminals` field.
pub open spec fn registry_of_json(j: Json) -> Result<Seq<Terminal>, JsonError> {
    match j {
        Json::Object(es) => match spec_field(es, Field::Terminals.spec_name()) {
            None => Ok(Seq::empty()),
            Some(Json::Array(items)) => terminals_of(items),
            Some(_) => Err(JsonError::WrongType(Field::Terminals)),
        },
        _ => Err(JsonError::NotAnObject),
    }
}

/// The terminals a registry file's text lists.
pub open spec fn registry_of_text(text: Seq<char>) -> Result<Seq<Terminal>, JsonError> {
    match json_parsed(text) {
        None => Err(JsonError::Syntax),
        Some(j) => registry_of_json(j),
    }
}


// ---------------------------------------------------------------------------
// Reading back what was written.

pub proof fn lemma_status_names(st: TerminalStatus)
    ensures
        status_of_text(status_text(st)) == Some(st),
{
    reveal_strlit("starting");
    reveal_strlit("live");
    reveal_strlit("detached");
    reveal_strlit("stale");
    reveal_strlit("exited");
    let t = status_text(st);
    assert(t.len() > 0);
    if st != TerminalStatus::Starting {
        let l = "starting"@;
        assert(t.len() != l.len() || t[0] != l[0] || t[t.len() - 1] != l[l.len() - 1]);
    }
    if st != TerminalStatus::Live {
        let l = "live"@;
        assert(t.len() != l.len() || t[0] != l[0] || t[t.len() - 1] != l[l.len() - 1]);
    }
    if st != TerminalStatus::Detached {
        let l = "detached"@;
        assert(t.len() != l.len() || t[0] != l[0] || t[t.len() - 1] != l[l.len() - 1]);
    }
    if st != TerminalStatus::Stale {
        let l = "stale"@;
        assert(t.len() != l.len() || t[0] != l[0] || t[t.len() - 1] != l[l.len() - 1]);
    }
    if st != TerminalStatus::Exited {
        let l = "exited"@;
        assert(t.len() != l.len() || t[0] != l[0] || t[t.len() - 1] != l[l.len() - 1]);
    }
}

proof fn lemma_backend_kinds()
    ensures
        "legacy-tmux"@ != "pty"@,
{
    reveal_strlit("legacy-tmux");
    reveal_strlit("pty");
    assert("legacy-tmux"@.len() != "pty"@.len());
}

/// A backend object reads back as the backend.
pub proof fn lemma_backend_round_trip(b: Backend)
    ensures
        backend_of_json(backend_json(b)) == Ok::<Backend, JsonError>(b),
{
    lemma_backend_kinds();
    let fs = backend_keys(b);
    let vs = backend_values(b);
    lemma_entry_at(fs, vs, 0);
    match b {
        Backend::Pty { socket_path } => {
            lemma_entry_at(fs, vs, 1);
            lemma_entry_at(seq![Field::SocketPath], seq![Json::Str(socket_path)], 0);
        },
        Backend::LegacyTmux { .. } => {
            lemma_entry_at(fs, vs, 1);
            lemma_entry_at(fs, vs, 2);
            lemma_entry_at(fs, vs, 3);
        },
    }
}

/// A consistent terminal's object reads back as the terminal.
pub proof fn lemma_terminal_round_trip(t: Terminal)
    requires
        terminal_wf(t),
        id_reads_back(t.terminal_id.value),
        id_reads_back(t.window_id.value),
    ensures
        terminal_of_json(terminal_json(t)) == Ok::<Terminal, JsonError>(t),
{
    let fs = terminal_keys(t);
    let vs = terminal_values(t);
    let b1: int = if t.tmux_socket.len() == 0 { 0 } else { 1 };
    let b2: int = if t.tmux_session.len() == 0 { 0 } else { 1 };
    let b3: int = if t.tmux_window.len() == 0 { 0 } else { 1 };
    assert(fs.len() == 10 + b1 + b2 + b3);
    assert(fs.no_duplicates());
    lemma_entry_at(fs, vs, 0);
    lemma_entry_at(fs, vs, 1);
    lemma_entry_at(fs, vs, 2);
    lemma_entry_at(fs, vs, 3);
    lemma_entry_at(fs, vs, 4);
    lemma_entry_at(fs, vs, 5);
    lemma_entry_at(fs, vs, 6);
    lemma_backend_round_trip(t.backend);
    if b1 == 1 {
        lemma_entry_at(fs, vs, 7);
    } else {
        lemma_entry_absent(fs, vs, Field::TmuxSocket);
    }
    if b2 == 1 {
        lemma_entry_at(fs, vs, 7 + b1);
    } else {
        lemma_entry_absent(fs, vs, Field::TmuxSession);
    }
    if b3 == 1 {
        lemma_entry_at(fs, vs, 7 + b1 + b2);
    } else {
        lemma_entry_absent(fs, vs, Field::TmuxWindow);
    }
    lemma_entry_at(fs, vs, 7 + b1 + b2 + b3);
    lemma_entry_at(fs, vs, 8 + b1 + b2 + b3);
    lemma_entry_at(fs, vs, 9 + b1 + b2 + b3);
    lemma_status_names(t.status);
}

/// Terminal objects read back as the terminals.
pub proof fn lemma_terminals_round_trip(l: Seq<Terminal>)
    requires
        forall|i: int|
            0 <= i < l.len() ==> terminal_wf(#[trigger] l[i]) && id_reads_back(l[i].terminal_id.value)
                && id_reads_back(l[i].window_id.value),
    ensures
        terminals_of(l.map_values(|t: Terminal| terminal_json(t))) == Ok::<Seq<Terminal>, JsonError>(l),
    decreases l.len(),
{
    if l.len() > 0 {
        let items = l.map_values(|t: Terminal| terminal_json(t));
        assert(items.drop_last() =~= l.drop_last().map_values(|t: Terminal| terminal_json(t)));
        assert forall|i: int| 0 <= i < l.drop_last().len() implies terminal_wf(#[trigger] l.drop_last()[i])
            && id_reads_back(l.drop_last()[i].terminal_id.value) && id_reads_back(
            l.drop_last()[i].window_id.value,
        ) by {
            assert(l.drop_last()[i] == l[i]);
        }
        lemma_terminals_round_trip(l.drop_last());
        assert(terminal_wf(l[l.len() - 1]));
        lemma_terminal_round_trip(l.last());
        assert(items.last() == terminal_json(l.last()));
        assert(l.drop_last().push(l.last()) =~= l);
    } else {
        assert(l =~= Seq::<Terminal>::empty());
    }
}

/// A registry object reads back as its terminals.
pub proof fn lemma_registry_round_trip(l: Seq<Terminal>)
    requires
        forall|i: int|
            0 <= i < l.len() ==> terminal_wf(#[trigger] l[i]) && id_reads_back(l[i].terminal_id.value)
                && id_reads_back(l[i].window_id.value),
    ensures
        registry_of_json(registry_json(l)) == Ok::<Seq<Terminal>, JsonError>(l),
{
    lemma_entry_at(seq![Field::Terminals], seq![Json::Array(l.map_values(|t: Terminal| terminal_json(t)))], 0);
    lemma_terminals_round_trip(l);
}

/// Backend objects are well-formed JSON.
proof fn lemma_backend_wf(b: Backend, d: nat)
    requires
        d > 1,
    ensures
        json_wf(backend_json(b), d),
{
    let vs = backend_values(b);
    match b {
        Backend::Pty { socket_path } => {
            let ev = seq![Json::Str(socket_path)];
            assert forall|i: int| 0 <= i < ev.len() implies json_wf(#[trigger] ev[i], (d - 2) as nat) by {}
            lemma_object_wf(seq![Field::SocketPath], ev, (d - 1) as nat);
        },
        _ => {},
    }
    assert forall|i: int| 0 <= i < vs.len() implies json_wf(#[trigger] vs[i], (d - 1) as nat) by {}
    lemma_object_wf(backend_keys(b), vs, d);
}

/// Terminal objects are well-formed JSON.
proof fn lemma_terminal_wf_json(t: Terminal, d: nat)
    requires
        d > 2,
    ensures
        json_wf(terminal_json(t), d),
{
    let fs = terminal_keys(t);
    let vs = terminal_values(t);
    lemma_backend_wf(t.backend, (d - 1) as nat);
    assert(fs.no_duplicates());
    assert forall|i: int| 0 <= i < vs.len() implies json_wf(#[trigger] vs[i], (d - 1) as nat) by {}
    lemma_object_wf(fs, vs, d);
}

/// Registry objects are well-formed JSON.
pub proof fn lemma_registry_json_wf(l: Seq<Terminal>)
    ensures
        json_wf(registry_json(l), max_depth()),
{
    let items = l.map_values(|t: Terminal| terminal_json(t));
    assert forall|i: int| 0 <= i < items.len() implies json_wf(#[trigger] items[i], 62) by {
        lemma_terminal_wf_json(l[i], 62);
    }
    let vs = seq![Json::Array(items)];
    assert forall|i: int| 0 <= i < vs.len() implies json_wf(#[trigger] vs[i], 63) by {}
    lemma_object_wf(seq![Field::Terminals], vs, max_depth());
}

/// Every entry that decodes is consistent: its `tmux_*` fields are those its
/// backend names, and it is no live PTY terminal without a socket.
pub proof fn law_decoded_terminal_is_consistent(j: Json)
    ensures
        terminal_of_json(j) matches Ok(t) ==> terminal_wf(t),
{
}


// ---------------------------------------------------------------------------
// Building and reading the file.

fn backend_to_json(b: &TerminalBackend) -> (j: JsonValue)
    ensures
        j@ == backend_json(b@),
{
    let mut es: Vec<(String, JsonValue)> = Vec::new();
    match b {
        TerminalBackend::Pty { endpoint } => {
            es.push(entry(Field::Kind, JsonValue::Str("pty".to_owned())));
            let mut ep: Vec<(String, JsonValue)> = Vec::new();
            ep.push(entry(Field::SocketPath, str_json(&endpoint.socket_path)));
            proof {
                lemma_object_is(ep, seq![Field::SocketPath], seq![Json::Str(endpoint.socket_path@)]);
            }
            es.push(entry(Field::Endpoint, JsonValue::Object(ep)));
        },
        TerminalBackend::LegacyTmux { socket, session, window } => {
            es.push(entry(Field::Kind, JsonValue::Str("legacy-tmux".to_owned())));
            es.push(entry(Field::Socket, str_json(socket)));
            es.push(entry(Field::Session, str_json(session)));
            es.push(entry(Field::Window, str_json(window)));
        },
    }
    proof {
        lemma_object_is(es, backend_keys(b@), backend_values(b@));
    }
    JsonValue::Object(es)
}

fn terminal_to_json(t: &ManagedTerminal) -> (j: JsonValue)
    ensures
        j@ == terminal_json(t@),
        id_reads_back(t.terminal_id.value),
        id_reads_back(t.window_id.value),
{
    let mut es: Vec<(String, JsonValue)> = Vec::new();
    es.push(entry(Field::TerminalId, uuid_json(t.terminal_id.value)));
    es.push(entry(Field::WorkspaceId, str_json(&t.workspace_id.value)));
    es.push(entry(Field::WindowId, uuid_json(t.window_id.value)));
    es.push(entry(Field::WorkspacePath, str_json(&t.workspace_path)));
    es.push(entry(Field::RepoRoot, str_json(&t.repo_root)));
    es.push(entry(Field::BranchName, opt_str_json(&t.branch_name)));
    es.push(entry(Field::Backend, backend_to_json(&t.backend)));
    if !t.tmux_socket.as_str().is_empty() {
        es.push(entry(Field::TmuxSocket, str_json(&t.tmux_socket)));
    }
    if !t.tmux_session.as_str().is_empty() {
        es.push(entry(Field::TmuxSession, str_json(&t.tmux_session)));
    }
    if !t.tmux_window.as_str().is_empty() {
        es.push(entry(Field::TmuxWindow, str_json(&t.tmux_window)));
    }
    es.push(entry(Field::CreatedAt, JsonValue::UInt(t.created_at)));
    es.push(entry(Field::LastSeenAt, JsonValue::UInt(t.last_seen_at)));
    es.push(entry(Field::Status, JsonValue::Str(t.status.name().to_owned())));
    proof {
        lemma_object_is(es, terminal_keys(t@), terminal_values(t@));
    }
    JsonValue::Object(es)
}

/// Every entry is consistent.
pub open spec fn all_consistent(l: Seq<Terminal>) -> bool {
    forall|i: int| 0 <= i < l.len() ==> terminal_wf(#[trigger] l[i])
}

impl Registry {
    /// The registry file's text: indented JSON. A registry whose entries are all
    /// consistent reads back as itself.
    pub fn to_json(&self) -> (r: String)
        ensures
            r@ == json_written_pretty(registry_json(self@)),
            all_consistent(self@) ==> registry_of_text(r@) == Ok::<Seq<Terminal>, JsonError>(self@),
    {
        let mut items: Vec<JsonValue> = Vec::new();
        let mut i: usize = 0;
        while i < self.terminals.len()
            invariant
                i <= self.terminals@.len(),
                items@.len() == i,
                forall|k: int| 0 <= k < i ==> #[trigger] items@[k]@ == terminal_json(self.terminals@[k]@),
                forall|k: int| 0 <= k < i ==> id_reads_back(#[trigger] self.terminals@[k].terminal_id.value),
                forall|k: int| 0 <= k < i ==> id_reads_back(#[trigger] self.terminals@[k].window_id.value),
            decreases self.terminals.len() - i,
        {
            let j = terminal_to_json(&self.terminals[i]);
            assert(id_reads_back(self.terminals@[i as int].terminal_id.value));
            assert(id_reads_back(self.terminals@[i as int].window_id.value));
            items.push(j);
            i = i + 1;
        }
        let ghost l = self@;
        proof {
            lemma_array_model(items);
            assert(items_model(items@) =~= l.map_values(|t: Terminal| terminal_json(t)));
        }
        let mut es: Vec<(String, JsonValue)> = Vec::new();
        es.push(entry(Field::Terminals, JsonValue::Array(items)));
        proof {
            lemma_object_is(es, seq![Field::Terminals], seq![Json::Array(l.map_values(|t: Terminal| terminal_json(t)))]);
        }
        let j = JsonValue::Object(es);
        let r = write_json_pretty(&j);
        proof {
            lemma_registry_json_wf(l);
            if all_consistent(l) {
                assert forall|k: int| 0 <= k < l.len() implies terminal_wf(#[trigger] l[k]) && id_reads_back(
                    l[k].terminal_id.value,
                ) && id_reads_back(l[k].window_id.value) by {
                    assert(l[k] == self.terminals@[k]@);
                    assert(id_reads_back(self.terminals@[k].terminal_id.value));
                    assert(id_reads_back(self.terminals@[k].window_id.value));
                }
                lemma_registry_round_trip(l);
            }
        }
        r
    }
}

fn backend_from_json(j: &JsonValue) -> (r: Result<TerminalBackend, JsonError>)
    ensures
        match r {
            Ok(b) => backend_of_json(j@) == Ok::<Backend, JsonError>(b@),
            Err(e) => backend_of_json(j@) == Err::<Backend, JsonError>(e),
        },
{
    match j {
        JsonValue::Object(es) => {
            proof {
                lemma_object_model(*es);
            }
            let kind = match field_str(es, Field::Kind) {
                Ok(k) => k,
                Err(e) => return Err(e),
            };
            if text_eq(kind.as_str(), "pty") {
                match crate::json::get_field(es, Field::Endpoint.name()) {
                    None => Err(JsonError::MissingField(Field::Endpoint)),
                    Some(v) => match v {
                        JsonValue::Object(ep) => {
                            proof {
                                lemma_object_model(*ep);
                            }
                            match field_str(ep, Field::SocketPath) {
                                Ok(p) => Ok(TerminalBackend::Pty { endpoint: SessionEndpoint { socket_path: p } }),
                                Err(e) => Err(e),
                            }
                        },
                        _ => Err(JsonError::WrongType(Field::Endpoint)),
                    },
                }
            } else if text_eq(kind.as_str(), "legacy-tmux") {
                let socket = match field_str(es, Field::Socket) {
                    Ok(s) => s,
                    Err(e) => return Err(e),
                };
                let session = match field_str(es, Field::Session) {
                    Ok(s) => s,
                    Err(e) => return Err(e),
                };
                match crate::json::get_field(es, Field::Window.name()) {
                    None => Ok(TerminalBackend::LegacyTmux { socket, session, window: super::backend::default_tmux_window() }),
                    Some(v) => match v {
                        JsonValue::Str(w) => Ok(TerminalBackend::LegacyTmux { socket, session, window: w.clone() }),
                        _ => Err(JsonError::WrongType(Field::Window)),
                    },
                }
            } else {
                Err(JsonError::UnknownVariant(Field::Kind))
            }
        },
        _ => Err(JsonError::NotAnObject),
    }
}

fn status_from_entries(es: &Vec<(String, JsonValue)>) -> (r: Result<TerminalStatus, JsonError>)
    ensures
        r == dec_status(entries_model(es@)),
{
    match crate::json::get_field(es, Field::Status.name()) {
        None => Ok(TerminalStatus::Live),
        Some(v) => match v {
            JsonValue::Str(s) => {
                let s = s.as_str();
                if text_eq(s, "starting") {
                    Ok(TerminalStatus::Starting)
                } else if text_eq(s, "live") {
                    Ok(TerminalStatus::Live)
                } else if text_eq(s, "detached") {
                    Ok(TerminalStatus::Detached)
                } else if text_eq(s, "stale") {
                    Ok(TerminalStatus::Stale)
                } else if text_eq(s, "exited") {
                    Ok(TerminalStatus::Exited)
                } else {
                    Err(JsonError::UnknownVariant(Field::Status))
                }
            },
            _ => Err(JsonError::WrongType(Field::Status)),
        },
    }
}

fn opt_backend_from_entries(es: &Vec<(String, JsonValue)>) -> (r: Result<Option<TerminalBackend>, JsonError>)
    ensures
        match r {
            Ok(Some(b)) => dec_opt_backend(entries_model(es@)) == Ok::<Option<Backend>, JsonError>(Some(b@)),
            Ok(None) => dec_opt_backend(entries_model(es@)) == Ok::<Option<Backend>, JsonError>(None),
            Err(e) => dec_opt_backend(entries_model(es@)) == Err::<Option<Backend>, JsonError>(e),
        },
{
    match crate::json::get_field(es, Field::Backend.name()) {
        None => Ok(None),
        Some(v) => match v {
            JsonValue::Null => Ok(None),
            _ => match backend_from_json(v) {
                Ok(b) => Ok(Some(b)),
                Err(e) => Err(e),
            },
        },
    }
}

fn text_or(o: Option<String>, d: String) -> (r: String)
    ensures
        r@ == unwrap_text_or(opt_str_view(o), d@),
{
    match o {
        Some(s) => s,
        None => d,
    }
}

/// The terminal an entry's fields decode to.
fn terminal_from_entries(es: &Vec<(String, JsonValue)>) -> (r: Result<ManagedTerminal, JsonError>)
    ensures
        match r {
            Ok(t) => terminal_of_entries(entries_model(es@)) == Ok::<Terminal, JsonError>(t@),
            Err(e) => terminal_of_entries(entries_model(es@)) == Err::<Terminal, JsonError>(e),
        },
{
    let t = match field_uuid(es, Field::TerminalId) {
        Ok(t) => t,
        Err(e) => return Err(e),
    };
    let ws = match field_str(es, Field::WorkspaceId) {
        Ok(s) => s,
        Err(e) => return Err(e),
    };
    let w = match field_uuid(es, Field::WindowId) {
        Ok(w) => w,
        Err(e) => return Err(e),
    };
    let path = match field_str(es, Field::WorkspacePath) {
        Ok(s) => s,
        Err(e) => return Err(e),
    };
    let root = match field_str(es, Field::RepoRoot) {
        Ok(s) => s,
        Err(e) => return Err(e),
    };
    let branch = match field_opt_str(es, Field::BranchName) {
        Ok(s) => s,
        Err(e) => return Err(e),
    };
    let b = match opt_backend_from_entries(es) {
        Ok(b) => b,
        Err(e) => return Err(e),
    };
    let sock = match field_opt_str(es, Field::TmuxSocket) {
        Ok(s) => s,
        Err(e) => return Err(e),
    };
    let sess = match field_opt_str(es, Field::TmuxSession) {
        Ok(s) => s,
        Err(e) => return Err(e),
    };
    let win = match field_opt_str(es, Field::TmuxWindow) {
        Ok(s) => s,
        Err(e) => return Err(e),
    };
    let created = match field_uint(es, Field::CreatedAt, 0xffff_ffff_ffff_ffff) {
        Ok(n) => n,
        Err(e) => return Err(e),
    };
    let seen = match field_uint(es, Field::LastSeenAt, 0xffff_ffff_ffff_ffff) {
        Ok(n) => n,
        Err(e) => return Err(e),
    };
    let status = match status_from_entries(es) {
        Ok(s) => s,
        Err(e) => return Err(e),
    };
    let backend = match b {
        Some(b) => b,
        None => TerminalBackend::LegacyTmux {
            socket: text_or(sock, String::new()),
            session: text_or(sess, String::new()),
            window: text_or(win, super::backend::default_tmux_window()),
        },
    };
    if let TerminalBackend::Pty { endpoint } = &backend {
        if status == TerminalStatus::Live && endpoint.is_empty() {
            return Err(JsonError::LivePtyWithoutEndpoint);
        }
    }
    let (tmux_socket, tmux_session, tmux_window) = legacy_fields_of(&backend);
    Ok(
        ManagedTerminal {
            terminal_id: TerminalId { value: t },
            workspace_id: WorkspaceId { value: ws },
            window_id: WindowId { value: w },
            workspace_path: path,
            repo_root: root,
            branch_name: branch,
            backend,
            tmux_socket,
            tmux_session,
            tmux_window,
            created_at: created,
            last_seen_at: seen,
            status,
        },
    )
}

fn terminal_from_json(j: &JsonValue) -> (r: Result<ManagedTerminal, JsonError>)
    ensures
        match r {
            Ok(t) => terminal_of_json(j@) == Ok::<Terminal, JsonError>(t@),
            Err(e) => terminal_of_json(j@) == Err::<Terminal, JsonError>(e),
        },
{
    match j {
        JsonValue::Object(es) => {
            proof {
                lemma_object_model(*es);
            }
            terminal_from_entries(es)
        },
        _ => Err(JsonError::NotAnObject),
    }
}

/// Once a prefix of the items is refused, so are the items.
proof fn lemma_terminals_prefix_err(m: Seq<Json>, k: int)
    requires
        0 <= k <= m.len(),
        terminals_of(m.take(k)) is Err,
    ensures
        terminals_of(m) == terminals_of(m.take(k)),
    decreases m.len() - k,
{
    if k == m.len() {
        assert(m.take(k) =~= m);
    } else {
        assert(m.drop_last().take(k) =~= m.take(k));
        lemma_terminals_prefix_err(m.drop_last(), k);
    }
}

fn terminals_from_items(items: &Vec<JsonValue>) -> (r: Result<Vec<ManagedTerminal>, JsonError>)
    ensures
        match r {
            Ok(v) => terminals_of(items_model(items@)) == Ok::<Seq<Terminal>, JsonError>(
                super::model::terminals_view(v@),
            ),
            Err(e) => terminals_of(items_model(items@)) == Err::<Seq<Terminal>, JsonError>(e),
        },
{
    let ghost m = items_model(items@);
    let mut out: Vec<ManagedTerminal> = Vec::new();
    let mut i: usize = 0;
    assert(m.take(0) =~= Seq::<Json>::empty());
    assert(super::model::terminals_view(out@) =~= Seq::<Terminal>::empty());
    while i < items.len()
        invariant
            i <= items@.len(),
            m == items_model(items@),
            terminals_of(m.take(i as int)) == Ok::<Seq<Terminal>, JsonError>(super::model::terminals_view(out@)),
        decreases items.len() - i,
    {
        assert(m.take(i + 1).drop_last() =~= m.take(i as int));
        assert(m.take(i + 1).last() == items@[i as int]@);
        match terminal_from_json(&items[i]) {
            Ok(t) => {
                let ghost prev = super::model::terminals_view(out@);
                let ghost tv = t@;
                assert(terminals_of(m.take(i + 1)) == Ok::<Seq<Terminal>, JsonError>(prev.push(tv)));
                out.push(t);
                assert(super::model::terminals_view(out@) =~= prev.push(tv));
            },
            Err(e) => {
                proof {
                    lemma_terminals_prefix_err(m, i + 1);
                }
                return Err(e);
            },
        }
        i = i + 1;
    }
    assert(m.take(i as int) =~= m);
    Ok(out)
}

impl Registry {
    /// The registry a file's text holds, as `registry_of_text` says.
    pub fn from_json(text: &str) -> (r: Result<Registry, JsonError>)
        ensures
            match r {
                Ok(reg) => registry_of_text(text@) == Ok::<Seq<Terminal>, JsonError>(reg@),
                Err(e) => registry_of_text(text@) == Err::<Seq<Terminal>, JsonError>(e),
            },
    {
        let j = match parse_json(text) {
            Some(j) => j,
            None => return Err(JsonError::Syntax),
        };
        match &j {
            JsonValue::Object(es) => {
                proof {
                    lemma_object_model(*es);
                }
                match crate::json::get_field(es, Field::Terminals.name()) {
                    None => {
                        let reg = Registry { terminals: Vec::new() };
                        assert(reg@ =~= Seq::<Terminal>::empty());
                        Ok(reg)
                    },
                    Some(v) => match v {
                        JsonValue::Array(items) => {
                            proof {
                                lemma_array_model(*items);
                            }
                            match terminals_from_items(items) {
                                Ok(terminals) => Ok(Registry { terminals }),
                                Err(e) => Err(e),
                            }
                        },
                        _ => Err(JsonError::WrongType(Field::Terminals)),
                    },
                }
            },
            _ => Err(JsonError::NotAnObject),
        }
    }
}

} // verus!
