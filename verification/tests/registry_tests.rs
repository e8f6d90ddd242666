use stp::cleanup::{
    mark_missing_live_sessions_stale, missing_live_terminals, remove_confirmed_missing, remove_zombie_sessions,
    terminal_session_is_known_missing, SessionLookup, SocketSessions,
};
use stp::decode::{Field, JsonError};
use stp::ids::{TerminalId, WindowId, WorkspaceId};
use stp::registry::{ManagedTerminal, Registry, RegistryError, RegistryStore, SessionEndpoint, TerminalBackend, TerminalStatus};
use stp::workspace::WorkspaceMetadata;

fn metadata(path: &str) -> WorkspaceMetadata {
    WorkspaceMetadata {
        workspace_id: WorkspaceId::new("workspace-a".to_owned()),
        workspace_path: path.to_owned(),
        repo_root: path.to_owned(),
        branch_name: None,
        is_git: false,
    }
}

fn legacy(id: u128, session: &str) -> ManagedTerminal {
    ManagedTerminal::new(
        TerminalId::from_u128(id),
        WindowId::from_u128(1),
        metadata("/tmp/worktree-a"),
        "socket",
        session,
        5,
    )
}

#[test]
fn remove_stale_when_registry_contains_live_and_stale() {
    let live_id = TerminalId::parse("00000000-0000-0000-0000-000000000301").expect("live id");
    let stale_id = TerminalId::parse("00000000-0000-0000-0000-000000000302").expect("stale id");
    let mut registry = Registry::default();
    registry.upsert(legacy(0x301, "live"));
    let mut stale = legacy(0x302, "stale");
    stale.status = TerminalStatus::Stale;
    registry.upsert(stale);

    let removed = registry.remove_stale();

    assert_eq!(removed, 1);
    assert!(registry.terminal(&live_id).is_some());
    assert!(registry.terminal(&stale_id).is_none());
}

#[test]
fn upsert_replaces_in_place_and_appends_new_terminals() {
    let mut registry = Registry::default();
    registry.upsert(legacy(1, "a"));
    registry.upsert(legacy(2, "b"));
    registry.upsert(legacy(1, "c"));
    assert_eq!(registry.terminals.len(), 2);
    assert_eq!(registry.terminals[0].tmux_session, "c");
    assert_eq!(registry.terminal(&TerminalId::from_u128(2)).expect("b").tmux_session, "b");
}

#[test]
fn registry_round_trips_through_its_file_text() {
    let mut registry = Registry::default();
    registry.upsert(legacy(0x101, "stp-000000000101"));
    let pty = ManagedTerminal::new_pty(
        TerminalId::from_u128(0x402),
        WindowId::from_u128(1),
        metadata("/tmp/worktree-b"),
        SessionEndpoint::unix_socket("/tmp/stp.sock".to_owned()),
        9,
    );
    registry.upsert(pty);

    let text = registry.to_json();
    let loaded = Registry::from_json(&text).expect("load registry");

    assert_eq!(loaded, registry);
    assert!(text.contains(r#""kind": "pty""#));
    assert!(text.contains(r#""socket_path""#));
    assert_eq!(text.matches("tmux_socket").count(), 1);
}

#[test]
fn registry_deserializes_legacy_tmux_entries_as_legacy_backend() {
    let text = r#"{
  "terminals": [
    {
      "terminal_id": "00000000-0000-0000-0000-000000000401",
      "workspace_id": "workspace-a",
      "window_id": "00000000-0000-0000-0000-000000000001",
      "workspace_path": "/tmp/worktree-a",
      "repo_root": "/tmp",
      "branch_name": null,
      "tmux_socket": "stp-managed",
      "tmux_session": "stp-000000000401",
      "tmux_window": "0",
      "created_at": 1,
      "last_seen_at": 2,
      "status": "live"
    }
  ]
}"#;
    let loaded = Registry::from_json(text).expect("load legacy registry");
    let terminal = loaded
        .terminal(&TerminalId::parse("00000000-0000-0000-0000-000000000401").expect("id"))
        .expect("legacy terminal");
    assert_eq!(
        terminal.backend,
        TerminalBackend::LegacyTmux {
            socket: "stp-managed".to_owned(),
            session: "stp-000000000401".to_owned(),
            window: "0".to_owned(),
        }
    );
}

#[test]
fn registry_rejects_missing_pty_endpoint_for_live_pty_terminal() {
    let entry = |backend: &str| {
        format!(
            r#"{{"terminals":[{{"terminal_id":"00000000-0000-0000-0000-000000000403","workspace_id":"w","window_id":"00000000-0000-0000-0000-000000000001","workspace_path":"/w","repo_root":"/","branch_name":null,"backend":{backend},"created_at":1,"last_seen_at":2,"status":"live"}}]}}"#
        )
    };
    assert_eq!(Registry::from_json(&entry(r#"{"kind":"pty"}"#)), Err(JsonError::MissingField(Field::Endpoint)));
    assert_eq!(
        Registry::from_json(&entry(r#"{"kind":"pty","endpoint":{"socket_path":""}}"#)),
        Err(JsonError::LivePtyWithoutEndpoint)
    );
    let store = RegistryStore::new("/tmp/registry.json".to_owned());
    match store.load_from(Some("{broken")) {
        Err(error @ RegistryError::MalformedRegistry { .. }) => {
            assert_eq!(error.text(), "malformed registry /tmp/registry.json: invalid JSON");
            match error {
                RegistryError::MalformedRegistry { path, source } => {
                    assert_eq!(path, "/tmp/registry.json");
                    assert_eq!(source, JsonError::Syntax);
                },
                _ => unreachable!(),
            }
        },
        other => panic!("unexpected {other:?}"),
    }
    assert_eq!(store.load_from(None).expect("no file").terminals.len(), 0);
}

#[test]
fn registry_defaults_missing_status_and_terminals() {
    assert_eq!(Registry::from_json("{}").expect("empty").terminals.len(), 0);
    let text = r#"{"terminals":[{"terminal_id":"00000000-0000-0000-0000-000000000001","workspace_id":"w","window_id":"00000000-0000-0000-0000-000000000002","workspace_path":"/w","repo_root":"/","created_at":1,"last_seen_at":2}]}"#;
    let loaded = Registry::from_json(text).expect("defaults");
    assert_eq!(loaded.terminals[0].status, TerminalStatus::Live);
    assert_eq!(loaded.terminals[0].branch_name, None);
    assert_eq!(loaded.terminals[0].tmux_window, "0");
    assert_eq!(
        Registry::from_json(r#"{"terminals":[{"status":"gone"}]}"#),
        Err(JsonError::MissingField(Field::TerminalId))
    );
}

fn lookup(socket: &str, sessions: Option<Vec<&str>>) -> SessionLookup {
    let listed = match sessions {
        Some(names) => SocketSessions::Known(names.into_iter().map(str::to_owned).collect()),
        None => SocketSessions::Unknown,
    };
    SessionLookup { sockets: vec![(socket.to_owned(), listed)] }
}

#[test]
fn zombies_are_live_entries_whose_session_is_known_missing() {
    let mut registry = Registry::default();
    registry.upsert(legacy(1, "kept"));
    registry.upsert(legacy(2, "gone"));
    let mut exited = legacy(3, "also-gone");
    exited.status = TerminalStatus::Exited;
    registry.upsert(exited);

    let known = lookup("socket", Some(vec!["kept"]));
    assert_eq!(missing_live_terminals(&registry, &known).len(), 1);
    assert!(terminal_session_is_known_missing(&registry.terminals[1], &known.sockets[0].1));
    assert!(!terminal_session_is_known_missing(&registry.terminals[2], &known.sockets[0].1));

    let mut unknown = Registry { terminals: registry.terminals.iter().map(ManagedTerminal::duplicate).collect() };
    assert!(!mark_missing_live_sessions_stale(&mut unknown, &lookup("socket", None)));

    assert_eq!(remove_zombie_sessions(&mut registry, &known), 1);
    assert_eq!(registry.terminals.len(), 2);
    assert_eq!(registry.terminals[1].status, TerminalStatus::Exited);
}

#[test]
fn only_sessions_missing_in_both_readings_are_removed() {
    let mut first = Registry::default();
    first.upsert(legacy(1, "a"));
    first.upsert(legacy(2, "b"));
    let initially = missing_live_terminals(&first, &lookup("socket", Some(vec![])));
    assert_eq!(initially.len(), 2);

    let mut latest = Registry::default();
    latest.upsert(legacy(1, "a"));
    latest.upsert(legacy(2, "b"));
    latest.upsert(legacy(3, "c"));
    let removed = remove_confirmed_missing(&mut latest, &initially, &lookup("socket", Some(vec!["b"])));
    assert_eq!(removed, 1);
    assert_eq!(latest.terminals.len(), 2);
    assert_eq!(latest.terminals[0].tmux_session, "b");
    assert_eq!(latest.terminals[1].tmux_session, "c");
}
