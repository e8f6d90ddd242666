use stp::cleanup::{
    live_sockets, load_without_zombie_sessions, sweep_start, SessionLookup, SocketSessions, SweepAction, SweepEvent,
    SweepState,
};
use stp::commands::{
    cursor_command, detach, find_terminal, mark_terminated, parse_terminal_ids, register_terminal, remove_stale,
    require_yes, session_command, session_name, CommandError, Refusal,
};
use stp::ids::{TerminalId, WindowId, WorkspaceId};
use stp::registry::{ManagedTerminal, Registry, RegistryError, TerminalStatus};
use stp::state::{default_registry_path, selected_registry_path, StateEnv};
use stp::workspace::{
    canonical_workspace, discover_workspace, git_output_line, repo_root_source, workspace_id_for_path,
    RepoRootSource, WorkspaceError, WorkspaceMetadata,
};

const ID_A: &str = "00000000-0000-0000-0000-000000000904";

fn metadata(path: &str) -> WorkspaceMetadata {
    WorkspaceMetadata {
        workspace_id: WorkspaceId::new("w".to_owned()),
        workspace_path: path.to_owned(),
        repo_root: path.to_owned(),
        branch_name: None,
        is_git: false,
    }
}

fn entry(id: &str, socket: &str, session: &str, status: TerminalStatus) -> ManagedTerminal {
    let mut t = ManagedTerminal::new(
        TerminalId::parse(id).expect("uuid"),
        WindowId::from_u128(1),
        metadata("/tmp/ws"),
        socket,
        session,
        3,
    );
    t.status = status;
    t
}

fn env(stp: Option<&str>, xdg: Option<&str>, home: Option<&str>) -> StateEnv {
    StateEnv {
        stp_registry: stp.map(str::to_owned),
        xdg_state_home: xdg.map(str::to_owned),
        home: home.map(str::to_owned),
    }
}

#[test]
fn refusals_need_yes() {
    assert_eq!(require_yes(false, Refusal::CleanupZombies), Err(CommandError::Refused(Refusal::CleanupZombies)));
    assert_eq!(Refusal::CleanupZombies.text(), "refusing to cleanup zombie entries without --yes");
    assert_eq!(Refusal::Terminate.text(), "refusing to terminate without --yes");
    assert_eq!(Refusal::RemoveStale.text(), "refusing to remove stale entries without --yes");
    assert_eq!(require_yes(true, Refusal::Terminate), Ok(()));
}

#[test]
fn detach_marks_the_first_entry_and_reports_it() {
    let mut registry = Registry::default();
    registry.upsert(entry(ID_A, "sock", "stp-a", TerminalStatus::Live));
    let message = detach(&mut registry, ID_A).expect("detached");
    assert_eq!(message, format!("detached {ID_A}"));
    assert_eq!(registry.terminals[0].status, TerminalStatus::Detached);
    let unknown = "00000000-0000-0000-0000-000000000999";
    assert_eq!(
        detach(&mut registry, unknown),
        Err(CommandError::TerminalNotFound(TerminalId::parse(unknown).expect("uuid")))
    );
    assert!(matches!(detach(&mut registry, "nope"), Err(CommandError::InvalidTerminalId(_))));
}

#[test]
fn terminate_marks_exited_with_the_right_message() {
    let mut registry = Registry::default();
    registry.upsert(entry(ID_A, "sock", "stp-a", TerminalStatus::Live));
    let index = find_terminal(&registry, ID_A).expect("found");
    assert_eq!(mark_terminated(&mut registry, index, false), format!("already exited {ID_A}"));
    assert_eq!(registry.terminals[0].status, TerminalStatus::Exited);
    assert_eq!(mark_terminated(&mut registry, index, true), format!("terminated {ID_A}"));
}

#[test]
fn remove_stale_reports_the_count() {
    let mut registry = Registry::default();
    registry.upsert(entry("00000000-0000-0000-0000-000000000001", "s", "a", TerminalStatus::Stale));
    registry.upsert(entry("00000000-0000-0000-0000-000000000002", "s", "b", TerminalStatus::Live));
    assert_eq!(remove_stale(&mut registry), "removed stale entries: 1");
    assert_eq!(registry.terminals.len(), 1);
}

#[test]
fn registration_names_the_session_after_the_terminal() {
    let (t, w) = parse_terminal_ids(ID_A, "00000000-0000-0000-0000-000000000001").expect("ids");
    assert_eq!(session_name(&t), format!("stp-{ID_A}"));
    let mut registry = Registry::default();
    let name = register_terminal(&mut registry, t, w, metadata("/tmp/ws"), "stp-managed", 7);
    assert_eq!(name, format!("stp-{ID_A}"));
    assert_eq!(registry.terminals[0].tmux_session, name);
    assert_eq!(registry.terminals[0].tmux_socket, "stp-managed");
    assert!(matches!(parse_terminal_ids(ID_A, "bad"), Err(CommandError::InvalidWindowId(_))));
    assert!(matches!(parse_terminal_ids("bad", "bad"), Err(CommandError::InvalidTerminalId(_))));
}

#[test]
fn session_and_cursor_commands_quote_their_paths() {
    assert_eq!(
        session_command("/tmp/it's", None, Some("/bin/zsh")),
        "cd '/tmp/it'\\''s' && exec '/bin/zsh'"
    );
    assert_eq!(session_command("/w", Some("fish"), Some("/bin/zsh")), "cd '/w' && exec 'fish'");
    assert_eq!(session_command("/w", None, None), "cd '/w' && exec 'sh'");
    assert_eq!(cursor_command("/tmp/a b"), "cursor --new-window '/tmp/a b'");
}

#[test]
fn registry_path_prefers_flag_then_env_then_state_home() {
    assert_eq!(selected_registry_path(Some("/x.json".to_owned()), &env(Some("/y"), None, None)), "/x.json");
    assert_eq!(default_registry_path(&env(Some("/y.json"), Some("/xdg"), None)), "/y.json");
    assert_eq!(default_registry_path(&env(None, Some("/xdg"), Some("/h"))), "/xdg/sexy-terminal-panel/registry.json");
    assert_eq!(default_registry_path(&env(None, Some("/xdg/"), None)), "/xdg/sexy-terminal-panel/registry.json");
    assert_eq!(
        default_registry_path(&env(None, None, Some("/home/me"))),
        "/home/me/.local/state/sexy-terminal-panel/registry.json"
    );
    assert_eq!(default_registry_path(&env(None, None, None)), "./sexy-terminal-panel/registry.json");
    // An empty XDG_STATE_HOME counts as unset.
    assert_eq!(
        default_registry_path(&env(None, Some(""), Some("/home/me"))),
        "/home/me/.local/state/sexy-terminal-panel/registry.json"
    );
    assert_eq!(default_registry_path(&env(None, Some(""), None)), "./sexy-terminal-panel/registry.json");
}

#[test]
fn workspace_discovery_from_probed_values() {
    assert_eq!(
        canonical_workspace("/nope", false, Ok("/x".to_owned())),
        Err(WorkspaceError::MissingPath("/nope".to_owned()))
    );
    assert_eq!(
        canonical_workspace("/w", true, Err("denied".to_owned())),
        Err(WorkspaceError::Canonicalize { path: "/w".to_owned(), reason: "denied".to_owned() })
    );
    assert_eq!(canonical_workspace("/w", true, Ok("/real/w".to_owned())), Ok("/real/w".to_owned()));
    assert_eq!(repo_root_source("/repo/.git"), RepoRootSource::Parent("/repo".to_owned()));
    assert_eq!(repo_root_source("/repo/.git/worktrees/b"), RepoRootSource::Toplevel);
    assert_eq!(git_output_line("  main\n"), "main");
    let m = discover_workspace(Ok("/repo/a".to_owned()), Some("/repo".to_owned()), Some("feature\n".to_owned()))
        .expect("metadata");
    assert_eq!(m.repo_root, "/repo");
    assert!(m.is_git);
    assert_eq!(m.branch_name.as_deref(), Some("feature"));
    assert_eq!(m.workspace_id, workspace_id_for_path("/repo/a"));
    let plain = discover_workspace(Ok("/plain".to_owned()), None, Some("\n".to_owned())).expect("metadata");
    assert_eq!((plain.repo_root.as_str(), plain.is_git, plain.branch_name), ("/plain", false, None));
}

#[test]
fn workspace_ids_are_sha256_prefixes() {
    // SHA-256 of the empty text starts e3b0c44298fc1c149afbf4c8996fb924.
    assert_eq!(workspace_id_for_path("").value, "e3b0c44298fc1c149afbf4c8996fb924");
    assert_eq!(workspace_id_for_path("/a").value.len(), 32);
    assert_ne!(workspace_id_for_path("/a"), workspace_id_for_path("/b"));
}

fn lookup(socket: &str, sessions: &[&str]) -> SessionLookup {
    SessionLookup {
        sockets: vec![(
            socket.to_owned(),
            SocketSessions::Known(sessions.iter().map(|s| (*s).to_owned()).collect()),
        )],
    }
}

fn zombie_registry() -> Registry {
    let mut registry = Registry::default();
    registry.upsert(entry("00000000-0000-0000-0000-000000000001", "sock", "gone", TerminalStatus::Live));
    registry.upsert(entry("00000000-0000-0000-0000-000000000002", "sock", "here", TerminalStatus::Live));
    registry.upsert(entry("00000000-0000-0000-0000-000000000003", "other", "x", TerminalStatus::Stale));
    registry
}

#[test]
fn live_sockets_are_listed_once() {
    assert_eq!(live_sockets(&zombie_registry()), vec!["sock".to_owned()]);
}

#[test]
fn sweep_drops_zombies_confirmed_by_two_readings_and_saves() {
    let (state, action) = sweep_start();
    assert!(matches!((&state, &action), (SweepState::Start, SweepAction::Load)));
    let (state, action) = load_without_zombie_sessions(state, SweepEvent::Loaded(Ok(zombie_registry())));
    assert!(matches!(&action, SweepAction::List(s) if s == &vec!["sock".to_owned()]));
    let (state, action) = load_without_zombie_sessions(state, SweepEvent::Listed(lookup("sock", &["here"])));
    assert!(matches!(action, SweepAction::Load));
    let (state, action) = load_without_zombie_sessions(state, SweepEvent::Loaded(Ok(zombie_registry())));
    assert!(matches!(action, SweepAction::List(_)));
    let (state, action) = load_without_zombie_sessions(state, SweepEvent::Listed(lookup("sock", &["here"])));
    assert!(matches!(action, SweepAction::Save));
    match &state {
        SweepState::Saving(reg) => assert_eq!(reg.terminals.len(), 2),
        other => panic!("unexpected state {other:?}"),
    }
    let (state, action) = load_without_zombie_sessions(state, SweepEvent::Saved(Ok(())));
    assert!(matches!(state, SweepState::Finished));
    match action {
        SweepAction::Finish(Ok(reg)) => assert_eq!(reg.terminals.len(), 2),
        _ => panic!("unexpected action"),
    }
}

#[test]
fn sweep_keeps_entries_the_second_listing_finds_again() {
    let (state, _) = sweep_start();
    let (state, _) = load_without_zombie_sessions(state, SweepEvent::Loaded(Ok(zombie_registry())));
    let (state, _) = load_without_zombie_sessions(state, SweepEvent::Listed(lookup("sock", &["here"])));
    let (state, _) = load_without_zombie_sessions(state, SweepEvent::Loaded(Ok(zombie_registry())));
    let (_, action) =
        load_without_zombie_sessions(state, SweepEvent::Listed(lookup("sock", &["here", "gone"])));
    match action {
        SweepAction::Finish(Ok(reg)) => assert_eq!(reg.terminals.len(), 3),
        _ => panic!("unexpected action"),
    }
}

#[test]
fn sweep_returns_a_clean_first_reading_and_read_errors() {
    let (state, _) = sweep_start();
    let (state, _) = load_without_zombie_sessions(state, SweepEvent::Loaded(Ok(zombie_registry())));
    let (_, action) =
        load_without_zombie_sessions(state, SweepEvent::Listed(lookup("sock", &["here", "gone"])));
    assert!(matches!(action, SweepAction::Finish(Ok(reg)) if reg.terminals.len() == 3));
    let err = RegistryError::Workspace(WorkspaceError::MissingPath("/x".to_owned()));
    let (_, action) = load_without_zombie_sessions(SweepState::Start, SweepEvent::Loaded(Err(err.clone())));
    assert!(matches!(action, SweepAction::Finish(Err(e)) if e == err));
    let (state, action) = load_without_zombie_sessions(SweepState::Finished, SweepEvent::Saved(Ok(())));
    assert!(matches!((state, action), (SweepState::Finished, SweepAction::Ignore)));
}

#[test]
fn terminate_refuses_without_yes() {
    let refused = require_yes(false, Refusal::Terminate).expect_err("refused");
    assert_eq!(refused, CommandError::Refused(Refusal::Terminate));
    assert_eq!(Refusal::Terminate.text(), "refusing to terminate without --yes");
}

#[test]
fn cleanup_zombies_refuses_without_yes() {
    let refused = require_yes(false, Refusal::CleanupZombies).expect_err("refused");
    assert_eq!(refused, CommandError::Refused(Refusal::CleanupZombies));
    assert!(Refusal::CleanupZombies.text().contains("refusing to cleanup zombie entries without --yes"));
}

#[test]
fn terminate_fails_when_terminal_id_is_unknown() {
    let terminal_id = "00000000-0000-0000-0000-000000000505";
    let registry = Registry::default();
    let missing = find_terminal(&registry, terminal_id).expect_err("unknown");
    match missing {
        CommandError::TerminalNotFound(id) => assert_eq!(id.to_string(), terminal_id),
        other => panic!("unexpected {other:?}"),
    }
}

#[test]
fn invalid_workspace_fails_when_terminal_command_runs() {
    let outcome = discover_workspace(
        canonical_workspace("/path/that/does/not/exist", false, Err("gone".to_owned())),
        None,
        None,
    );
    assert_eq!(outcome, Err(WorkspaceError::MissingPath("/path/that/does/not/exist".to_owned())));
}

#[test]
fn panel_defaults_to_two_by_two_when_layout_is_omitted() {
    let layout = stp::panel::Layout::parse("2x2");
    assert_eq!(layout, stp::panel::Layout::TwoByTwo);
    assert!(stp::panel::render_once(&Registry::default(), layout).contains("Layout: 2x2"));
}

#[test]
fn panel_options_show_compact_pane_frames() {
    let options = stp::panel::tmux_panel::panel_options();
    let value = |name: &str| options.iter().find(|o| o.window && o.name == name).map(|o| o.value);
    assert_eq!(value("pane-border-status"), Some("top"));
    assert!(value("pane-border-format").expect("format").contains("#{pane_title}"));
    assert!(value("pane-active-border-style").expect("style").contains("colour154"));
}

#[test]
fn cleanup_zombies_keeps_entries_on_unlisted_sockets() {
    let mut registry = zombie_registry();
    let unknown = SessionLookup { sockets: vec![("sock".to_owned(), SocketSessions::Unknown)] };
    assert_eq!(stp::commands::cleanup_zombies(&mut registry, &unknown), "removed zombie entries: 1");
    // Only the stale entry went: the live ones sit on a socket that could not be listed.
    assert_eq!(registry.terminals.len(), 2);
    let mut registry = zombie_registry();
    assert_eq!(stp::commands::cleanup_zombies(&mut registry, &lookup("sock", &["here"])), "removed zombie entries: 2");
    assert_eq!(registry.terminals.len(), 1);
    assert_eq!(registry.terminals[0].tmux_session, "here");
}

#[test]
fn detach_hides_terminal_from_panel_without_killing_tmux_session() {
    let mut registry = Registry::default();
    registry.upsert(entry(ID_A, "sock", "stp-a", TerminalStatus::Live));
    assert_eq!(stp::panel::sidebar::live_terminals(&registry).len(), 1);
    detach(&mut registry, ID_A).expect("detached");
    assert!(stp::panel::sidebar::live_terminals(&registry).is_empty());
    assert!(stp::panel::render_once(&registry, stp::panel::Layout::TwoByTwo).contains("No live STP sessions"));
    assert!(!stp::panel::render_once(&registry, stp::panel::Layout::TwoByTwo).contains(ID_A));
    // The entry stays, only its status changes.
    assert_eq!(registry.terminals[0].tmux_session, "stp-a");
}

#[test]
fn error_and_notice_texts() {
    assert_eq!(
        CommandError::Workspace(WorkspaceError::MissingPath("/nope".to_owned())).text(),
        "workspace path does not exist: /nope"
    );
    assert_eq!(
        WorkspaceError::Canonicalize { path: "/w".to_owned(), reason: "denied".to_owned() }.text(),
        "failed to canonicalize workspace path /w: denied"
    );
    assert_eq!(
        CommandError::TerminalNotFound(TerminalId::parse(ID_A).expect("uuid")).text(),
        format!("terminal not found: {ID_A}")
    );
    assert_eq!(
        CommandError::Refused(Refusal::RemoveStale).text(),
        "refusing to remove stale entries without --yes"
    );
    assert_eq!(
        CommandError::Registry(RegistryError::MalformedRegistry {
            path: "/r.json".to_owned(),
            source: stp::decode::JsonError::MissingField(stp::decode::Field::Status),
        })
        .text(),
        "malformed registry /r.json: missing field `status`"
    );
    assert_eq!(
        RegistryError::Read { path: "/r.json".to_owned(), reason: "denied".to_owned() }.text(),
        "failed to read registry /r.json: denied"
    );
    assert!(matches!(parse_terminal_ids("bad", ID_A), Err(e) if e.text() == "invalid id: bad"));
    assert_eq!(stp::commands::fallback_notice("cursor --new-window '/w'"), "fallback command: cursor --new-window '/w'");
    assert_eq!(stp::commands::registered_notice("stp-x"), "registered stp-x");
}

#[test]
fn sidebar_click_notices() {
    let none = stp::panel::tmux_panel::select_from_sidebar(None, false, &Vec::new());
    assert_eq!(none.notice(), Some("No STP session for sidebar row"));
    assert_eq!(none.failure(), None);
    let terminal = entry(ID_A, "sock", "stp-a", TerminalStatus::Live);
    let gone = stp::panel::tmux_panel::select_from_sidebar(Some(terminal.clone()), true, &Vec::new());
    assert_eq!(gone.notice(), Some("STP session is no longer live"));
    let no_pane = stp::panel::tmux_panel::select_from_sidebar(Some(terminal), false, &Vec::new());
    assert_eq!(no_pane.notice(), None);
    assert_eq!(no_pane.failure(), Some("panel has no content pane available for selection"));
}
