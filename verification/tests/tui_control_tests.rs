use stp::ids::{TerminalId, WindowId, WorkspaceId};
use stp::protocol::ServerEvent;
use stp::registry::{ManagedTerminal, Registry, TerminalStatus};
use stp::tui::control::{
    apply_action, entry_from_registry, fallback_entry, next_resize, on_link_event, pointer_after,
    seed_entries, session_entry, Effect, ResizeMemo,
};
use stp::tui::input::{Action, Event, KeyModifiers, MouseButton, MouseEvent, MouseEventKind};
use stp::tui::labels::{count_text, cursor_cell, drag_ghost, row_label, sidebar_draw_plan, tile_title, DrawStyle};
use stp::tui::layout::{compute, Rect};
use stp::tui::link::{screen_update, snapshot_bytes, LinkEvent, ScreenUpdate};
use stp::tui::state::{Drag, GridKind, PanelState, SessionEntry};
use stp::workspace::WorkspaceMetadata;

fn tid(n: u128) -> TerminalId {
    TerminalId::from_u128(n)
}

fn entry(n: u128) -> SessionEntry {
    SessionEntry { id: tid(n), workspace: format!("ws{n}"), branch: "main".to_owned() }
}

fn terminal(n: u128, path: &str, branch: Option<&str>, status: TerminalStatus) -> ManagedTerminal {
    let mut t = ManagedTerminal::new(
        tid(n),
        WindowId::from_u128(9),
        WorkspaceMetadata {
            workspace_id: WorkspaceId::new("w".to_owned()),
            workspace_path: path.to_owned(),
            repo_root: path.to_owned(),
            branch_name: branch.map(str::to_owned),
            is_git: branch.is_some(),
        },
        "sock",
        "sess",
        1,
    );
    t.status = status;
    t
}

#[test]
fn fallback_entry_uses_the_id_prefix() {
    let id = TerminalId::parse("abcdef01-2345-6789-abcd-ef0123456789").expect("uuid");
    let e = fallback_entry(&id);
    assert_eq!(e.workspace, "abcdef01");
    assert_eq!(e.branch, "?");
}

#[test]
fn registry_entries_skip_exited_terminals_and_default_labels() {
    let mut registry = Registry::default();
    registry.terminals.push(terminal(1, "/tmp/old", Some("gone"), TerminalStatus::Exited));
    registry.terminals.push(terminal(1, "/home/me/worktree-a", Some("feature"), TerminalStatus::Live));
    registry.terminals.push(terminal(2, "/", None, TerminalStatus::Detached));
    let first = entry_from_registry(&registry, &tid(1)).expect("shown");
    assert_eq!((first.workspace.as_str(), first.branch.as_str()), ("worktree-a", "feature"));
    let second = entry_from_registry(&registry, &tid(2)).expect("shown");
    assert_eq!((second.workspace.as_str(), second.branch.as_str()), ("workspace", "non-git"));
    assert!(entry_from_registry(&registry, &tid(3)).is_none());
    let fallback = session_entry(Some(&registry), &tid(3));
    assert_eq!(fallback.branch, "?");
    let seeded = seed_entries(&vec![tid(2), tid(1)], Some(&registry));
    assert_eq!(seeded.iter().map(|e| e.id).collect::<Vec<_>>(), vec![tid(2), tid(1)]);
}

#[test]
fn closing_a_session_removes_it_and_asks_to_terminate() {
    let mut state = PanelState::new(GridKind::TwoByTwo);
    state.sessions.push(entry(1));
    state.sessions.push(entry(2));
    state.place_session(0);
    state.place_session(1);
    assert_eq!(apply_action(Action::CloseSession(0), &mut state, (0, 0)), Effect::Terminate(tid(1)));
    assert_eq!(state.sessions.len(), 1);
    assert_eq!(state.slots[0], None);
    assert_eq!(apply_action(Action::CloseSession(5), &mut state, (0, 0)), Effect::Continue);
}

#[test]
fn drags_start_at_the_last_mouse_cell_and_swap_on_release() {
    let mut state = PanelState::new(GridKind::TwoByTwo);
    state.sessions.push(entry(1));
    state.place_session(0);
    assert_eq!(apply_action(Action::DragStart(0), &mut state, (40, 3)), Effect::Continue);
    assert_eq!(state.drag, Some(Drag { from_slot: 0, cursor: (40, 3) }));
    apply_action(Action::DragMove(50, 7), &mut state, (40, 3));
    assert_eq!(state.drag, Some(Drag { from_slot: 0, cursor: (50, 7) }));
    apply_action(Action::DragEnd(Some(3)), &mut state, (50, 7));
    assert_eq!(state.drag, None);
    assert_eq!(state.slots[3], Some(tid(1)));
    assert_eq!(state.focus, Some(3));
    apply_action(Action::DragEnd(Some(0)), &mut state, (0, 0));
    assert_eq!(state.slots[3], Some(tid(1)));
}

#[test]
fn keys_go_to_the_focused_terminal_only() {
    let mut state = PanelState::new(GridKind::TwoByTwo);
    assert_eq!(apply_action(Action::Key(vec![b'x']), &mut state, (0, 0)), Effect::Continue);
    state.sessions.push(entry(7));
    state.place_session(0);
    assert_eq!(apply_action(Action::Key(vec![b'x']), &mut state, (0, 0)), Effect::Input(tid(7), vec![b'x']));
    assert_eq!(apply_action(Action::Spawn, &mut state, (0, 0)), Effect::Spawn);
    assert_eq!(apply_action(Action::Quit, &mut state, (0, 0)), Effect::Quit);
}

#[test]
fn pointer_follows_mouse_events_only() {
    let mouse = MouseEvent {
        kind: MouseEventKind::Moved,
        column: 4,
        row: 9,
        modifiers: KeyModifiers::none(),
    };
    assert_eq!(pointer_after(&Event::Mouse(mouse), (1, 1)), (4, 9));
    assert_eq!(pointer_after(&Event::FocusLost, (1, 1)), (1, 1));
    let _ = MouseButton::Left;
}

#[test]
fn resizes_are_requested_once_per_size() {
    let mut state = PanelState::new(GridKind::TwoByTwo);
    state.sessions.push(entry(1));
    state.place_session(0);
    let regions = compute(Rect::new(0, 0, 100, 30), &state);
    let mut memo = ResizeMemo::new();
    let (slot, id, size) = next_resize(&state, &regions, &memo, 0).expect("first resize");
    assert_eq!((slot, id, size), (0, tid(1), (34, 13)));
    memo.record(id, size);
    assert_eq!(memo.get(&id), Some((34, 13)));
    assert!(next_resize(&state, &regions, &memo, 0).is_none());
    memo.forget(&id);
    assert_eq!(memo.get(&id), None);
}

#[test]
fn exited_terminals_leave_the_panel_and_disconnects_quit() {
    let mut state = PanelState::new(GridKind::TwoByTwo);
    state.sessions.push(entry(1));
    state.place_session(0);
    let mut memo = ResizeMemo::new();
    memo.record(tid(1), (10, 10));
    assert!(!on_link_event(LinkEvent::Output(tid(1)), &mut state, &mut memo));
    assert_eq!(state.sessions.len(), 1);
    assert!(!on_link_event(LinkEvent::Exited(tid(1)), &mut state, &mut memo));
    assert!(state.sessions.is_empty());
    assert_eq!(memo.get(&tid(1)), None);
    assert!(on_link_event(LinkEvent::Disconnected, &mut state, &mut memo));
}

#[test]
fn snapshots_get_carriage_returns_and_output_is_decoded() {
    assert_eq!(snapshot_bytes("a\nb\n"), b"a\r\nb\r\n".to_vec());
    let snap = ServerEvent::Snapshot { terminal_id: tid(1), cols: 80, rows: 24, text: "x\ny".to_owned() };
    let update = screen_update(&snap);
    assert_eq!(
        update,
        ScreenUpdate::Snapshot { terminal_id: tid(1), cols: 80, rows: 24, bytes: b"x\r\ny".to_vec() }
    );
    assert_eq!(update.link_event(), Some(LinkEvent::Snapshot(tid(1))));
    let output = ServerEvent::output_bytes(tid(2), 3, &[0xff, 0x00]);
    assert_eq!(screen_update(&output), ScreenUpdate::Output { terminal_id: tid(2), bytes: vec![0xff, 0x00] });
    let bad = ServerEvent::Output { terminal_id: tid(2), seq: 4, data_base64: "!!".to_owned() };
    assert_eq!(screen_update(&bad), ScreenUpdate::Ignore);
    assert_eq!(ScreenUpdate::Ignore.link_event(), None);
    let exit = ServerEvent::Exit { terminal_id: tid(3), exit_code: Some(0) };
    assert_eq!(screen_update(&exit).link_event(), Some(LinkEvent::Exited(tid(3))));
}

#[test]
fn panel_texts() {
    let id = TerminalId::parse("abcdef01-2345-6789-abcd-ef0123456789").expect("uuid");
    let e = SessionEntry { id, workspace: "worktree-a".to_owned(), branch: "main".to_owned() };
    assert_eq!(row_label(&e, false), "● abcdef worktree-a/main");
    assert_eq!(row_label(&e, true), "◉ abcdef worktree-a/main");
    assert_eq!(count_text(12), "12 live");
    let mut state = PanelState::new(GridKind::TwoByTwo);
    state.sessions.push(e);
    state.place_session(0);
    assert_eq!(tile_title(&state, 0), "worktree-a/main");
    assert_eq!(tile_title(&state, 1), "slot 2");
    state.drag = Some(Drag { from_slot: 1, cursor: (5, 6) });
    assert_eq!(drag_ghost(&state), Some(((5, 6), "⇄ slot 2".to_owned())));
    let body = Rect::new(30, 1, 34, 13);
    assert_eq!(cursor_cell(body, 2, 3), Some((33, 3)));
    assert_eq!(cursor_cell(body, 13, 0), None);
}

#[test]
fn session_list_draw_plan() {
    let id = TerminalId::parse("abcdef01-2345-6789-abcd-ef0123456789").expect("uuid");
    let mut state = PanelState::new(GridKind::TwoByTwo);
    state.sessions.push(SessionEntry { id, workspace: "worktree-a".to_owned(), branch: "main".to_owned() });
    state.place_session(0);
    let regions = compute(Rect::new(0, 0, 100, 30), &state);
    let plan = sidebar_draw_plan(&state, &regions);
    let texts: Vec<(&str, DrawStyle)> = plan.iter().map(|d| (d.text.as_str(), d.style)).collect();
    assert_eq!(
        texts,
        vec![
            ("STP sessions", DrawStyle::Bold),
            ("◉ abcdef worktree-a/main", DrawStyle::Reversed),
            ("[x]", DrawStyle::Red),
            ("+ new", DrawStyle::Green),
            ("[2x2]", DrawStyle::Reversed),
            ("[3x3]", DrawStyle::Plain),
            ("1 live", DrawStyle::DarkGray),
            ("q quit  tab focus", DrawStyle::DarkGray),
        ]
    );
    assert_eq!((plan[0].x, plan[0].y, plan[0].max_width), (1, 0, 29));
    assert_eq!((plan[1].x, plan[1].y, plan[1].max_width), (1, 1, 25));
    assert_eq!((plan[2].x, plan[2].y), (26, 1));
}
