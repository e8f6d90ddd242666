use stp::ids::TerminalId;
use stp::tui::state::{GridKind, PanelState, SessionEntry};

fn tid(n: u128) -> TerminalId {
    TerminalId::parse(&uuid::Uuid::from_u128(n).to_string()).expect("valid uuid")
}

fn entry(n: u128) -> SessionEntry {
    SessionEntry { id: tid(n), workspace: format!("ws{n}"), branch: "main".to_owned() }
}

#[test]
fn place_session_follows_visible_then_empty_then_rightmost() {
    let mut state = PanelState::new(GridKind::TwoByTwo);
    for n in 0..3 {
        state.sessions.push(entry(n));
    }
    assert_eq!(state.place_session(0), Some(0));
    assert_eq!(state.place_session(0), Some(0));
    assert_eq!(state.place_session(1), Some(1));
    assert_eq!(state.place_session(2), Some(2));
}

#[test]
fn place_session_replaces_rightmost_when_full() {
    let mut state = PanelState::new(GridKind::TwoByTwo);
    for n in 0..5 {
        state.sessions.push(entry(n));
    }
    for n in 0..4 {
        state.place_session(n);
    }
    assert_eq!(state.place_session(4), Some(3));
    assert_eq!(state.slots[3], Some(tid(4)));
}

#[test]
fn toggle_grid_preserves_terminals_and_drops_overflow_on_shrink() {
    let mut state = PanelState::new(GridKind::ThreeByThree);
    for n in 0..9 {
        state.sessions.push(entry(n));
        state.place_session(n as usize);
    }
    assert_eq!(state.slots.iter().flatten().count(), 9);
    state.set_grid(state.grid.toggled());
    assert_eq!(state.grid, GridKind::TwoByTwo);
    assert_eq!(state.slots.len(), 4);
    assert_eq!(state.slots[0], Some(tid(0)));
    assert_eq!(state.sessions.len(), 9);
}

#[test]
fn remove_session_clears_slot_and_refocuses() {
    let mut state = PanelState::new(GridKind::TwoByTwo);
    state.sessions.push(entry(0));
    state.sessions.push(entry(1));
    state.place_session(0);
    state.place_session(1);
    state.focus_slot(1);
    state.remove_session(&tid(1));
    assert!(!state.sessions.iter().any(|entry| entry.id == tid(1)));
    assert_eq!(state.slots[1], None);
    assert_eq!(state.focus, Some(0));
}

#[test]
fn swap_slots_moves_focus_to_destination() {
    let mut state = PanelState::new(GridKind::TwoByTwo);
    state.sessions.push(entry(0));
    state.place_session(0);
    state.swap_slots(0, 2);
    assert_eq!(state.slots[2], Some(tid(0)));
    assert_eq!(state.slots[0], None);
    assert_eq!(state.focus, Some(2));
}

#[test]
fn slot_labels_name_workspace_and_branch() {
    let mut state = PanelState::new(GridKind::TwoByTwo);
    state.sessions.push(entry(5));
    state.place_session(0);
    assert_eq!(state.slot_label(0), Some("ws5/main".to_owned()));
    assert_eq!(state.slot_label(1), None);
    assert_eq!(state.focused_terminal(), Some(&tid(5)));
}
