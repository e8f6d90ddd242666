use stp::ids::TerminalId;
use stp::tui::input::{encode_key, map_key, map_mouse, Action, Event, KeyCode, KeyEvent, KeyEventKind, KeyModifiers, MouseButton, MouseEvent, MouseEventKind};
use stp::tui::layout::{compute, pty_size, Hit, Rect};
use stp::tui::state::{GridKind, PanelState, SessionEntry};

fn tid(n: u128) -> TerminalId {
    TerminalId::parse(&uuid::Uuid::from_u128(n).to_string()).expect("valid uuid")
}

fn state_with(sessions: usize, grid: GridKind) -> PanelState {
    let mut state = PanelState::new(grid);
    for n in 0..sessions {
        state.sessions.push(SessionEntry {
            id: tid(n as u128),
            workspace: "ws".to_owned(),
            branch: "main".to_owned(),
        });
    }
    state
}

fn key(code: KeyCode, mods: KeyModifiers) -> KeyEvent {
    KeyEvent::new_with_kind(code, mods, KeyEventKind::Press)
}

fn left(kind: fn(MouseButton) -> MouseEventKind, column: u16, row: u16) -> MouseEvent {
    MouseEvent { kind: kind(MouseButton::Left), column, row, modifiers: KeyModifiers::none() }
}

#[test]
fn close_button_beats_row_at_same_cell() {
    let state = state_with(1, GridKind::TwoByTwo);
    let regions = compute(Rect::new(0, 0, 100, 30), &state);
    let close = regions.close_buttons[0];
    assert_eq!(regions.hit(close.x, close.y), Hit::CloseButton(0));
    assert_eq!(regions.hit(regions.sidebar.x + 2, close.y), Hit::SessionRow(0));
}

#[test]
fn footer_buttons_hit() {
    let state = state_with(0, GridKind::TwoByTwo);
    let regions = compute(Rect::new(0, 0, 100, 30), &state);
    assert_eq!(regions.hit(regions.new_button.x, regions.new_button.y), Hit::NewButton);
    assert_eq!(regions.hit(regions.grid_2x2.x, regions.grid_2x2.y), Hit::Grid(GridKind::TwoByTwo));
    assert_eq!(regions.hit(regions.grid_3x3.x, regions.grid_3x3.y), Hit::Grid(GridKind::ThreeByThree));
}

#[test]
fn tile_title_and_body_split() {
    let state = state_with(0, GridKind::TwoByTwo);
    let regions = compute(Rect::new(0, 0, 100, 30), &state);
    assert_eq!(regions.tiles.len(), 4);
    let tile = regions.tiles[0];
    assert_eq!(regions.hit(tile.title.x, tile.title.y), Hit::TileTitle(0));
    assert_eq!(regions.hit(tile.body.x, tile.body.y), Hit::TileBody(0));
}

#[test]
fn grid_switch_changes_tile_count() {
    let state = state_with(0, GridKind::ThreeByThree);
    let regions = compute(Rect::new(0, 0, 120, 40), &state);
    assert_eq!(regions.tiles.len(), 9);
}

#[test]
fn layout_places_sidebar_rows_footer_and_tiles_exactly() {
    let state = state_with(2, GridKind::TwoByTwo);
    let regions = compute(Rect::new(0, 0, 100, 30), &state);
    assert_eq!(regions.sidebar, Rect::new(0, 0, 30, 30));
    assert_eq!(regions.content, Rect::new(30, 0, 70, 30));
    assert_eq!(regions.rows, vec![Rect::new(1, 1, 28, 1), Rect::new(1, 2, 28, 1)]);
    assert_eq!(regions.close_buttons, vec![Rect::new(26, 1, 3, 1), Rect::new(26, 2, 3, 1)]);
    assert_eq!(regions.new_button, Rect::new(1, 26, 5, 1));
    assert_eq!(regions.grid_2x2, Rect::new(1, 27, 5, 1));
    assert_eq!(regions.grid_3x3, Rect::new(7, 27, 5, 1));
    assert_eq!(regions.count_line, Rect::new(1, 28, 28, 1));
    assert_eq!(regions.hint_line, Rect::new(1, 29, 28, 1));
    // 70 columns less one gap leave two 34-column cells; the last column takes 35.
    assert_eq!(regions.tiles[0].outer, Rect::new(30, 0, 34, 14));
    assert_eq!(regions.tiles[1].outer, Rect::new(65, 0, 35, 14));
    assert_eq!(regions.tiles[2].outer, Rect::new(30, 15, 34, 15));
    assert_eq!(regions.tiles[3].body, Rect::new(65, 16, 35, 14));
    assert_eq!(regions.hit(64, 5), Hit::Outside);
}

#[test]
fn rows_stop_at_the_footer_and_empty_content_has_no_tiles() {
    let state = state_with(50, GridKind::TwoByTwo);
    let regions = compute(Rect::new(0, 0, 20, 10), &state);
    // header row 0, footer rows 6..10: rows 1 to 5 hold sessions.
    assert_eq!(regions.rows.len(), 5);
    assert_eq!(regions.content.width, 0);
    assert!(regions.tiles.is_empty());
}

#[test]
fn rect_new_keeps_edges_inside_u16() {
    let r = Rect::new(65530, 65000, 100, 1000);
    assert_eq!(r.width, 5);
    assert_eq!(r.height, 535);
    assert_eq!(r.right(), 65535);
}

#[test]
fn pty_size_never_reports_zero() {
    assert_eq!(pty_size(Rect::new(3, 4, 0, 0)), (1, 1));
    assert_eq!(pty_size(Rect::new(3, 4, 80, 24)), (80, 24));
}

#[test]
fn plain_char_is_utf8() {
    assert_eq!(encode_key(key(KeyCode::Char('a'), KeyModifiers::none())), Some(b"a".to_vec()));
    assert_eq!(
        encode_key(key(KeyCode::Char('한'), KeyModifiers::none())),
        Some("한".as_bytes().to_vec())
    );
}

#[test]
fn ctrl_char_is_control_byte() {
    assert_eq!(encode_key(key(KeyCode::Char('c'), KeyModifiers::control())), Some(vec![3]));
    assert_eq!(encode_key(key(KeyCode::Char('a'), KeyModifiers::control())), Some(vec![1]));
}

#[test]
fn ctrl_symbols_and_uppercase_letters_encode_as_control_bytes() {
    assert_eq!(encode_key(key(KeyCode::Char('Z'), KeyModifiers::control())), Some(vec![26]));
    assert_eq!(encode_key(key(KeyCode::Char('@'), KeyModifiers::control())), Some(vec![0]));
    assert_eq!(encode_key(key(KeyCode::Char('['), KeyModifiers::control())), Some(vec![0x1b]));
    assert_eq!(encode_key(key(KeyCode::Char('_'), KeyModifiers::control())), Some(vec![0x1f]));
    assert_eq!(encode_key(key(KeyCode::Char('1'), KeyModifiers::control())), Some(b"1".to_vec()));
}

#[test]
fn special_keys_encode_to_xterm() {
    assert_eq!(encode_key(key(KeyCode::Enter, KeyModifiers::none())), Some(b"\r".to_vec()));
    assert_eq!(encode_key(key(KeyCode::Up, KeyModifiers::none())), Some(b"\x1b[A".to_vec()));
    assert_eq!(encode_key(key(KeyCode::Backspace, KeyModifiers::none())), Some(vec![0x7f]));
}

#[test]
fn function_keys_encode_and_unknown_ones_send_nothing() {
    assert_eq!(encode_key(key(KeyCode::F(1), KeyModifiers::none())), Some(b"\x1bOP".to_vec()));
    assert_eq!(encode_key(key(KeyCode::F(12), KeyModifiers::none())), Some(b"\x1b[24~".to_vec()));
    assert_eq!(encode_key(key(KeyCode::F(13), KeyModifiers::none())), None);
    assert_eq!(encode_key(key(KeyCode::CapsLock, KeyModifiers::none())), None);
}

#[test]
fn alt_char_gets_escape_prefix() {
    assert_eq!(encode_key(key(KeyCode::Char('b'), KeyModifiers::alt())), Some(vec![0x1b, b'b']));
}

#[test]
fn alt_escape_is_not_doubled() {
    assert_eq!(encode_key(key(KeyCode::Esc, KeyModifiers::alt())), Some(vec![0x1b]));
    assert_eq!(
        encode_key(key(KeyCode::Left, KeyModifiers::alt())),
        Some(b"\x1b\x1b[D".to_vec())
    );
}

#[test]
fn ctrl_q_quits_even_with_focus() {
    let mut state = state_with(1, GridKind::TwoByTwo);
    state.place_session(0);
    assert_eq!(map_key(key(KeyCode::Char('q'), KeyModifiers::control()), &state), Action::Quit);
    assert_eq!(
        map_key(key(KeyCode::Char('q'), KeyModifiers::none()), &state),
        Action::Key(b"q".to_vec())
    );
}

#[test]
fn bare_q_quits_when_no_focus() {
    let state = PanelState::new(GridKind::TwoByTwo);
    assert_eq!(map_key(key(KeyCode::Char('q'), KeyModifiers::none()), &state), Action::Quit);
}

#[test]
fn chrome_keys_and_releases() {
    let state = PanelState::new(GridKind::TwoByTwo);
    assert_eq!(map_key(key(KeyCode::Char('n'), KeyModifiers::control()), &state), Action::Spawn);
    assert_eq!(
        map_key(key(KeyCode::Char('g'), KeyModifiers::control()), &state),
        Action::SetGrid(GridKind::ThreeByThree)
    );
    assert_eq!(map_key(key(KeyCode::Esc, KeyModifiers::none()), &state), Action::Quit);
    assert_eq!(map_key(key(KeyCode::Char('x'), KeyModifiers::none()), &state), Action::Nothing);
    let release = KeyEvent::new_with_kind(KeyCode::Char('q'), KeyModifiers::control(), KeyEventKind::Release);
    assert_eq!(map_key(release, &state), Action::Nothing);
}

#[test]
fn mouse_press_drag_and_release_map_to_actions() {
    let mut state = state_with(1, GridKind::TwoByTwo);
    let regions = compute(Rect::new(0, 0, 100, 30), &state);
    let title = regions.tiles[1].title;
    let body = regions.tiles[2].body;
    assert_eq!(
        map_mouse(left(MouseEventKind::Down, title.x, title.y), &regions, &state),
        Action::DragStart(1)
    );
    assert_eq!(
        map_mouse(left(MouseEventKind::Down, body.x, body.y), &regions, &state),
        Action::FocusSlot(2)
    );
    assert_eq!(
        map_mouse(left(MouseEventKind::Down, 3, 1), &regions, &state),
        Action::PlaceSession(0)
    );
    // Without a drag in progress, drags and releases do nothing.
    assert_eq!(map_mouse(left(MouseEventKind::Drag, 50, 5), &regions, &state), Action::Nothing);
    state.drag = Some(stp::tui::state::Drag { from_slot: 1, cursor: (0, 0) });
    assert_eq!(
        map_mouse(left(MouseEventKind::Drag, 50, 5), &regions, &state),
        Action::DragMove(50, 5)
    );
    assert_eq!(
        map_mouse(left(MouseEventKind::Up, body.x, body.y), &regions, &state),
        Action::DragEnd(Some(2))
    );
    assert_eq!(
        map_mouse(left(MouseEventKind::Up, 3, 1), &regions, &state),
        Action::DragEnd(None)
    );
    assert_eq!(stp::tui::input::map(&Event::Resize(10, 10), &regions, &state), Action::Nothing);
}

#[test]
fn tiles_lie_inside_the_content_area() {
    for (w, h, grid) in [(100, 30, GridKind::TwoByTwo), (121, 41, GridKind::ThreeByThree), (33, 3, GridKind::ThreeByThree)] {
        let state = state_with(0, grid);
        let regions = compute(Rect::new(0, 0, w, h), &state);
        let c = regions.content;
        for tile in &regions.tiles {
            assert!(tile.outer.x >= c.x && tile.outer.right() <= c.right());
            assert!(tile.outer.y >= c.y && tile.outer.bottom() <= c.bottom());
        }
        let last = regions.tiles.last().expect("tiles");
        assert_eq!((last.outer.right(), last.outer.bottom()), (c.right(), c.bottom()));
    }
}
