//! Terminal input events: what each one asks the panel to do, and the bytes a
//! key press sends to the focused terminal.

use vstd::prelude::*;

use crate::text::string_of;
use crate::tui::layout::{Hit, Regions};
use crate::tui::state::{GridKind, PanelState};

verus! {

/// A key, as the terminal backend names it.
#[derive(Clone, Copy, Debug, PartialEq, Eq, Structural)]
pub enum KeyCode {
    Backspace,
    Enter,
    Left,
    Right,
    Up,
    Down,
    Home,
    End,
    PageUp,
    PageDown,
    Tab,
    BackTab,
    Delete,
    Insert,
    F(u8),
    Char(char),
    Null,
    Esc,
    CapsLock,
    ScrollLock,
    NumLock,
    PrintScreen,
    Pause,
    Menu,
    KeypadBegin,
    Media,
    Modifier,
}

/// The modifier keys held, as a bit set.
#[derive(Clone, Copy, Debug, PartialEq, Eq, Structural)]
pub struct KeyModifiers {
    pub bits: u8,
}

impl KeyModifiers {
    pub open spec fn spec_none() -> KeyModifiers {
        KeyModifiers { bits: 0 }
    }

    pub open spec fn spec_shift() -> KeyModifiers {
        KeyModifiers { bits: 1 }
    }

    pub open spec fn spec_control() -> KeyModifiers {
        KeyModifiers { bits: 2 }
    }

    pub open spec fn spec_alt() -> KeyModifiers {
        KeyModifiers { bits: 4 }
    }

    /// No modifier held.
    pub fn none() -> (r: KeyModifiers)
        ensures
            r == Self::spec_none(),
    {
        KeyModifiers { bits: 0 }
    }

    /// Shift alone.
    pub fn shift() -> (r: KeyModifiers)
        ensures
            r == Self::spec_shift(),
    {
        KeyModifiers { bits: 1 }
    }

    /// Control alone.
    pub fn control() -> (r: KeyModifiers)
        ensures
            r == Self::spec_control(),
    {
        KeyModifiers { bits: 2 }
    }

    /// Alt alone.
    pub fn alt() -> (r: KeyModifiers)
        ensures
            r == Self::spec_alt(),
    {
        KeyModifiers { bits: 4 }
    }

    /// Both sets of modifiers together.
    pub fn union(self, other: KeyModifiers) -> (r: KeyModifiers)
        ensures
            r.bits == self.bits | other.bits,
    {
        KeyModifiers { bits: self.bits | other.bits }
    }

    pub open spec fn spec_contains(self, other: KeyModifiers) -> bool {
        self.bits & other.bits == other.bits
    }

    /// Whether every modifier of `other` is held.
    pub fn contains(self, other: KeyModifiers) -> (r: bool)
        ensures
            r == self.spec_contains(other),
    {
        self.bits & other.bits == other.bits
    }
}

/// Press, auto-repeat or release.
#[derive(Clone, Copy, Debug, PartialEq, Eq, Structural)]
pub enum KeyEventKind {
    Press,
    Repeat,
    Release,
}

#[derive(Clone, Copy, Debug, PartialEq, Eq, Structural)]
pub struct KeyEvent {
    pub code: KeyCode,
    pub modifiers: KeyModifiers,
    pub kind: KeyEventKind,
}

impl KeyEvent {
    /// A key event of the given kind.
    pub fn new_with_kind(code: KeyCode, modifiers: KeyModifiers, kind: KeyEventKind) -> (r: Self)
        ensures
            r == (KeyEvent { code, modifiers, kind }),
    {
        KeyEvent { code, modifiers, kind }
    }
}

#[derive(Clone, Copy, Debug, PartialEq, Eq, Structural)]
pub enum MouseButton {
    Left,
    Right,
    Middle,
}

#[derive(Clone, Copy, Debug, PartialEq, Eq, Structural)]
pub enum MouseEventKind {
    Down(MouseButton),
    Up(MouseButton),
    Drag(MouseButton),
    Moved,
    ScrollDown,
    ScrollUp,
    ScrollLeft,
    ScrollRight,
}

#[derive(Clone, Copy, Debug, PartialEq, Eq, Structural)]
pub struct MouseEvent {
    pub kind: MouseEventKind,
    pub column: u16,
    pub row: u16,
    pub modifiers: KeyModifiers,
}

/// An input event from the terminal.
#[derive(Clone, Debug, PartialEq, Eq)]
pub enum Event {
    FocusGained,
    FocusLost,
    Key(KeyEvent),
    Mouse(MouseEvent),
    Paste(String),
    Resize(u16, u16),
}

/// What an input asks the panel to do.
#[derive(Clone, Debug, PartialEq, Eq)]
pub enum Action {
    Nothing,
    Quit,
    FocusSlot(usize),
    PlaceSession(usize),
    CloseSession(usize),
    Spawn,
    SetGrid(GridKind),
    DragStart(usize),
    DragMove(u16, u16),
    /// The drag ends: over a slot it swaps, elsewhere it is cancelled.
    DragEnd(Option<usize>),
    /// Encoded bytes for the focused terminal.
    Key(Vec<u8>),
}

/// An action, with the bytes of a key as a sequence.
pub enum ActionView {
    Nothing,
    Quit,
    FocusSlot(usize),
    PlaceSession(usize),
    CloseSession(usize),
    Spawn,
    SetGrid(GridKind),
    DragStart(usize),
    DragMove(u16, u16),
    DragEnd(Option<usize>),
    Key(Seq<u8>),
}

impl View for Action {
    type V = ActionView;

    open spec fn view(&self) -> ActionView {
        match self {
            Action::Nothing => ActionView::Nothing,
            Action::Quit => ActionView::Quit,
            Action::FocusSlot(s) => ActionView::FocusSlot(*s),
            Action::PlaceSession(s) => ActionView::PlaceSession(*s),
            Action::CloseSession(s) => ActionView::CloseSession(*s),
            Action::Spawn => ActionView::Spawn,
            Action::SetGrid(g) => ActionView::SetGrid(*g),
            Action::DragStart(s) => ActionView::DragStart(*s),
            Action::DragMove(x, y) => ActionView::DragMove(*x, *y),
            Action::DragEnd(t) => ActionView::DragEnd(*t),
            Action::Key(bytes) => ActionView::Key(bytes@),
        }
    }
}

pub open spec fn is_ascii_lower(c: char) -> bool {
    'a' <= c && c <= 'z'
}

pub open spec fn is_ascii_upper(c: char) -> bool {
    'A' <= c && c <= 'Z'
}

/// The bytes of a character key: with Ctrl, a letter gives its control code
/// (1 for A to 26 for Z), and space, `@`, `[`, `\`, `]`, `^`, `_` give 0 and
/// 0x1b to 0x1f; anything else is the character's UTF-8 encoding.
pub open spec fn char_bytes(c: char, ctrl: bool) -> Seq<u8> {
    if ctrl && is_ascii_lower(c) {
        seq![(c as int - 'a' as int + 1) as u8]
    } else if ctrl && is_ascii_upper(c) {
        seq![(c as int - 'A' as int + 1) as u8]
    } else if ctrl && (c == ' ' || c == '@') {
        seq![0u8]
    } else if ctrl && c == '[' {
        seq![0x1bu8]
    } else if ctrl && c == '\\' {
        seq![0x1cu8]
    } else if ctrl && c == ']' {
        seq![0x1du8]
    } else if ctrl && c == '^' {
        seq![0x1eu8]
    } else if ctrl && c == '_' {
        seq![0x1fu8]
    } else {
        vstd::utf8::encode_utf8(seq![c])
    }
}

/// The xterm sequence of function key `n`, for F1 to F12.
pub open spec fn function_bytes(n: u8) -> Option<Seq<u8>> {
    if n == 1 {
        Some(seq![0x1bu8, 0x4f, 0x50])
    } else if n == 2 {
        Some(seq![0x1bu8, 0x4f, 0x51])
    } else if n == 3 {
        Some(seq![0x1bu8, 0x4f, 0x52])
    } else if n == 4 {
        Some(seq![0x1bu8, 0x4f, 0x53])
    } else if n == 5 {
        Some(seq![0x1bu8, 0x5b, 0x31, 0x35, 0x7e])
    } else if n == 6 {
        Some(seq![0x1bu8, 0x5b, 0x31, 0x37, 0x7e])
    } else if n == 7 {
        Some(seq![0x1bu8, 0x5b, 0x31, 0x38, 0x7e])
    } else if n == 8 {
        Some(seq![0x1bu8, 0x5b, 0x31, 0x39, 0x7e])
    } else if n == 9 {
        Some(seq![0x1bu8, 0x5b, 0x32, 0x30, 0x7e])
    } else if n == 10 {
        Some(seq![0x1bu8, 0x5b, 0x32, 0x31, 0x7e])
    } else if n == 11 {
        Some(seq![0x1bu8, 0x5b, 0x32, 0x33, 0x7e])
    } else if n == 12 {
        Some(seq![0x1bu8, 0x5b, 0x32, 0x34, 0x7e])
    } else {
        None
    }
}

/// "ESC [" followed by `tail`.
pub open spec fn csi(tail: Seq<u8>) -> Seq<u8> {
    seq![0x1bu8, 0x5b] + tail
}

/// The bytes of a key before the Alt prefix; `None` for keys that send nothing.
pub open spec fn key_code_bytes(code: KeyCode, ctrl: bool) -> Option<Seq<u8>> {
    match code {
        KeyCode::Char(c) => Some(char_bytes(c, ctrl)),
        KeyCode::Enter => Some(seq![0x0du8]),
        KeyCode::Tab => Some(seq![0x09u8]),
        KeyCode::BackTab => Some(csi(seq![0x5au8])),
        KeyCode::Backspace => Some(seq![0x7fu8]),
        KeyCode::Esc => Some(seq![0x1bu8]),
        KeyCode::Left => Some(csi(seq![0x44u8])),
        KeyCode::Right => Some(csi(seq![0x43u8])),
        KeyCode::Up => Some(csi(seq![0x41u8])),
        KeyCode::Down => Some(csi(seq![0x42u8])),
        KeyCode::Home => Some(csi(seq![0x48u8])),
        KeyCode::End => Some(csi(seq![0x46u8])),
        KeyCode::PageUp => Some(csi(seq![0x35u8, 0x7e])),
        KeyCode::PageDown => Some(csi(seq![0x36u8, 0x7e])),
        KeyCode::Delete => Some(csi(seq![0x33u8, 0x7e])),
        KeyCode::Insert => Some(csi(seq![0x32u8, 0x7e])),
        KeyCode::F(n) => function_bytes(n),
        _ => None,
    }
}

/// The bytes a key press sends to a terminal: Alt puts ESC in front, except
/// on Esc itself.
pub open spec fn key_bytes(key: KeyEvent) -> Option<Seq<u8>> {
    let alt = key.modifiers.spec_contains(KeyModifiers::spec_alt());
    let ctrl = key.modifiers.spec_contains(KeyModifiers::spec_control());
    match key_code_bytes(key.code, ctrl) {
        Some(bytes) => if alt && key.code != KeyCode::Esc {
            Some(seq![0x1bu8] + bytes)
        } else {
            Some(bytes)
        },
        None => None,
    }
}

fn byte_vec(bytes: &[u8]) -> (r: Vec<u8>)
    ensures
        r@ == bytes@,
{
    let mut out: Vec<u8> = Vec::new();
    let mut i: usize = 0;
    while i < bytes.len()
        invariant
            i <= bytes@.len(),
            out@ == bytes@.take(i as int),
        decreases bytes@.len() - i,
    {
        out.push(bytes[i]);
        i = i + 1;
        assert(out@ =~= bytes@.take(i as int));
    }
    assert(bytes@.take(bytes@.len() as int) =~= bytes@);
    out
}

fn encode_char(c: char, ctrl: bool) -> (r: Vec<u8>)
    ensures
        r@ == char_bytes(c, ctrl),
{
    if ctrl {
        if 'a' <= c && c <= 'z' {
            let code = (c as u32 - 'a' as u32 + 1) as u8;
            return vec![code];
        }
        if 'A' <= c && c <= 'Z' {
            let code = (c as u32 - 'A' as u32 + 1) as u8;
            return vec![code];
        }
        if c == ' ' || c == '@' {
            return vec![0];
        } else if c == '[' {
            return vec![0x1b];
        } else if c == '\\' {
            return vec![0x1c];
        } else if c == ']' {
            return vec![0x1d];
        } else if c == '^' {
            return vec![0x1e];
        } else if c == '_' {
            return vec![0x1f];
        }
    }
    let text = string_of(&[c]);
    let r = text.as_str().as_bytes_vec();
    proof {
        assert(text@ =~= seq![c]);
    }
    r
}

fn encode_function(n: u8) -> (r: Option<Vec<u8>>)
    ensures
        match r {
            Some(bytes) => function_bytes(n) == Some(bytes@),
            None => function_bytes(n) is None,
        },
{
    let bytes: &[u8] = match n {
        1 => &[0x1b, 0x4f, 0x50],
        2 => &[0x1b, 0x4f, 0x51],
        3 => &[0x1b, 0x4f, 0x52],
        4 => &[0x1b, 0x4f, 0x53],
        5 => &[0x1b, 0x5b, 0x31, 0x35, 0x7e],
        6 => &[0x1b, 0x5b, 0x31, 0x37, 0x7e],
        7 => &[0x1b, 0x5b, 0x31, 0x38, 0x7e],
        8 => &[0x1b, 0x5b, 0x31, 0x39, 0x7e],
        9 => &[0x1b, 0x5b, 0x32, 0x30, 0x7e],
        10 => &[0x1b, 0x5b, 0x32, 0x31, 0x7e],
        11 => &[0x1b, 0x5b, 0x32, 0x33, 0x7e],
        12 => &[0x1b, 0x5b, 0x32, 0x34, 0x7e],
        _ => {
            return None;
        },
    };
    let r = byte_vec(bytes);
    assert(function_bytes(n) == Some(r@));
    Some(r)
}

/// The bytes a key press sends to the focused terminal; `None` for keys that
/// send nothing.
pub fn encode_key(key: KeyEvent) -> (r: Option<Vec<u8>>)
    ensures
        match r {
            Some(bytes) => key_bytes(key) == Some(bytes@),
            None => key_bytes(key) is None,
        },
{
    let alt = key.modifiers.contains(KeyModifiers::alt());
    let ctrl = key.modifiers.contains(KeyModifiers::control());
    let bytes: Vec<u8> = match key.code {
        KeyCode::Char(c) => encode_char(c, ctrl),
        KeyCode::Enter => vec![0x0d],
        KeyCode::Tab => vec![0x09],
        KeyCode::BackTab => vec![0x1b, 0x5b, 0x5a],
        KeyCode::Backspace => vec![0x7f],
        KeyCode::Esc => vec![0x1b],
        KeyCode::Left => vec![0x1b, 0x5b, 0x44],
        KeyCode::Right => vec![0x1b, 0x5b, 0x43],
        KeyCode::Up => vec![0x1b, 0x5b, 0x41],
        KeyCode::Down => vec![0x1b, 0x5b, 0x42],
        KeyCode::Home => vec![0x1b, 0x5b, 0x48],
        KeyCode::End => vec![0x1b, 0x5b, 0x46],
        KeyCode::PageUp => vec![0x1b, 0x5b, 0x35, 0x7e],
        KeyCode::PageDown => vec![0x1b, 0x5b, 0x36, 0x7e],
        KeyCode::Delete => vec![0x1b, 0x5b, 0x33, 0x7e],
        KeyCode::Insert => vec![0x1b, 0x5b, 0x32, 0x7e],
        KeyCode::F(n) => match encode_function(n) {
            Some(b) => b,
            None => {
                return None;
            },
        },
        _ => {
            return None;
        },
    };
    proof {
        let code_bytes = key_code_bytes(key.code, ctrl);
        assert(code_bytes == Some(bytes@));
    }
    let is_esc = match key.code {
        KeyCode::Esc => true,
        _ => false,
    };
    if alt && !is_esc {
        let mut prefixed: Vec<u8> = Vec::new();
        prefixed.push(0x1b);
        let mut i: usize = 0;
        while i < bytes.len()
            invariant
                i <= bytes@.len(),
                prefixed@ == seq![0x1bu8] + bytes@.take(i as int),
            decreases bytes@.len() - i,
        {
            prefixed.push(bytes[i]);
            i = i + 1;
            assert(prefixed@ =~= seq![0x1bu8] + bytes@.take(i as int));
        }
        assert(bytes@.take(bytes@.len() as int) =~= bytes@);
        return Some(prefixed);
    }
    Some(bytes)
}

/// The action of a key: a release does nothing; Ctrl+Q, Ctrl+N and Ctrl+G
/// quit, spawn and switch the grid whatever has focus; otherwise a focused
/// terminal gets the key's bytes, and with no terminal focused `q` and Esc quit.
pub open spec fn key_action(key: KeyEvent, state_grid: GridKind, focused: bool) -> ActionView {
    let ctrl = key.modifiers.spec_contains(KeyModifiers::spec_control());
    if key.kind == KeyEventKind::Release {
        ActionView::Nothing
    } else if ctrl && key.code == KeyCode::Char('q') {
        ActionView::Quit
    } else if ctrl && key.code == KeyCode::Char('n') {
        ActionView::Spawn
    } else if ctrl && key.code == KeyCode::Char('g') {
        ActionView::SetGrid(state_grid.spec_toggled())
    } else if focused {
        match key_bytes(key) {
            Some(bytes) => ActionView::Key(bytes),
            None => ActionView::Nothing,
        }
    } else if key.code == KeyCode::Char('q') || key.code == KeyCode::Esc {
        ActionView::Quit
    } else {
        ActionView::Nothing
    }
}

/// The action of a key press on the panel.
pub fn map_key(key: KeyEvent, state: &PanelState) -> (r: Action)
    ensures
        r@ == key_action(key, state.grid, state.spec_focused() is Some),
{
    let is_release = match key.kind {
        KeyEventKind::Release => true,
        _ => false,
    };
    if is_release {
        return Action::Nothing;
    }
    let ctrl = key.modifiers.contains(KeyModifiers::control());
    if ctrl {
        match key.code {
            KeyCode::Char(c) => {
                if c == 'q' {
                    return Action::Quit;
                } else if c == 'n' {
                    return Action::Spawn;
                } else if c == 'g' {
                    return Action::SetGrid(state.grid.toggled());
                }
            },
            _ => {},
        }
    }
    if state.focused_terminal().is_some() {
        match encode_key(key) {
            Some(bytes) => Action::Key(bytes),
            None => Action::Nothing,
        }
    } else {
        let quits = match key.code {
            KeyCode::Char(c) => c == 'q',
            KeyCode::Esc => true,
            _ => false,
        };
        if quits {
            Action::Quit
        } else {
            Action::Nothing
        }
    }
}

/// The action of a mouse event, given what its cell hits (`hit`) and whether a
/// drag is in progress: a left press acts on the region under it (close,
/// place, spawn, switch grid, start a drag on a title, focus a body); with a
/// drag in progress, a left drag moves it and a left release ends it over the
/// tile under the cell, or cancels it.
pub open spec fn mouse_action(mouse: MouseEvent, hit: Hit, dragging: bool) -> ActionView {
    match mouse.kind {
        MouseEventKind::Down(MouseButton::Left) => match hit {
            Hit::CloseButton(i) => ActionView::CloseSession(i),
            Hit::SessionRow(i) => ActionView::PlaceSession(i),
            Hit::NewButton => ActionView::Spawn,
            Hit::Grid(g) => ActionView::SetGrid(g),
            Hit::TileTitle(s) => ActionView::DragStart(s),
            Hit::TileBody(s) => ActionView::FocusSlot(s),
            Hit::Outside => ActionView::Nothing,
        },
        MouseEventKind::Drag(MouseButton::Left) => if dragging {
            ActionView::DragMove(mouse.column, mouse.row)
        } else {
            ActionView::Nothing
        },
        MouseEventKind::Up(MouseButton::Left) => if dragging {
            match hit {
                Hit::TileTitle(s) => ActionView::DragEnd(Some(s)),
                Hit::TileBody(s) => ActionView::DragEnd(Some(s)),
                _ => ActionView::DragEnd(None),
            }
        } else {
            ActionView::Nothing
        },
        _ => ActionView::Nothing,
    }
}

/// The action of a mouse event on the panel.
pub fn map_mouse(mouse: MouseEvent, regions: &Regions, state: &PanelState) -> (r: Action)
    ensures
        forall|h: Hit|
            regions.hits(mouse.column, mouse.row, h) ==> r@ == mouse_action(
                mouse,
                h,
                state.drag is Some,
            ),
{
    let (x, y) = (mouse.column, mouse.row);
    let dragging = state.drag.is_some();
    let hit = regions.hit(x, y);
    proof {
        assert forall|h: Hit| regions.hits(x, y, h) implies h == hit by {
            crate::tui::layout::law_hit_is_unique(*regions, x, y, h, hit);
        }
    }
    match mouse.kind {
        MouseEventKind::Down(MouseButton::Left) => match hit {
            Hit::CloseButton(index) => Action::CloseSession(index),
            Hit::SessionRow(index) => Action::PlaceSession(index),
            Hit::NewButton => Action::Spawn,
            Hit::Grid(kind) => Action::SetGrid(kind),
            Hit::TileTitle(slot) => Action::DragStart(slot),
            Hit::TileBody(slot) => Action::FocusSlot(slot),
            Hit::Outside => Action::Nothing,
        },
        MouseEventKind::Drag(MouseButton::Left) => if dragging {
            Action::DragMove(x, y)
        } else {
            Action::Nothing
        },
        MouseEventKind::Up(MouseButton::Left) => if dragging {
            match hit {
                Hit::TileTitle(slot) => Action::DragEnd(Some(slot)),
                Hit::TileBody(slot) => Action::DragEnd(Some(slot)),
                _ => Action::DragEnd(None),
            }
        } else {
            Action::Nothing
        },
        _ => Action::Nothing,
    }
}

/// The action of any input event: keys and mouse events as above, the rest
/// nothing.
pub fn map(event: &Event, regions: &Regions, state: &PanelState) -> (r: Action)
    ensures
        match event {
            Event::Key(key) => r@ == key_action(*key, state.grid, state.spec_focused() is Some),
            Event::Mouse(mouse) => forall|h: Hit|
                regions.hits(mouse.column, mouse.row, h) ==> r@ == mouse_action(
                    *mouse,
                    h,
                    state.drag is Some,
                ),
            _ => r@ == ActionView::Nothing,
        },
{
    match event {
        Event::Key(key) => map_key(*key, state),
        Event::Mouse(mouse) => map_mouse(*mouse, regions, state),
        _ => Action::Nothing,
    }
}

} // verus!

verus! {

/// ESC when Alt is held, nothing otherwise.
pub open spec fn alt_prefix(key: KeyEvent) -> Seq<u8> {
    if key.modifiers.spec_contains(KeyModifiers::spec_alt()) {
        seq![0x1bu8]
    } else {
        Seq::empty()
    }
}

/// The keys with fixed xterm sequences: Enter is CR, Tab is HT, Backspace is
/// DEL, Esc is ESC (Alt adds nothing to it); the arrows are ESC [ A (up),
/// B (down), C (right), D (left); Home and End are ESC [ H and ESC [ F,
/// Shift-Tab is ESC [ Z; Insert, Delete, PageUp and PageDown are ESC [ 2 ~,
/// 3 ~, 5 ~ and 6 ~. Alt puts ESC in front of every one but Esc.
pub proof fn law_special_keys(key: KeyEvent)
    ensures
        key.code == KeyCode::Enter ==> key_bytes(key) == Some(alt_prefix(key) + seq![0x0du8]),
        key.code == KeyCode::Tab ==> key_bytes(key) == Some(alt_prefix(key) + seq![0x09u8]),
        key.code == KeyCode::Backspace ==> key_bytes(key) == Some(alt_prefix(key) + seq![0x7fu8]),
        key.code == KeyCode::Esc ==> key_bytes(key) == Some(seq![0x1bu8]),
        key.code == KeyCode::Up ==> key_bytes(key) == Some(alt_prefix(key) + seq![0x1bu8, 0x5b, 0x41]),
        key.code == KeyCode::Down ==> key_bytes(key) == Some(alt_prefix(key) + seq![0x1bu8, 0x5b, 0x42]),
        key.code == KeyCode::Right ==> key_bytes(key) == Some(alt_prefix(key) + seq![0x1bu8, 0x5b, 0x43]),
        key.code == KeyCode::Left ==> key_bytes(key) == Some(alt_prefix(key) + seq![0x1bu8, 0x5b, 0x44]),
        key.code == KeyCode::Home ==> key_bytes(key) == Some(alt_prefix(key) + seq![0x1bu8, 0x5b, 0x48]),
        key.code == KeyCode::End ==> key_bytes(key) == Some(alt_prefix(key) + seq![0x1bu8, 0x5b, 0x46]),
        key.code == KeyCode::BackTab ==> key_bytes(key) == Some(alt_prefix(key) + seq![0x1bu8, 0x5b, 0x5a]),
        key.code == KeyCode::Insert ==> key_bytes(key) == Some(
            alt_prefix(key) + seq![0x1bu8, 0x5b, 0x32, 0x7e],
        ),
        key.code == KeyCode::Delete ==> key_bytes(key) == Some(
            alt_prefix(key) + seq![0x1bu8, 0x5b, 0x33, 0x7e],
        ),
        key.code == KeyCode::PageUp ==> key_bytes(key) == Some(
            alt_prefix(key) + seq![0x1bu8, 0x5b, 0x35, 0x7e],
        ),
        key.code == KeyCode::PageDown ==> key_bytes(key) == Some(
            alt_prefix(key) + seq![0x1bu8, 0x5b, 0x36, 0x7e],
        ),
{
    assert(Seq::<u8>::empty() + seq![0x1bu8] =~= seq![0x1bu8]);
    let p = alt_prefix(key);
    assert(p.len() == 0 ==> p + seq![0x0du8] =~= seq![0x0du8]);
    match key.code {
        KeyCode::Enter => assert(Seq::<u8>::empty() + seq![0x0du8] =~= seq![0x0du8]),
        KeyCode::Tab => assert(Seq::<u8>::empty() + seq![0x09u8] =~= seq![0x09u8]),
        KeyCode::Backspace => assert(Seq::<u8>::empty() + seq![0x7fu8] =~= seq![0x7fu8]),
        KeyCode::Up => {
            assert(csi(seq![0x41u8]) =~= seq![0x1bu8, 0x5b, 0x41]);
            assert(Seq::<u8>::empty() + seq![0x1bu8, 0x5b, 0x41] =~= seq![0x1bu8, 0x5b, 0x41]);
        },
        KeyCode::Down => {
            assert(csi(seq![0x42u8]) =~= seq![0x1bu8, 0x5b, 0x42]);
            assert(Seq::<u8>::empty() + seq![0x1bu8, 0x5b, 0x42] =~= seq![0x1bu8, 0x5b, 0x42]);
        },
        KeyCode::Right => {
            assert(csi(seq![0x43u8]) =~= seq![0x1bu8, 0x5b, 0x43]);
            assert(Seq::<u8>::empty() + seq![0x1bu8, 0x5b, 0x43] =~= seq![0x1bu8, 0x5b, 0x43]);
        },
        KeyCode::Left => {
            assert(csi(seq![0x44u8]) =~= seq![0x1bu8, 0x5b, 0x44]);
            assert(Seq::<u8>::empty() + seq![0x1bu8, 0x5b, 0x44] =~= seq![0x1bu8, 0x5b, 0x44]);
        },
        KeyCode::Home => {
            assert(csi(seq![0x48u8]) =~= seq![0x1bu8, 0x5b, 0x48]);
            assert(Seq::<u8>::empty() + seq![0x1bu8, 0x5b, 0x48] =~= seq![0x1bu8, 0x5b, 0x48]);
        },
        KeyCode::End => {
            assert(csi(seq![0x46u8]) =~= seq![0x1bu8, 0x5b, 0x46]);
            assert(Seq::<u8>::empty() + seq![0x1bu8, 0x5b, 0x46] =~= seq![0x1bu8, 0x5b, 0x46]);
        },
        KeyCode::BackTab => {
            assert(csi(seq![0x5au8]) =~= seq![0x1bu8, 0x5b, 0x5a]);
            assert(Seq::<u8>::empty() + seq![0x1bu8, 0x5b, 0x5a] =~= seq![0x1bu8, 0x5b, 0x5a]);
        },
        KeyCode::Insert => {
            assert(csi(seq![0x32u8, 0x7e]) =~= seq![0x1bu8, 0x5b, 0x32, 0x7e]);
            assert(Seq::<u8>::empty() + seq![0x1bu8, 0x5b, 0x32, 0x7e] =~= seq![0x1bu8, 0x5b, 0x32, 0x7e]);
        },
        KeyCode::Delete => {
            assert(csi(seq![0x33u8, 0x7e]) =~= seq![0x1bu8, 0x5b, 0x33, 0x7e]);
            assert(Seq::<u8>::empty() + seq![0x1bu8, 0x5b, 0x33, 0x7e] =~= seq![0x1bu8, 0x5b, 0x33, 0x7e]);
        },
        KeyCode::PageUp => {
            assert(csi(seq![0x35u8, 0x7e]) =~= seq![0x1bu8, 0x5b, 0x35, 0x7e]);
            assert(Seq::<u8>::empty() + seq![0x1bu8, 0x5b, 0x35, 0x7e] =~= seq![0x1bu8, 0x5b, 0x35, 0x7e]);
        },
        KeyCode::PageDown => {
            assert(csi(seq![0x36u8, 0x7e]) =~= seq![0x1bu8, 0x5b, 0x36, 0x7e]);
            assert(Seq::<u8>::empty() + seq![0x1bu8, 0x5b, 0x36, 0x7e] =~= seq![0x1bu8, 0x5b, 0x36, 0x7e]);
        },
        _ => {},
    }
}

/// Function keys: F1 to F4 are ESC O P, Q, R, S; F5 to F12 are ESC [ 15 ~,
/// 17 ~, 18 ~, 19 ~, 20 ~, 21 ~, 23 ~, 24 ~ (Alt puts ESC in front); any other
/// function key sends nothing.
pub proof fn law_function_keys(key: KeyEvent, n: u8)
    requires
        key.code == KeyCode::F(n),
    ensures
        n == 1 ==> key_bytes(key) == Some(alt_prefix(key) + seq![0x1bu8, 0x4f, 0x50]),
        n == 2 ==> key_bytes(key) == Some(alt_prefix(key) + seq![0x1bu8, 0x4f, 0x51]),
        n == 3 ==> key_bytes(key) == Some(alt_prefix(key) + seq![0x1bu8, 0x4f, 0x52]),
        n == 4 ==> key_bytes(key) == Some(alt_prefix(key) + seq![0x1bu8, 0x4f, 0x53]),
        n == 5 ==> key_bytes(key) == Some(alt_prefix(key) + seq![0x1bu8, 0x5b, 0x31, 0x35, 0x7e]),
        n == 6 ==> key_bytes(key) == Some(alt_prefix(key) + seq![0x1bu8, 0x5b, 0x31, 0x37, 0x7e]),
        n == 7 ==> key_bytes(key) == Some(alt_prefix(key) + seq![0x1bu8, 0x5b, 0x31, 0x38, 0x7e]),
        n == 8 ==> key_bytes(key) == Some(alt_prefix(key) + seq![0x1bu8, 0x5b, 0x31, 0x39, 0x7e]),
        n == 9 ==> key_bytes(key) == Some(alt_prefix(key) + seq![0x1bu8, 0x5b, 0x32, 0x30, 0x7e]),
        n == 10 ==> key_bytes(key) == Some(alt_prefix(key) + seq![0x1bu8, 0x5b, 0x32, 0x31, 0x7e]),
        n == 11 ==> key_bytes(key) == Some(alt_prefix(key) + seq![0x1bu8, 0x5b, 0x32, 0x33, 0x7e]),
        n == 12 ==> key_bytes(key) == Some(alt_prefix(key) + seq![0x1bu8, 0x5b, 0x32, 0x34, 0x7e]),
        (n == 0 || n > 12) ==> key_bytes(key) is None,
{
    match function_bytes(n) {
        Some(b) => assert(Seq::<u8>::empty() + b =~= b),
        None => {},
    }
}

/// Character keys: without Ctrl a character sends its UTF-8 encoding; with Ctrl
/// a letter of either case sends its place in the alphabet (a is 1, z is 26),
/// space and `@` send 0, and `[`, `\`, `]`, `^`, `_` send 0x1b to 0x1f; any
/// other character with Ctrl sends its UTF-8 encoding. Alt puts ESC in front.
pub proof fn law_char_keys(key: KeyEvent, c: char)
    requires
        key.code == KeyCode::Char(c),
    ensures
        !key.modifiers.spec_contains(KeyModifiers::spec_control()) ==> key_bytes(key) == Some(
            alt_prefix(key) + vstd::utf8::encode_utf8(seq![c]),
        ),
        key.modifiers.spec_contains(KeyModifiers::spec_control()) && 'a' <= c <= 'z' ==> key_bytes(key)
            == Some(alt_prefix(key) + seq![(c as u32 - 0x60) as u8]),
        key.modifiers.spec_contains(KeyModifiers::spec_control()) && 'A' <= c <= 'Z' ==> key_bytes(key)
            == Some(alt_prefix(key) + seq![(c as u32 - 0x40) as u8]),
        key.modifiers.spec_contains(KeyModifiers::spec_control()) && (c == ' ' || c == '@') ==> key_bytes(key)
            == Some(alt_prefix(key) + seq![0u8]),
        key.modifiers.spec_contains(KeyModifiers::spec_control()) && c == '[' ==> key_bytes(key) == Some(
            alt_prefix(key) + seq![0x1bu8],
        ),
        key.modifiers.spec_contains(KeyModifiers::spec_control()) && c == '\\' ==> key_bytes(key) == Some(
            alt_prefix(key) + seq![0x1cu8],
        ),
        key.modifiers.spec_contains(KeyModifiers::spec_control()) && c == ']' ==> key_bytes(key) == Some(
            alt_prefix(key) + seq![0x1du8],
        ),
        key.modifiers.spec_contains(KeyModifiers::spec_control()) && c == '^' ==> key_bytes(key) == Some(
            alt_prefix(key) + seq![0x1eu8],
        ),
        key.modifiers.spec_contains(KeyModifiers::spec_control()) && c == '_' ==> key_bytes(key) == Some(
            alt_prefix(key) + seq![0x1fu8],
        ),
{
    let b = char_bytes(c, key.modifiers.spec_contains(KeyModifiers::spec_control()));
    assert(Seq::<u8>::empty() + b =~= b);
}

/// The keys with no byte sequence send nothing.
pub proof fn law_silent_keys(key: KeyEvent)
    requires
        key.code == KeyCode::Null || key.code == KeyCode::CapsLock || key.code == KeyCode::ScrollLock
            || key.code == KeyCode::NumLock || key.code == KeyCode::PrintScreen || key.code
            == KeyCode::Pause || key.code == KeyCode::Menu || key.code == KeyCode::KeypadBegin
            || key.code == KeyCode::Media || key.code == KeyCode::Modifier,
    ensures
        key_bytes(key) is None,
{
}

/// What a key does on the panel: a release nothing; Ctrl+Q quits, Ctrl+N
/// spawns and Ctrl+G switches to the other grid whatever is focused; any other
/// key goes as its bytes to a focused terminal (nothing when it has none);
/// without a focused terminal `q` and Esc quit and the rest do nothing.
pub proof fn law_key_actions(key: KeyEvent, grid: GridKind, focused: bool)
    ensures
        key.kind == KeyEventKind::Release ==> key_action(key, grid, focused) is Nothing,
        ({
            let ctrl = key.modifiers.spec_contains(KeyModifiers::spec_control());
            let chrome = ctrl && (key.code == KeyCode::Char('q') || key.code == KeyCode::Char('n')
                || key.code == KeyCode::Char('g'));
            key.kind != KeyEventKind::Release ==> {
                &&& ctrl && key.code == KeyCode::Char('q') ==> key_action(key, grid, focused) is Quit
                &&& ctrl && key.code == KeyCode::Char('n') ==> key_action(key, grid, focused) is Spawn
                &&& ctrl && key.code == KeyCode::Char('g') ==> (key_action(key, grid, focused) matches ActionView::SetGrid(g)
                    && g != grid)
                &&& !chrome && focused ==> match key_bytes(key) {
                    Some(b) => key_action(key, grid, focused) == ActionView::Key(b),
                    None => key_action(key, grid, focused) is Nothing,
                }
                &&& !chrome && !focused && (key.code == KeyCode::Char('q') || key.code == KeyCode::Esc)
                    ==> key_action(key, grid, focused) is Quit
                &&& !chrome && !focused && !(key.code == KeyCode::Char('q') || key.code == KeyCode::Esc)
                    ==> key_action(key, grid, focused) is Nothing
            }
        }),
{
}

/// What a mouse event does: a left press closes, places, spawns, switches the
/// grid, starts dragging a tile (on its title) or focuses it (on its body),
/// as the cell under it says; during a drag a left drag moves the ghost to the
/// cell and a left release drops on the tile under the cell, title or body
/// alike, or cancels when no tile is there; without a drag, drags and releases
/// do nothing, and so do other buttons, moves and scrolls.
pub proof fn law_mouse_actions(mouse: MouseEvent, hit: Hit, dragging: bool)
    ensures
        mouse.kind == MouseEventKind::Down(MouseButton::Left) ==> match hit {
            Hit::CloseButton(i) => mouse_action(mouse, hit, dragging) == ActionView::CloseSession(i),
            Hit::SessionRow(i) => mouse_action(mouse, hit, dragging) == ActionView::PlaceSession(i),
            Hit::NewButton => mouse_action(mouse, hit, dragging) is Spawn,
            Hit::Grid(g) => mouse_action(mouse, hit, dragging) == ActionView::SetGrid(g),
            Hit::TileTitle(s) => mouse_action(mouse, hit, dragging) == ActionView::DragStart(s),
            Hit::TileBody(s) => mouse_action(mouse, hit, dragging) == ActionView::FocusSlot(s),
            Hit::Outside => mouse_action(mouse, hit, dragging) is Nothing,
        },
        mouse.kind == MouseEventKind::Drag(MouseButton::Left) && dragging ==> mouse_action(mouse, hit, dragging)
            == ActionView::DragMove(mouse.column, mouse.row),
        mouse.kind == MouseEventKind::Up(MouseButton::Left) && dragging ==> match hit {
            Hit::TileTitle(s) => mouse_action(mouse, hit, dragging) == ActionView::DragEnd(Some(s)),
            Hit::TileBody(s) => mouse_action(mouse, hit, dragging) == ActionView::DragEnd(Some(s)),
            _ => mouse_action(mouse, hit, dragging) == ActionView::DragEnd(None),
        },
        (mouse.kind == MouseEventKind::Drag(MouseButton::Left) || mouse.kind == MouseEventKind::Up(
            MouseButton::Left,
        )) && !dragging ==> mouse_action(mouse, hit, dragging) is Nothing,
        !(mouse.kind == MouseEventKind::Down(MouseButton::Left) || mouse.kind == MouseEventKind::Drag(
            MouseButton::Left,
        ) || mouse.kind == MouseEventKind::Up(MouseButton::Left)) ==> mouse_action(mouse, hit, dragging) is Nothing,
{
}

/// A left release during a drag over a cell of tile `s` (title or body) drops
/// on `s`: `map_mouse` gives `DragEnd(Some(s))` for every cell whose hit is
/// that tile, and `DragEnd(None)` only for a cell that hits no tile.
pub proof fn law_drop_on_tile(mouse: MouseEvent, regions: Regions, h: Hit, s: usize)
    requires
        mouse.kind == MouseEventKind::Up(MouseButton::Left),
        regions.hits(mouse.column, mouse.row, h),
        h == Hit::TileTitle(s) || h == Hit::TileBody(s),
    ensures
        mouse_action(mouse, h, true) == ActionView::DragEnd(Some(s)),
{
}

} // verus!
