//! The texts the native panel draws: session rows, the live count, tile titles,
//! the drag ghost, and where the focused terminal's cursor goes.

use vstd::prelude::*;

use crate::ids::uuid_hyphenated;
use crate::text::{decimal, push_str, string_of, usize_text};
use crate::tui::layout::{Rect, Regions};
use crate::tui::state::{entry_label, GridKind, PanelState, SessionEntry};

verus! {

/// A sidebar row: a filled dot (a ringed one when focused), the first six
/// characters of the terminal id, and `workspace/branch`.
pub open spec fn row_text(e: SessionEntry, focused: bool) -> Seq<char> {
    seq![if focused { '◉' } else { '●' }, ' '] + uuid_hyphenated(e.id.value).take(6) + seq![' ']
        + entry_label(e)
}

/// The text of a sidebar row.
pub fn row_label(entry: &SessionEntry, focused: bool) -> (r: String)
    ensures
        r@ == row_text(*entry, focused),
{
    let mut out: Vec<char> = Vec::new();
    out.push(if focused { '◉' } else { '●' });
    out.push(' ');
    let id = entry.id.to_string();
    let short = crate::text::take_chars(id.as_str(), 6);
    push_str(&mut out, short.as_str());
    out.push(' ');
    push_str(&mut out, entry.workspace.as_str());
    out.push('/');
    push_str(&mut out, entry.branch.as_str());
    assert(out@ =~= row_text(*entry, focused));
    string_of(&out)
}

/// The footer's count line: the number of listed sessions and " live".
pub fn count_text(sessions: usize) -> (r: String)
    ensures
        r@ == decimal(sessions as nat) + " live"@,
{
    let mut out: Vec<char> = Vec::new();
    push_str(&mut out, usize_text(sessions).as_str());
    push_str(&mut out, " live");
    string_of(&out)
}

/// "slot " and the one-based slot number.
pub open spec fn slot_number_text(slot: nat) -> Seq<char> {
    "slot "@ + decimal(slot + 1)
}

/// The title of tile `slot`: its session's label, else "slot N".
pub fn tile_title(state: &PanelState, slot: usize) -> (r: String)
    requires
        slot < usize::MAX,
    ensures
        match state.slot_label_spec(slot) {
            Some(l) => r@ == l,
            None => r@ == slot_number_text(slot as nat),
        },
{
    match state.slot_label(slot) {
        Some(label) => label,
        None => {
            let mut out: Vec<char> = Vec::new();
            push_str(&mut out, "slot ");
            push_str(&mut out, usize_text(slot + 1).as_str());
            string_of(&out)
        },
    }
}

/// The ghost drawn at the cursor while a slot is dragged: a swap arrow and the
/// dragged tile's title, with the cell it starts at.
pub fn drag_ghost(state: &PanelState) -> (r: Option<((u16, u16), String)>)
    requires
        state.drag matches Some(d) ==> d.from_slot < usize::MAX,
    ensures
        match state.drag {
            None => r is None,
            Some(d) => (r matches Some(g) && g.0 == d.cursor && g.1@ == seq!['⇄', ' '] + match state.slot_label_spec(d.from_slot) {
                Some(l) => l,
                None => slot_number_text(d.from_slot as nat),
            }),
        },
{
    match state.drag {
        None => None,
        Some(d) => {
            let title = tile_title(state, d.from_slot);
            let mut out: Vec<char> = Vec::new();
            out.push('⇄');
            out.push(' ');
            push_str(&mut out, title.as_str());
            Some((d.cursor, string_of(&out)))
        },
    }
}

/// Where the cursor of a terminal at (`row`, `col`) of its screen shows on the
/// panel: inside the pane body, or nowhere when it lies outside.
pub fn cursor_cell(body: Rect, row: u16, col: u16) -> (r: Option<(u16, u16)>)
    requires
        body.x + body.width <= u16::MAX,
        body.y + body.height <= u16::MAX,
    ensures
        r == if col < body.width && row < body.height {
            Some(((body.x + col) as u16, (body.y + row) as u16))
        } else {
            None
        },
{
    if col < body.width && row < body.height {
        Some((body.x + col, body.y + row))
    } else {
        None
    }
}

// ---------------------------------------------------------------------------
// The session list's drawing.
// ---------------------------------------------------------------------------

/// How a text is drawn.
#[derive(Clone, Copy, Debug, PartialEq, Eq, Structural)]
pub enum DrawStyle {
    Plain,
    Bold,
    Reversed,
    Red,
    Green,
    DarkGray,
}

/// A text drawn at a cell, cut to `max_width` columns.
#[derive(Clone, Debug, PartialEq, Eq)]
pub struct DrawText {
    pub x: u16,
    pub y: u16,
    pub text: String,
    pub max_width: usize,
    pub style: DrawStyle,
}

/// The model of a drawn text.
pub struct DrawView {
    pub x: u16,
    pub y: u16,
    pub text: Seq<char>,
    pub max_width: usize,
    pub style: DrawStyle,
}

impl View for DrawText {
    type V = DrawView;

    open spec fn view(&self) -> DrawView {
        DrawView { x: self.x, y: self.y, text: self.text@, max_width: self.max_width, style: self.style }
    }
}

pub open spec fn draw(x: u16, y: u16, text: Seq<char>, max_width: usize, style: DrawStyle) -> DrawView {
    DrawView { x, y, text, max_width, style }
}

pub open spec fn draws_view(v: Seq<DrawText>) -> Seq<DrawView> {
    v.map_values(|d: DrawText| d@)
}

/// The session is the focused terminal's.
pub open spec fn is_focused_entry(state: PanelState, e: SessionEntry) -> bool {
    state.spec_focused() == Some(e.id)
}

/// The drawings of the first `n` rows: for each row that has a session, its
/// label (reversed when focused, cut three columns short for the close button)
/// and a red "[x]" on its close button.
pub open spec fn row_draws(state: PanelState, regions: Regions, n: nat) -> Seq<DrawView>
    decreases n,
{
    if n == 0 {
        Seq::empty()
    } else {
        let i = n - 1;
        let before = row_draws(state, regions, (n - 1) as nat);
        if i < state.sessions@.len() {
            let e = state.sessions@[i];
            let focused = is_focused_entry(state, e);
            let row = regions.rows@[i];
            let close = regions.close_buttons@[i];
            before + seq![
                draw(
                    row.x,
                    row.y,
                    row_text(e, focused),
                    row.width.saturating_sub(3) as usize,
                    if focused {
                        DrawStyle::Reversed
                    } else {
                        DrawStyle::Plain
                    },
                ),
                draw(close.x, close.y, "[x]"@, 3, DrawStyle::Red),
            ]
        } else {
            before
        }
    }
}

pub open spec fn grid_button_style(state: PanelState, kind: GridKind) -> DrawStyle {
    if state.grid == kind {
        DrawStyle::Reversed
    } else {
        DrawStyle::Plain
    }
}

/// What the session list draws, in order: the bold title, the rows, the green
/// new button, the two grid buttons (the current one reversed), the count of
/// listed sessions and the key hint, both dark gray.
pub open spec fn sidebar_draws(state: PanelState, regions: Regions) -> Seq<DrawView> {
    let sidebar = regions.sidebar;
    seq![
        draw(
            (sidebar.x + 1) as u16,
            sidebar.y,
            "STP sessions"@,
            sidebar.width.saturating_sub(1) as usize,
            DrawStyle::Bold,
        ),
    ] + row_draws(state, regions, regions.rows@.len()) + seq![
        draw(regions.new_button.x, regions.new_button.y, "+ new"@, 5, DrawStyle::Green),
        draw(
            regions.grid_2x2.x,
            regions.grid_2x2.y,
            "[2x2]"@,
            5,
            grid_button_style(state, GridKind::TwoByTwo),
        ),
        draw(
            regions.grid_3x3.x,
            regions.grid_3x3.y,
            "[3x3]"@,
            5,
            grid_button_style(state, GridKind::ThreeByThree),
        ),
        draw(
            regions.count_line.x,
            regions.count_line.y,
            decimal(state.sessions@.len()) + " live"@,
            regions.count_line.width as usize,
            DrawStyle::DarkGray,
        ),
        draw(
            regions.hint_line.x,
            regions.hint_line.y,
            "q quit  tab focus"@,
            regions.hint_line.width as usize,
            DrawStyle::DarkGray,
        ),
    ]
}

fn push_draw(out: &mut Vec<DrawText>, x: u16, y: u16, text: String, max_width: usize, style: DrawStyle)
    ensures
        draws_view(final(out)@) == draws_view(old(out)@).push(draw(x, y, text@, max_width, style)),
{
    let ghost before = out@;
    out.push(DrawText { x, y, text, max_width, style });
    assert(draws_view(out@) =~= draws_view(before).push(draw(x, y, text@, max_width, style)));
}

/// The texts the session list draws.
pub fn sidebar_draw_plan(state: &PanelState, regions: &Regions) -> (r: Vec<DrawText>)
    requires
        regions.sidebar.x < u16::MAX,
        regions.close_buttons@.len() >= regions.rows@.len(),
    ensures
        draws_view(r@) == sidebar_draws(*state, *regions),
{
    proof {
        reveal_strlit("STP sessions");
        reveal_strlit("[x]");
        reveal_strlit("+ new");
        reveal_strlit("[2x2]");
        reveal_strlit("[3x3]");
        reveal_strlit("q quit  tab focus");
        reveal_strlit(" live");
    }
    let mut out: Vec<DrawText> = Vec::new();
    let sidebar = regions.sidebar;
    push_draw(
        &mut out,
        sidebar.x + 1,
        sidebar.y,
        "STP sessions".to_string(),
        sidebar.width.saturating_sub(1) as usize,
        DrawStyle::Bold,
    );
    let ghost head = draws_view(out@);
    let focused = state.focused_terminal();
    let mut index: usize = 0;
    while index < regions.rows.len()
        invariant
            index <= regions.rows@.len(),
            regions.close_buttons@.len() >= regions.rows@.len(),
            draws_view(out@) == head + row_draws(*state, *regions, index as nat),
            match focused {
                Some(id) => state.spec_focused() == Some(*id),
                None => state.spec_focused() is None,
            },
        decreases regions.rows@.len() - index,
    {
        if index < state.sessions.len() {
            let entry = &state.sessions[index];
            let is_focused = match focused {
                Some(id) => *id == entry.id,
                None => false,
            };
            let row = regions.rows[index];
            let label = row_label(entry, is_focused);
            push_draw(
                &mut out,
                row.x,
                row.y,
                label,
                row.width.saturating_sub(3) as usize,
                if is_focused {
                    DrawStyle::Reversed
                } else {
                    DrawStyle::Plain
                },
            );
            let close = regions.close_buttons[index];
            push_draw(&mut out, close.x, close.y, "[x]".to_string(), 3, DrawStyle::Red);
        }
        index = index + 1;
    }
    push_draw(&mut out, regions.new_button.x, regions.new_button.y, "+ new".to_string(), 5, DrawStyle::Green);
    let style_2 = if state.grid == GridKind::TwoByTwo {
        DrawStyle::Reversed
    } else {
        DrawStyle::Plain
    };
    push_draw(&mut out, regions.grid_2x2.x, regions.grid_2x2.y, "[2x2]".to_string(), 5, style_2);
    let style_3 = if state.grid == GridKind::ThreeByThree {
        DrawStyle::Reversed
    } else {
        DrawStyle::Plain
    };
    push_draw(&mut out, regions.grid_3x3.x, regions.grid_3x3.y, "[3x3]".to_string(), 5, style_3);
    push_draw(
        &mut out,
        regions.count_line.x,
        regions.count_line.y,
        count_text(state.sessions.len()),
        regions.count_line.width as usize,
        DrawStyle::DarkGray,
    );
    push_draw(
        &mut out,
        regions.hint_line.x,
        regions.hint_line.y,
        "q quit  tab focus".to_string(),
        regions.hint_line.width as usize,
        DrawStyle::DarkGray,
    );
    proof {
        let rows = row_draws(*state, *regions, regions.rows@.len());
        assert(draws_view(out@) =~= sidebar_draws(*state, *regions));
    }
    out
}

} // verus!
