//! A text preview of the content grid: a framed cell per slot, the focused slot
//! marked, each live terminal in registry order.

use vstd::prelude::*;

pub use crate::text::display_text;

use super::sidebar::{branch_label, live_only, live_terminals, workspace_label};
use super::Layout;
use crate::ids::uuid_hyphenated;
use crate::registry::format::status_of_text;
use crate::registry::model::{status_text, ManagedTerminal, Registry, TerminalStatus, Terminals};
use crate::text::{chars_of, decimal, display_spec, file_name, push_str, string_of, usize_text};

verus! {

/// The width of the preview when none is given.
pub const DEFAULT_WIDTH: usize = 120;

/// The lines of text in a cell.
pub const CELL_LINES: usize = 4;

/// A line cut to `width` characters: unchanged when it fits, else its first
/// characters and `...` (only dots when the width leaves no room for more).
pub open spec fn truncate_spec(line: Seq<char>, width: nat) -> Seq<char> {
    if width == 0 {
        Seq::empty()
    } else if line.len() <= width {
        line
    } else if width <= 3 {
        "..."@.take(width as int)
    } else {
        line.take(width - 3) + "..."@
    }
}

pub fn truncate_to_width(line: &str, width: usize) -> (r: String)
    ensures
        r@ == truncate_spec(line@, width as nat),
        r@.len() <= width,
{
    proof {
        reveal_strlit("...");
    }
    let cs = chars_of(line);
    if width == 0 {
        return String::new();
    }
    if cs.len() <= width {
        return line.to_owned();
    }
    if width <= 3 {
        let dots = chars_of("...");
        return string_of(&crate::text::slice_chars(&dots, 0, width));
    }
    let mut out = crate::text::slice_chars(&cs, 0, width - 3);
    push_str(&mut out, "...");
    assert(cs@.subrange(0, width - 3) =~= cs@.take(width - 3));
    string_of(&out)
}

/// The status as a cell shows it.
pub open spec fn status_label_spec(s: TerminalStatus) -> Seq<char> {
    match s {
        TerminalStatus::Starting => "starting"@,
        TerminalStatus::Live => "live"@,
        TerminalStatus::Detached => "detached"@,
        TerminalStatus::Stale => "stale"@,
        TerminalStatus::Exited => "exited"@,
    }
}

pub fn status_label(status: TerminalStatus) -> (r: &'static str)
    ensures
        r@ == status_label_spec(status),
{
    match status {
        TerminalStatus::Starting => "starting",
        TerminalStatus::Live => "live",
        TerminalStatus::Detached => "detached",
        TerminalStatus::Stale => "stale",
        TerminalStatus::Exited => "exited",
    }
}

/// A cell labels each status with the name the registry file writes for it,
/// and that label reads back as the same status, so no two statuses share a
/// label: a live terminal shows "live", an exited one "exited".
pub proof fn law_status_label_names_status(s: TerminalStatus)
    ensures
        status_label_spec(s) == status_text(s),
        status_of_text(status_label_spec(s)) == Some(s),
{
    crate::registry::format::lemma_status_names(s);
}

/// The columns of a layout's grid.
pub open spec fn columns_of(layout: Layout) -> nat {
    layout.spec_columns()
}

/// The width a preview is asked for: the given one unless it is zero, and at
/// least one more than the number of columns.
pub open spec fn requested_width(cols: nat, max_width: Option<usize>) -> nat {
    let w: nat = match max_width {
        Some(w) => if w > 0 {
            w as nat
        } else {
            DEFAULT_WIDTH as nat
        },
        None => DEFAULT_WIDTH as nat,
    };
    if w > cols + 1 {
        w
    } else {
        cols + 1
    }
}

/// The width of one cell: the room left by the borders, shared by the
/// columns, at least one.
pub open spec fn cell_width_spec(cols: nat, max_width: Option<usize>) -> nat {
    let content = (requested_width(cols, max_width) - (cols + 1)) as nat;
    if content / cols > 1 {
        content / cols
    } else {
        1
    }
}

/// The width of the whole grid.
pub open spec fn grid_width_spec(cols: nat, max_width: Option<usize>) -> nat {
    cell_width_spec(cols, max_width) * cols + cols + 1
}

/// The dimensions of a preview.
#[derive(Clone, Copy, Debug, PartialEq, Eq)]
pub struct GridShape {
    pub columns: usize,
    pub rows: usize,
    pub cell_width: usize,
    pub width: usize,
}

impl GridShape {
    pub fn new(layout: Layout, max_width: Option<usize>) -> (r: Self)
        ensures
            r.columns == columns_of(layout),
            r.rows == columns_of(layout),
            r.cell_width == cell_width_spec(columns_of(layout), max_width),
            r.width == grid_width_spec(columns_of(layout), max_width),
    {
        let columns: usize = match layout {
            Layout::TwoByTwo => 2,
            Layout::ThreeByThree => 3,
        };
        let asked: usize = match max_width {
            Some(w) => if w > 0 {
                w
            } else {
                DEFAULT_WIDTH
            },
            None => DEFAULT_WIDTH,
        };
        let requested = if asked > columns + 1 {
            asked
        } else {
            columns + 1
        };
        let content = requested - (columns + 1);
        let share = content / columns;
        let cell_width = if share > 1 {
            share
        } else {
            1
        };
        proof {
            assert(cell_width * columns <= requested - (columns + 1) || cell_width == 1) by (nonlinear_arith)
                requires
                    cell_width == share || cell_width == 1,
                    share == content / columns,
                    columns > 0,
                    content == requested - (columns + 1),
            ;
        }
        let width = cell_width * columns + columns + 1;
        GridShape { columns, rows: columns, cell_width, width }
    }

    /// A border line: `+`, then for each column a run of `-` and a `+`.
    pub open spec fn border_spec(cols: nat, cell_width: nat) -> Seq<char>
        decreases cols,
    {
        if cols == 0 {
            seq!['+']
        } else {
            Self::border_spec((cols - 1) as nat, cell_width) + Seq::new(cell_width, |i: int| '-').push('+')
        }
    }

    pub fn border(self) -> (r: String)
        ensures
            r@ == Self::border_spec(self.columns as nat, self.cell_width as nat),
    {
        let mut out: Vec<char> = Vec::new();
        out.push('+');
        let mut c: usize = 0;
        while c < self.columns
            invariant
                c <= self.columns,
                out@ == Self::border_spec(c as nat, self.cell_width as nat),
            decreases self.columns - c,
        {
            let ghost before = out@;
            let mut k: usize = 0;
            while k < self.cell_width
                invariant
                    k <= self.cell_width,
                    out@ == before + Seq::new(k as nat, |i: int| '-'),
                decreases self.cell_width - k,
            {
                out.push('-');
                k = k + 1;
                assert(out@ =~= before + Seq::new(k as nat, |i: int| '-'));
            }
            out.push('+');
            c = c + 1;
            assert(out@ =~= Self::border_spec(c as nat, self.cell_width as nat));
        }
        string_of(&out)
    }
}

/// The focus marker of a slot.
pub open spec fn marker_spec(slot: nat, focus: usize) -> Seq<char> {
    if slot == focus {
        ">"@
    } else {
        " "@
    }
}

/// The four lines of a cell: the slot number, then for a terminal its workspace,
/// branch, identifier and status.
pub open spec fn cell_lines(live: Terminals, focus: usize, slot: nat) -> Seq<Seq<char>> {
    let head = marker_spec(slot, focus) + decimal(slot + 1) + ": "@;
    if slot < live.len() {
        let t = live[slot as int];
        seq![
            head + display_spec(workspace_label(t)),
            " "@ + display_spec(branch_label(t)),
            " "@ + uuid_hyphenated(t.terminal_id.value),
            " "@ + status_label_spec(t.status),
        ]
    } else {
        seq![head + "<empty>"@, Seq::empty(), Seq::empty(), Seq::empty()]
    }
}

/// A cell line cut and padded to the cell's width.
pub open spec fn fit_cell_spec(line: Seq<char>, width: nat) -> Seq<char> {
    let t = truncate_spec(line, width);
    t + Seq::new((width - t.len()) as nat, |i: int| ' ')
}

/// Line `k` of the cells of grid row `row`, the first `c` columns of it.
pub open spec fn row_cells(live: Terminals, focus: usize, cols: nat, cw: nat, row: nat, k: int, c: nat) -> Seq<char>
    decreases c,
{
    if c == 0 {
        Seq::empty()
    } else {
        row_cells(live, focus, cols, cw, row, k, (c - 1) as nat) + fit_cell_spec(
            cell_lines(live, focus, (row * cols + (c - 1)) as nat)[k],
            cw,
        ) + seq!['|']
    }
}

/// The lines of the first `k` cell lines of grid row `row`.
pub open spec fn row_lines(live: Terminals, focus: usize, cols: nat, cw: nat, row: nat, k: nat) -> Seq<char>
    decreases k,
{
    if k == 0 {
        Seq::empty()
    } else {
        row_lines(live, focus, cols, cw, row, (k - 1) as nat) + seq!['|'] + row_cells(
            live,
            focus,
            cols,
            cw,
            row,
            k - 1,
            cols,
        ) + seq!['\n']
    }
}

/// The first `rows` grid rows, each followed by a border.
pub open spec fn grid_rows(live: Terminals, focus: usize, cols: nat, cw: nat, rows: nat) -> Seq<char>
    decreases rows,
{
    if rows == 0 {
        Seq::empty()
    } else {
        grid_rows(live, focus, cols, cw, (rows - 1) as nat) + row_lines(
            live,
            focus,
            cols,
            cw,
            (rows - 1) as nat,
            CELL_LINES as nat,
        ) + GridShape::border_spec(cols, cw) + seq!['\n']
    }
}

/// The focus line: the layout and the focused slot's number.
pub open spec fn focus_line(layout: Layout, focus: usize) -> Seq<char> {
    "Layout: "@ + layout.spec_label() + " | Focus slot: "@ + decimal(
        if focus == usize::MAX {
            focus as nat
        } else {
            (focus + 1) as nat
        },
    )
}

/// The preview: title, focus line and grid, cut to the grid's width.
pub open spec fn grid_text(s: Terminals, layout: Layout, focus: usize, max_width: Option<usize>) -> Seq<char> {
    let cols = columns_of(layout);
    let cw = cell_width_spec(cols, max_width);
    let w = grid_width_spec(cols, max_width);
    truncate_spec("STP panel"@, w) + seq!['\n'] + truncate_spec(focus_line(layout, focus), w) + seq!['\n']
        + GridShape::border_spec(cols, cw) + seq!['\n'] + grid_rows(live_only(s), focus, cols, cw, cols)
}

/// A cell line cut and padded to `width`.
fn fit_cell(line: &str, width: usize) -> (r: String)
    ensures
        r@ == fit_cell_spec(line@, width as nat),
{
    let fitted = truncate_to_width(line, width);
    let mut out = chars_of(fitted.as_str());
    let pad = width - out.len();
    let ghost before = out@;
    let mut k: usize = 0;
    while k < pad
        invariant
            k <= pad,
            out@ == before + Seq::new(k as nat, |i: int| ' '),
        decreases pad - k,
    {
        out.push(' ');
        k = k + 1;
        assert(out@ =~= before + Seq::new(k as nat, |i: int| ' '));
    }
    string_of(&out)
}

fn cell_line(live: &Vec<ManagedTerminal>, focus: usize, slot: usize, k: usize) -> (r: String)
    requires
        k < CELL_LINES,
        slot < usize::MAX,
    ensures
        r@ == cell_lines(live@, focus, slot as nat)[k as int],
{
    let mut out: Vec<char> = Vec::new();
    if k == 0 {
        push_str(&mut out, if slot == focus {
            ">"
        } else {
            " "
        });
        push_str(&mut out, usize_text(slot + 1).as_str());
        push_str(&mut out, ": ");
    }
    if slot < live.len() {
        let t = &live[slot];
        if k == 0 {
            let name = match file_name(t.workspace_path.as_str()) {
                Some(n) => n,
                None => "<workspace>".to_owned(),
            };
            push_str(&mut out, display_text(name.as_str()).as_str());
        } else if k == 1 {
            push_str(&mut out, " ");
            let branch = match &t.branch_name {
                Some(b) => display_text(b.as_str()),
                None => display_text("non-git"),
            };
            push_str(&mut out, branch.as_str());
        } else if k == 2 {
            push_str(&mut out, " ");
            push_str(&mut out, t.terminal_id.to_string().as_str());
        } else {
            push_str(&mut out, " ");
            push_str(&mut out, status_label(t.status));
        }
    } else if k == 0 {
        push_str(&mut out, "<empty>");
    }
    proof {
        reveal_strlit("non-git");
        reveal_strlit("<workspace>");
        assert(out@ =~= cell_lines(live@, focus, slot as nat)[k as int]);
    }
    string_of(&out)
}

/// The preview of the grid, as `grid_text` says.
pub fn render(registry: &Registry, layout: Layout, focus: usize, max_width: Option<usize>) -> (r: String)
    ensures
        r@ == grid_text(registry.terminals@, layout, focus, max_width),
{
    let shape = GridShape::new(layout, max_width);
    let live = live_terminals(registry);
    let border = shape.border();
    let mut out: Vec<char> = Vec::new();
    push_str(&mut out, truncate_to_width("STP panel", shape.width).as_str());
    out.push('\n');
    let mut head: Vec<char> = Vec::new();
    push_str(&mut head, "Layout: ");
    push_str(&mut head, layout.label());
    push_str(&mut head, " | Focus slot: ");
    let shown = if focus == usize::MAX {
        focus
    } else {
        focus + 1
    };
    push_str(&mut head, usize_text(shown).as_str());
    push_str(&mut out, truncate_to_width(string_of(&head).as_str(), shape.width).as_str());
    out.push('\n');
    push_str(&mut out, border.as_str());
    out.push('\n');
    let ghost top = out@;
    let ghost cols = shape.columns as nat;
    let ghost cw = shape.cell_width as nat;
    let mut row: usize = 0;
    while row < shape.rows
        invariant
            shape.rows == shape.columns,
            shape.columns <= 3,
            row <= shape.rows,
            cols == shape.columns,
            cw == shape.cell_width,
            border@ == GridShape::border_spec(cols, cw),
            out@ == top + grid_rows(live@, focus, cols, cw, row as nat),
        decreases shape.rows - row,
    {
        let ghost before_row = out@;
        let mut k: usize = 0;
        while k < CELL_LINES
            invariant
                shape.columns <= 3,
                row < shape.rows,
                shape.rows == shape.columns,
                k <= CELL_LINES,
                cols == shape.columns,
                cw == shape.cell_width,
                out@ == before_row + row_lines(live@, focus, cols, cw, row as nat, k as nat),
            decreases CELL_LINES - k,
        {
            let ghost before_line = out@;
            out.push('|');
            let mut c: usize = 0;
            while c < shape.columns
                invariant
                    shape.columns <= 3,
                    row < shape.rows,
                    shape.rows == shape.columns,
                    c <= shape.columns,
                    k < CELL_LINES,
                    cols == shape.columns,
                    cw == shape.cell_width,
                    out@ == before_line + seq!['|'] + row_cells(live@, focus, cols, cw, row as nat, k as int, c as nat),
                decreases shape.columns - c,
            {
                let slot = row * shape.columns + c;
                let line = cell_line(&live, focus, slot, k);
                push_str(&mut out, fit_cell(line.as_str(), shape.cell_width).as_str());
                out.push('|');
                c = c + 1;
                assert(out@ =~= before_line + seq!['|'] + row_cells(live@, focus, cols, cw, row as nat, k as int, c as nat));
            }
            out.push('\n');
            k = k + 1;
            assert(out@ =~= before_row + row_lines(live@, focus, cols, cw, row as nat, k as nat));
        }
        push_str(&mut out, border.as_str());
        out.push('\n');
        row = row + 1;
        assert(out@ =~= top + grid_rows(live@, focus, cols, cw, row as nat));
    }
    string_of(&out)
}

} // verus!
