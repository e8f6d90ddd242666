//! Geometry of the native panel: where the sidebar, its rows and buttons and
//! the grid's tiles lie, and which of them a mouse cell hits.

use vstd::prelude::*;

use crate::tui::state::{GridKind, PanelState};

verus! {

/// Columns taken by the session sidebar on the left.
pub const SIDEBAR_WIDTH: u16 = 30;

pub const HEADER_HEIGHT: u16 = 1;

pub const FOOTER_HEIGHT: u16 = 4;

/// Width of a row's "[x]" close button.
pub const CLOSE_WIDTH: u16 = 3;

pub const TILE_GAP: u16 = 1;

/// A rectangle of terminal cells, as the terminal backend measures it.
#[derive(Clone, Copy, Debug, PartialEq, Eq, Structural)]
pub struct Rect {
    pub x: u16,
    pub y: u16,
    pub width: u16,
    pub height: u16,
}

pub open spec fn min16(a: u16, b: u16) -> u16 {
    if a <= b {
        a
    } else {
        b
    }
}

/// A rectangle whose width and height are cut so that its right and bottom
/// edges stay within `u16`.
pub open spec fn rect(x: u16, y: u16, width: u16, height: u16) -> Rect {
    Rect {
        x,
        y,
        width: min16(width, (u16::MAX - x) as u16),
        height: min16(height, (u16::MAX - y) as u16),
    }
}

impl Rect {
    pub open spec fn spec_right(self) -> u16 {
        self.x.saturating_add(self.width)
    }

    pub open spec fn spec_bottom(self) -> u16 {
        self.y.saturating_add(self.height)
    }

    /// A rectangle at `(x, y)`; the size is cut to keep both edges within `u16`.
    pub fn new(x: u16, y: u16, width: u16, height: u16) -> (r: Rect)
        ensures
            r == rect(x, y, width, height),
    {
        let w = if width <= u16::MAX - x {
            width
        } else {
            u16::MAX - x
        };
        let h = if height <= u16::MAX - y {
            height
        } else {
            u16::MAX - y
        };
        Rect { x, y, width: w, height: h }
    }

    /// The first column right of the rectangle, saturated at `u16::MAX`.
    pub fn right(self) -> (r: u16)
        ensures
            r == self.spec_right(),
    {
        self.x.saturating_add(self.width)
    }

    /// The first row below the rectangle, saturated at `u16::MAX`.
    pub fn bottom(self) -> (r: u16)
        ensures
            r == self.spec_bottom(),
    {
        self.y.saturating_add(self.height)
    }
}

/// One pane tile: the whole cell block, its title bar (the drag handle) and
/// its body (the terminal).
#[derive(Clone, Copy, Debug, PartialEq, Eq, Structural)]
pub struct Tile {
    pub outer: Rect,
    pub title: Rect,
    pub body: Rect,
}

/// Every clickable region of the panel.
#[derive(Clone, Debug, PartialEq, Eq)]
pub struct Regions {
    pub sidebar: Rect,
    pub content: Rect,
    pub rows: Vec<Rect>,
    pub close_buttons: Vec<Rect>,
    pub new_button: Rect,
    pub grid_2x2: Rect,
    pub grid_3x3: Rect,
    pub count_line: Rect,
    pub hint_line: Rect,
    pub tiles: Vec<Tile>,
}

/// What a mouse cell hits.
#[derive(Clone, Copy, Debug, PartialEq, Eq, Structural)]
pub enum Hit {
    SessionRow(usize),
    CloseButton(usize),
    NewButton,
    Grid(GridKind),
    TileTitle(usize),
    TileBody(usize),
    Outside,
}

/// Columns and rows of the terminal behind a pane body; never zero.
pub open spec fn pty_dims(body: Rect) -> (u16, u16) {
    (if body.width == 0 {
        1
    } else {
        body.width
    }, if body.height == 0 {
        1
    } else {
        body.height
    })
}

/// Columns and rows of the terminal behind a pane body: its size, with a zero
/// side made one.
pub fn pty_size(body: Rect) -> (r: (u16, u16))
    ensures
        r == pty_dims(body),
{
    let cols = if body.width == 0 {
        1
    } else {
        body.width
    };
    let rows = if body.height == 0 {
        1
    } else {
        body.height
    };
    (cols, rows)
}

pub open spec fn contains_cell(rect: Rect, x: u16, y: u16) -> bool {
    x >= rect.x && x < rect.spec_right() && y >= rect.y && y < rect.spec_bottom()
}

fn contains(rect: Rect, x: u16, y: u16) -> (r: bool)
    ensures
        r == contains_cell(rect, x, y),
{
    x >= rect.x && x < rect.right() && y >= rect.y && y < rect.bottom()
}

pub open spec fn sidebar_width(area: Rect) -> u16 {
    min16(SIDEBAR_WIDTH, area.width)
}

pub open spec fn sidebar_of(area: Rect) -> Rect {
    rect(area.x, area.y, sidebar_width(area), area.height)
}

pub open spec fn content_of(area: Rect) -> Rect {
    rect(
        (area.x + sidebar_width(area)) as u16,
        area.y,
        area.width.saturating_sub(sidebar_width(area)),
        area.height,
    )
}

pub open spec fn footer_top_of(area: Rect) -> u16 {
    sidebar_of(area).spec_bottom().saturating_sub(FOOTER_HEIGHT)
}

pub open spec fn rows_top_of(area: Rect) -> u16 {
    (area.y + HEADER_HEIGHT) as u16
}

pub open spec fn inner_x_of(area: Rect) -> u16 {
    (area.x + 1) as u16
}

pub open spec fn inner_width_of(area: Rect) -> u16 {
    sidebar_of(area).width.saturating_sub(2)
}

/// How many session rows fit between the header and the footer.
pub open spec fn visible_rows(area: Rect, sessions: nat) -> nat {
    let room = footer_top_of(area).saturating_sub(rows_top_of(area));
    if sessions <= room {
        sessions
    } else {
        room as nat
    }
}

pub open spec fn row_rect(area: Rect, i: int) -> Rect {
    rect(inner_x_of(area), (rows_top_of(area) + i) as u16, inner_width_of(area), 1)
}

pub open spec fn close_rect(area: Rect, i: int) -> Rect {
    rect(
        row_rect(area, i).spec_right().saturating_sub(CLOSE_WIDTH),
        (rows_top_of(area) + i) as u16,
        CLOSE_WIDTH,
        1,
    )
}

pub open spec fn cell_width(content: Rect, grid: GridKind) -> u16 {
    let cols = grid.spec_dims().0;
    (content.width.saturating_sub((cols - 1) as u16) / cols) as u16
}

pub open spec fn cell_height(content: Rect, grid: GridKind) -> u16 {
    let rows = grid.spec_dims().1;
    (content.height.saturating_sub((rows - 1) as u16) / rows) as u16
}

/// The tile in grid row `row` and column `col`: cells are spread evenly with a
/// one-cell gap, and the last column and row take what is left over.
pub open spec fn tile_rc(content: Rect, grid: GridKind, row: int, col: int) -> Tile {
    let (cols, rows) = grid.spec_dims();
    let x = (content.x + col * (cell_width(content, grid) + TILE_GAP)) as u16;
    let y = (content.y + row * (cell_height(content, grid) + TILE_GAP)) as u16;
    let w = if col + 1 == cols {
        content.spec_right().saturating_sub(x)
    } else {
        cell_width(content, grid)
    };
    let h = if row + 1 == rows {
        content.spec_bottom().saturating_sub(y)
    } else {
        cell_height(content, grid)
    };
    let title_h = min16(1, h);
    Tile {
        outer: rect(x, y, w, h),
        title: rect(x, y, w, title_h),
        body: rect(x, (y + title_h) as u16, w, h.saturating_sub(1)),
    }
}

/// The tiles in row-major order; none when the content area is empty.
pub open spec fn tiles_of(content: Rect, grid: GridKind) -> Seq<Tile> {
    let cols = grid.spec_dims().0 as int;
    if content.width == 0 || content.height == 0 {
        Seq::empty()
    } else {
        Seq::new(grid.spec_cells(), |k: int| tile_rc(content, grid, k / cols, k % cols))
    }
}

/// The last tile's origin stays within `u16`.
pub open spec fn tiles_fit(content: Rect, grid: GridKind) -> bool {
    let (cols, rows) = grid.spec_dims();
    content.width == 0 || content.height == 0 || (content.x + (cols - 1) * (cell_width(
        content,
        grid,
    ) + TILE_GAP) <= u16::MAX && content.y + (rows - 1) * (cell_height(content, grid) + TILE_GAP)
        <= u16::MAX)
}

/// The area leaves room for the sidebar's header and footer buttons and for
/// every tile's origin within `u16` coordinates.
pub open spec fn layout_fits(area: Rect, grid: GridKind) -> bool {
    &&& area.x + 7 <= u16::MAX
    &&& area.x + sidebar_width(area) <= u16::MAX
    &&& area.y + HEADER_HEIGHT <= u16::MAX
    &&& tiles_fit(content_of(area), grid)
}

proof fn lemma_row_col(row: int, col: int, cols: int)
    requires
        0 <= row,
        0 <= col < cols,
    ensures
        (row * cols + col) / cols == row,
        (row * cols + col) % cols == col,
{
    vstd::arithmetic::div_mod::lemma_fundamental_div_mod_converse(row * cols + col, cols, row, col);
}

proof fn lemma_offset_bound(i: int, last: int, step: int)
    requires
        0 <= i <= last,
        0 <= step,
    ensures
        i * step <= last * step,
{
    vstd::arithmetic::mul::lemma_mul_inequality(i, last, step);
}

/// Every tile lies inside the content area, the last column and row reaching
/// its right and bottom edges, when the area is at least as large as the gaps
/// between tiles.
pub proof fn law_tiles_inside_content(content: Rect, grid: GridKind, k: int)
    requires
        content.x + content.width <= u16::MAX,
        content.y + content.height <= u16::MAX,
        content.width >= grid.spec_dims().0 - 1,
        content.height >= grid.spec_dims().1 - 1,
        tiles_fit(content, grid),
        0 <= k < tiles_of(content, grid).len(),
    ensures
        ({
            let t = tiles_of(content, grid)[k];
            &&& content.x <= t.outer.x
            &&& t.outer.spec_right() <= content.spec_right()
            &&& content.y <= t.outer.y
            &&& t.outer.spec_bottom() <= content.spec_bottom()
        }),
{
    let (cols, rows) = grid.spec_dims();
    let cw = cell_width(content, grid) as int;
    let ch = cell_height(content, grid) as int;
    let row = k / cols as int;
    let col = k % cols as int;
    assert(cols * cw <= content.width - (cols - 1)) by (nonlinear_arith)
        requires
            cw == (content.width - (cols - 1)) / (cols as int),
            cols > 0,
            content.width >= cols - 1,
    ;
    assert(rows * ch <= content.height - (rows - 1)) by (nonlinear_arith)
        requires
            ch == (content.height - (rows - 1)) / (rows as int),
            rows > 0,
            content.height >= rows - 1,
    ;
    assert(0 <= row < rows && 0 <= col < cols) by {
        match grid {
            GridKind::TwoByTwo => {},
            GridKind::ThreeByThree => {},
        }
    }
    assert(col * (cw + 1) + cw <= content.width) by (nonlinear_arith)
        requires
            0 <= col < cols,
            cols * cw <= content.width - (cols - 1),
            cw >= 0,
    ;
    assert(row * (ch + 1) + ch <= content.height) by (nonlinear_arith)
        requires
            0 <= row < rows,
            rows * ch <= content.height - (rows - 1),
            ch >= 0,
    ;
    assert(col * (cw + 1) >= 0 && row * (ch + 1) >= 0) by (nonlinear_arith)
        requires
            col >= 0,
            row >= 0,
            cw >= 0,
            ch >= 0,
    ;
}

fn tiles(content: Rect, grid: GridKind) -> (out: Vec<Tile>)
    requires
        tiles_fit(content, grid),
    ensures
        out@ == tiles_of(content, grid),
{
    let (cols, grid_rows) = grid.dims();
    let mut out: Vec<Tile> = Vec::new();
    if content.width == 0 || content.height == 0 {
        return out;
    }
    let tile_area_width = content.width.saturating_sub(cols - 1);
    let tile_area_height = content.height.saturating_sub(grid_rows - 1);
    let cell_w = tile_area_width / cols;
    let cell_h = tile_area_height / grid_rows;
    assert(cell_w == cell_width(content, grid));
    assert(cell_h == cell_height(content, grid));
    let ghost all = tiles_of(content, grid);
    let mut row: u16 = 0;
    while row < grid_rows
        invariant
            (cols, grid_rows) == grid.spec_dims(),
            cell_w == cell_width(content, grid),
            cell_h == cell_height(content, grid),
            tiles_fit(content, grid),
            content.width != 0 && content.height != 0,
            all == tiles_of(content, grid),
            row <= grid_rows,
            out@.len() == row * cols,
            forall|k: int| 0 <= k < out@.len() ==> out@[k] == all[k],
        decreases grid_rows - row,
    {
        let mut col: u16 = 0;
        while col < cols
            invariant
                (cols, grid_rows) == grid.spec_dims(),
                cell_w == cell_width(content, grid),
                cell_h == cell_height(content, grid),
                tiles_fit(content, grid),
                content.width != 0 && content.height != 0,
                all == tiles_of(content, grid),
                row < grid_rows,
                col <= cols,
                out@.len() == row * cols + col,
                forall|k: int| 0 <= k < out@.len() ==> out@[k] == all[k],
            decreases cols - col,
        {
            proof {
                lemma_offset_bound(col as int, cols - 1, cell_w + 1);
                lemma_offset_bound(row as int, grid_rows - 1, cell_h + 1);
                lemma_row_col(row as int, col as int, cols as int);
            }
            let x = content.x + col * (cell_w + TILE_GAP);
            let y = content.y + row * (cell_h + TILE_GAP);
            let w = if col + 1 == cols {
                content.right().saturating_sub(x)
            } else {
                cell_w
            };
            let h = if row + 1 == grid_rows {
                content.bottom().saturating_sub(y)
            } else {
                cell_h
            };
            let title_h = if h < 1 {
                h
            } else {
                1
            };
            proof {
                if row + 1 < grid_rows {
                    lemma_offset_bound(row + 1, grid_rows - 1, cell_h + 1);
                    assert((row + 1) * (cell_h + 1) == row * (cell_h + 1) + cell_h + 1)
                        by (nonlinear_arith);
                }
            }
            let outer = Rect::new(x, y, w, h);
            let title = Rect::new(x, y, w, title_h);
            let body = Rect::new(x, y + title_h, w, h.saturating_sub(1));
            let ghost k = row * cols + col;
            assert(Tile { outer, title, body } == all[k]);
            out.push(Tile { outer, title, body });
            proof {
                assert((row * cols + col + 1) == row * cols + (col + 1));
            }
            col = col + 1;
        }
        proof {
            assert(row * cols + cols == (row + 1) * cols) by (nonlinear_arith);
        }
        row = row + 1;
    }
    proof {
        assert(grid_rows * cols == grid.spec_cells());
    }
    out
}

/// Lays out the sidebar (session rows with close buttons, then the footer's
/// new button, grid switches, count and hint lines) and the grid's tiles.
pub fn compute(area: Rect, state: &PanelState) -> (r: Regions)
    requires
        layout_fits(area, state.grid),
    ensures
        r.sidebar == sidebar_of(area),
        r.content == content_of(area),
        r.rows@.len() == visible_rows(area, state.sessions@.len()),
        r.close_buttons@.len() == r.rows@.len(),
        forall|i: int|
            0 <= i < r.rows@.len() ==> r.rows@[i] == row_rect(area, i) && r.close_buttons@[i]
                == close_rect(area, i),
        r.new_button == rect(inner_x_of(area), footer_top_of(area), 5, 1),
        r.grid_2x2 == rect(inner_x_of(area), (footer_top_of(area) + 1) as u16, 5, 1),
        r.grid_3x3 == rect((inner_x_of(area) + 6) as u16, (footer_top_of(area) + 1) as u16, 5, 1),
        r.count_line == rect(inner_x_of(area), (footer_top_of(area) + 2) as u16, inner_width_of(area), 1),
        r.hint_line == rect(inner_x_of(area), (footer_top_of(area) + 3) as u16, inner_width_of(area), 1),
        r.tiles@ == tiles_of(content_of(area), state.grid),
{
    let sidebar_width = if SIDEBAR_WIDTH <= area.width {
        SIDEBAR_WIDTH
    } else {
        area.width
    };
    let sidebar = Rect::new(area.x, area.y, sidebar_width, area.height);
    let content = Rect::new(
        area.x + sidebar_width,
        area.y,
        area.width.saturating_sub(sidebar_width),
        area.height,
    );
    let footer_top = sidebar.bottom().saturating_sub(FOOTER_HEIGHT);
    let rows_top = sidebar.y + HEADER_HEIGHT;
    let rows_area_height = footer_top.saturating_sub(rows_top);
    let inner_x = sidebar.x + 1;
    let inner_width = sidebar.width.saturating_sub(2);
    let visible = if state.sessions.len() <= rows_area_height as usize {
        state.sessions.len()
    } else {
        rows_area_height as usize
    };
    let mut rows: Vec<Rect> = Vec::new();
    let mut close_buttons: Vec<Rect> = Vec::new();
    let mut index: usize = 0;
    while index < visible
        invariant
            visible <= rows_area_height,
            rows_area_height == footer_top.saturating_sub(rows_top),
            footer_top == footer_top_of(area),
            rows_top == rows_top_of(area),
            inner_x == inner_x_of(area),
            inner_width == inner_width_of(area),
            index <= visible,
            rows@.len() == index,
            close_buttons@.len() == index,
            forall|i: int|
                0 <= i < index ==> rows@[i] == row_rect(area, i) && close_buttons@[i]
                    == close_rect(area, i),
        decreases visible - index,
    {
        let y = rows_top + index as u16;
        let row = Rect::new(inner_x, y, inner_width, 1);
        rows.push(row);
        let close_x = row.right().saturating_sub(CLOSE_WIDTH);
        close_buttons.push(Rect::new(close_x, y, CLOSE_WIDTH, 1));
        index = index + 1;
    }
    let new_button = Rect::new(inner_x, footer_top, 5, 1);
    let grid_2x2 = Rect::new(inner_x, footer_top + 1, 5, 1);
    let grid_3x3 = Rect::new(inner_x + 6, footer_top + 1, 5, 1);
    let count_line = Rect::new(inner_x, footer_top + 2, inner_width, 1);
    let hint_line = Rect::new(inner_x, footer_top + 3, inner_width, 1);
    let tiles = tiles(content, state.grid);
    Regions {
        sidebar,
        content,
        rows,
        close_buttons,
        new_button,
        grid_2x2,
        grid_3x3,
        count_line,
        hint_line,
        tiles,
    }
}

pub open spec fn is_first_containing(rects: Seq<Rect>, x: u16, y: u16, i: int) -> bool {
    &&& 0 <= i < rects.len()
    &&& contains_cell(rects[i], x, y)
    &&& forall|j: int| 0 <= j < i ==> !contains_cell(#[trigger] rects[j], x, y)
}

pub open spec fn none_containing(rects: Seq<Rect>, x: u16, y: u16) -> bool {
    forall|j: int| 0 <= j < rects.len() ==> !contains_cell(#[trigger] rects[j], x, y)
}

pub open spec fn tile_touched(tile: Tile, x: u16, y: u16) -> bool {
    contains_cell(tile.title, x, y) || contains_cell(tile.body, x, y)
}

pub open spec fn is_first_tile(tiles: Seq<Tile>, x: u16, y: u16, i: int) -> bool {
    &&& 0 <= i < tiles.len()
    &&& tile_touched(tiles[i], x, y)
    &&& forall|j: int| 0 <= j < i ==> !tile_touched(#[trigger] tiles[j], x, y)
}

pub open spec fn no_tile(tiles: Seq<Tile>, x: u16, y: u16) -> bool {
    forall|j: int| 0 <= j < tiles.len() ==> !tile_touched(#[trigger] tiles[j], x, y)
}

impl Regions {
    /// No sidebar region (close button, row, new button, grid switch) holds the cell.
    pub open spec fn misses_sidebar(&self, x: u16, y: u16) -> bool {
        &&& none_containing(self.close_buttons@, x, y)
        &&& none_containing(self.rows@, x, y)
        &&& !contains_cell(self.new_button, x, y)
        &&& !contains_cell(self.grid_2x2, x, y)
        &&& !contains_cell(self.grid_3x3, x, y)
    }

    /// `h` is what the cell hits: close buttons first, then rows, the new
    /// button, the grid switches, and the tiles (title before body) in order.
    pub open spec fn hits(&self, x: u16, y: u16, h: Hit) -> bool {
        match h {
            Hit::CloseButton(i) => is_first_containing(self.close_buttons@, x, y, i as int),
            Hit::SessionRow(i) => none_containing(self.close_buttons@, x, y)
                && is_first_containing(self.rows@, x, y, i as int),
            Hit::NewButton => none_containing(self.close_buttons@, x, y) && none_containing(
                self.rows@,
                x,
                y,
            ) && contains_cell(self.new_button, x, y),
            Hit::Grid(g) => {
                &&& none_containing(self.close_buttons@, x, y)
                &&& none_containing(self.rows@, x, y)
                &&& !contains_cell(self.new_button, x, y)
                &&& match g {
                    GridKind::TwoByTwo => contains_cell(self.grid_2x2, x, y),
                    GridKind::ThreeByThree => !contains_cell(self.grid_2x2, x, y)
                        && contains_cell(self.grid_3x3, x, y),
                }
            },
            Hit::TileTitle(i) => self.misses_sidebar(x, y) && is_first_tile(
                self.tiles@,
                x,
                y,
                i as int,
            ) && contains_cell(self.tiles@[i as int].title, x, y),
            Hit::TileBody(i) => self.misses_sidebar(x, y) && is_first_tile(
                self.tiles@,
                x,
                y,
                i as int,
            ) && !contains_cell(self.tiles@[i as int].title, x, y),
            Hit::Outside => self.misses_sidebar(x, y) && no_tile(self.tiles@, x, y),
        }
    }

    /// What the cell `(x, y)` hits.
    pub fn hit(&self, x: u16, y: u16) -> (h: Hit)
        ensures
            self.hits(x, y, h),
    {
        let mut index: usize = 0;
        while index < self.close_buttons.len()
            invariant
                index <= self.close_buttons@.len(),
                forall|j: int| 0 <= j < index ==> !contains_cell(#[trigger] self.close_buttons@[j], x, y),
            decreases self.close_buttons@.len() - index,
        {
            if contains(self.close_buttons[index], x, y) {
                return Hit::CloseButton(index);
            }
            index = index + 1;
        }
        let mut index: usize = 0;
        while index < self.rows.len()
            invariant
                none_containing(self.close_buttons@, x, y),
                index <= self.rows@.len(),
                forall|j: int| 0 <= j < index ==> !contains_cell(#[trigger] self.rows@[j], x, y),
            decreases self.rows@.len() - index,
        {
            if contains(self.rows[index], x, y) {
                return Hit::SessionRow(index);
            }
            index = index + 1;
        }
        if contains(self.new_button, x, y) {
            return Hit::NewButton;
        }
        if contains(self.grid_2x2, x, y) {
            return Hit::Grid(GridKind::TwoByTwo);
        }
        if contains(self.grid_3x3, x, y) {
            return Hit::Grid(GridKind::ThreeByThree);
        }
        let mut index: usize = 0;
        while index < self.tiles.len()
            invariant
                self.misses_sidebar(x, y),
                index <= self.tiles@.len(),
                forall|j: int| 0 <= j < index ==> !tile_touched(#[trigger] self.tiles@[j], x, y),
            decreases self.tiles@.len() - index,
        {
            let tile = self.tiles[index];
            if contains(tile.title, x, y) {
                return Hit::TileTitle(index);
            }
            if contains(tile.body, x, y) {
                return Hit::TileBody(index);
            }
            index = index + 1;
        }
        Hit::Outside
    }
}

/// A cell hits exactly one thing.
pub proof fn law_hit_is_unique(regions: Regions, x: u16, y: u16, a: Hit, b: Hit)
    requires
        regions.hits(x, y, a),
        regions.hits(x, y, b),
    ensures
        a == b,
{
    match a {
        Hit::CloseButton(i) => {
            match b {
                Hit::CloseButton(j) => {
                    if i < j {
                        assert(contains_cell(regions.close_buttons@[i as int], x, y));
                    } else if j < i {
                        assert(contains_cell(regions.close_buttons@[j as int], x, y));
                    }
                },
                _ => {
                    assert(contains_cell(regions.close_buttons@[i as int], x, y));
                },
            }
        },
        Hit::SessionRow(i) => {
            match b {
                Hit::SessionRow(j) => {
                    if i < j {
                        assert(contains_cell(regions.rows@[i as int], x, y));
                    } else if j < i {
                        assert(contains_cell(regions.rows@[j as int], x, y));
                    }
                },
                Hit::CloseButton(j) => {
                    assert(contains_cell(regions.close_buttons@[j as int], x, y));
                },
                _ => {
                    assert(contains_cell(regions.rows@[i as int], x, y));
                },
            }
        },
        Hit::TileTitle(i) | Hit::TileBody(i) => {
            match b {
                Hit::CloseButton(j) => {
                    assert(contains_cell(regions.close_buttons@[j as int], x, y));
                },
                Hit::SessionRow(j) => {
                    assert(contains_cell(regions.rows@[j as int], x, y));
                },
                Hit::TileTitle(j) | Hit::TileBody(j) => {
                    if i < j {
                        assert(tile_touched(regions.tiles@[i as int], x, y));
                    } else if j < i {
                        assert(tile_touched(regions.tiles@[j as int], x, y));
                    }
                },
                Hit::Outside => {
                    assert(tile_touched(regions.tiles@[i as int], x, y));
                },
                _ => {},
            }
        },
        _ => {
            match b {
                Hit::CloseButton(j) => {
                    assert(contains_cell(regions.close_buttons@[j as int], x, y));
                },
                Hit::SessionRow(j) => {
                    assert(contains_cell(regions.rows@[j as int], x, y));
                },
                Hit::TileTitle(j) | Hit::TileBody(j) => {
                    assert(tile_touched(regions.tiles@[j as int], x, y));
                },
                _ => {},
            }
        },
    }
}

} // verus!
