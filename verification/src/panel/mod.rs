//! The terminal panel built on tmux: a session list on the left and a grid of
//! terminal panes on the right. The functions here decide what the panes run
//! and show; running tmux is the caller's part.

pub mod bindings;
pub mod grid;
pub mod layout;
pub mod sidebar;
pub mod terminal_size;
pub mod tmux_grid;
pub mod tmux_panel;

use vstd::prelude::*;

use crate::registry::Registry;
use crate::text::{push_str, string_of, text_eq};

verus! {

/// The content grid of the panel.
#[derive(Clone, Copy, Debug, PartialEq, Eq, Structural)]
pub enum Layout {
    TwoByTwo,
    ThreeByThree,
}

impl Layout {
    /// `2x2` is the two-by-two grid; any other text is the three-by-three grid.
    pub fn parse(value: &str) -> (r: Self)
        ensures
            r == (if value@ == "2x2"@ {
                Layout::TwoByTwo
            } else {
                Layout::ThreeByThree
            }),
    {
        if text_eq(value, "2x2") {
            Layout::TwoByTwo
        } else {
            Layout::ThreeByThree
        }
    }

    pub open spec fn spec_label(self) -> Seq<char> {
        match self {
            Layout::TwoByTwo => "2x2"@,
            Layout::ThreeByThree => "3x3"@,
        }
    }

    pub fn label(self) -> (r: &'static str)
        ensures
            r@ == self.spec_label(),
    {
        match self {
            Layout::TwoByTwo => "2x2",
            Layout::ThreeByThree => "3x3",
        }
    }

    pub open spec fn spec_capacity(self) -> nat {
        match self {
            Layout::TwoByTwo => 4,
            Layout::ThreeByThree => 9,
        }
    }

    /// The number of content panes.
    pub fn capacity(self) -> (r: usize)
        ensures
            r == self.spec_capacity(),
    {
        match self {
            Layout::TwoByTwo => 4,
            Layout::ThreeByThree => 9,
        }
    }

    pub open spec fn spec_columns(self) -> nat {
        match self {
            Layout::TwoByTwo => 2,
            Layout::ThreeByThree => 3,
        }
    }
}

/// The text that `stp panel --once` prints: the session list, a hint, then a
/// preview of the grid with the first slot focused.
pub open spec fn render_once_spec(registry: Seq<crate::registry::ManagedTerminal>, layout: Layout) -> Seq<char> {
    sidebar::sidebar_text(registry) + "\n"@ + "Click a session in the panel to open it in a pane.\n"@
        + grid::grid_text(registry, layout, 0, None)
}

pub fn render_once(registry: &Registry, layout: Layout) -> (r: String)
    ensures
        r@ == render_once_spec(registry.terminals@, layout),
{
    let mut out: Vec<char> = Vec::new();
    push_str(&mut out, sidebar::text(registry).as_str());
    push_str(&mut out, "\n");
    push_str(&mut out, "Click a session in the panel to open it in a pane.\n");
    push_str(&mut out, grid::render(registry, layout, 0, None).as_str());
    string_of(&out)
}

} // verus!
