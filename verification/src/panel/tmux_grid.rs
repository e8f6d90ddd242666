//! How the content grid is cut out of the first content pane.

use vstd::prelude::*;

use super::Layout;

verus! {

/// One split: cut pane `from` (an index into the panes made so far, the first
/// content pane being 0) to the right or below, giving the new pane `percent` of
/// it, and run slot `command_slot`'s command there. The new pane is appended.
#[derive(Clone, Copy, Debug, PartialEq, Eq)]
pub struct SplitStep {
    pub from: usize,
    pub right: bool,
    pub percent: u8,
    pub command_slot: usize,
}

pub open spec fn step(from: usize, right: bool, percent: u8, command_slot: usize) -> SplitStep {
    SplitStep { from, right, percent, command_slot }
}

/// The splits of each layout. They produce the panes in slot order: row by row,
/// left to right.
pub open spec fn plan_spec(layout: Layout) -> Seq<SplitStep> {
    match layout {
        Layout::TwoByTwo => seq![step(0, true, 50, 1), step(0, false, 50, 2), step(1, false, 50, 3)],
        Layout::ThreeByThree => seq![
            step(0, true, 67, 1),
            step(1, true, 50, 2),
            step(0, false, 67, 3),
            step(1, false, 67, 4),
            step(2, false, 67, 5),
            step(3, false, 50, 6),
            step(4, false, 50, 7),
            step(5, false, 50, 8),
        ],
    }
}

/// The splits of a layout. Each names a pane made before it, and slot `i + 1`'s
/// command goes to the pane made by split `i`, so the grid holds one pane per slot.
pub fn split_plan(layout: Layout) -> (r: Vec<SplitStep>)
    ensures
        r@ == plan_spec(layout),
        r@.len() + 1 == layout.spec_capacity(),
        forall|i: int| 0 <= i < r@.len() ==> (#[trigger] r@[i]).from <= i && r@[i].command_slot == i + 1,
{
    let mut v: Vec<SplitStep> = Vec::new();
    match layout {
        Layout::TwoByTwo => {
            v.push(SplitStep { from: 0, right: true, percent: 50, command_slot: 1 });
            v.push(SplitStep { from: 0, right: false, percent: 50, command_slot: 2 });
            v.push(SplitStep { from: 1, right: false, percent: 50, command_slot: 3 });
        },
        Layout::ThreeByThree => {
            v.push(SplitStep { from: 0, right: true, percent: 67, command_slot: 1 });
            v.push(SplitStep { from: 1, right: true, percent: 50, command_slot: 2 });
            v.push(SplitStep { from: 0, right: false, percent: 67, command_slot: 3 });
            v.push(SplitStep { from: 1, right: false, percent: 67, command_slot: 4 });
            v.push(SplitStep { from: 2, right: false, percent: 67, command_slot: 5 });
            v.push(SplitStep { from: 3, right: false, percent: 50, command_slot: 6 });
            v.push(SplitStep { from: 4, right: false, percent: 50, command_slot: 7 });
            v.push(SplitStep { from: 5, right: false, percent: 50, command_slot: 8 });
        },
    }
    assert(v@ =~= plan_spec(layout));
    v
}

/// The command of slot `index`, when there is one.
pub fn command_at(commands: &Vec<String>, index: usize) -> (r: Option<&String>)
    ensures
        index < commands@.len() ==> r == Some(&commands@[index as int]),
        index >= commands@.len() ==> r is None,
{
    if index < commands.len() {
        Some(&commands[index])
    } else {
        None
    }
}

} // verus!
