//! The decisions of the panel's main loop: the sidebar entry of a terminal, what
//! an action changes and which broker request it needs, which panes to resize,
//! and what a link event does.

use vstd::prelude::*;

use crate::ids::{uuid_hyphenated, TerminalId};
use crate::registry::model::{ManagedTerminal, Registry, TerminalStatus};
use crate::text::{file_name, file_name_spec, take_chars};
use crate::tui::input::{Action, Event};
use crate::tui::layout::{pty_dims, pty_size, Regions, Tile};
use crate::tui::link::LinkEvent;
use crate::tui::state::{
    focused_after,
    grid_set_after,
    placed_after,
    removed_after,
    swapped_after,
    Drag,
    PanelState,
    SessionEntry,
};

verus! {

// ---------------------------------------------------------------------------
// Sidebar entries.
// ---------------------------------------------------------------------------

/// The entry of a terminal the registry does not describe: the first eight
/// characters of its id, on branch "?".
pub fn fallback_entry(id: &TerminalId) -> (r: SessionEntry)
    ensures
        r.id == *id,
        r.workspace@ == uuid_hyphenated(id.value).take(8),
        r.branch@ == "?"@,
{
    let text = id.to_string();
    let workspace = take_chars(text.as_str(), 8);
    SessionEntry { id: *id, workspace, branch: "?".to_string() }
}

/// Entry `k` is the first one of terminal `id` that has not exited.
pub open spec fn is_first_shown(s: Seq<ManagedTerminal>, id: TerminalId, k: int) -> bool {
    &&& 0 <= k < s.len()
    &&& s[k].terminal_id == id && s[k].status != TerminalStatus::Exited
    &&& forall|j: int|
        0 <= j < k ==> !(#[trigger] s[j].terminal_id == id && s[j].status != TerminalStatus::Exited)
}

/// The sidebar labels of a registry entry: its workspace directory's name (or
/// "workspace") and its branch (or "non-git").
pub open spec fn entry_labels(t: ManagedTerminal) -> (Seq<char>, Seq<char>) {
    (
        match file_name_spec(t.workspace_path@) {
            Some(n) => n,
            None => "workspace"@,
        },
        match t.branch_name {
            Some(b) => b@,
            None => "non-git"@,
        },
    )
}

/// Some entry of terminal `id` has not exited.
pub open spec fn is_shown(s: Seq<ManagedTerminal>, id: TerminalId) -> bool {
    exists|k: int|
        0 <= k < s.len() && #[trigger] s[k].terminal_id == id && s[k].status != TerminalStatus::Exited
}

/// The labels of terminal `id` from the registry: those of its first entry that
/// has not exited, if any.
pub open spec fn registry_labels(s: Seq<ManagedTerminal>, id: TerminalId) -> Option<(Seq<char>, Seq<char>)> {
    if is_shown(s, id) {
        Some(entry_labels(s[choose|k: int| is_first_shown(s, id, k)]))
    } else {
        None
    }
}

/// The labels of terminal `id`: from the registry when it describes the
/// terminal, else the first eight characters of its id on branch "?".
pub open spec fn session_labels(registry: Option<Seq<ManagedTerminal>>, id: TerminalId) -> (Seq<char>, Seq<char>) {
    let fallback = (uuid_hyphenated(id.value).take(8), "?"@);
    match registry {
        Some(s) => match registry_labels(s, id) {
            Some(l) => l,
            None => fallback,
        },
        None => fallback,
    }
}

proof fn lemma_first_shown_unique(s: Seq<ManagedTerminal>, id: TerminalId, k: int)
    requires
        is_first_shown(s, id, k),
    ensures
        is_shown(s, id),
        (choose|j: int| is_first_shown(s, id, j)) == k,
{
    assert(s[k].terminal_id == id);
    let j = choose|j: int| is_first_shown(s, id, j);
    if j < k {
        assert(s[j].terminal_id == id && s[j].status != TerminalStatus::Exited);
    } else if j > k {
        assert(s[k].terminal_id == id && s[k].status != TerminalStatus::Exited);
    }
}

/// The sidebar entry of terminal `id` from the registry: from its first entry
/// that has not exited; none when it has no such entry.
pub fn entry_from_registry(registry: &Registry, id: &TerminalId) -> (r: Option<SessionEntry>)
    ensures
        match r {
            Some(e) => e.id == *id && registry_labels(registry.terminals@, *id) == Some((e.workspace@, e.branch@)),
            None => registry_labels(registry.terminals@, *id) is None,
        },
{
    let mut i: usize = 0;
    while i < registry.terminals.len()
        invariant
            i <= registry.terminals@.len(),
            forall|j: int|
                0 <= j < i ==> !(#[trigger] registry.terminals@[j].terminal_id == *id
                    && registry.terminals@[j].status != TerminalStatus::Exited),
        decreases registry.terminals@.len() - i,
    {
        let terminal = &registry.terminals[i];
        if terminal.terminal_id == *id && terminal.status != TerminalStatus::Exited {
            let workspace = match file_name(terminal.workspace_path.as_str()) {
                Some(name) => name,
                None => "workspace".to_string(),
            };
            let branch = match &terminal.branch_name {
                Some(b) => b.clone(),
                None => "non-git".to_string(),
            };
            proof {
                lemma_first_shown_unique(registry.terminals@, *id, i as int);
            }
            return Some(SessionEntry { id: *id, workspace, branch });
        }
        i = i + 1;
    }
    None
}

/// The sidebar entry of terminal `id`: from the registry when it describes the
/// terminal, else the fallback.
pub fn session_entry(registry: Option<&Registry>, id: &TerminalId) -> (r: SessionEntry)
    ensures
        r.id == *id,
        (r.workspace@, r.branch@) == session_labels(
            match registry {
                Some(reg) => Some(reg.terminals@),
                None => None,
            },
            *id,
        ),
{
    match registry {
        Some(reg) => match entry_from_registry(reg, id) {
            Some(e) => e,
            None => fallback_entry(id),
        },
        None => fallback_entry(id),
    }
}

/// The entries of the broker's sessions at start-up, in the broker's order.
pub fn seed_entries(ids: &Vec<TerminalId>, registry: Option<&Registry>) -> (r: Vec<SessionEntry>)
    ensures
        r@.len() == ids@.len(),
        forall|i: int|
            0 <= i < ids@.len() ==> (#[trigger] r@[i]).id == ids@[i] && (r@[i].workspace@, r@[i].branch@)
                == session_labels(
                match registry {
                    Some(reg) => Some(reg.terminals@),
                    None => None,
                },
                ids@[i],
            ),
{
    let mut out: Vec<SessionEntry> = Vec::new();
    let mut i: usize = 0;
    while i < ids.len()
        invariant
            i <= ids@.len(),
            out@.len() == i,
            forall|j: int|
                0 <= j < i ==> (#[trigger] out@[j]).id == ids@[j] && (out@[j].workspace@, out@[j].branch@)
                    == session_labels(
                    match registry {
                        Some(reg) => Some(reg.terminals@),
                        None => None,
                    },
                    ids@[j],
                ),
        decreases ids@.len() - i,
    {
        out.push(session_entry(registry, &ids[i]));
        i = i + 1;
    }
    out
}

// ---------------------------------------------------------------------------
// Actions.
// ---------------------------------------------------------------------------

/// The broker work an action leaves for the loop.
#[derive(Clone, Debug, PartialEq, Eq)]
pub enum Effect {
    /// Nothing more: draw the next frame.
    Continue,
    /// Leave the panel.
    Quit,
    /// Terminate the terminal's process.
    Terminate(TerminalId),
    /// Spawn a new terminal and add its session.
    Spawn,
    /// Send the bytes to the terminal.
    Input(TerminalId, Vec<u8>),
}

/// `after` is `before` with only its drag replaced.
pub open spec fn only_drag_changed(before: PanelState, after: PanelState, drag: Option<Drag>) -> bool {
    &&& after.sessions@ == before.sessions@
    &&& after.grid == before.grid
    &&& after.slots@ == before.slots@
    &&& after.focus == before.focus
    &&& after.drag == drag
}

pub open spec fn unchanged(before: PanelState, after: PanelState) -> bool {
    only_drag_changed(before, after, before.drag)
}

/// `before` with its drag dropped.
pub open spec fn without_drag(s: PanelState) -> PanelState {
    PanelState { sessions: s.sessions, grid: s.grid, slots: s.slots, focus: s.focus, drag: None }
}

/// Applies `action` to the panel state and gives the broker work it needs.
/// Quit and Spawn change nothing here; focus, placement, grid switches and
/// swaps are those of the state's methods; closing a listed session removes it
/// and terminates it; a drag starts at the last mouse cell, follows the cursor
/// and, ending over a slot, swaps the dragged slot there; key bytes go to the
/// focused terminal.
pub fn apply_action(action: Action, state: &mut PanelState, last_mouse: (u16, u16)) -> (r: Effect)
    ensures
        match action {
            Action::Quit => r == Effect::Quit && unchanged(*old(state), *final(state)),
            Action::Nothing => r == Effect::Continue && unchanged(*old(state), *final(state)),
            Action::FocusSlot(slot) => r == Effect::Continue && focused_after(
                *old(state),
                *final(state),
                slot,
            ),
            Action::PlaceSession(i) => r == Effect::Continue && exists|k: Option<usize>|
                placed_after(*old(state), *final(state), i, k),
            Action::CloseSession(i) => if i < old(state).sessions@.len() {
                let id = old(state).sessions@[i as int].id;
                r == Effect::Terminate(id) && removed_after(*old(state), *final(state), id)
            } else {
                r == Effect::Continue && unchanged(*old(state), *final(state))
            },
            Action::Spawn => r == Effect::Spawn && unchanged(*old(state), *final(state)),
            Action::SetGrid(g) => r == Effect::Continue && grid_set_after(
                *old(state),
                *final(state),
                g,
            ),
            Action::DragStart(slot) => r == Effect::Continue && only_drag_changed(
                *old(state),
                *final(state),
                Some(Drag { from_slot: slot, cursor: last_mouse }),
            ),
            Action::DragMove(x, y) => r == Effect::Continue && only_drag_changed(
                *old(state),
                *final(state),
                match old(state).drag {
                    Some(d) => Some(Drag { from_slot: d.from_slot, cursor: (x, y) }),
                    None => None,
                },
            ),
            Action::DragEnd(target) => r == Effect::Continue && match (old(state).drag, target) {
                (Some(d), Some(t)) => swapped_after(without_drag(*old(state)), *final(state), d.from_slot, t),
                _ => only_drag_changed(*old(state), *final(state), None),
            },
            Action::Key(bytes) => unchanged(*old(state), *final(state)) && match old(
                state,
            ).spec_focused() {
                Some(id) => r matches Effect::Input(t, b) && t == id && b@ == bytes@,
                None => r == Effect::Continue,
            },
        },
{
    match action {
        Action::Quit => Effect::Quit,
        Action::Nothing => Effect::Continue,
        Action::FocusSlot(slot) => {
            state.focus_slot(slot);
            Effect::Continue
        },
        Action::PlaceSession(index) => {
            state.place_session(index);
            Effect::Continue
        },
        Action::CloseSession(index) => {
            if index < state.sessions.len() {
                let id = state.sessions[index].id;
                state.remove_session(&id);
                Effect::Terminate(id)
            } else {
                Effect::Continue
            }
        },
        Action::Spawn => Effect::Spawn,
        Action::SetGrid(kind) => {
            state.set_grid(kind);
            Effect::Continue
        },
        Action::DragStart(slot) => {
            state.drag = Some(Drag { from_slot: slot, cursor: last_mouse });
            Effect::Continue
        },
        Action::DragMove(x, y) => {
            match state.drag {
                Some(d) => {
                    state.drag = Some(Drag { from_slot: d.from_slot, cursor: (x, y) });
                },
                None => {},
            }
            Effect::Continue
        },
        Action::DragEnd(target) => {
            let drag = state.drag;
            state.drag = None;
            match (drag, target) {
                (Some(d), Some(t)) => {
                    state.swap_slots(d.from_slot, t);
                },
                _ => {},
            }
            Effect::Continue
        },
        Action::Key(bytes) => match state.focused_terminal() {
            Some(id) => Effect::Input(*id, bytes),
            None => Effect::Continue,
        },
    }
}

/// The last mouse cell after `event`: a mouse event's cell, else unchanged.
pub fn pointer_after(event: &Event, last: (u16, u16)) -> (r: (u16, u16))
    ensures
        r == match event {
            Event::Mouse(m) => (m.column, m.row),
            _ => last,
        },
{
    match event {
        Event::Mouse(m) => (m.column, m.row),
        _ => last,
    }
}

// ---------------------------------------------------------------------------
// Pane sizes.
// ---------------------------------------------------------------------------

pub type SizeEntries = Seq<(TerminalId, (u16, u16))>;

/// The sizes recorded, the later entry of a terminal winning.
pub open spec fn size_map(s: SizeEntries) -> Map<TerminalId, (u16, u16)>
    decreases s.len(),
{
    if s.len() == 0 {
        Map::empty()
    } else {
        size_map(s.drop_last()).insert(s.last().0, s.last().1)
    }
}

/// The entries without those of terminal `id`.
pub open spec fn without_terminal(s: SizeEntries, id: TerminalId) -> SizeEntries
    decreases s.len(),
{
    if s.len() == 0 {
        s
    } else if s.last().0 == id {
        without_terminal(s.drop_last(), id)
    } else {
        without_terminal(s.drop_last(), id).push(s.last())
    }
}

proof fn lemma_size_map_last(s: SizeEntries, id: TerminalId, k: int)
    requires
        0 <= k < s.len(),
        s[k].0 == id,
        forall|j: int| k < j < s.len() ==> (#[trigger] s[j]).0 != id,
    ensures
        size_map(s).dom().contains(id),
        size_map(s)[id] == s[k].1,
    decreases s.len(),
{
    if k < s.len() - 1 {
        lemma_size_map_last(s.drop_last(), id, k);
    }
}

proof fn lemma_size_map_absent(s: SizeEntries, id: TerminalId)
    requires
        forall|j: int| 0 <= j < s.len() ==> (#[trigger] s[j]).0 != id,
    ensures
        !size_map(s).dom().contains(id),
    decreases s.len(),
{
    if s.len() > 0 {
        lemma_size_map_absent(s.drop_last(), id);
    }
}

proof fn lemma_without_terminal(s: SizeEntries, id: TerminalId)
    ensures
        size_map(without_terminal(s, id)) == size_map(s).remove(id),
    decreases s.len(),
{
    if s.len() > 0 {
        lemma_without_terminal(s.drop_last(), id);
        let rest = without_terminal(s.drop_last(), id);
        if s.last().0 != id {
            assert(rest.push(s.last()).drop_last() =~= rest);
        }
        assert(size_map(without_terminal(s, id)) =~= size_map(s).remove(id));
    } else {
        assert(size_map(s).remove(id) =~= size_map(s));
    }
}

/// The last size each terminal's pane was given.
#[derive(Debug)]
pub struct ResizeMemo {
    entries: Vec<(TerminalId, (u16, u16))>,
}

impl View for ResizeMemo {
    type V = Map<TerminalId, (u16, u16)>;

    closed spec fn view(&self) -> Map<TerminalId, (u16, u16)> {
        size_map(self.entries@)
    }
}

impl ResizeMemo {
    /// No size recorded.
    pub fn new() -> (r: Self)
        ensures
            r@ == Map::<TerminalId, (u16, u16)>::empty(),
    {
        ResizeMemo { entries: Vec::new() }
    }

    /// The size recorded for `id`.
    pub fn get(&self, id: &TerminalId) -> (r: Option<(u16, u16)>)
        ensures
            match r {
                Some(size) => self@.dom().contains(*id) && self@[*id] == size,
                None => !self@.dom().contains(*id),
            },
    {
        let mut i: usize = self.entries.len();
        while i > 0
            invariant
                i <= self.entries@.len(),
                forall|j: int| i <= j < self.entries@.len() ==> (#[trigger] self.entries@[j]).0 != *id,
            decreases i,
        {
            i = i - 1;
            if self.entries[i].0 == *id {
                proof {
                    lemma_size_map_last(self.entries@, *id, i as int);
                }
                return Some(self.entries[i].1);
            }
        }
        proof {
            lemma_size_map_absent(self.entries@, *id);
        }
        None
    }

    /// Forgets the size of `id`.
    pub fn forget(&mut self, id: &TerminalId)
        ensures
            final(self)@ == old(self)@.remove(*id),
    {
        let mut kept: Vec<(TerminalId, (u16, u16))> = Vec::new();
        let mut i: usize = 0;
        while i < self.entries.len()
            invariant
                i <= self.entries@.len(),
                self.entries@ == old(self).entries@,
                kept@ == without_terminal(self.entries@.take(i as int), *id),
            decreases self.entries@.len() - i,
        {
            let entry = self.entries[i];
            proof {
                assert(self.entries@.take(i + 1).drop_last() =~= self.entries@.take(i as int));
            }
            if entry.0 != *id {
                kept.push(entry);
            }
            i = i + 1;
        }
        proof {
            assert(self.entries@.take(self.entries@.len() as int) =~= self.entries@);
            lemma_without_terminal(self.entries@, *id);
        }
        self.entries = kept;
    }

    /// Records that `id`'s pane now has `size`.
    pub fn record(&mut self, id: TerminalId, size: (u16, u16))
        ensures
            final(self)@ == old(self)@.insert(id, size),
    {
        self.forget(&id);
        let ghost before = self.entries@;
        self.entries.push((id, size));
        proof {
            assert(self.entries@.drop_last() =~= before);
            assert(old(self)@.remove(id).insert(id, size) =~= old(self)@.insert(id, size));
        }
    }
}

/// Slot `k` shows a terminal whose pane was not yet given the size of the
/// tile's body.
pub open spec fn needs_resize(
    slots: Seq<Option<TerminalId>>,
    tiles: Seq<Tile>,
    sizes: Map<TerminalId, (u16, u16)>,
    k: int,
) -> bool {
    &&& 0 <= k < tiles.len() && k < slots.len()
    &&& slots[k] matches Some(id) && !(sizes.dom().contains(id) && sizes[id] == pty_dims(
        tiles[k].body,
    ))
}

/// The first slot from `from` on whose terminal needs resizing, with the
/// terminal and the size of its tile's body.
pub fn next_resize(state: &PanelState, regions: &Regions, memo: &ResizeMemo, from: usize) -> (r:
    Option<(usize, TerminalId, (u16, u16))>)
    ensures
        match r {
            Some((k, id, size)) => {
                &&& from <= k
                &&& needs_resize(state.slots@, regions.tiles@, memo@, k as int)
                &&& state.slots@[k as int] == Some(id)
                &&& size == pty_dims(regions.tiles@[k as int].body)
                &&& forall|j: int|
                    from <= j < k ==> !needs_resize(state.slots@, regions.tiles@, memo@, j)
            },
            None => forall|j: int|
                from <= j ==> !needs_resize(state.slots@, regions.tiles@, memo@, j),
        },
{
    let mut k: usize = from;
    while k < regions.tiles.len()
        invariant
            from <= k || k == from,
            forall|j: int| from <= j < k ==> !needs_resize(state.slots@, regions.tiles@, memo@, j),
        decreases regions.tiles@.len() - k,
    {
        if k < state.slots.len() {
            match state.slots[k] {
                Some(id) => {
                    let size = pty_size(regions.tiles[k].body);
                    let known = memo.get(&id);
                    let same = match known {
                        Some(s) => s.0 == size.0 && s.1 == size.1,
                        None => false,
                    };
                    if !same {
                        return Some((k, id, size));
                    }
                },
                None => {},
            }
        }
        k = k + 1;
    }
    None
}

/// Handles a link event: an exited terminal leaves the panel and its recorded
/// size is forgotten; a lost connection ends the panel (gives true); output and
/// snapshots change nothing here.
pub fn on_link_event(event: LinkEvent, state: &mut PanelState, memo: &mut ResizeMemo) -> (quit: bool)
    ensures
        quit == (event == LinkEvent::Disconnected),
        match event {
            LinkEvent::Exited(id) => removed_after(*old(state), *final(state), id) && final(memo)@
                == old(memo)@.remove(id),
            _ => unchanged(*old(state), *final(state)) && final(memo)@ == old(memo)@,
        },
{
    match event {
        LinkEvent::Exited(id) => {
            state.remove_session(&id);
            memo.forget(&id);
            false
        },
        LinkEvent::Disconnected => true,
        _ => false,
    }
}

} // verus!
