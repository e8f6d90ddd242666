//! The panel's slot state and its transitions, free of any broker or terminal.

use vstd::prelude::*;

use crate::ids::TerminalId;
use crate::text::{push_str, string_of};

verus! {

/// The content grid: two by two or three by three slots.
#[derive(Clone, Copy, Debug, PartialEq, Eq, Structural)]
pub enum GridKind {
    TwoByTwo,
    ThreeByThree,
}

impl GridKind {
    pub open spec fn spec_dims(self) -> (u16, u16) {
        match self {
            GridKind::TwoByTwo => (2u16, 2u16),
            GridKind::ThreeByThree => (3u16, 3u16),
        }
    }

    pub open spec fn spec_cells(self) -> nat {
        match self {
            GridKind::TwoByTwo => 4,
            GridKind::ThreeByThree => 9,
        }
    }

    pub open spec fn spec_toggled(self) -> GridKind {
        match self {
            GridKind::TwoByTwo => GridKind::ThreeByThree,
            GridKind::ThreeByThree => GridKind::TwoByTwo,
        }
    }

    /// Columns and rows of the grid.
    pub fn dims(self) -> (r: (u16, u16))
        ensures
            r == self.spec_dims(),
    {
        match self {
            GridKind::TwoByTwo => (2, 2),
            GridKind::ThreeByThree => (3, 3),
        }
    }

    /// Number of slots: columns times rows.
    pub fn cells(self) -> (r: usize)
        ensures
            r == self.spec_cells(),
            r == self.spec_dims().0 * self.spec_dims().1,
    {
        let (cols, rows) = self.dims();
        (cols as usize) * (rows as usize)
    }

    /// The other grid.
    pub fn toggled(self) -> (r: Self)
        ensures
            r == self.spec_toggled(),
            r != self,
    {
        match self {
            GridKind::TwoByTwo => GridKind::ThreeByThree,
            GridKind::ThreeByThree => GridKind::TwoByTwo,
        }
    }
}

/// One row of the session list.
#[derive(Clone, Debug, PartialEq, Eq)]
pub struct SessionEntry {
    pub id: TerminalId,
    pub workspace: String,
    pub branch: String,
}

impl SessionEntry {
    /// A copy of the entry.
    pub fn duplicate(&self) -> (r: Self)
        ensures
            r == *self,
    {
        SessionEntry { id: self.id, workspace: self.workspace.clone(), branch: self.branch.clone() }
    }
}

/// A slot being dragged by its title bar.
#[derive(Clone, Copy, Debug, PartialEq, Eq)]
pub struct Drag {
    pub from_slot: usize,
    pub cursor: (u16, u16),
}

/// What the panel shows: the session list, the grid, which terminal each slot
/// holds, the focused slot and a drag in progress.
#[derive(Debug)]
pub struct PanelState {
    pub sessions: Vec<SessionEntry>,
    pub grid: GridKind,
    pub slots: Vec<Option<TerminalId>>,
    pub focus: Option<usize>,
    pub drag: Option<Drag>,
}

pub type Slots = Seq<Option<TerminalId>>;

/// `k` is the first slot that holds `id`.
pub open spec fn is_first_slot_of(s: Slots, id: TerminalId, k: int) -> bool {
    &&& 0 <= k < s.len()
    &&& s[k] == Some(id)
    &&& forall|j: int| 0 <= j < k ==> s[j] != Some(id)
}

/// Some slot holds `id`.
pub open spec fn holds(s: Slots, id: TerminalId) -> bool {
    exists|k: int| 0 <= k < s.len() && s[k] == Some(id)
}

/// `k` is the first empty slot.
pub open spec fn is_first_empty(s: Slots, k: int) -> bool {
    &&& 0 <= k < s.len()
    &&& s[k] is None
    &&& forall|j: int| 0 <= j < k ==> s[j] is Some
}

pub open spec fn all_full(s: Slots) -> bool {
    forall|j: int| 0 <= j < s.len() ==> s[j] is Some
}

pub open spec fn all_empty(s: Slots) -> bool {
    forall|j: int| 0 <= j < s.len() ==> s[j] is None
}

/// `f` is the first occupied slot, or nothing when every slot is empty.
pub open spec fn is_first_occupied(s: Slots, f: Option<usize>) -> bool {
    match f {
        Some(k) => {
            &&& k < s.len()
            &&& s[k as int] is Some
            &&& forall|j: int| 0 <= j < k ==> s[j] is None
        },
        None => all_empty(s),
    }
}

/// The focus points at an occupied slot.
pub open spec fn focus_on_occupied(s: Slots, f: Option<usize>) -> bool {
    f matches Some(k) && k < s.len() && s[k as int] is Some
}

/// The focus after normalization: kept when it points at an occupied slot,
/// else the first occupied slot.
pub open spec fn normalized_focus(s: Slots, before: Option<usize>, after: Option<usize>) -> bool {
    if focus_on_occupied(s, before) {
        after == before
    } else {
        is_first_occupied(s, after)
    }
}

/// The terminals placed in the slots, in slot order.
pub open spec fn placed_ids(s: Slots) -> Seq<TerminalId>
    decreases s.len(),
{
    if s.len() == 0 {
        Seq::empty()
    } else {
        match s.last() {
            Some(id) => placed_ids(s.drop_last()).push(id),
            None => placed_ids(s.drop_last()),
        }
    }
}

/// Slots filled, in order, with the first `cells` of `placed`; the rest empty.
pub open spec fn packed_slots(placed: Seq<TerminalId>, cells: nat) -> Slots {
    Seq::new(cells, |i: int| if i < placed.len() { Some(placed[i]) } else { None })
}

/// The slots with every occurrence of `id` cleared.
pub open spec fn cleared(s: Slots, id: TerminalId) -> Slots {
    s.map_values(|o: Option<TerminalId>| if o == Some(id) { None } else { o })
}

/// The sessions without those of `id`.
pub open spec fn without_session(s: Seq<SessionEntry>, id: TerminalId) -> Seq<SessionEntry>
    decreases s.len(),
{
    if s.len() == 0 {
        s
    } else {
        let rest = without_session(s.drop_last(), id);
        if s.last().id != id {
            rest.push(s.last())
        } else {
            rest
        }
    }
}

proof fn lemma_without_session_push(s: Seq<SessionEntry>, e: SessionEntry, id: TerminalId)
    ensures
        without_session(s.push(e), id) == if e.id != id {
            without_session(s, id).push(e)
        } else {
            without_session(s, id)
        },
{
    assert(s.push(e).drop_last() =~= s);
}

/// Some session has `id`.
pub open spec fn has_session(s: Seq<SessionEntry>, id: TerminalId) -> bool {
    exists|k: int| 0 <= k < s.len() && s[k].id == id
}

/// `k` is the first session with `id`.
pub open spec fn is_first_session_of(s: Seq<SessionEntry>, id: TerminalId, k: int) -> bool {
    &&& 0 <= k < s.len()
    &&& s[k].id == id
    &&& forall|j: int| 0 <= j < k ==> s[j].id != id
}

/// The slots with slots `a` and `b` exchanged.
pub open spec fn swapped(s: Slots, a: int, b: int) -> Slots {
    s.update(a, s[b]).update(b, s[a])
}

proof fn lemma_placed_ids_push(s: Slots, o: Option<TerminalId>)
    ensures
        placed_ids(s.push(o)) == match o {
            Some(id) => placed_ids(s).push(id),
            None => placed_ids(s),
        },
{
    assert(s.push(o).drop_last() =~= s);
}

impl PanelState {
    /// The slot count matches the grid.
    pub open spec fn wf(&self) -> bool {
        self.slots@.len() == self.grid.spec_cells()
    }

    /// The terminal in the focused slot, if any.
    pub open spec fn spec_focused(&self) -> Option<TerminalId> {
        match self.focus {
            Some(k) => if k < self.slots@.len() {
                self.slots@[k as int]
            } else {
                None
            },
            None => None,
        }
    }

    /// An empty grid of the given kind, with no sessions, focus or drag.
    pub fn new(grid: GridKind) -> (r: Self)
        ensures
            r.wf(),
            r.sessions@.len() == 0,
            r.grid == grid,
            all_empty(r.slots@),
            r.focus is None,
            r.drag is None,
            r.spec_focused() is None,
    {
        let n = grid.cells();
        let mut slots: Vec<Option<TerminalId>> = Vec::new();
        let mut i: usize = 0;
        while i < n
            invariant
                i <= n,
                slots@.len() == i,
                all_empty(slots@),
            decreases n - i,
        {
            slots.push(None);
            i = i + 1;
        }
        PanelState { sessions: Vec::new(), grid, slots, focus: None, drag: None }
    }

    /// The terminal in the focused slot, if any.
    pub fn focused_terminal(&self) -> (r: Option<&TerminalId>)
        ensures
            match r {
                Some(id) => self.spec_focused() == Some(*id),
                None => self.spec_focused() is None,
            },
    {
        match self.focus {
            Some(k) => if k < self.slots.len() {
                match &self.slots[k] {
                    Some(id) => Some(id),
                    None => None,
                }
            } else {
                None
            },
            None => None,
        }
    }

    /// The first slot that holds `id`.
    fn slot_of(&self, id: &TerminalId) -> (r: Option<usize>)
        ensures
            match r {
                Some(k) => is_first_slot_of(self.slots@, *id, k as int),
                None => !holds(self.slots@, *id),
            },
    {
        let mut i: usize = 0;
        while i < self.slots.len()
            invariant
                i <= self.slots@.len(),
                forall|j: int| 0 <= j < i ==> self.slots@[j] != Some(*id),
            decreases self.slots.len() - i,
        {
            if self.slots[i] == Some(*id) {
                return Some(i);
            }
            i = i + 1;
        }
        None
    }

    /// The first empty slot.
    fn first_empty(&self) -> (r: Option<usize>)
        ensures
            match r {
                Some(k) => is_first_empty(self.slots@, k as int),
                None => all_full(self.slots@),
            },
    {
        let mut i: usize = 0;
        while i < self.slots.len()
            invariant
                i <= self.slots@.len(),
                forall|j: int| 0 <= j < i ==> self.slots@[j] is Some,
            decreases self.slots.len() - i,
        {
            if self.slots[i].is_none() {
                return Some(i);
            }
            i = i + 1;
        }
        None
    }

    /// The first occupied slot.
    fn first_occupied(&self) -> (r: Option<usize>)
        ensures
            is_first_occupied(self.slots@, r),
    {
        let mut i: usize = 0;
        while i < self.slots.len()
            invariant
                i <= self.slots@.len(),
                forall|j: int| 0 <= j < i ==> self.slots@[j] is None,
            decreases self.slots.len() - i,
        {
            if self.slots[i].is_some() {
                return Some(i);
            }
            i = i + 1;
        }
        None
    }
}

/// The sidebar label of a session: workspace and branch joined by `/`.
pub open spec fn entry_label(e: SessionEntry) -> Seq<char> {
    e.workspace@ + seq!['/'] + e.branch@
}

impl PanelState {
    /// The label of the session placed in `slot`, as `slot_label` gives it.
    pub open spec fn slot_label_spec(&self, slot: usize) -> Option<Seq<char>> {
        if slot >= self.slots@.len() {
            None
        } else {
            match self.slots@[slot as int] {
                None => None,
                Some(id) => if has_session(self.sessions@, id) {
                    Some(
                        entry_label(
                            self.sessions@[choose|k: int| is_first_session_of(self.sessions@, id, k)],
                        ),
                    )
                } else {
                    None
                },
            }
        }
    }

    /// The label of the session placed in `slot`: the first session entry with
    /// that terminal, as `workspace/branch`.
    pub fn slot_label(&self, slot: usize) -> (r: Option<String>)
        ensures
            match r {
                Some(l) => self.slot_label_spec(slot) == Some(l@),
                None => self.slot_label_spec(slot) is None,
            },
            slot >= self.slots@.len() ==> r is None,
            slot < self.slots@.len() ==> match self.slots@[slot as int] {
                None => r is None,
                Some(id) => if has_session(self.sessions@, id) {
                    exists|k: int|
                        is_first_session_of(self.sessions@, id, k) && (r matches Some(l) && l@
                            == entry_label(self.sessions@[k]))
                } else {
                    r is None
                },
            },
    {
        if slot >= self.slots.len() {
            return None;
        }
        let id = match self.slots[slot] {
            Some(id) => id,
            None => return None,
        };
        let mut i: usize = 0;
        while i < self.sessions.len()
            invariant
                i <= self.sessions@.len(),
                slot < self.slots@.len(),
                self.slots@[slot as int] == Some(id),
                forall|j: int| 0 <= j < i ==> self.sessions@[j].id != id,
            decreases self.sessions.len() - i,
        {
            if self.sessions[i].id == id {
                let mut out: Vec<char> = Vec::new();
                push_str(&mut out, self.sessions[i].workspace.as_str());
                out.push('/');
                push_str(&mut out, self.sessions[i].branch.as_str());
                let ghost e = self.sessions@[i as int];
                assert(is_first_session_of(self.sessions@, id, i as int));
                assert(out@ =~= entry_label(e));
                proof {
                    let k = choose|k: int| is_first_session_of(self.sessions@, id, k);
                    if k < i {
                        assert(self.sessions@[k].id == id);
                    } else if k > i {
                        assert(self.sessions@[i as int].id == id);
                    }
                    assert(k == i);
                }
                return Some(string_of(&out));
            }
            i = i + 1;
        }
        None
    }

    /// Selects session `session_index` from the list: focuses its slot when it is
    /// shown, else places it in the first empty slot, else replaces the last slot.
    /// Gives the slot that now shows it.
    pub fn place_session(&mut self, session_index: usize) -> (r: Option<usize>)
        ensures
            placed_after(*old(self), *final(self), session_index, r),
    {
        if session_index >= self.sessions.len() {
            return None;
        }
        let id = self.sessions[session_index].id;
        let slot = if let Some(slot) = self.slot_of(&id) {
            slot
        } else if let Some(empty) = self.first_empty() {
            self.slots.set(empty, Some(id));
            empty
        } else {
            if self.slots.len() == 0 {
                return None;
            }
            let last = self.slots.len() - 1;
            self.slots.set(last, Some(id));
            last
        };
        self.focus = Some(slot);
        Some(slot)
    }

    /// Adds a newly spawned session to the list (once per terminal) and places it
    /// in the first empty slot, focusing it. Gives that slot, or nothing when
    /// every slot is taken.
    pub fn add_session(&mut self, entry: SessionEntry) -> (r: Option<usize>)
        ensures
            old(self).wf() ==> final(self).wf(),
            has_session(final(self).sessions@, entry.id),
            final(self).sessions@ == if has_session(old(self).sessions@, entry.id) {
                old(self).sessions@
            } else {
                old(self).sessions@.push(entry)
            },
            final(self).grid == old(self).grid,
            final(self).drag == old(self).drag,
            all_full(old(self).slots@) ==> r is None && final(self).slots@ == old(self).slots@
                && final(self).focus == old(self).focus,
            !all_full(old(self).slots@) ==> (r matches Some(k) && is_first_empty(
                old(self).slots@,
                k as int,
            ) && final(self).slots@ == old(self).slots@.update(k as int, Some(entry.id))
                && final(self).focus == r),
    {
        let id = entry.id;
        let mut known = false;
        let mut i: usize = 0;
        while i < self.sessions.len()
            invariant
                i <= self.sessions@.len(),
                known == (exists|j: int| 0 <= j < i && self.sessions@[j].id == id),
            decreases self.sessions.len() - i,
        {
            if self.sessions[i].id == id {
                known = true;
            }
            i = i + 1;
        }
        if !known {
            self.sessions.push(entry);
            assert(self.sessions@[self.sessions@.len() - 1].id == id);
        }
        match self.first_empty() {
            None => None,
            Some(slot) => {
                self.slots.set(slot, Some(id));
                self.focus = Some(slot);
                Some(slot)
            },
        }
    }

    /// Drops a terminal that ended: its session entries and every slot that holds
    /// it; the focus moves to the first occupied slot when its slot emptied.
    pub fn remove_session(&mut self, id: &TerminalId)
        ensures
            removed_after(*old(self), *final(self), *id),
    {
        let ghost old_sessions = self.sessions@;
        let mut kept: Vec<SessionEntry> = Vec::new();
        let mut i: usize = 0;
        while i < self.sessions.len()
            invariant
                i <= self.sessions@.len(),
                self.sessions@ == old_sessions,
                self.slots@ == old(self).slots@,
                self.focus == old(self).focus,
                self.grid == old(self).grid,
                self.drag == old(self).drag,
                kept@ == without_session(old_sessions.take(i as int), *id),
            decreases self.sessions.len() - i,
        {
            let ghost before = kept@;
            if self.sessions[i].id != *id {
                kept.push(self.sessions[i].duplicate());
            }
            proof {
                lemma_without_session_push(old_sessions.take(i as int), old_sessions[i as int], *id);
                assert(old_sessions.take(i + 1) =~= old_sessions.take(i as int).push(
                    old_sessions[i as int],
                ));
            }
            i = i + 1;
        }
        assert(old_sessions.take(old_sessions.len() as int) =~= old_sessions);
        self.sessions = kept;
        let ghost old_slots = self.slots@;
        let mut k: usize = 0;
        while k < self.slots.len()
            invariant
                k <= self.slots@.len(),
                self.slots@.len() == old_slots.len(),
                self.sessions@ == without_session(old(self).sessions@, *id),
                self.focus == old(self).focus,
                self.grid == old(self).grid,
                self.drag == old(self).drag,
                forall|j: int| 0 <= j < k ==> self.slots@[j] == cleared(old_slots, *id)[j],
                forall|j: int| k <= j < old_slots.len() ==> self.slots@[j] == old_slots[j],
            decreases self.slots.len() - k,
        {
            if self.slots[k] == Some(*id) {
                self.slots.set(k, None);
            }
            k = k + 1;
        }
        assert(self.slots@ =~= cleared(old_slots, *id));
        self.normalize_focus();
    }

    /// Focuses `slot` when it holds a terminal.
    pub fn focus_slot(&mut self, slot: usize)
        ensures
            focused_after(*old(self), *final(self), slot),
    {
        if slot < self.slots.len() && self.slots[slot].is_some() {
            self.focus = Some(slot);
        }
    }

    /// Exchanges the contents of slots `a` and `b` (a drag and drop) and moves the
    /// focus to `b`; nothing happens when they are the same or out of range.
    pub fn swap_slots(&mut self, a: usize, b: usize)
        ensures
            swapped_after(*old(self), *final(self), a, b),
    {
        if a == b || a >= self.slots.len() || b >= self.slots.len() {
            return;
        }
        let at_a = self.slots[a];
        let at_b = self.slots[b];
        self.slots.set(a, at_b);
        self.slots.set(b, at_a);
        self.focus = Some(b);
    }

    /// Switches between the two grids. The placed terminals keep their slot order;
    /// those beyond the new slot count are unplaced (their sessions stay listed).
    /// The focused terminal stays focused when it is still placed.
    pub fn set_grid(&mut self, grid: GridKind)
        ensures
            grid_set_after(*old(self), *final(self), grid),
    {
        if grid == self.grid {
            return;
        }
        let focused_id = match self.focused_terminal() {
            Some(id) => Some(*id),
            None => None,
        };
        let ghost old_slots = self.slots@;
        let mut placed: Vec<TerminalId> = Vec::new();
        let mut i: usize = 0;
        while i < self.slots.len()
            invariant
                i <= self.slots@.len(),
                self.slots@ == old_slots,
                self.sessions@ == old(self).sessions@,
                self.focus == old(self).focus,
                self.grid == old(self).grid,
                self.drag == old(self).drag,
                placed@ == placed_ids(old_slots.take(i as int)),
            decreases self.slots.len() - i,
        {
            proof {
                lemma_placed_ids_push(old_slots.take(i as int), old_slots[i as int]);
                assert(old_slots.take(i + 1) =~= old_slots.take(i as int).push(old_slots[i as int]));
            }
            if let Some(id) = self.slots[i] {
                placed.push(id);
            }
            i = i + 1;
        }
        assert(old_slots.take(old_slots.len() as int) =~= old_slots);
        let n = grid.cells();
        let mut slots: Vec<Option<TerminalId>> = Vec::new();
        let mut k: usize = 0;
        while k < n
            invariant
                k <= n,
                n == grid.spec_cells(),
                slots@ =~= packed_slots(placed@, n as nat).take(k as int),
            decreases n - k,
        {
            if k < placed.len() {
                slots.push(Some(placed[k]));
            } else {
                slots.push(None);
            }
            k = k + 1;
        }
        assert(slots@ =~= packed_slots(placed_ids(old_slots), grid.spec_cells()));
        self.grid = grid;
        self.slots = slots;
        self.focus = match focused_id {
            Some(id) => self.slot_of(&id),
            None => None,
        };
        self.normalize_focus();
    }

    /// Keeps the focus when it points at an occupied slot, else moves it to the
    /// first occupied slot (or none).
    fn normalize_focus(&mut self)
        ensures
            normalized_focus(final(self).slots@, old(self).focus, final(self).focus),
            final(self).sessions@ == old(self).sessions@,
            final(self).slots@ == old(self).slots@,
            final(self).grid == old(self).grid,
            final(self).drag == old(self).drag,
    {
        let still_valid = match self.focus {
            Some(k) => k < self.slots.len() && self.slots[k].is_some(),
            None => false,
        };
        if !still_valid {
            self.focus = self.first_occupied();
        }
    }
}

/// Toggling the grid twice gives the grid back.
pub proof fn law_toggle_twice(g: GridKind)
    ensures
        g.spec_toggled().spec_toggled() == g,
        g.spec_toggled() != g,
{
}

/// Swapping the same two slots twice gives the slots back.
pub proof fn law_swap_twice(s: Slots, a: int, b: int)
    requires
        0 <= a < s.len(),
        0 <= b < s.len(),
    ensures
        swapped(swapped(s, a, b), a, b) == s,
        swapped(s, a, b).len() == s.len(),
{
    assert(swapped(swapped(s, a, b), a, b) =~= s);
}

/// After a terminal is removed, no slot holds it and no session lists it.
pub proof fn law_removed_terminal_is_gone(s: Slots, sessions: Seq<SessionEntry>, id: TerminalId)
    ensures
        !holds(cleared(s, id), id),
        !has_session(without_session(sessions, id), id),
        cleared(s, id).len() == s.len(),
    decreases sessions.len(),
{
    if sessions.len() > 0 {
        law_removed_terminal_is_gone(s, sessions.drop_last(), id);
        lemma_without_session_push(sessions.drop_last(), sessions.last(), id);
        assert(sessions.drop_last().push(sessions.last()) =~= sessions);
    }
}

/// A normalized focus is on an occupied slot, and it is absent only when every
/// slot is empty.
pub proof fn law_normalized_focus_is_valid(s: Slots, before: Option<usize>, after: Option<usize>)
    requires
        normalized_focus(s, before, after),
    ensures
        after is None <==> all_empty(s),
        after is Some ==> focus_on_occupied(s, after),
{
    if focus_on_occupied(s, before) {
        let k = before->0;
        assert(s[k as int] is Some);
    }
}

proof fn lemma_placed_ids_len(s: Slots)
    ensures
        placed_ids(s).len() <= s.len(),
    decreases s.len(),
{
    if s.len() > 0 {
        lemma_placed_ids_len(s.drop_last());
    }
}

/// Switching grids keeps the placed terminals in order: the new grid shows the
/// first of them, as many as it has slots; growing loses none.
pub proof fn law_set_grid_keeps_order(placed: Seq<TerminalId>, cells: nat)
    ensures
        placed_ids(packed_slots(placed, cells)) == placed.take(
            if placed.len() <= cells { placed.len() as int } else { cells as int },
        ),
        cells >= placed.len() ==> placed_ids(packed_slots(placed, cells)) == placed,
    decreases cells,
{
    if cells > 0 {
        law_set_grid_keeps_order(placed, (cells - 1) as nat);
        let p = packed_slots(placed, cells);
        assert(p.drop_last() =~= packed_slots(placed, (cells - 1) as nat));
        if cells <= placed.len() {
            assert(placed.take(cells as int) =~= placed.take(cells - 1).push(placed[cells - 1]));
        } else {
            assert(placed.take(placed.len() as int) =~= placed);
        }
    }
    assert(placed.take(placed.len() as int) =~= placed);
}

/// The placed terminals of a packed grid are exactly the packed ones, so placing
/// the placed terminals of any slots again changes nothing.
pub proof fn law_packing_is_stable(s: Slots, cells: nat)
    requires
        placed_ids(s).len() <= cells,
    ensures
        placed_ids(packed_slots(placed_ids(s), cells)) == placed_ids(s),
{
    law_set_grid_keeps_order(placed_ids(s), cells);
}

/// What `PanelState::place_session` leaves.
pub open spec fn placed_after(before: PanelState, after: PanelState, session_index: usize, r: Option<usize>) -> bool {
    &&& before.wf() ==> after.wf()
    &&& r matches Some(k) ==> k < after.slots@.len() && after.slots@[k as int]
            == Some(before.sessions@[session_index as int].id) && after.focus == r
    &&& session_index < before.sessions@.len() && before.slots@.len() > 0 ==> r is Some
    &&& after.sessions@ == before.sessions@
    &&& after.grid == before.grid
    &&& after.drag == before.drag
    &&& session_index >= before.sessions@.len() ==> r is None && after.slots@
            == before.slots@ && after.focus == before.focus
    &&& session_index < before.sessions@.len() ==> ({
            let id = before.sessions@[session_index as int].id;
            let s = before.slots@;
            if holds(s, id) {
                &&& r matches Some(k) && is_first_slot_of(s, id, k as int)
                &&& after.slots@ == s
                &&& after.focus == r
            } else if !all_full(s) {
                &&& r matches Some(k) && is_first_empty(s, k as int)
                &&& after.slots@ == s.update(r->0 as int, Some(id))
                &&& after.focus == r
            } else if s.len() == 0 {
                &&& r is None
                &&& after.slots@ == s
                &&& after.focus == before.focus
            } else {
                &&& r == Some((s.len() - 1) as usize)
                &&& after.slots@ == s.update(s.len() - 1, Some(id))
                &&& after.focus == r
            }
        })
}

/// What `PanelState::remove_session` leaves.
pub open spec fn removed_after(before: PanelState, after: PanelState, id: TerminalId) -> bool {
    &&& before.wf() ==> after.wf()
    &&& after.sessions@ == without_session(before.sessions@, id)
    &&& after.slots@ == cleared(before.slots@, id)
    &&& normalized_focus(after.slots@, before.focus, after.focus)
    &&& after.grid == before.grid
    &&& after.drag == before.drag
}

/// What `PanelState::focus_slot` leaves.
pub open spec fn focused_after(before: PanelState, after: PanelState, slot: usize) -> bool {
    &&& before.wf() ==> after.wf()
    &&& after.sessions@ == before.sessions@
    &&& after.slots@ == before.slots@
    &&& after.grid == before.grid
    &&& after.drag == before.drag
    &&& after.focus == if slot < before.slots@.len() && before.slots@[slot as int] is Some {
        Some(slot)
    } else {
        before.focus
    }
}

/// What `PanelState::swap_slots` leaves.
pub open spec fn swapped_after(before: PanelState, after: PanelState, a: usize, b: usize) -> bool {
    &&& before.wf() ==> after.wf()
    &&& after.sessions@ == before.sessions@
    &&& after.grid == before.grid
    &&& after.drag == before.drag
    &&& (a == b || a >= before.slots@.len() || b >= before.slots@.len()) ==> after.slots@ == before.slots@ && after.focus == before.focus
    &&& !(a == b || a >= before.slots@.len() || b >= before.slots@.len()) ==> after.slots@ == swapped(before.slots@, a as int, b as int) && after.focus == Some(b)
}

/// What `PanelState::set_grid` leaves.
pub open spec fn grid_set_after(before: PanelState, after: PanelState, grid: GridKind) -> bool {
    &&& before.wf() ==> after.wf()
    &&& grid != before.grid ==> after.wf()
    &&& after.sessions@ == before.sessions@
    &&& after.drag == before.drag
    &&& after.grid == grid
    &&& grid == before.grid ==> after.slots@ == before.slots@ && after.focus
            == before.focus
    &&& grid != before.grid ==> ({
            let new_slots = packed_slots(placed_ids(before.slots@), grid.spec_cells());
            &&& after.slots@ == new_slots
            &&& match before.spec_focused() {
                Some(id) => if holds(new_slots, id) {
                    after.focus matches Some(k) && is_first_slot_of(new_slots, id, k as int)
                } else {
                    is_first_occupied(new_slots, after.focus)
                },
                None => is_first_occupied(new_slots, after.focus),
            }
        })
}

} // verus!
