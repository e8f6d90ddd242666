//! Managed terminals and the registry that lists them.

use vstd::prelude::*;

use super::backend::{
    default_tmux_window, legacy_fields, legacy_fields_of, Backend, SessionEndpoint, TerminalBackend,
};
use crate::ids::{TerminalId, WindowId, WorkspaceId};
use crate::workspace::WorkspaceMetadata;

verus! {

/// Where a managed terminal stands.
#[derive(Clone, Copy, Debug, PartialEq, Eq, Structural)]
pub enum TerminalStatus {
    Starting,
    Live,
    Detached,
    Stale,
    Exited,
}

impl Default for TerminalStatus {
    /// A terminal is live unless its entry says otherwise.
    fn default() -> (r: Self)
        ensures
            r == TerminalStatus::Live,
    {
        TerminalStatus::Live
    }
}

/// The kebab-case name under which a status is written.
pub open spec fn status_text(s: TerminalStatus) -> Seq<char> {
    match s {
        TerminalStatus::Starting => "starting"@,
        TerminalStatus::Live => "live"@,
        TerminalStatus::Detached => "detached"@,
        TerminalStatus::Stale => "stale"@,
        TerminalStatus::Exited => "exited"@,
    }
}

impl TerminalStatus {
    /// The kebab-case name under which the status is written.
    pub fn name(self) -> (r: &'static str)
        ensures
            r@ == status_text(self),
    {
        match self {
            TerminalStatus::Starting => "starting",
            TerminalStatus::Live => "live",
            TerminalStatus::Detached => "detached",
            TerminalStatus::Stale => "stale",
            TerminalStatus::Exited => "exited",
        }
    }
}

/// A terminal the panel manages: its identity, workspace, backend and status.
/// The `tmux_*` fields repeat what a legacy tmux backend names and are empty
/// for a PTY backend.
#[derive(Clone, Debug, PartialEq, Eq)]
pub struct ManagedTerminal {
    pub terminal_id: TerminalId,
    pub workspace_id: WorkspaceId,
    pub window_id: WindowId,
    pub workspace_path: String,
    pub repo_root: String,
    pub branch_name: Option<String>,
    pub backend: TerminalBackend,
    pub tmux_socket: String,
    pub tmux_session: String,
    pub tmux_window: String,
    pub created_at: u64,
    pub last_seen_at: u64,
    pub status: TerminalStatus,
}

/// The model of a managed terminal.
pub struct Terminal {
    pub terminal_id: TerminalId,
    pub workspace_id: Seq<char>,
    pub window_id: WindowId,
    pub workspace_path: Seq<char>,
    pub repo_root: Seq<char>,
    pub branch_name: Option<Seq<char>>,
    pub backend: Backend,
    pub tmux_socket: Seq<char>,
    pub tmux_session: Seq<char>,
    pub tmux_window: Seq<char>,
    pub created_at: u64,
    pub last_seen_at: u64,
    pub status: TerminalStatus,
}

impl View for ManagedTerminal {
    type V = Terminal;

    open spec fn view(&self) -> Terminal {
        Terminal {
            terminal_id: self.terminal_id,
            workspace_id: self.workspace_id.value@,
            window_id: self.window_id,
            workspace_path: self.workspace_path@,
            repo_root: self.repo_root@,
            branch_name: crate::decode::opt_str_view(self.branch_name),
            backend: self.backend@,
            tmux_socket: self.tmux_socket@,
            tmux_session: self.tmux_session@,
            tmux_window: self.tmux_window@,
            created_at: self.created_at,
            last_seen_at: self.last_seen_at,
            status: self.status,
        }
    }
}

/// A live PTY terminal without a socket to reach it.
pub open spec fn live_pty_without_endpoint(b: Backend, s: TerminalStatus) -> bool {
    &&& b matches Backend::Pty { socket_path } && socket_path.len() == 0
    &&& s == TerminalStatus::Live
}

/// A consistent entry: its `tmux_*` fields are those its backend names, and it is
/// not a live PTY terminal without a socket.
pub open spec fn terminal_wf(t: Terminal) -> bool {
    &&& (t.tmux_socket, t.tmux_session, t.tmux_window) == legacy_fields(t.backend)
    &&& !live_pty_without_endpoint(t.backend, t.status)
}

impl ManagedTerminal {
    /// A copy of the entry.
    pub fn duplicate(&self) -> (r: Self)
        ensures
            r == *self,
    {
        ManagedTerminal {
            terminal_id: self.terminal_id,
            workspace_id: WorkspaceId { value: self.workspace_id.value.clone() },
            window_id: self.window_id,
            workspace_path: self.workspace_path.clone(),
            repo_root: self.repo_root.clone(),
            branch_name: match &self.branch_name {
                Some(b) => Some(b.clone()),
                None => None,
            },
            backend: self.backend.duplicate(),
            tmux_socket: self.tmux_socket.clone(),
            tmux_session: self.tmux_session.clone(),
            tmux_window: self.tmux_window.clone(),
            created_at: self.created_at,
            last_seen_at: self.last_seen_at,
            status: self.status,
        }
    }

    /// A live entry for a terminal in a discovered workspace, reached through
    /// `backend`, created and last seen at `now` (seconds since the epoch).
    fn from_backend(
        terminal_id: TerminalId,
        window_id: WindowId,
        metadata: WorkspaceMetadata,
        backend: TerminalBackend,
        now: u64,
    ) -> (r: Self)
        ensures
            r.terminal_id == terminal_id,
            r.window_id == window_id,
            r.workspace_id == metadata.workspace_id,
            r.workspace_path == metadata.workspace_path,
            r.repo_root == metadata.repo_root,
            r.branch_name == metadata.branch_name,
            r.backend == backend,
            (r.tmux_socket@, r.tmux_session@, r.tmux_window@) == legacy_fields(backend@),
            r.created_at == now,
            r.last_seen_at == now,
            r.status == TerminalStatus::Live,
    {
        let (tmux_socket, tmux_session, tmux_window) = legacy_fields_of(&backend);
        ManagedTerminal {
            terminal_id,
            workspace_id: metadata.workspace_id,
            window_id,
            workspace_path: metadata.workspace_path,
            repo_root: metadata.repo_root,
            branch_name: metadata.branch_name,
            backend,
            tmux_socket,
            tmux_session,
            tmux_window,
            created_at: now,
            last_seen_at: now,
            status: TerminalStatus::Live,
        }
    }

    /// A live entry for a terminal kept in session `tmux_session` of the tmux
    /// server on socket `tmux_socket`, window `0`.
    pub fn new(
        terminal_id: TerminalId,
        window_id: WindowId,
        metadata: WorkspaceMetadata,
        tmux_socket: &str,
        tmux_session: &str,
        now: u64,
    ) -> (r: Self)
        ensures
            r.terminal_id == terminal_id,
            r.window_id == window_id,
            r.workspace_id == metadata.workspace_id,
            r.workspace_path == metadata.workspace_path,
            r.repo_root == metadata.repo_root,
            r.branch_name == metadata.branch_name,
            r.backend@ == (Backend::LegacyTmux {
                socket: tmux_socket@,
                session: tmux_session@,
                window: "0"@,
            }),
            r.tmux_socket@ == tmux_socket@,
            r.tmux_session@ == tmux_session@,
            r.tmux_window@ == "0"@,
            r.created_at == now,
            r.last_seen_at == now,
            r.status == TerminalStatus::Live,
            terminal_wf(r@),
    {
        let backend = TerminalBackend::legacy_tmux(
            tmux_socket.to_owned(),
            tmux_session.to_owned(),
            default_tmux_window(),
        );
        Self::from_backend(terminal_id, window_id, metadata, backend, now)
    }

    /// A live entry for a terminal kept by the broker behind `endpoint`. The
    /// entry is consistent when the endpoint names a socket.
    pub fn new_pty(
        terminal_id: TerminalId,
        window_id: WindowId,
        metadata: WorkspaceMetadata,
        endpoint: SessionEndpoint,
        now: u64,
    ) -> (r: Self)
        ensures
            r.terminal_id == terminal_id,
            r.window_id == window_id,
            r.workspace_id == metadata.workspace_id,
            r.workspace_path == metadata.workspace_path,
            r.repo_root == metadata.repo_root,
            r.branch_name == metadata.branch_name,
            r.backend == (TerminalBackend::Pty { endpoint }),
            r.tmux_socket@.len() == 0,
            r.tmux_session@.len() == 0,
            r.tmux_window@.len() == 0,
            r.created_at == now,
            r.last_seen_at == now,
            r.status == TerminalStatus::Live,
            endpoint.socket_path@.len() > 0 ==> terminal_wf(r@),
    {
        Self::from_backend(terminal_id, window_id, metadata, TerminalBackend::Pty { endpoint }, now)
    }
}

/// The model of a registry: its terminals' models, in order.
pub open spec fn terminals_view(s: Seq<ManagedTerminal>) -> Seq<Terminal> {
    s.map_values(|t: ManagedTerminal| t@)
}

/// The registry: every managed terminal, in registration order.
#[derive(Clone, Debug, PartialEq, Eq)]
pub struct Registry {
    pub terminals: Vec<ManagedTerminal>,
}

impl View for Registry {
    type V = Seq<Terminal>;

    open spec fn view(&self) -> Seq<Terminal> {
        terminals_view(self.terminals@)
    }
}

impl Default for Registry {
    /// The empty registry.
    fn default() -> (r: Self)
        ensures
            r.terminals@.len() == 0,
    {
        Registry { terminals: Vec::new() }
    }
}

pub type Terminals = Seq<ManagedTerminal>;

/// `k` is the first entry of terminal `id`.
pub open spec fn is_first_entry_of(s: Terminals, id: TerminalId, k: int) -> bool {
    &&& 0 <= k < s.len()
    &&& s[k].terminal_id == id
    &&& forall|j: int| 0 <= j < k ==> s[j].terminal_id != id
}

/// Some entry is of terminal `id`.
pub open spec fn has_entry(s: Terminals, id: TerminalId) -> bool {
    exists|k: int| 0 <= k < s.len() && s[k].terminal_id == id
}

/// The first entry of terminal `id`.
pub open spec fn first_entry_index(s: Terminals, id: TerminalId) -> int {
    choose|k: int| is_first_entry_of(s, id, k)
}

/// The entry of terminal `id`: its first one, if any.
pub open spec fn lookup(s: Terminals, id: TerminalId) -> Option<ManagedTerminal> {
    if has_entry(s, id) {
        Some(s[first_entry_index(s, id)])
    } else {
        None
    }
}

/// The entries after `t` was recorded: it replaces the first entry of its
/// terminal, in place, or is appended when there is none.
pub open spec fn upserted(s: Terminals, t: ManagedTerminal) -> Terminals {
    if has_entry(s, t.terminal_id) {
        s.update(first_entry_index(s, t.terminal_id), t)
    } else {
        s.push(t)
    }
}

/// The entries that are not stale, in order.
pub open spec fn without_stale(s: Terminals) -> Terminals
    decreases s.len(),
{
    if s.len() == 0 {
        s
    } else if s.last().status == TerminalStatus::Stale {
        without_stale(s.drop_last())
    } else {
        without_stale(s.drop_last()).push(s.last())
    }
}

/// How many entries are stale.
pub open spec fn stale_count(s: Terminals) -> nat
    decreases s.len(),
{
    if s.len() == 0 {
        0
    } else {
        stale_count(s.drop_last()) + if s.last().status == TerminalStatus::Stale {
            1nat
        } else {
            0nat
        }
    }
}

/// No two entries are of the same terminal.
pub open spec fn ids_unique(s: Terminals) -> bool {
    forall|i: int, j: int|
        0 <= i < s.len() && 0 <= j < s.len() && i != j ==> s[i].terminal_id != s[j].terminal_id
}

/// A first entry, once found, is the one `first_entry_index` names.
proof fn lemma_first_entry(s: Terminals, id: TerminalId, k: int)
    requires
        is_first_entry_of(s, id, k),
    ensures
        has_entry(s, id),
        first_entry_index(s, id) == k,
{
    let c = first_entry_index(s, id);
    assert(is_first_entry_of(s, id, c));
    if c < k {
        assert(s[c].terminal_id != id);
    } else if c > k {
        assert(s[k].terminal_id != id);
    }
}

/// When some entry is of `id`, a first one exists.
proof fn lemma_has_first_entry(s: Terminals, id: TerminalId)
    requires
        has_entry(s, id),
    ensures
        is_first_entry_of(s, id, first_entry_index(s, id)),
    decreases s.len(),
{
    let k = choose|k: int| 0 <= k < s.len() && s[k].terminal_id == id;
    if s[0].terminal_id == id {
        assert(is_first_entry_of(s, id, 0));
    } else {
        assert(s.drop_first()[k - 1].terminal_id == id);
        lemma_has_first_entry(s.drop_first(), id);
        let j = first_entry_index(s.drop_first(), id);
        assert forall|m: int| 0 <= m < j + 1 implies s[m].terminal_id != id by {
            if m > 0 {
                assert(s[m] == s.drop_first()[m - 1]);
            }
        }
        assert(s[j + 1] == s.drop_first()[j]);
        assert(is_first_entry_of(s, id, j + 1));
    }
}

impl Registry {
    /// The entry of terminal `terminal_id`: its first one, if any.
    pub fn terminal(&self, terminal_id: &TerminalId) -> (r: Option<&ManagedTerminal>)
        ensures
            match r {
                Some(t) => lookup(self.terminals@, *terminal_id) == Some(*t),
                None => lookup(self.terminals@, *terminal_id) is None,
            },
    {
        let mut i: usize = 0;
        while i < self.terminals.len()
            invariant
                i <= self.terminals@.len(),
                forall|j: int| 0 <= j < i ==> self.terminals@[j].terminal_id != *terminal_id,
            decreases self.terminals.len() - i,
        {
            if self.terminals[i].terminal_id == *terminal_id {
                proof {
                    lemma_first_entry(self.terminals@, *terminal_id, i as int);
                }
                return Some(&self.terminals[i]);
            }
            i = i + 1;
        }
        None
    }

    /// Records `terminal`: it replaces the first entry of its terminal in place,
    /// or is appended when there is none.
    pub fn upsert(&mut self, terminal: ManagedTerminal)
        ensures
            final(self).terminals@ == upserted(old(self).terminals@, terminal),
    {
        let mut i: usize = 0;
        while i < self.terminals.len()
            invariant
                i <= self.terminals@.len(),
                self.terminals@ == old(self).terminals@,
                forall|j: int| 0 <= j < i ==> self.terminals@[j].terminal_id != terminal.terminal_id,
            decreases self.terminals.len() - i,
        {
            if self.terminals[i].terminal_id == terminal.terminal_id {
                proof {
                    lemma_first_entry(self.terminals@, terminal.terminal_id, i as int);
                }
                self.terminals.set(i, terminal);
                return;
            }
            i = i + 1;
        }
        self.terminals.push(terminal);
    }

    /// Drops every stale entry, keeping the others in order, and returns how many
    /// were dropped.
    pub fn remove_stale(&mut self) -> (removed: usize)
        ensures
            final(self).terminals@ == without_stale(old(self).terminals@),
            removed == stale_count(old(self).terminals@),
            removed == old(self).terminals@.len() - final(self).terminals@.len(),
    {
        let ghost s = self.terminals@;
        let mut src: Vec<ManagedTerminal> = Vec::new();
        std::mem::swap(&mut src, &mut self.terminals);
        let n = src.len();
        let mut rev: Vec<ManagedTerminal> = Vec::new();
        while src.len() > 0
            invariant
                src@ == s.take(src@.len() as int),
                src@.len() + rev@.len() == s.len(),
                forall|k: int| 0 <= k < rev@.len() ==> #[trigger] rev@[k] == s[s.len() - 1 - k],
            decreases src@.len(),
        {
            let t = src.pop().unwrap();
            rev.push(t);
        }
        let mut kept: Vec<ManagedTerminal> = Vec::new();
        let mut j: usize = 0;
        assert(s.take(0) =~= Seq::<ManagedTerminal>::empty());
        while j < n
            invariant
                n == s.len(),
                j <= n,
                rev@.len() == n - j,
                forall|k: int| 0 <= k < rev@.len() ==> #[trigger] rev@[k] == s[s.len() - 1 - k],
                kept@ == without_stale(s.take(j as int)),
                kept@.len() + stale_count(s.take(j as int)) == j,
            decreases n - j,
        {
            let t = rev.pop().unwrap();
            assert(t == s[j as int]);
            assert(s.take(j + 1).drop_last() =~= s.take(j as int));
            if t.status != TerminalStatus::Stale {
                kept.push(t);
            }
            j = j + 1;
        }
        assert(s.take(n as int) =~= s);
        let removed = n - kept.len();
        self.terminals = kept;
        removed
    }
}


/// The entry with another status.
pub open spec fn with_status(t: ManagedTerminal, s: TerminalStatus) -> ManagedTerminal {
    ManagedTerminal { status: s, ..t }
}

/// The entries whose flag is set, in order.
pub open spec fn kept_by(s: Terminals, keep: Seq<bool>) -> Terminals
    decreases s.len(),
{
    if s.len() == 0 {
        s
    } else if keep[s.len() - 1] {
        kept_by(s.drop_last(), keep).push(s.last())
    } else {
        kept_by(s.drop_last(), keep)
    }
}

impl Registry {
    /// Sets the status of the entry at `index`.
    pub fn set_status(&mut self, index: usize, status: TerminalStatus)
        requires
            index < old(self).terminals@.len(),
        ensures
            final(self).terminals@ == old(self).terminals@.update(
                index as int,
                with_status(old(self).terminals@[index as int], status),
            ),
    {
        let mut t = self.terminals.remove(index);
        t.status = status;
        self.terminals.insert(index, t);
    }

    /// Keeps the entries whose flag is set, in order, and returns how many were
    /// dropped.
    pub fn retain_flagged(&mut self, keep: &Vec<bool>) -> (removed: usize)
        requires
            keep@.len() == old(self).terminals@.len(),
        ensures
            final(self).terminals@ == kept_by(old(self).terminals@, keep@),
            removed == old(self).terminals@.len() - final(self).terminals@.len(),
    {
        let ghost s = self.terminals@;
        let mut src: Vec<ManagedTerminal> = Vec::new();
        std::mem::swap(&mut src, &mut self.terminals);
        let n = src.len();
        let mut rev: Vec<ManagedTerminal> = Vec::new();
        while src.len() > 0
            invariant
                src@ == s.take(src@.len() as int),
                src@.len() + rev@.len() == s.len(),
                forall|k: int| 0 <= k < rev@.len() ==> #[trigger] rev@[k] == s[s.len() - 1 - k],
            decreases src@.len(),
        {
            let t = src.pop().unwrap();
            rev.push(t);
        }
        let mut kept: Vec<ManagedTerminal> = Vec::new();
        let mut j: usize = 0;
        while j < n
            invariant
                n == s.len(),
                keep@.len() == n,
                j <= n,
                rev@.len() == n - j,
                forall|k: int| 0 <= k < rev@.len() ==> #[trigger] rev@[k] == s[s.len() - 1 - k],
                kept@ == kept_by(s.take(j as int), keep@),
                kept@.len() <= j,
            decreases n - j,
        {
            let t = rev.pop().unwrap();
            assert(t == s[j as int]);
            assert(s.take(j + 1).drop_last() =~= s.take(j as int));
            if keep[j] {
                kept.push(t);
            }
            j = j + 1;
        }
        assert(s.take(n as int) =~= s);
        let removed = n - kept.len();
        self.terminals = kept;
        removed
    }
}

/// After an entry is recorded, looking up its terminal finds exactly it.
pub proof fn law_upsert_then_lookup(s: Terminals, t: ManagedTerminal)
    ensures
        lookup(upserted(s, t), t.terminal_id) == Some(t),
{
    let id = t.terminal_id;
    let u = upserted(s, t);
    if has_entry(s, id) {
        lemma_has_first_entry(s, id);
        let k = first_entry_index(s, id);
        lemma_first_entry(u, id, k);
    } else {
        assert forall|j: int| 0 <= j < s.len() implies u[j].terminal_id != id by {
            assert(u[j] == s[j]);
        }
        lemma_first_entry(u, id, s.len() as int);
    }
}

/// Recording an entry leaves the entries of every other terminal as they were.
pub proof fn law_upsert_keeps_other_entries(s: Terminals, t: ManagedTerminal, id: TerminalId)
    requires
        id != t.terminal_id,
    ensures
        lookup(upserted(s, t), id) == lookup(s, id),
{
    let u = upserted(s, t);
    if has_entry(s, t.terminal_id) {
        lemma_has_first_entry(s, t.terminal_id);
    }
    if has_entry(s, id) {
        lemma_has_first_entry(s, id);
        let k = first_entry_index(s, id);
        assert forall|j: int| 0 <= j < k implies u[j].terminal_id != id by {}
        lemma_first_entry(u, id, k);
    } else {
        assert forall|j: int| 0 <= j < u.len() implies u[j].terminal_id != id by {}
    }
}

/// Recording keeps terminals unique in the registry.
pub proof fn law_upsert_keeps_ids_unique(s: Terminals, t: ManagedTerminal)
    requires
        ids_unique(s),
    ensures
        ids_unique(upserted(s, t)),
{
    if has_entry(s, t.terminal_id) {
        lemma_has_first_entry(s, t.terminal_id);
    }
}

/// Recording the same entry twice is recording it once.
pub proof fn law_upsert_twice(s: Terminals, t: ManagedTerminal)
    ensures
        upserted(upserted(s, t), t) == upserted(s, t),
{
    let u = upserted(s, t);
    let id = t.terminal_id;
    if has_entry(s, id) {
        lemma_has_first_entry(s, id);
        let k = first_entry_index(s, id);
        lemma_first_entry(u, id, k);
        assert(u.update(k, t) =~= u);
    } else {
        assert forall|j: int| 0 <= j < s.len() implies u[j].terminal_id != id by {
            assert(u[j] == s[j]);
        }
        lemma_first_entry(u, id, s.len() as int);
        assert(u.update(s.len() as int, t) =~= u);
    }
}

/// Dropping stale entries keeps every other entry, and only those, in order.
pub proof fn lemma_without_stale_members(s: Terminals)
    ensures
        forall|i: int| 0 <= i < without_stale(s).len() ==> (#[trigger] without_stale(s)[i]).status != TerminalStatus::Stale,
        forall|i: int| 0 <= i < without_stale(s).len() ==> s.contains(#[trigger] without_stale(s)[i]),
        forall|i: int|
            0 <= i < s.len() && (#[trigger] s[i]).status != TerminalStatus::Stale ==> without_stale(s).contains(s[i]),
        without_stale(s).len() + stale_count(s) == s.len(),
    decreases s.len(),
{
    if s.len() > 0 {
        let p = s.drop_last();
        lemma_without_stale_members(p);
        let w = without_stale(s);
        let wp = without_stale(p);
        assert forall|i: int| 0 <= i < w.len() implies s.contains(#[trigger] w[i]) by {
            if i < wp.len() {
                assert(w[i] == wp[i]);
                let k = choose|k: int| 0 <= k < p.len() && p[k] == wp[i];
                assert(s[k] == p[k]);
            } else {
                assert(w[i] == s.last());
                assert(s[s.len() - 1] == s.last());
            }
        }
        assert forall|i: int| 0 <= i < s.len() && (#[trigger] s[i]).status != TerminalStatus::Stale implies w.contains(s[i]) by {
            if i < p.len() {
                assert(s[i] == p[i]);
                let k = choose|k: int| 0 <= k < wp.len() && wp[k] == p[i];
                assert(w[k] == wp[k]);
            } else {
                assert(w[w.len() - 1] == s[i]);
            }
        }
    }
}

/// After stale entries are dropped, none is left, and dropping again changes nothing.
pub proof fn law_remove_stale_leaves_none(s: Terminals)
    ensures
        forall|i: int| 0 <= i < without_stale(s).len() ==> (#[trigger] without_stale(s)[i]).status != TerminalStatus::Stale,
        without_stale(without_stale(s)) == without_stale(s),
        without_stale(s).len() + stale_count(s) == s.len(),
{
    lemma_without_stale_members(s);
    lemma_without_stale_idempotent(s);
}

proof fn lemma_without_stale_idempotent(s: Terminals)
    ensures
        without_stale(without_stale(s)) == without_stale(s),
    decreases s.len(),
{
    if s.len() > 0 {
        lemma_without_stale_idempotent(s.drop_last());
        let w = without_stale(s.drop_last());
        if s.last().status != TerminalStatus::Stale {
            assert(w.push(s.last()).drop_last() =~= w);
        }
    }
}

/// In a registry of unique terminals, dropping stale entries keeps the entry of
/// a terminal that is not stale and loses the entry of one that is.
pub proof fn law_remove_stale_lookup(s: Terminals, id: TerminalId)
    requires
        ids_unique(s),
    ensures
        lookup(without_stale(s), id) == match lookup(s, id) {
            Some(t) => if t.status != TerminalStatus::Stale {
                Some(t)
            } else {
                None::<ManagedTerminal>
            },
            None => None,
        },
{
    lemma_without_stale_members(s);
    let w = without_stale(s);
    if has_entry(s, id) {
        lemma_has_first_entry(s, id);
        let k = first_entry_index(s, id);
        let t = s[k];
        if t.status != TerminalStatus::Stale {
            assert(w.contains(s[k]));
            let m = choose|m: int| 0 <= m < w.len() && w[m] == s[k];
            assert(w[m].terminal_id == id);
            lemma_has_first_entry(w, id);
            let m0 = first_entry_index(w, id);
            assert(s.contains(w[m0]));
            let a = choose|a: int| 0 <= a < s.len() && s[a] == w[m0];
            assert(a == k);
        } else {
            assert forall|j: int| 0 <= j < w.len() implies w[j].terminal_id != id by {
                assert(s.contains(w[j]));
                let a = choose|a: int| 0 <= a < s.len() && s[a] == w[j];
                if w[j].terminal_id == id {
                    assert(a == k);
                }
            }
        }
    } else {
        assert forall|j: int| 0 <= j < w.len() implies w[j].terminal_id != id by {
            assert(s.contains(w[j]));
        }
    }
}

} // verus!
