//! Zombie entries: live registry entries whose tmux session is known to be gone.
//!
//! What tmux reports is gathered by the caller, one listing per socket; the
//! decisions over those listings are made here.

use vstd::prelude::*;

use crate::decode::strings_view;
use crate::ids::TerminalId;
use crate::registry::model::{
    kept_by, with_status, without_stale, ManagedTerminal, Registry, TerminalStatus, Terminals,
};
use crate::registry::store::RegistryError;
use crate::text::text_eq;

verus! {

/// The sessions of one tmux socket: known when listing them worked (no server
/// at all means no sessions), unknown when listing failed otherwise.
#[derive(Clone, Debug)]
pub enum SocketSessions {
    Known(Vec<String>),
    Unknown,
}

/// A session is known missing when the socket's sessions are known and do not
/// include it.
pub open spec fn is_missing(s: SocketSessions, session: Seq<char>) -> bool {
    match s {
        SocketSessions::Known(v) => !strings_view(v@).contains(session),
        SocketSessions::Unknown => false,
    }
}

/// Whether `text` is among `v`.
pub fn contains_text(v: &Vec<String>, text: &str) -> (r: bool)
    ensures
        r == strings_view(v@).contains(text@),
{
    let mut i: usize = 0;
    while i < v.len()
        invariant
            i <= v@.len(),
            forall|j: int| 0 <= j < i ==> v@[j]@ != text@,
        decreases v.len() - i,
    {
        if text_eq(v[i].as_str(), text) {
            assert(strings_view(v@)[i as int] == text@);
            return true;
        }
        i = i + 1;
    }
    assert forall|j: int| 0 <= j < strings_view(v@).len() implies strings_view(v@)[j] != text@ by {
        assert(strings_view(v@)[j] == v@[j]@);
    }
    false
}

impl SocketSessions {
    /// The sessions of a socket from what listing them gave: the names, or
    /// nothing when listing failed, with `server_missing` telling whether it
    /// failed because no server runs on the socket.
    pub fn from_listing(listed: Option<Vec<String>>, server_missing: bool) -> (r: Self)
        ensures
            match listed {
                Some(v) => r == SocketSessions::Known(v),
                None => if server_missing {
                    r matches SocketSessions::Known(v) && v@.len() == 0
                } else {
                    r is Unknown
                },
            },
    {
        match listed {
            Some(v) => SocketSessions::Known(v),
            None => if server_missing {
                SocketSessions::Known(Vec::new())
            } else {
                SocketSessions::Unknown
            },
        }
    }

    /// Whether `session` is known to be missing.
    pub fn is_known_missing(&self, session: &str) -> (r: bool)
        ensures
            r == is_missing(*self, session@),
    {
        match self {
            SocketSessions::Known(v) => !contains_text(v, session),
            SocketSessions::Unknown => false,
        }
    }
}

/// The sessions listed for each socket.
#[derive(Clone, Debug)]
pub struct SessionLookup {
    pub sockets: Vec<(String, SocketSessions)>,
}

/// The listing of a socket: its first entry; unknown when it was not listed.
pub open spec fn sessions_on(l: Seq<(String, SocketSessions)>, socket: Seq<char>) -> SocketSessions
    decreases l.len(),
{
    if l.len() == 0 {
        SocketSessions::Unknown
    } else if l[0].0@ == socket {
        l[0].1
    } else {
        sessions_on(l.drop_first(), socket)
    }
}

/// A session on a socket is known missing.
pub open spec fn missing_on(l: Seq<(String, SocketSessions)>, socket: Seq<char>, session: Seq<char>) -> bool {
    is_missing(sessions_on(l, socket), session)
}

impl SessionLookup {
    /// Whether `session` is known missing on `socket`.
    pub fn is_known_missing(&self, socket: &str, session: &str) -> (r: bool)
        ensures
            r == missing_on(self.sockets@, socket@, session@),
    {
        let mut i: usize = 0;
        assert(self.sockets@.skip(0) =~= self.sockets@);
        while i < self.sockets.len()
            invariant
                i <= self.sockets@.len(),
                sessions_on(self.sockets@, socket@) == sessions_on(self.sockets@.skip(i as int), socket@),
            decreases self.sockets.len() - i,
        {
            assert(self.sockets@.skip(i as int).drop_first() =~= self.sockets@.skip(i + 1));
            if text_eq(self.sockets[i].0.as_str(), socket) {
                return self.sockets[i].1.is_known_missing(session);
            }
            i = i + 1;
        }
        false
    }
}

/// A live entry whose session is known missing.
pub open spec fn is_zombie(t: ManagedTerminal, l: Seq<(String, SocketSessions)>) -> bool {
    t.status == TerminalStatus::Live && missing_on(l, t.tmux_socket@, t.tmux_session@)
}

/// Whether a live entry's session is known missing from its socket's listing.
pub fn terminal_session_is_known_missing(terminal: &ManagedTerminal, sessions: &SocketSessions) -> (r: bool)
    ensures
        r == (terminal.status == TerminalStatus::Live && is_missing(*sessions, terminal.tmux_session@)),
{
    terminal.status == TerminalStatus::Live && sessions.is_known_missing(terminal.tmux_session.as_str())
}

/// The entries with every zombie marked stale.
pub open spec fn marked_stale(s: Terminals, l: Seq<(String, SocketSessions)>) -> Terminals {
    Seq::new(
        s.len(),
        |i: int|
            if is_zombie(s[i], l) {
                with_status(s[i], TerminalStatus::Stale)
            } else {
                s[i]
            },
    )
}

/// Marks every live entry whose session is known missing as stale; true when
/// some entry changed.
pub fn mark_missing_live_sessions_stale(registry: &mut Registry, lookup: &SessionLookup) -> (changed: bool)
    ensures
        final(registry).terminals@ == marked_stale(old(registry).terminals@, lookup.sockets@),
        changed == exists|i: int|
            0 <= i < old(registry).terminals@.len() && is_zombie(old(registry).terminals@[i], lookup.sockets@),
{
    let ghost s = registry.terminals@;
    let mut changed = false;
    let mut i: usize = 0;
    while i < registry.terminals.len()
        invariant
            registry.terminals@.len() == s.len(),
            i <= s.len(),
            forall|k: int|
                0 <= k < i ==> #[trigger] registry.terminals@[k] == marked_stale(s, lookup.sockets@)[k],
            forall|k: int| i <= k < s.len() ==> #[trigger] registry.terminals@[k] == s[k],
            changed == exists|k: int| 0 <= k < i && is_zombie(s[k], lookup.sockets@),
        decreases s.len() - i,
    {
        let zombie = registry.terminals[i].status == TerminalStatus::Live && lookup.is_known_missing(
            registry.terminals[i].tmux_socket.as_str(),
            registry.terminals[i].tmux_session.as_str(),
        );
        if zombie {
            registry.set_status(i, TerminalStatus::Stale);
            changed = true;
        }
        i = i + 1;
    }
    assert(registry.terminals@ =~= marked_stale(s, lookup.sockets@));
    changed
}

/// Drops every entry whose session is known missing, along with entries already
/// stale, and returns how many entries were dropped.
pub fn remove_zombie_sessions(registry: &mut Registry, lookup: &SessionLookup) -> (removed: usize)
    ensures
        final(registry).terminals@ == without_stale(marked_stale(old(registry).terminals@, lookup.sockets@)),
        removed == old(registry).terminals@.len() - final(registry).terminals@.len(),
{
    let before = registry.terminals.len();
    mark_missing_live_sessions_stale(registry, lookup);
    registry.remove_stale();
    before - registry.terminals.len()
}

/// What identifies a zombie entry across two readings of the registry.
#[derive(Clone, Debug, PartialEq, Eq)]
pub struct MissingLiveTerminal {
    pub terminal_id: TerminalId,
    pub tmux_socket: String,
    pub tmux_session: String,
}

pub type MissingKey = (TerminalId, Seq<char>, Seq<char>);

impl View for MissingLiveTerminal {
    type V = MissingKey;

    open spec fn view(&self) -> MissingKey {
        (self.terminal_id, self.tmux_socket@, self.tmux_session@)
    }
}

pub open spec fn key_of(t: ManagedTerminal) -> MissingKey {
    (t.terminal_id, t.tmux_socket@, t.tmux_session@)
}

impl MissingLiveTerminal {
    pub fn from_terminal(terminal: &ManagedTerminal) -> (r: Self)
        ensures
            r@ == key_of(*terminal),
    {
        MissingLiveTerminal {
            terminal_id: terminal.terminal_id,
            tmux_socket: terminal.tmux_socket.clone(),
            tmux_session: terminal.tmux_session.clone(),
        }
    }
}

/// The keys of the zombie entries, in order.
pub open spec fn zombie_keys(s: Terminals, l: Seq<(String, SocketSessions)>) -> Seq<MissingKey>
    decreases s.len(),
{
    if s.len() == 0 {
        Seq::empty()
    } else if is_zombie(s.last(), l) {
        zombie_keys(s.drop_last(), l).push(key_of(s.last()))
    } else {
        zombie_keys(s.drop_last(), l)
    }
}

pub open spec fn keys_view(v: Seq<MissingLiveTerminal>) -> Seq<MissingKey> {
    v.map_values(|m: MissingLiveTerminal| m@)
}

/// The entries whose sessions are known missing.
pub fn missing_live_terminals(registry: &Registry, lookup: &SessionLookup) -> (r: Vec<MissingLiveTerminal>)
    ensures
        keys_view(r@) == zombie_keys(registry.terminals@, lookup.sockets@),
{
    let ghost s = registry.terminals@;
    let mut out: Vec<MissingLiveTerminal> = Vec::new();
    let mut i: usize = 0;
    assert(keys_view(out@) =~= Seq::<MissingKey>::empty());
    while i < registry.terminals.len()
        invariant
            s == registry.terminals@,
            i <= s.len(),
            keys_view(out@) == zombie_keys(s.take(i as int), lookup.sockets@),
        decreases s.len() - i,
    {
        assert(s.take(i + 1).drop_last() =~= s.take(i as int));
        let t = &registry.terminals[i];
        if t.status == TerminalStatus::Live && lookup.is_known_missing(t.tmux_socket.as_str(), t.tmux_session.as_str()) {
            let m = MissingLiveTerminal::from_terminal(t);
            let ghost prev = keys_view(out@);
            out.push(m);
            assert(keys_view(out@) =~= prev.push(key_of(s[i as int])));
        }
        i = i + 1;
    }
    assert(s.take(i as int) =~= s);
    out
}

/// Whether `key` is among `v`.
pub fn contains_key(v: &Vec<MissingLiveTerminal>, key: &MissingLiveTerminal) -> (r: bool)
    ensures
        r == keys_view(v@).contains(key@),
{
    let mut i: usize = 0;
    while i < v.len()
        invariant
            i <= v@.len(),
            forall|j: int| 0 <= j < i ==> v@[j]@ != key@,
        decreases v.len() - i,
    {
        if v[i].terminal_id == key.terminal_id && text_eq(v[i].tmux_socket.as_str(), key.tmux_socket.as_str())
            && text_eq(v[i].tmux_session.as_str(), key.tmux_session.as_str()) {
            assert(keys_view(v@)[i as int] == key@);
            return true;
        }
        i = i + 1;
    }
    assert forall|j: int| 0 <= j < keys_view(v@).len() implies keys_view(v@)[j] != key@ by {
        assert(keys_view(v@)[j] == v@[j]@);
    }
    false
}

/// The flags of the entries to keep: all but the live ones listed in `missing`.
pub open spec fn keep_unlisted(s: Terminals, missing: Seq<MissingKey>) -> Seq<bool> {
    Seq::new(
        s.len(),
        |i: int| !(s[i].status == TerminalStatus::Live && missing.contains(key_of(s[i]))),
    )
}

/// Drops the live entries listed in `missing`, keeping the others in order, and
/// returns how many were dropped.
pub fn remove_missing_live_terminals(registry: &mut Registry, missing: &Vec<MissingLiveTerminal>) -> (removed: usize)
    ensures
        final(registry).terminals@ == kept_by(
            old(registry).terminals@,
            keep_unlisted(old(registry).terminals@, keys_view(missing@)),
        ),
        removed == old(registry).terminals@.len() - final(registry).terminals@.len(),
{
    let ghost s = registry.terminals@;
    let mut keep: Vec<bool> = Vec::new();
    let mut i: usize = 0;
    while i < registry.terminals.len()
        invariant
            s == registry.terminals@,
            i <= s.len(),
            keep@.len() == i,
            forall|k: int| 0 <= k < i ==> #[trigger] keep@[k] == keep_unlisted(s, keys_view(missing@))[k],
        decreases s.len() - i,
    {
        let t = &registry.terminals[i];
        let listed = t.status == TerminalStatus::Live && contains_key(missing, &MissingLiveTerminal::from_terminal(t));
        keep.push(!listed);
        i = i + 1;
    }
    assert(keep@ =~= keep_unlisted(s, keys_view(missing@)));
    registry.retain_flagged(&keep)
}

/// The keys of `a` that are also in `b`, in order.
pub open spec fn listed_in_both(a: Seq<MissingKey>, b: Seq<MissingKey>) -> Seq<MissingKey>
    decreases a.len(),
{
    if a.len() == 0 {
        a
    } else if b.contains(a.last()) {
        listed_in_both(a.drop_last(), b).push(a.last())
    } else {
        listed_in_both(a.drop_last(), b)
    }
}

proof fn lemma_contains_push(a: Seq<MissingKey>, x: MissingKey, k: MissingKey)
    ensures
        a.push(x).contains(k) <==> (a.contains(k) || x == k),
{
    if a.push(x).contains(k) {
        let j = choose|j: int| 0 <= j < a.len() + 1 && a.push(x)[j] == k;
        if j < a.len() {
            assert(a[j] == k);
        }
    }
    if a.contains(k) {
        let j = choose|j: int| 0 <= j < a.len() && a[j] == k;
        assert(a.push(x)[j] == k);
    }
    if x == k {
        assert(a.push(x)[a.len() as int] == k);
    }
}

proof fn lemma_listed_in_both(a: Seq<MissingKey>, b: Seq<MissingKey>, k: MissingKey)
    ensures
        listed_in_both(a, b).contains(k) <==> a.contains(k) && b.contains(k),
    decreases a.len(),
{
    if a.len() > 0 {
        let ad = a.drop_last();
        let x = a.last();
        lemma_listed_in_both(ad, b, k);
        assert(ad.push(x) =~= a);
        lemma_contains_push(ad, x, k);
        lemma_contains_push(listed_in_both(ad, b), x, k);
    }
}

/// On the latest reading of the registry, drops the live entries that were
/// zombies in an earlier reading (`initially`) and still are by `lookup`;
/// returns how many were dropped. An entry is dropped only when both readings
/// agree that its session is gone.
pub fn remove_confirmed_missing(
    latest: &mut Registry,
    initially: &Vec<MissingLiveTerminal>,
    lookup: &SessionLookup,
) -> (removed: usize)
    ensures
        final(latest).terminals@ == kept_by(
            old(latest).terminals@,
            Seq::new(
                old(latest).terminals@.len(),
                |i: int|
                    !(old(latest).terminals@[i].status == TerminalStatus::Live && keys_view(initially@).contains(
                        key_of(old(latest).terminals@[i]),
                    ) && zombie_keys(old(latest).terminals@, lookup.sockets@).contains(
                        key_of(old(latest).terminals@[i]),
                    )),
            ),
        ),
        removed == old(latest).terminals@.len() - final(latest).terminals@.len(),
{
    let ghost s = latest.terminals@;
    let still = missing_live_terminals(latest, lookup);
    let mut both: Vec<MissingLiveTerminal> = Vec::new();
    let mut i: usize = 0;
    assert(keys_view(both@) =~= Seq::<MissingKey>::empty());
    assert(keys_view(initially@).take(0) =~= Seq::<MissingKey>::empty());
    while i < initially.len()
        invariant
            i <= initially@.len(),
            keys_view(both@) == listed_in_both(keys_view(initially@).take(i as int), keys_view(still@)),
        decreases initially.len() - i,
    {
        let ghost prev = keys_view(both@);
        assert(keys_view(initially@).take(i + 1).drop_last() =~= keys_view(initially@).take(i as int));
        assert(keys_view(initially@).take(i + 1).last() == initially@[i as int]@);
        if contains_key(&still, &initially[i]) {
            let m = MissingLiveTerminal {
                terminal_id: initially[i].terminal_id,
                tmux_socket: initially[i].tmux_socket.clone(),
                tmux_session: initially[i].tmux_session.clone(),
            };
            both.push(m);
            assert(keys_view(both@) =~= prev.push(initially@[i as int]@));
        }
        i = i + 1;
    }
    assert(keys_view(initially@).take(i as int) =~= keys_view(initially@));
    let removed = remove_missing_live_terminals(latest, &both);
    proof {
        let flags = keep_unlisted(s, keys_view(both@));
        let want = Seq::new(
            s.len(),
            |k: int|
                !(s[k].status == TerminalStatus::Live && keys_view(initially@).contains(key_of(s[k]))
                    && zombie_keys(s, lookup.sockets@).contains(key_of(s[k]))),
        );
        assert forall|k: int| 0 <= k < s.len() implies flags[k] == want[k] by {
            lemma_listed_in_both(keys_view(initially@), keys_view(still@), key_of(s[k]));
        }
        assert(flags =~= want);
    }
    removed
}


/// Zombie cleanup leaves no zombie and no stale entry behind, and keeps every
/// entry that was neither (in particular every entry on a socket whose sessions
/// could not be listed).
pub proof fn law_cleanup_leaves_no_zombie(s: Terminals, l: Seq<(String, SocketSessions)>)
    ensures
        forall|i: int|
            0 <= i < without_stale(marked_stale(s, l)).len() ==> !is_zombie(
                #[trigger] without_stale(marked_stale(s, l))[i],
                l,
            ) && without_stale(marked_stale(s, l))[i].status != TerminalStatus::Stale,
        forall|i: int|
            0 <= i < s.len() && !is_zombie(#[trigger] s[i], l) && s[i].status != TerminalStatus::Stale
                ==> without_stale(marked_stale(s, l)).contains(s[i]),
{
    let m = marked_stale(s, l);
    let r = without_stale(m);
    crate::registry::model::lemma_without_stale_members(m);
    assert forall|i: int| 0 <= i < r.len() implies !is_zombie(#[trigger] r[i], l) && r[i].status
        != TerminalStatus::Stale by {
        assert(m.contains(r[i]));
        let k = choose|k: int| 0 <= k < m.len() && m[k] == r[i];
        if is_zombie(s[k], l) {
            assert(m[k].status == TerminalStatus::Stale);
        }
    }
    assert forall|i: int|
        0 <= i < s.len() && !is_zombie(#[trigger] s[i], l) && s[i].status != TerminalStatus::Stale implies r.contains(
        s[i],
    ) by {
        assert(m[i] == s[i]);
    }
}

// ---------------------------------------------------------------------------
// Loading the registry without zombies.
// ---------------------------------------------------------------------------

/// `sockets` are the sockets of the live entries, each once.
pub open spec fn lists_live_sockets(s: Terminals, sockets: Seq<Seq<char>>) -> bool {
    &&& forall|i: int|
        0 <= i < s.len() && s[i].status == TerminalStatus::Live ==> sockets.contains(
            #[trigger] s[i].tmux_socket@,
        )
    &&& forall|j: int| 0 <= j < sockets.len() ==> #[trigger] is_live_socket(s, sockets[j])
    &&& sockets.no_duplicates()
}

/// Some live entry uses socket `x`.
pub open spec fn is_live_socket(s: Terminals, x: Seq<char>) -> bool {
    exists|i: int| 0 <= i < s.len() && s[i].status == TerminalStatus::Live && #[trigger] s[i].tmux_socket@ == x
}

/// The sockets of the live entries, each once, in the order their first live
/// entry comes.
pub open spec fn live_sockets_spec(s: Terminals) -> Seq<Seq<char>>
    decreases s.len(),
{
    if s.len() == 0 {
        Seq::empty()
    } else {
        let rest = live_sockets_spec(s.drop_last());
        if s.last().status == TerminalStatus::Live && !rest.contains(s.last().tmux_socket@) {
            rest.push(s.last().tmux_socket@)
        } else {
            rest
        }
    }
}

/// The sockets listed are those of the live entries, each once.
pub proof fn lemma_live_sockets(s: Terminals)
    ensures
        lists_live_sockets(s, live_sockets_spec(s)),
    decreases s.len(),
{
    if s.len() > 0 {
        let d = s.drop_last();
        lemma_live_sockets(d);
        let rest = live_sockets_spec(d);
        let out = live_sockets_spec(s);
        assert forall|i: int| 0 <= i < s.len() && s[i].status == TerminalStatus::Live implies out.contains(
            #[trigger] s[i].tmux_socket@,
        ) by {
            if i < s.len() - 1 {
                assert(s[i] == d[i]);
                assert(rest.contains(d[i].tmux_socket@));
                let j = choose|j: int| 0 <= j < rest.len() && rest[j] == d[i].tmux_socket@;
                assert(out[j] == rest[j]);
            } else if !rest.contains(s.last().tmux_socket@) {
                assert(out[rest.len() as int] == s[i].tmux_socket@);
            }
        }
        assert forall|j: int| 0 <= j < out.len() implies #[trigger] is_live_socket(s, out[j]) by {
            if j < rest.len() {
                assert(out[j] == rest[j]);
                assert(is_live_socket(d, rest[j]));
                let i = choose|i: int|
                    0 <= i < d.len() && d[i].status == TerminalStatus::Live && #[trigger] d[i].tmux_socket@
                        == rest[j];
                assert(s[i] == d[i]);
                assert(s[i].tmux_socket@ == out[j]);
            } else {
                let last = s.len() - 1;
                assert(s[last].tmux_socket@ == out[j]);
            }
        }
        assert forall|a: int, b: int| 0 <= a < out.len() && 0 <= b < out.len() && a != b implies out[a]
            != out[b] by {
            if a < rest.len() && b < rest.len() {
                assert(out[a] == rest[a] && out[b] == rest[b]);
            } else if a < rest.len() {
                assert(out[a] == rest[a]);
                assert(rest.contains(rest[a]));
            } else if b < rest.len() {
                assert(out[b] == rest[b]);
                assert(rest.contains(rest[b]));
            }
        }
        assert(out.no_duplicates());
        assert(lists_live_sockets(s, out));
    } else {
        assert(live_sockets_spec(s) =~= Seq::<Seq<char>>::empty());
        assert(lists_live_sockets(s, live_sockets_spec(s)));
    }
}

/// The sockets whose sessions decide which live entries are zombies.
pub fn live_sockets(registry: &Registry) -> (r: Vec<String>)
    ensures
        strings_view(r@) == live_sockets_spec(registry.terminals@),
        lists_live_sockets(registry.terminals@, strings_view(r@)),
{
    let ghost s = registry.terminals@;
    let mut out: Vec<String> = Vec::new();
    let mut i: usize = 0;
    assert(strings_view(out@) =~= live_sockets_spec(s.take(0)));
    while i < registry.terminals.len()
        invariant
            s == registry.terminals@,
            i <= s.len(),
            strings_view(out@) == live_sockets_spec(s.take(i as int)),
        decreases s.len() - i,
    {
        let t = &registry.terminals[i];
        let ghost prev = strings_view(out@);
        assert(s.take(i + 1).drop_last() =~= s.take(i as int));
        if t.status == TerminalStatus::Live && !contains_text(&out, t.tmux_socket.as_str()) {
            out.push(t.tmux_socket.clone());
            assert(strings_view(out@) =~= prev.push(t.tmux_socket@));
        }
        i = i + 1;
    }
    assert(s.take(s.len() as int) =~= s);
    proof {
        lemma_live_sockets(s);
    }
    out
}

/// Where loading the registry without zombies stands.
#[derive(Debug)]
pub enum SweepState {
    /// The registry is being read.
    Start,
    /// The first reading is in; its sockets' sessions are being listed.
    FirstRead(Registry),
    /// The first reading had zombies; the registry is being read again.
    Rereading(Vec<MissingLiveTerminal>),
    /// The second reading is in; its sockets' sessions are being listed again.
    SecondRead(Vec<MissingLiveTerminal>, Registry),
    /// Confirmed zombies were dropped; this registry is being saved.
    Saving(Registry),
    /// Over.
    Finished,
}

/// What the outside world answered.
pub enum SweepEvent {
    /// The registry was read.
    Loaded(Result<Registry, RegistryError>),
    /// The sessions of the sockets asked for were listed.
    Listed(SessionLookup),
    /// The registry in `Saving` was written.
    Saved(Result<(), RegistryError>),
}

/// What to do next.
pub enum SweepAction {
    /// Read the registry.
    Load,
    /// List the sessions of these sockets.
    List(Vec<String>),
    /// Write the registry held by the `Saving` state.
    Save,
    /// The sweep's outcome.
    Finish(Result<Registry, RegistryError>),
    /// The event does not fit the state: nothing happens.
    Ignore,
}

/// A sweep begins by reading the registry.
pub fn sweep_start() -> (r: (SweepState, SweepAction))
    ensures
        r.0 is Start && r.1 is Load,
{
    (SweepState::Start, SweepAction::Load)
}

/// One step of loading the registry without zombie entries. A live entry is
/// dropped only when two readings of the registry, each with its own listing
/// of sessions, both find its session gone; the registry is saved only when
/// something was dropped. A failed read or write ends the sweep with its error;
/// a first reading without zombies is the outcome as it is.
pub fn load_without_zombie_sessions(state: SweepState, event: SweepEvent) -> (r: (SweepState, SweepAction))
    ensures
        match (state, event) {
            (SweepState::Start, SweepEvent::Loaded(Err(e))) => r.0 is Finished && r.1 == SweepAction::Finish(Err(e)),
            (SweepState::Start, SweepEvent::Loaded(Ok(reg))) => (r.0 matches SweepState::FirstRead(g)
                && g == reg) && (r.1 matches SweepAction::List(sockets) && lists_live_sockets(
                reg.terminals@,
                strings_view(sockets@),
            )),
            (SweepState::FirstRead(reg), SweepEvent::Listed(lookup)) => if zombie_keys(
                reg.terminals@,
                lookup.sockets@,
            ).len() == 0 {
                r.0 is Finished && r.1 == SweepAction::Finish(Ok(reg))
            } else {
                (r.0 matches SweepState::Rereading(m) && keys_view(m@) == zombie_keys(
                    reg.terminals@,
                    lookup.sockets@,
                )) && r.1 is Load
            },
            (SweepState::Rereading(m), SweepEvent::Loaded(Err(e))) => r.0 is Finished && r.1
                == SweepAction::Finish(Err(e)),
            (SweepState::Rereading(m), SweepEvent::Loaded(Ok(latest))) => (r.0 matches SweepState::SecondRead(
                m2,
                l2,
            ) && m2 == m && l2 == latest) && (r.1 matches SweepAction::List(sockets)
                && lists_live_sockets(latest.terminals@, strings_view(sockets@))),
            (SweepState::SecondRead(m, latest), SweepEvent::Listed(lookup)) => {
                let s = latest.terminals@;
                let kept = kept_by(
                    s,
                    Seq::new(
                        s.len(),
                        |i: int|
                            !(s[i].status == TerminalStatus::Live && keys_view(m@).contains(
                                key_of(s[i]),
                            ) && zombie_keys(s, lookup.sockets@).contains(key_of(s[i]))),
                    ),
                );
                if kept.len() < s.len() {
                    (r.0 matches SweepState::Saving(reg) && reg.terminals@ == kept) && r.1 is Save
                } else {
                    r.0 is Finished && (r.1 matches SweepAction::Finish(Ok(reg)) && reg.terminals@
                        == kept)
                }
            },
            (SweepState::Saving(reg), SweepEvent::Saved(Ok(()))) => r.0 is Finished && r.1
                == SweepAction::Finish(Ok(reg)),
            (SweepState::Saving(reg), SweepEvent::Saved(Err(e))) => r.0 is Finished && r.1
                == SweepAction::Finish(Err(e)),
            (st, _) => r.0 == st && r.1 is Ignore,
        },
{
    match (state, event) {
        (SweepState::Start, SweepEvent::Loaded(Err(e))) => (SweepState::Finished, SweepAction::Finish(Err(e))),
        (SweepState::Start, SweepEvent::Loaded(Ok(reg))) => {
            let sockets = live_sockets(&reg);
            (SweepState::FirstRead(reg), SweepAction::List(sockets))
        },
        (SweepState::FirstRead(reg), SweepEvent::Listed(lookup)) => {
            let missing = missing_live_terminals(&reg, &lookup);
            if missing.len() == 0 {
                (SweepState::Finished, SweepAction::Finish(Ok(reg)))
            } else {
                (SweepState::Rereading(missing), SweepAction::Load)
            }
        },
        (SweepState::Rereading(m), SweepEvent::Loaded(Err(e))) => (SweepState::Finished, SweepAction::Finish(Err(e))),
        (SweepState::Rereading(m), SweepEvent::Loaded(Ok(latest))) => {
            let sockets = live_sockets(&latest);
            (SweepState::SecondRead(m, latest), SweepAction::List(sockets))
        },
        (SweepState::SecondRead(m, latest), SweepEvent::Listed(lookup)) => {
            let mut latest = latest;
            let removed = remove_confirmed_missing(&mut latest, &m, &lookup);
            if removed > 0 {
                (SweepState::Saving(latest), SweepAction::Save)
            } else {
                (SweepState::Finished, SweepAction::Finish(Ok(latest)))
            }
        },
        (SweepState::Saving(reg), SweepEvent::Saved(Ok(()))) => (SweepState::Finished, SweepAction::Finish(Ok(reg))),
        (SweepState::Saving(reg), SweepEvent::Saved(Err(e))) => (SweepState::Finished, SweepAction::Finish(Err(e))),
        (st, _) => (st, SweepAction::Ignore),
    }
}

} // verus!
