//! Which pane of the open panel shows a terminal: focusing the pane that already
//! shows it, or loading it into an empty slot or the rightmost content pane.

use vstd::prelude::*;

use super::sidebar::{terminal_command, terminal_command_spec, TITLE};
use crate::ids::uuid_hyphenated;
use crate::registry::model::ManagedTerminal;
use crate::text::{
    chars_of, has_prefix, parse_usize, parse_usize_spec, push_chars, push_str, string_of, strip_prefix_chars,
    take_chars, text_eq,
};

verus! {

/// The tmux session of the panel.
pub const PANEL_SESSION: &'static str = "stp-panel";

/// The window of the panel session.
pub const PANEL_WINDOW: &'static str = "panel";

/// The tmux lock that serialises connecting terminals to the panel.
pub const PANEL_CONNECT_LOCK: &'static str = "stp-panel-connect";

/// A pane of the panel: its tmux identifier and the key it shows (a terminal's
/// identifier, `empty:` and a slot number, or the session list's title).
#[derive(Clone, Debug, PartialEq, Eq)]
pub struct PaneInfo {
    pub pane_id: String,
    pub pane_key: String,
}

/// The title a pane with key `key` shows.
pub open spec fn pane_title_spec(key: Seq<char>) -> Seq<char> {
    if has_prefix(key, "empty:"@) {
        "slot "@ + key.skip(6) + " empty"@
    } else {
        "STP "@ + key.take(if key.len() < 8 { key.len() as int } else { 8 })
    }
}

pub fn pane_title_for_key(key: &str) -> (r: String)
    ensures
        r@ == pane_title_spec(key@),
{
    proof {
        reveal_strlit("empty:");
    }
    let cs = chars_of(key);
    let mut out: Vec<char> = Vec::new();
    match strip_prefix_chars(&cs, "empty:") {
        Some(slot) => {
            push_str(&mut out, "slot ");
            push_chars(&mut out, &slot);
            push_str(&mut out, " empty");
        },
        None => {
            push_str(&mut out, "STP ");
            push_str(&mut out, take_chars(key, 8).as_str());
        },
    }
    string_of(&out)
}

/// The slot number of an empty slot's key.
pub open spec fn empty_slot_spec(key: Seq<char>) -> Option<usize> {
    if has_prefix(key, "empty:"@) {
        parse_usize_spec(key.skip(6))
    } else {
        None
    }
}

pub fn empty_slot_number(key: &str) -> (r: Option<usize>)
    ensures
        r == empty_slot_spec(key@),
{
    proof {
        reveal_strlit("empty:");
    }
    let cs = chars_of(key);
    match strip_prefix_chars(&cs, "empty:") {
        Some(slot) => parse_usize(&slot),
        None => None,
    }
}

/// `k` is the empty slot with the smallest number, the first of equals.
pub open spec fn is_first_empty_pane(panes: Seq<PaneInfo>, k: int) -> bool {
    &&& 0 <= k < panes.len()
    &&& empty_slot_spec(panes[k].pane_key@) is Some
    &&& forall|j: int|
        0 <= j < panes.len() && (#[trigger] empty_slot_spec(panes[j].pane_key@)) is Some ==> empty_slot_spec(
            panes[k].pane_key@,
        )->0 <= empty_slot_spec(panes[j].pane_key@)->0 && (j < k ==> empty_slot_spec(
            panes[k].pane_key@,
        )->0 < empty_slot_spec(panes[j].pane_key@)->0)
}

/// The empty slot with the smallest number, the first of equals.
pub fn first_empty_pane(panes: &Vec<PaneInfo>) -> (r: Option<usize>)
    ensures
        match r {
            Some(k) => is_first_empty_pane(panes@, k as int),
            None => forall|j: int| 0 <= j < panes@.len() ==> (#[trigger] empty_slot_spec(panes@[j].pane_key@)) is None,
        },
{
    let mut best: Option<(usize, usize)> = None;
    let mut i: usize = 0;
    while i < panes.len()
        invariant
            i <= panes@.len(),
            match best {
                Some((k, m)) => k < i && empty_slot_spec(panes@[k as int].pane_key@) == Some(m) && forall|j: int|
                    0 <= j < i && (#[trigger] empty_slot_spec(panes@[j].pane_key@)) is Some ==> m
                        <= empty_slot_spec(panes@[j].pane_key@)->0 && (j < k ==> m < empty_slot_spec(
                        panes@[j].pane_key@,
                    )->0),
                None => forall|j: int| 0 <= j < i ==> (#[trigger] empty_slot_spec(panes@[j].pane_key@)) is None,
            },
        decreases panes.len() - i,
    {
        match empty_slot_number(panes[i].pane_key.as_str()) {
            Some(slot) => {
                match best {
                    Some((_, m)) => {
                        if slot < m {
                            best = Some((i, slot));
                        }
                    },
                    None => {
                        best = Some((i, slot));
                    },
                }
            },
            None => {},
        }
        i = i + 1;
    }
    match best {
        Some((k, _)) => Some(k),
        None => None,
    }
}

/// `k` is the first pane showing `key`.
pub open spec fn is_first_keyed(panes: Seq<PaneInfo>, key: Seq<char>, k: int) -> bool {
    &&& 0 <= k < panes.len()
    &&& panes[k].pane_key@ == key
    &&& forall|j: int| 0 <= j < k ==> panes[j].pane_key@ != key
}

/// `k` is the first pane that is an empty slot.
pub open spec fn is_first_empty_keyed(panes: Seq<PaneInfo>, k: int) -> bool {
    &&& 0 <= k < panes.len()
    &&& has_prefix(panes[k].pane_key@, "empty:"@)
    &&& forall|j: int| 0 <= j < k ==> !has_prefix(panes[j].pane_key@, "empty:"@)
}

/// `k` is the last pane that is not the session list.
pub open spec fn is_last_content(panes: Seq<PaneInfo>, k: int) -> bool {
    &&& 0 <= k < panes.len()
    &&& panes[k].pane_key@ != TITLE@
    &&& forall|j: int| k < j < panes.len() ==> panes[j].pane_key@ == TITLE@
}

fn find_key(panes: &Vec<PaneInfo>, key: &str) -> (r: Option<usize>)
    ensures
        match r {
            Some(k) => is_first_keyed(panes@, key@, k as int),
            None => forall|j: int| 0 <= j < panes@.len() ==> panes@[j].pane_key@ != key@,
        },
{
    let mut i: usize = 0;
    while i < panes.len()
        invariant
            i <= panes@.len(),
            forall|j: int| 0 <= j < i ==> panes@[j].pane_key@ != key@,
        decreases panes.len() - i,
    {
        if text_eq(panes[i].pane_key.as_str(), key) {
            return Some(i);
        }
        i = i + 1;
    }
    None
}

fn find_empty_keyed(panes: &Vec<PaneInfo>) -> (r: Option<usize>)
    ensures
        match r {
            Some(k) => is_first_empty_keyed(panes@, k as int),
            None => forall|j: int| 0 <= j < panes@.len() ==> !has_prefix(panes@[j].pane_key@, "empty:"@),
        },
{
    let mut i: usize = 0;
    while i < panes.len()
        invariant
            i <= panes@.len(),
            forall|j: int| 0 <= j < i ==> !has_prefix(panes@[j].pane_key@, "empty:"@),
        decreases panes.len() - i,
    {
        let cs = chars_of(panes[i].pane_key.as_str());
        if strip_prefix_chars(&cs, "empty:").is_some() {
            return Some(i);
        }
        i = i + 1;
    }
    None
}

fn find_last_content(panes: &Vec<PaneInfo>) -> (r: Option<usize>)
    ensures
        match r {
            Some(k) => is_last_content(panes@, k as int),
            None => forall|j: int| 0 <= j < panes@.len() ==> panes@[j].pane_key@ == TITLE@,
        },
{
    let mut i: usize = panes.len();
    while i > 0
        invariant
            i <= panes@.len(),
            forall|j: int| i <= j < panes@.len() ==> panes@[j].pane_key@ == TITLE@,
        decreases i,
    {
        if !text_eq(panes[i - 1].pane_key.as_str(), TITLE) {
            return Some(i - 1);
        }
        i = i - 1;
    }
    None
}

/// What a click on the session list does.
#[derive(Debug)]
pub enum SidebarSelection {
    /// The clicked line is no session row.
    NoSession,
    /// The session's tmux session is known to be gone.
    SessionGone,
    /// A pane already shows the terminal: focus it.
    Focus { pane: usize },
    /// Respawn pane `pane` with `command`, key it `key`, and focus it.
    Load { pane: usize, command: String, key: String },
    /// The panel has no content pane.
    NoContentPane,
}

impl SidebarSelection {
    /// The message the panel shows for the click: for a row without a session,
    /// and for a session that is gone; none otherwise.
    pub fn notice(&self) -> (r: Option<&'static str>)
        ensures
            self is NoSession ==> (r matches Some(t) && t@ == "No STP session for sidebar row"@),
            self is SessionGone ==> (r matches Some(t) && t@ == "STP session is no longer live"@),
            !(self is NoSession || self is SessionGone) ==> r is None,
    {
        match self {
            SidebarSelection::NoSession => Some("No STP session for sidebar row"),
            SidebarSelection::SessionGone => Some("STP session is no longer live"),
            _ => None,
        }
    }

    /// The error of a click that finds no pane to load into; none otherwise.
    pub fn failure(&self) -> (r: Option<&'static str>)
        ensures
            self is NoContentPane ==> (r matches Some(t) && t@
                == "panel has no content pane available for selection"@),
            !(self is NoContentPane) ==> r is None,
    {
        match self {
            SidebarSelection::NoContentPane => Some("panel has no content pane available for selection"),
            _ => None,
        }
    }
}

/// The pane that takes a terminal that no pane shows: the first empty slot,
/// else the rightmost content pane.
pub open spec fn load_target(panes: Seq<PaneInfo>, k: int) -> bool {
    ||| is_first_empty_keyed(panes, k)
    ||| (forall|j: int| 0 <= j < panes.len() ==> !has_prefix(panes[j].pane_key@, "empty:"@)) && is_last_content(
        panes,
        k,
    )
}

/// The click's effect: nothing for a line that is no row or a session that is
/// gone; else focus the pane showing the terminal, or load it into the first
/// empty slot, or else into the rightmost content pane.
pub fn select_from_sidebar(terminal: Option<ManagedTerminal>, known_missing: bool, panes: &Vec<PaneInfo>) -> (r: SidebarSelection)
    ensures
        match terminal {
            None => r is NoSession,
            Some(t) => if known_missing {
                r is SessionGone
            } else {
                let key = uuid_hyphenated(t.terminal_id.value);
                match r {
                    SidebarSelection::Focus { pane } => is_first_keyed(panes@, key, pane as int),
                    SidebarSelection::Load { pane, command, key: k } => (forall|j: int|
                        0 <= j < panes@.len() ==> panes@[j].pane_key@ != key) && load_target(panes@, pane as int)
                        && command@ == terminal_command_spec(t) && k@ == key,
                    SidebarSelection::NoContentPane => (forall|j: int|
                        0 <= j < panes@.len() ==> panes@[j].pane_key@ != key) && (forall|j: int|
                        0 <= j < panes@.len() ==> !has_prefix(panes@[j].pane_key@, "empty:"@)) && (forall|j: int|
                        0 <= j < panes@.len() ==> panes@[j].pane_key@ == TITLE@),
                    _ => false,
                }
            },
        },
{
    let t = match terminal {
        Some(t) => t,
        None => return SidebarSelection::NoSession,
    };
    if known_missing {
        return SidebarSelection::SessionGone;
    }
    let key = t.terminal_id.to_string();
    if let Some(k) = find_key(panes, key.as_str()) {
        return SidebarSelection::Focus { pane: k };
    }
    let target = match find_empty_keyed(panes) {
        Some(k) => k,
        None => match find_last_content(panes) {
            Some(k) => k,
            None => return SidebarSelection::NoContentPane,
        },
    };
    SidebarSelection::Load { pane: target, command: terminal_command(&t), key }
}

/// What connecting a newly registered terminal to the open panel does.
#[derive(Debug)]
pub enum ConnectPlan {
    /// A pane already shows it.
    AlreadyShown,
    /// No slot is empty; the terminal stays in the session list only.
    NoEmptySlot,
    /// Respawn pane `pane` with `command` and key it `key`.
    Load { pane: usize, command: String, key: String },
}

/// Shows a new terminal in the empty slot with the smallest number, unless a
/// pane already shows it.
pub fn connect_registered_terminal(terminal: &ManagedTerminal, panes: &Vec<PaneInfo>) -> (r: ConnectPlan)
    ensures
        match r {
            ConnectPlan::AlreadyShown => exists|k: int|
                0 <= k < panes@.len() && panes@[k].pane_key@ == uuid_hyphenated(terminal.terminal_id.value),
            ConnectPlan::NoEmptySlot => (forall|j: int|
                0 <= j < panes@.len() ==> panes@[j].pane_key@ != uuid_hyphenated(terminal.terminal_id.value))
                && forall|j: int| 0 <= j < panes@.len() ==> (#[trigger] empty_slot_spec(panes@[j].pane_key@)) is None,
            ConnectPlan::Load { pane, command, key } => (forall|j: int|
                0 <= j < panes@.len() ==> panes@[j].pane_key@ != uuid_hyphenated(terminal.terminal_id.value))
                && is_first_empty_pane(panes@, pane as int) && command@ == terminal_command_spec(*terminal) && key@
                == uuid_hyphenated(terminal.terminal_id.value),
        },
{
    let key = terminal.terminal_id.to_string();
    if find_key(panes, key.as_str()).is_some() {
        return ConnectPlan::AlreadyShown;
    }
    match first_empty_pane(panes) {
        None => ConnectPlan::NoEmptySlot,
        Some(k) => ConnectPlan::Load { pane: k, command: terminal_command(terminal), key },
    }
}

/// A tmux option the panel sets: on its windows or on its session.
#[derive(Clone, Copy, Debug, PartialEq, Eq)]
pub struct PanelOption {
    pub window: bool,
    pub name: &'static str,
    pub value: &'static str,
}

/// Option `i` of the panel: whether it is a window option, its name and value.
pub open spec fn panel_option_spec(i: int) -> (bool, Seq<char>, Seq<char>) {
    if i == 0 {
        (false, "status"@, "off"@)
    } else if i == 1 {
        (false, "mouse"@, "on"@)
    } else if i == 2 {
        (true, "allow-rename"@, "off"@)
    } else if i == 3 {
        (true, "allow-set-title"@, "off"@)
    } else if i == 4 {
        (true, "automatic-rename"@, "off"@)
    } else if i == 5 {
        (true, "pane-border-status"@, "top"@)
    } else if i == 6 {
        (true, "pane-border-format"@, " #{?pane_active,*, }#{pane_title} "@)
    } else if i == 7 {
        (true, "pane-border-style"@, "fg=colour244"@)
    } else {
        (true, "pane-active-border-style"@, "fg=colour154"@)
    }
}

/// The options of the panel session, in the order they are set: no status
/// line, mouse on, fixed pane titles, a title bar on top of each pane showing
/// the pane's title, gray borders and a green active border.
pub fn panel_options() -> (r: Vec<PanelOption>)
    ensures
        r@.len() == 9,
        forall|i: int|
            0 <= i < 9 ==> ((#[trigger] r@[i]).window, r@[i].name@, r@[i].value@) == panel_option_spec(i),
{
    let mut v: Vec<PanelOption> = Vec::new();
    v.push(PanelOption { window: false, name: "status", value: "off" });
    v.push(PanelOption { window: false, name: "mouse", value: "on" });
    v.push(PanelOption { window: true, name: "allow-rename", value: "off" });
    v.push(PanelOption { window: true, name: "allow-set-title", value: "off" });
    v.push(PanelOption { window: true, name: "automatic-rename", value: "off" });
    v.push(PanelOption { window: true, name: "pane-border-status", value: "top" });
    v.push(PanelOption { window: true, name: "pane-border-format", value: " #{?pane_active,*, }#{pane_title} " });
    v.push(PanelOption { window: true, name: "pane-border-style", value: "fg=colour244" });
    v.push(PanelOption { window: true, name: "pane-active-border-style", value: "fg=colour154" });
    v
}

} // verus!
