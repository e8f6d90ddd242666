//! The decisions of the CLI's registry commands: which entry a command names,
//! what it changes, what it refuses, and what it prints.

use vstd::prelude::*;

use crate::cleanup::{remove_zombie_sessions, SessionLookup};
use crate::ids::{uuid_hyphenated, uuid_parsed, IdError, TerminalId, WindowId};
use crate::registry::model::{
    has_entry,
    ids_unique,
    is_first_entry_of,
    stale_count,
    upserted,
    with_status,
    without_stale,
    ManagedTerminal,
    Registry,
    TerminalStatus,
};
use crate::registry::store::{registry_error_text, RegistryError};
use crate::panel::sidebar::live_only;
use crate::registry::backend::Backend;
use crate::shell::{quote, quote_spec};
use crate::text::{decimal, push_str, string_of, usize_text};
use crate::workspace::{workspace_error_text, WorkspaceError, WorkspaceMetadata};

verus! {

/// A command that needs `--yes` to go ahead.
#[derive(Clone, Copy, Debug, PartialEq, Eq, Structural)]
pub enum Refusal {
    Terminate,
    RemoveStale,
    CleanupZombies,
}

/// Why a command failed.
#[derive(Clone, Debug, PartialEq, Eq)]
pub enum CommandError {
    InvalidTerminalId(IdError),
    InvalidWindowId(IdError),
    TerminalNotFound(TerminalId),
    Refused(Refusal),
    Registry(RegistryError),
    Workspace(WorkspaceError),
}

/// What a command error says.
pub open spec fn command_error_text(e: CommandError) -> Seq<char> {
    match e {
        CommandError::InvalidTerminalId(IdError::InvalidUuid(raw)) => "invalid id: "@ + raw@,
        CommandError::InvalidWindowId(IdError::InvalidUuid(raw)) => "invalid id: "@ + raw@,
        CommandError::TerminalNotFound(id) => "terminal not found: "@ + uuid_hyphenated(id.value),
        CommandError::Refused(r) => refusal_text_spec(r),
        CommandError::Registry(e) => registry_error_text(e),
        CommandError::Workspace(e) => workspace_error_text(e),
    }
}

impl CommandError {
    /// The error's message.
    pub fn text(&self) -> (r: String)
        ensures
            r@ == command_error_text(*self),
    {
        match self {
            CommandError::InvalidTerminalId(e) => e.text(),
            CommandError::InvalidWindowId(e) => e.text(),
            CommandError::TerminalNotFound(id) => id_message("terminal not found: ", id),
            CommandError::Refused(r) => r.text().to_string(),
            CommandError::Registry(e) => e.text(),
            CommandError::Workspace(e) => e.text(),
        }
    }
}

/// The line the CLI prints when it records a terminal: "registered" and the
/// session's name.
pub fn registered_notice(session: &str) -> (r: String)
    ensures
        r@ == "registered "@ + session@,
{
    let mut out: Vec<char> = Vec::new();
    push_str(&mut out, "registered ");
    push_str(&mut out, session);
    string_of(&out)
}

/// The line the CLI prints instead of opening the editor in a dry run.
pub fn fallback_notice(command: &str) -> (r: String)
    ensures
        r@ == "fallback command: "@ + command@,
{
    let mut out: Vec<char> = Vec::new();
    push_str(&mut out, "fallback command: ");
    push_str(&mut out, command);
    string_of(&out)
}

pub open spec fn refusal_text_spec(r: Refusal) -> Seq<char> {
    match r {
        Refusal::Terminate => "refusing to terminate without --yes"@,
        Refusal::RemoveStale => "refusing to remove stale entries without --yes"@,
        Refusal::CleanupZombies => "refusing to cleanup zombie entries without --yes"@,
    }
}

impl Refusal {
    /// What the CLI says when the command is refused.
    pub fn text(self) -> (r: &'static str)
        ensures
            r@ == refusal_text_spec(self),
    {
        match self {
            Refusal::Terminate => "refusing to terminate without --yes",
            Refusal::RemoveStale => "refusing to remove stale entries without --yes",
            Refusal::CleanupZombies => "refusing to cleanup zombie entries without --yes",
        }
    }
}

/// Goes ahead only with `--yes`.
pub fn require_yes(yes: bool, refusal: Refusal) -> (r: Result<(), CommandError>)
    ensures
        yes <==> r is Ok,
        !yes ==> r == Err::<(), CommandError>(CommandError::Refused(refusal)),
{
    if yes {
        Ok(())
    } else {
        Err(CommandError::Refused(refusal))
    }
}

/// "stp-" and the terminal id: the tmux session of a terminal.
pub fn session_name(id: &TerminalId) -> (r: String)
    ensures
        r@ == "stp-"@ + uuid_hyphenated(id.value),
{
    let mut out: Vec<char> = Vec::new();
    push_str(&mut out, "stp-");
    push_str(&mut out, id.to_string().as_str());
    string_of(&out)
}

/// `prefix` followed by the text of `id`.
pub fn id_message(prefix: &str, id: &TerminalId) -> (r: String)
    ensures
        r@ == prefix@ + uuid_hyphenated(id.value),
{
    let mut out: Vec<char> = Vec::new();
    push_str(&mut out, prefix);
    push_str(&mut out, id.to_string().as_str());
    string_of(&out)
}

/// Both identifiers a terminal registers with, terminal first.
pub fn parse_terminal_ids(terminal_raw: &str, window_raw: &str) -> (r: Result<
    (TerminalId, WindowId),
    CommandError,
>)
    ensures
        match (uuid_parsed(terminal_raw@), uuid_parsed(window_raw@)) {
            (Some(t), Some(w)) => r == Ok::<(TerminalId, WindowId), CommandError>(
                (TerminalId { value: t }, WindowId { value: w }),
            ),
            (None, _) => r matches Err(CommandError::InvalidTerminalId(_)),
            (Some(_), None) => r matches Err(CommandError::InvalidWindowId(_)),
        },
{
    let terminal_id = match TerminalId::parse(terminal_raw) {
        Ok(id) => id,
        Err(e) => {
            return Err(CommandError::InvalidTerminalId(e));
        },
    };
    let window_id = match WindowId::parse(window_raw) {
        Ok(id) => id,
        Err(e) => {
            return Err(CommandError::InvalidWindowId(e));
        },
    };
    Ok((terminal_id, window_id))
}

/// The entry a command names by raw id: the first entry of that terminal.
pub open spec fn names_entry(registry: Seq<ManagedTerminal>, raw: Seq<char>, r: Result<usize, CommandError>) -> bool {
    match uuid_parsed(raw) {
        None => r matches Err(CommandError::InvalidTerminalId(_)),
        Some(v) => if has_entry(registry, TerminalId { value: v }) {
            r matches Ok(k) && is_first_entry_of(registry, TerminalId { value: v }, k as int)
        } else {
            r == Err::<usize, CommandError>(CommandError::TerminalNotFound(TerminalId { value: v }))
        },
    }
}

/// The index of the entry that `raw_id` names, or why there is none.
pub fn find_terminal(registry: &Registry, raw_id: &str) -> (r: Result<usize, CommandError>)
    ensures
        names_entry(registry.terminals@, raw_id@, r),
{
    let id = match TerminalId::parse(raw_id) {
        Ok(id) => id,
        Err(e) => {
            return Err(CommandError::InvalidTerminalId(e));
        },
    };
    let mut i: usize = 0;
    while i < registry.terminals.len()
        invariant
            i <= registry.terminals@.len(),
            uuid_parsed(raw_id@) == Some(id.value),
            forall|j: int| 0 <= j < i ==> registry.terminals@[j].terminal_id != id,
        decreases registry.terminals@.len() - i,
    {
        if registry.terminals[i].terminal_id == id {
            assert(has_entry(registry.terminals@, id));
            assert(is_first_entry_of(registry.terminals@, id, i as int));
            return Ok(i);
        }
        i = i + 1;
    }
    Err(CommandError::TerminalNotFound(id))
}

/// Marks the entry that `raw_id` names as detached: the panel stops showing it,
/// its session keeps running. Says "detached <id>".
pub fn detach(registry: &mut Registry, raw_id: &str) -> (r: Result<String, CommandError>)
    ensures
        match r {
            Ok(message) => exists|k: usize|
                names_entry(old(registry).terminals@, raw_id@, Ok::<usize, CommandError>(k))
                    && final(registry).terminals@ == old(registry).terminals@.update(
                    k as int,
                    with_status(old(registry).terminals@[k as int], TerminalStatus::Detached),
                ) && message@ == "detached "@ + uuid_hyphenated(
                    old(registry).terminals@[k as int].terminal_id.value,
                ),
            Err(e) => names_entry(old(registry).terminals@, raw_id@, Err::<usize, CommandError>(e))
                && final(registry).terminals@ == old(registry).terminals@,
        },
{
    match find_terminal(registry, raw_id) {
        Ok(k) => {
            let id = registry.terminals[k].terminal_id;
            registry.set_status(k, TerminalStatus::Detached);
            Ok(id_message("detached ", &id))
        },
        Err(e) => Err(e),
    }
}

proof fn lemma_live_only_members(s: Seq<ManagedTerminal>)
    ensures
        forall|i: int|
            0 <= i < live_only(s).len() ==> (#[trigger] live_only(s)[i]).status == TerminalStatus::Live
                && s.contains(live_only(s)[i]),
    decreases s.len(),
{
    if s.len() > 0 {
        let p = s.drop_last();
        lemma_live_only_members(p);
        assert forall|i: int| 0 <= i < live_only(s).len() implies (#[trigger] live_only(s)[i]).status
            == TerminalStatus::Live && s.contains(live_only(s)[i]) by {
            if i < live_only(p).len() {
                assert(live_only(s)[i] == live_only(p)[i]);
                let k = choose|k: int| 0 <= k < p.len() && p[k] == live_only(p)[i];
                assert(s[k] == p[k]);
            } else {
                assert(s[s.len() - 1] == s.last());
            }
        }
    }
}

/// Detaching a terminal takes it off the panel: of a registry with one entry
/// per terminal, no live entry is left for the detached terminal.
pub proof fn law_detached_terminal_leaves_panel(s: Seq<ManagedTerminal>, k: int)
    requires
        ids_unique(s),
        0 <= k < s.len(),
    ensures
        forall|i: int|
            0 <= i < live_only(s.update(k, with_status(s[k], TerminalStatus::Detached))).len()
                ==> (#[trigger] live_only(s.update(k, with_status(s[k], TerminalStatus::Detached)))[i]).terminal_id
                != s[k].terminal_id,
{
    let u = s.update(k, with_status(s[k], TerminalStatus::Detached));
    lemma_live_only_members(u);
    assert forall|i: int| 0 <= i < live_only(u).len() implies (#[trigger] live_only(u)[i]).terminal_id
        != s[k].terminal_id by {
        let j = choose|j: int| 0 <= j < u.len() && u[j] == live_only(u)[i];
        if j != k {
            assert(u[j] == s[j]);
        }
    }
}

/// Drops the stale entries; says how many.
pub fn remove_stale(registry: &mut Registry) -> (r: String)
    ensures
        final(registry).terminals@ == without_stale(old(registry).terminals@),
        r@ == "removed stale entries: "@ + decimal(stale_count(old(registry).terminals@)),
{
    let removed = registry.remove_stale();
    let mut out: Vec<char> = Vec::new();
    push_str(&mut out, "removed stale entries: ");
    push_str(&mut out, usize_text(removed).as_str());
    string_of(&out)
}

/// Drops the live entries whose session is known missing; says how many.
pub fn cleanup_zombies(registry: &mut Registry, lookup: &SessionLookup) -> (r: String)
    ensures
        final(registry).terminals@ == without_stale(
            crate::cleanup::marked_stale(old(registry).terminals@, lookup.sockets@),
        ),
        r@ == "removed zombie entries: "@ + decimal(
            (old(registry).terminals@.len() - final(registry).terminals@.len()) as nat,
        ),
{
    let removed = remove_zombie_sessions(registry, lookup);
    let mut out: Vec<char> = Vec::new();
    push_str(&mut out, "removed zombie entries: ");
    push_str(&mut out, usize_text(removed).as_str());
    string_of(&out)
}

/// Marks entry `index` exited after its session was killed; says "terminated
/// <id>" when the session was there, else "already exited <id>".
pub fn mark_terminated(registry: &mut Registry, index: usize, session_existed: bool) -> (r: String)
    requires
        index < old(registry).terminals@.len(),
    ensures
        final(registry).terminals@ == old(registry).terminals@.update(
            index as int,
            with_status(old(registry).terminals@[index as int], TerminalStatus::Exited),
        ),
        r@ == (if session_existed {
            "terminated "@
        } else {
            "already exited "@
        }) + uuid_hyphenated(old(registry).terminals@[index as int].terminal_id.value),
{
    let id = registry.terminals[index].terminal_id;
    registry.set_status(index, TerminalStatus::Exited);
    if session_existed {
        id_message("terminated ", &id)
    } else {
        id_message("already exited ", &id)
    }
}

/// Records a terminal in the registry with its tmux session "stp-<id>" on
/// `socket`; gives the session's name.
pub fn register_terminal(
    registry: &mut Registry,
    terminal_id: TerminalId,
    window_id: WindowId,
    metadata: WorkspaceMetadata,
    socket: &str,
    now: u64,
) -> (r: String)
    ensures
        r@ == "stp-"@ + uuid_hyphenated(terminal_id.value),
        exists|t: ManagedTerminal|
            final(registry).terminals@ == upserted(old(registry).terminals@, t) && t.terminal_id
                == terminal_id && t.window_id == window_id && t.workspace_id == metadata.workspace_id
                && t.workspace_path == metadata.workspace_path && t.repo_root == metadata.repo_root
                && t.branch_name == metadata.branch_name && t.backend@ == (Backend::LegacyTmux {
                socket: socket@,
                session: r@,
                window: "0"@,
            }) && t.tmux_socket@ == socket@ && t.tmux_session@ == r@ && t.tmux_window@ == "0"@
                && t.status == TerminalStatus::Live && t.created_at == now && t.last_seen_at == now,
{
    let name = session_name(&terminal_id);
    let terminal = ManagedTerminal::new(terminal_id, window_id, metadata, socket, name.as_str(), now);
    registry.upsert(terminal);
    name
}

/// The shell a new session runs: the one asked for, else `$SHELL`, else `sh`.
pub open spec fn chosen_shell(shell: Option<Seq<char>>, env_shell: Option<Seq<char>>) -> Seq<char> {
    match shell {
        Some(s) => s,
        None => match env_shell {
            Some(s) => s,
            None => "sh"@,
        },
    }
}

/// The command a new tmux session runs: change to the workspace, then replace
/// itself with the shell; both quoted for the shell.
pub fn session_command(workspace: &str, shell: Option<&str>, env_shell: Option<&str>) -> (r: String)
    ensures
        r@ == "cd "@ + quote_spec(workspace@) + " && exec "@ + quote_spec(
            chosen_shell(
                match shell {
                    Some(s) => Some(s@),
                    None => None,
                },
                match env_shell {
                    Some(s) => Some(s@),
                    None => None,
                },
            ),
        ),
{
    proof {
        reveal_strlit("sh");
    }
    let chosen: &str = match shell {
        Some(s) => s,
        None => match env_shell {
            Some(s) => s,
            None => "sh",
        },
    };
    let mut out: Vec<char> = Vec::new();
    push_str(&mut out, "cd ");
    push_str(&mut out, quote(workspace).as_str());
    push_str(&mut out, " && exec ");
    push_str(&mut out, quote(chosen).as_str());
    string_of(&out)
}

/// The command that opens a workspace in Cursor, as the fallback prints it.
pub fn cursor_command(workspace_path: &str) -> (r: String)
    ensures
        r@ == "cursor --new-window "@ + quote_spec(workspace_path@),
{
    let mut out: Vec<char> = Vec::new();
    push_str(&mut out, "cursor --new-window ");
    push_str(&mut out, quote(workspace_path).as_str());
    string_of(&out)
}

} // verus!
