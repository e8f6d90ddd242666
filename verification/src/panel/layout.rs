//! What each content pane of the panel runs and how it is titled: the live
//! terminals in registry order, then empty slots.

use vstd::prelude::*;

use super::sidebar::{live_only, live_terminals, terminal_command, terminal_command_spec};
use super::Layout;
use crate::decode::strings_view;
use crate::ids::uuid_hyphenated;
use crate::registry::model::{Registry, Terminals};
use crate::shell::{quote, quote_spec};
use crate::text::{decimal, push_str, string_of, usize_text};

verus! {

/// The text an empty slot shows.
pub open spec fn empty_message(slot: nat) -> Seq<char> {
    "slot "@ + decimal(slot + 1) + " waiting\n\nClick its sidebar row to load here.\n"@
}

/// The command an empty slot runs: print its text, then a shell with an empty prompt.
pub open spec fn empty_command_spec(slot: nat) -> Seq<char> {
    "printf %s "@ + quote_spec(empty_message(slot)) + "; exec env PS1= PROMPT= RPROMPT= sh"@
}

pub fn empty_command(slot: usize) -> (r: String)
    requires
        slot < usize::MAX,
    ensures
        r@ == empty_command_spec(slot as nat),
{
    let mut message: Vec<char> = Vec::new();
    push_str(&mut message, "slot ");
    push_str(&mut message, usize_text(slot + 1).as_str());
    push_str(&mut message, " waiting\n\nClick its sidebar row to load here.\n");
    let mut out: Vec<char> = Vec::new();
    push_str(&mut out, "printf %s ");
    push_str(&mut out, quote(string_of(&message).as_str()).as_str());
    push_str(&mut out, "; exec env PS1= PROMPT= RPROMPT= sh");
    string_of(&out)
}

/// What slot `slot` runs: the terminal placed there, or the empty slot's command.
pub open spec fn pane_command_spec(live: Terminals, slot: nat) -> Seq<char> {
    if slot < live.len() {
        terminal_command_spec(live[slot as int])
    } else {
        empty_command_spec(slot)
    }
}

/// How slot `slot` is keyed: its terminal's identifier, or `empty:` and its number.
pub open spec fn pane_title_spec(live: Terminals, slot: nat) -> Seq<char> {
    if slot < live.len() {
        uuid_hyphenated(live[slot as int].terminal_id.value)
    } else {
        "empty:"@ + decimal(slot + 1)
    }
}

/// The command of each content pane, in slot order.
pub fn pane_commands(registry: &Registry, layout: Layout) -> (r: Vec<String>)
    ensures
        r@.len() == layout.spec_capacity(),
        forall|i: int| 0 <= i < r@.len() ==> #[trigger] r@[i]@ == pane_command_spec(live_only(registry.terminals@), i as nat),
{
    let live = live_terminals(registry);
    let n = layout.capacity();
    let mut out: Vec<String> = Vec::new();
    let mut slot: usize = 0;
    while slot < n
        invariant
            n == layout.spec_capacity(),
            live@ == live_only(registry.terminals@),
            slot <= n,
            out@.len() == slot,
            forall|i: int| 0 <= i < slot ==> #[trigger] out@[i]@ == pane_command_spec(live@, i as nat),
        decreases n - slot,
    {
        if slot < live.len() {
            out.push(terminal_command(&live[slot]));
        } else {
            out.push(empty_command(slot));
        }
        slot = slot + 1;
    }
    out
}

/// The key of each content pane, in slot order.
pub fn pane_titles(registry: &Registry, layout: Layout) -> (r: Vec<String>)
    ensures
        r@.len() == layout.spec_capacity(),
        forall|i: int| 0 <= i < r@.len() ==> #[trigger] r@[i]@ == pane_title_spec(live_only(registry.terminals@), i as nat),
{
    let live = live_terminals(registry);
    let n = layout.capacity();
    let mut out: Vec<String> = Vec::new();
    let mut slot: usize = 0;
    while slot < n
        invariant
            n == layout.spec_capacity(),
            live@ == live_only(registry.terminals@),
            slot <= n,
            out@.len() == slot,
            forall|i: int| 0 <= i < slot ==> #[trigger] out@[i]@ == pane_title_spec(live@, i as nat),
        decreases n - slot,
    {
        if slot < live.len() {
            out.push(live[slot].terminal_id.to_string());
        } else {
            let mut title: Vec<char> = Vec::new();
            push_str(&mut title, "empty:");
            push_str(&mut title, usize_text(slot + 1).as_str());
            out.push(string_of(&title));
        }
        slot = slot + 1;
    }
    out
}

} // verus!
