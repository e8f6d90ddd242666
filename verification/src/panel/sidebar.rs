//! The session list on the left of the panel: one row per live terminal under
//! a fixed header, and the mouse binding that turns a click into a selection.

use vstd::prelude::*;

use crate::decode::opt_str_view;
use crate::ids::uuid_hyphenated;
use crate::registry::model::{ManagedTerminal, Registry, TerminalStatus, Terminals};
use crate::shell::{double_quote, double_quote_spec, quote, quote_spec};
use crate::text::{
    all_digits, char_is_digit_ascii, chars_of, decimal, display_spec, display_text, file_name, file_name_spec,
    first_word, parse_usize, parse_usize_spec, push_str, split_first_word, string_of, take_chars, trim_chars,
    trim_spec, usize_text,
};

verus! {

/// The pane key and title of the session list.
pub const TITLE: &'static str = "stp-sidebar";

/// The width of the session list, in columns: every line is cut to it, and it
/// is the narrowest width that shows a session row such as
/// `3 00000000 worktree-c feature/overflow` (38 columns) whole.
pub const WIDTH: usize = 38;

/// The lines above the first session row.
pub const HEADER_LINES: usize = 6;

/// What `UnicodeWidthStr::width` gives for a text: its width in terminal columns.
pub uninterp spec fn str_display_width(s: Seq<char>) -> nat;

/// What `UnicodeWidthChar::width` gives for a character: its width in columns,
/// or nothing for a control character.
pub uninterp spec fn char_display_width(c: char) -> Option<nat>;

/// The displayed width of a text, by `unicode_width::UnicodeWidthStr::width`.
#[verifier::external_body]
fn display_width(s: &str) -> (r: usize)
    ensures
        r == str_display_width(s@),
{
    unicode_width::UnicodeWidthStr::width(s)
}

/// The displayed width of a character, by `unicode_width::UnicodeWidthChar::width`.
#[verifier::external_body]
fn char_width(c: char) -> (r: Option<usize>)
    ensures
        match r {
            Some(w) => char_display_width(c) == Some(w as nat),
            None => char_display_width(c) is None,
        },
{
    unicode_width::UnicodeWidthChar::width(c)
}

/// A character's width, a control character counting as none.
pub open spec fn cw(c: char) -> nat {
    match char_display_width(c) {
        Some(w) => w,
        None => 0,
    }
}

/// How many leading characters fit in `limit` columns after `used` are taken.
pub open spec fn fitting_prefix(v: Seq<char>, used: nat, limit: nat) -> nat
    decreases v.len(),
{
    if v.len() == 0 {
        0
    } else if used + cw(v[0]) > limit {
        0
    } else {
        1 + fitting_prefix(v.drop_first(), used + cw(v[0]), limit)
    }
}

/// A row as the list shows it: unchanged when it fits the list's width, else the
/// characters that fit in three columns less, then `...`.
pub open spec fn fit_line_spec(v: Seq<char>) -> Seq<char> {
    if str_display_width(v) <= WIDTH {
        v
    } else {
        v.take(fitting_prefix(v, 0, (WIDTH - 3) as nat) as int) + "..."@
    }
}

pub fn fit_line(value: &str) -> (r: String)
    ensures
        r@ == fit_line_spec(value@),
{
    if display_width(value) <= WIDTH {
        return value.to_owned();
    }
    let limit: usize = WIDTH - 3;
    let cs = chars_of(value);
    let mut used: usize = 0;
    let mut i: usize = 0;
    let mut stop = false;
    assert(cs@.skip(0) =~= cs@);
    while i < cs.len() && !stop
        invariant
            cs@ == value@,
            i <= cs@.len(),
            used <= limit,
            limit == WIDTH - 3,
            fitting_prefix(cs@, 0, limit as nat) == i + if stop {
                0
            } else {
                fitting_prefix(cs@.skip(i as int), used as nat, limit as nat)
            },
        decreases cs.len() - i, if stop { 0int } else { 1int },
    {
        let w = match char_width(cs[i]) {
            Some(w) => w,
            None => 0,
        };
        assert(cs@.skip(i as int)[0] == cs@[i as int]);
        assert(cs@.skip(i as int).drop_first() =~= cs@.skip(i + 1));
        if w > limit - used {
            stop = true;
        } else {
            used = used + w;
            i = i + 1;
        }
    }
    let mut out = crate::text::slice_chars(&cs, 0, i);
    push_str(&mut out, "...");
    assert(cs@.subrange(0, i as int) =~= cs@.take(i as int));
    string_of(&out)
}

/// The live entries, in registry order.
pub open spec fn live_only(s: Terminals) -> Terminals
    decreases s.len(),
{
    if s.len() == 0 {
        s
    } else if s.last().status == TerminalStatus::Live {
        live_only(s.drop_last()).push(s.last())
    } else {
        live_only(s.drop_last())
    }
}

/// Copies of the live entries, in registry order.
pub fn live_terminals(registry: &Registry) -> (r: Vec<ManagedTerminal>)
    ensures
        r@ == live_only(registry.terminals@),
{
    let ghost s = registry.terminals@;
    let mut out: Vec<ManagedTerminal> = Vec::new();
    let mut i: usize = 0;
    assert(s.take(0) =~= Seq::<ManagedTerminal>::empty());
    while i < registry.terminals.len()
        invariant
            s == registry.terminals@,
            i <= s.len(),
            out@ == live_only(s.take(i as int)),
        decreases s.len() - i,
    {
        assert(s.take(i + 1).drop_last() =~= s.take(i as int));
        if registry.terminals[i].status == TerminalStatus::Live {
            out.push(registry.terminals[i].duplicate());
        }
        i = i + 1;
    }
    assert(s.take(i as int) =~= s);
    out
}

/// The count line of the header.
pub open spec fn count_label(n: nat) -> Seq<char> {
    if n == 1 {
        "1 live session"@
    } else {
        decimal(n) + " live sessions"@
    }
}

pub fn live_count_label(count: usize) -> (r: String)
    ensures
        r@ == count_label(count as nat),
{
    if count == 1 {
        return "1 live session".to_owned();
    }
    let mut out: Vec<char> = Vec::new();
    push_str(&mut out, usize_text(count).as_str());
    push_str(&mut out, " live sessions");
    string_of(&out)
}

/// The workspace label of an entry: its path's final component.
pub open spec fn workspace_label(t: ManagedTerminal) -> Seq<char> {
    match file_name_spec(t.workspace_path@) {
        Some(n) => n,
        None => "<workspace>"@,
    }
}

/// The branch label of an entry.
pub open spec fn branch_label(t: ManagedTerminal) -> Seq<char> {
    match opt_str_view(t.branch_name) {
        Some(b) => b,
        None => "non-git"@,
    }
}

/// A session row before fitting: slot number, the first eight characters of the
/// terminal's identifier, workspace and branch, with control characters shown as `?`.
pub open spec fn row_text(slot: nat, t: ManagedTerminal) -> Seq<char> {
    decimal(slot) + " "@ + uuid_hyphenated(t.terminal_id.value).take(8) + " "@ + display_spec(
        workspace_label(t),
    ) + " "@ + display_spec(branch_label(t))
}

/// The session rows, each fitted and ended by a newline.
pub open spec fn rows_text(live: Terminals) -> Seq<char>
    decreases live.len(),
{
    if live.len() == 0 {
        Seq::empty()
    } else {
        rows_text(live.drop_last()) + fit_line_spec(row_text(live.len(), live.last())) + "\n"@
    }
}

/// The header: title, count, and the panel's keys.
pub open spec fn header_text(n: nat) -> Seq<char> {
    "STP sessions\n"@ + count_label(n) + "\n"@ + "Click row to focus/open\n"@ + "q quit panel\n"@
        + "prefix K terminate focused\n"@ + "\n"@
}

/// The session list: the header, then a row per live entry, or a hint when
/// there is none.
pub open spec fn sidebar_text(s: Terminals) -> Seq<char> {
    let live = live_only(s);
    header_text(live.len()) + if live.len() == 0 {
        "No live STP sessions\n"@ + "Open STP terminal in Cursor\n"@
    } else {
        rows_text(live)
    }
}

fn workspace_name(t: &ManagedTerminal) -> (r: String)
    ensures
        r@ == workspace_label(*t),
{
    match file_name(t.workspace_path.as_str()) {
        Some(n) => n,
        None => "<workspace>".to_owned(),
    }
}

fn row(slot: usize, t: &ManagedTerminal) -> (r: String)
    ensures
        r@ == row_text(slot as nat, *t),
{
    let mut out: Vec<char> = Vec::new();
    push_str(&mut out, usize_text(slot).as_str());
    push_str(&mut out, " ");
    push_str(&mut out, take_chars(t.terminal_id.to_string().as_str(), 8).as_str());
    push_str(&mut out, " ");
    push_str(&mut out, display_text(workspace_name(t).as_str()).as_str());
    push_str(&mut out, " ");
    let branch = match &t.branch_name {
        Some(b) => display_text(b.as_str()),
        None => display_text("non-git"),
    };
    proof {
        reveal_strlit("non-git");
    }
    push_str(&mut out, branch.as_str());
    string_of(&out)
}

/// The session list's text.
pub fn text(registry: &Registry) -> (r: String)
    ensures
        r@ == sidebar_text(registry.terminals@),
{
    let live = live_terminals(registry);
    let mut out: Vec<char> = Vec::new();
    push_str(&mut out, "STP sessions\n");
    push_str(&mut out, live_count_label(live.len()).as_str());
    push_str(&mut out, "\n");
    push_str(&mut out, "Click row to focus/open\n");
    push_str(&mut out, "q quit panel\n");
    push_str(&mut out, "prefix K terminate focused\n");
    push_str(&mut out, "\n");
    let ghost header = out@;
    assert(header =~= header_text(live@.len()));
    if live.len() == 0 {
        push_str(&mut out, "No live STP sessions\n");
        push_str(&mut out, "Open STP terminal in Cursor\n");
        assert(out@ =~= sidebar_text(registry.terminals@));
        return string_of(&out);
    }
    let mut i: usize = 0;
    assert(live@.take(0) =~= Seq::<ManagedTerminal>::empty());
    while i < live.len()
        invariant
            i <= live@.len(),
            out@ == header + rows_text(live@.take(i as int)),
        decreases live.len() - i,
    {
        let line = fit_line(row(i + 1, &live[i]).as_str());
        push_str(&mut out, line.as_str());
        push_str(&mut out, "\n");
        assert(live@.take(i + 1).drop_last() =~= live@.take(i as int));
        assert(live@.take(i + 1).last() == live@[i as int]);
        assert(out@ =~= header + rows_text(live@.take(i + 1)));
        i = i + 1;
    }
    assert(live@.take(i as int) =~= live@);
    string_of(&out)
}

/// The command the session list pane runs: print the list, then a shell.
pub open spec fn command_spec(s: Terminals) -> Seq<char> {
    "printf %s "@ + quote_spec(sidebar_text(s)) + "; exec ${SHELL:-sh}"@
}

pub fn command(registry: &Registry) -> (r: String)
    ensures
        r@ == command_spec(registry.terminals@),
{
    let mut out: Vec<char> = Vec::new();
    push_str(&mut out, "printf %s ");
    push_str(&mut out, quote(text(registry).as_str()).as_str());
    push_str(&mut out, "; exec ${SHELL:-sh}");
    string_of(&out)
}

/// The command a content pane runs to show a terminal: attach its tmux session,
/// or fall back to a shell.
pub open spec fn terminal_command_spec(t: ManagedTerminal) -> Seq<char> {
    "env -u TMUX tmux -L "@ + quote_spec(t.tmux_socket@) + " attach-session -t "@ + quote_spec(t.tmux_session@)
        + " || exec ${SHELL:-sh}"@
}

pub fn terminal_command(terminal: &ManagedTerminal) -> (r: String)
    ensures
        r@ == terminal_command_spec(*terminal),
{
    let mut out: Vec<char> = Vec::new();
    push_str(&mut out, "env -u TMUX tmux -L ");
    push_str(&mut out, quote(terminal.tmux_socket.as_str()).as_str());
    push_str(&mut out, " attach-session -t ");
    push_str(&mut out, quote(terminal.tmux_session.as_str()).as_str());
    push_str(&mut out, " || exec ${SHELL:-sh}");
    string_of(&out)
}

/// A tmux key binding: the command and its arguments.
#[derive(Debug, PartialEq, Eq)]
pub struct MouseBinding {
    pub command: &'static str,
    pub args: Vec<String>,
}

/// The command a click on the session list runs: `stp panel-select` with the
/// clicked line.
pub open spec fn select_command_spec(binary: Seq<char>, registry_path: Seq<char>, socket: Seq<char>) -> Seq<char> {
    double_quote_spec(binary) + " panel-select --registry "@ + double_quote_spec(registry_path) + " --socket "@
        + double_quote_spec(socket) + " --mouse-line \"#{q:mouse_line}\""@
}

/// The arguments of the click binding: in the session list, run the selection
/// in the background; elsewhere, select the pane and pass the click on.
pub open spec fn mouse_args_spec(binary: Seq<char>, registry_path: Seq<char>, socket: Seq<char>) -> Seq<Seq<char>> {
    seq![
        "-b"@,
        "-F"@,
        "-t"@,
        "="@,
        "#{==:#{@stp-pane-key},"@ + TITLE@ + "}"@,
        "run-shell -b "@ + quote_spec(select_command_spec(binary, registry_path, socket)),
        "select-pane -t = ; send-keys -M"@,
    ]
}

pub fn mouse_binding(binary: &str, registry_path: &str, socket: &str) -> (r: MouseBinding)
    ensures
        r.command@ == "if-shell"@,
        crate::decode::strings_view(r.args@) == mouse_args_spec(binary@, registry_path@, socket@),
{
    let mut select: Vec<char> = Vec::new();
    push_str(&mut select, double_quote(binary).as_str());
    push_str(&mut select, " panel-select --registry ");
    push_str(&mut select, double_quote(registry_path).as_str());
    push_str(&mut select, " --socket ");
    push_str(&mut select, double_quote(socket).as_str());
    push_str(&mut select, " --mouse-line \"#{q:mouse_line}\"");
    let select_command = string_of(&select);
    let mut key: Vec<char> = Vec::new();
    push_str(&mut key, "#{==:#{@stp-pane-key},");
    push_str(&mut key, TITLE);
    push_str(&mut key, "}");
    let mut run: Vec<char> = Vec::new();
    push_str(&mut run, "run-shell -b ");
    push_str(&mut run, quote(select_command.as_str()).as_str());
    let mut args: Vec<String> = Vec::new();
    args.push("-b".to_owned());
    args.push("-F".to_owned());
    args.push("-t".to_owned());
    args.push("=".to_owned());
    args.push(string_of(&key));
    args.push(string_of(&run));
    args.push("select-pane -t = ; send-keys -M".to_owned());
    assert(crate::decode::strings_view(args@) =~= mouse_args_spec(binary@, registry_path@, socket@));
    MouseBinding { command: "if-shell", args }
}

/// The live entry a click on line `line` of the session list selects. A line
/// of digits is tmux's line number, the header taking the first six; any other
/// text is a rendered row, whose first word is its slot number.
pub open spec fn mouse_line_target(live: Terminals, line: Seq<char>) -> Option<ManagedTerminal> {
    let t = trim_spec(line);
    if t.len() == 0 {
        None
    } else if all_digits(t) {
        match parse_usize_spec(t) {
            None => None,
            Some(n) => if n >= HEADER_LINES && n - HEADER_LINES < live.len() {
                Some(live[n - HEADER_LINES])
            } else {
                None
            },
        }
    } else {
        match first_word(t) {
            None => None,
            Some((w, _)) => match parse_usize_spec(w) {
                None => None,
                Some(slot) => if slot >= 1 && slot - 1 < live.len() {
                    Some(live[slot - 1])
                } else {
                    None
                },
            },
        }
    }
}

/// The live entry a click on the session list selects.
pub fn terminal_for_mouse_line(registry: &Registry, mouse_line: &str) -> (r: Option<ManagedTerminal>)
    ensures
        r == mouse_line_target(live_only(registry.terminals@), mouse_line@),
{
    let line = chars_of(mouse_line);
    let trimmed = trim_chars(&line);
    if trimmed.len() == 0 {
        return None;
    }
    let live = live_terminals(registry);
    let mut digits = true;
    let mut i: usize = 0;
    while i < trimmed.len()
        invariant
            i <= trimmed@.len(),
            digits == (forall|j: int| 0 <= j < i ==> crate::text::is_digit(#[trigger] trimmed@[j])),
        decreases trimmed.len() - i,
    {
        if !char_is_digit_ascii(trimmed[i]) {
            digits = false;
        }
        i = i + 1;
    }
    if digits {
        let n = match parse_usize(&trimmed) {
            Some(n) => n,
            None => return None,
        };
        if n >= HEADER_LINES && n - HEADER_LINES < live.len() {
            return Some(live[n - HEADER_LINES].duplicate());
        }
        return None;
    }
    let (word, _rest) = match split_first_word(&trimmed) {
        Some(x) => x,
        None => return None,
    };
    let slot = match parse_usize(&word) {
        Some(s) => s,
        None => return None,
    };
    if slot >= 1 && slot - 1 < live.len() {
        return Some(live[slot - 1].duplicate());
    }
    None
}

} // verus!
