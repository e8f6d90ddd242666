//! The panel's own key bindings.

use vstd::prelude::*;

use crate::shell::{double_quote, double_quote_spec, quote, quote_spec};
use crate::text::{push_str, string_of};

verus! {

/// A confirmed key binding: the question asked and the tmux command run on yes.
#[derive(Debug)]
pub struct TerminateBinding {
    pub prompt: String,
    pub run_command: String,
}

/// The shell command behind `prefix K`: read the selected pane's key, say so
/// when it is an empty slot, the session list or nothing, else terminate that
/// terminal through the CLI.
pub open spec fn terminate_shell_spec(binary: Seq<char>, registry_path: Seq<char>, panel_socket: Seq<char>) -> Seq<char> {
    let cli = double_quote_spec(binary) + " terminate --registry "@ + double_quote_spec(registry_path);
    let panel_tmux = "tmux -L "@ + quote_spec(panel_socket);
    "pane_id=#{q:pane_id}; terminal_id=$("@ + panel_tmux
        + " display-message -p -t \"$pane_id\" '##{@stp-pane-key}'); case \"$terminal_id\" in empty:*|stp-sidebar|\"\") "@
        + panel_tmux + " display-message 'No selected STP terminal';; *) "@ + cli
        + " --terminal-id \"$terminal_id\" --yes;; esac"@
}

/// The binding that terminates the selected terminal after confirmation; it runs
/// in the background so the panel stays responsive.
pub fn terminate_binding(binary: &str, registry_path: &str, panel_socket: &str) -> (r: TerminateBinding)
    ensures
        r.prompt@ == "Terminate selected STP pane? (y/n)"@,
        r.run_command@ == "run-shell -b "@ + quote_spec(terminate_shell_spec(binary@, registry_path@, panel_socket@)),
{
    let mut cli: Vec<char> = Vec::new();
    push_str(&mut cli, double_quote(binary).as_str());
    push_str(&mut cli, " terminate --registry ");
    push_str(&mut cli, double_quote(registry_path).as_str());
    let mut panel_tmux: Vec<char> = Vec::new();
    push_str(&mut panel_tmux, "tmux -L ");
    push_str(&mut panel_tmux, quote(panel_socket).as_str());
    let mut shell: Vec<char> = Vec::new();
    push_str(&mut shell, "pane_id=#{q:pane_id}; terminal_id=$(");
    crate::text::push_chars(&mut shell, &panel_tmux);
    push_str(
        &mut shell,
        " display-message -p -t \"$pane_id\" '##{@stp-pane-key}'); case \"$terminal_id\" in empty:*|stp-sidebar|\"\") ",
    );
    crate::text::push_chars(&mut shell, &panel_tmux);
    push_str(&mut shell, " display-message 'No selected STP terminal';; *) ");
    crate::text::push_chars(&mut shell, &cli);
    push_str(&mut shell, " --terminal-id \"$terminal_id\" --yes;; esac");
    let mut run: Vec<char> = Vec::new();
    push_str(&mut run, "run-shell -b ");
    push_str(&mut run, quote(string_of(&shell).as_str()).as_str());
    TerminateBinding { prompt: "Terminate selected STP pane? (y/n)".to_owned(), run_command: string_of(&run) }
}

} // verus!
