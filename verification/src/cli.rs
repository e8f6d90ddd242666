//! The command line the CLI accepts, as plain values.

use vstd::prelude::*;

verus! {

/// The parsed command line.
#[derive(Clone, Debug, PartialEq, Eq)]
pub struct Cli {
    pub command: Command,
}

/// The subcommands.
#[derive(Clone, Debug, PartialEq, Eq)]
pub enum Command {
    Terminal(TerminalArgs),
    Panel(PanelArgs),
    PanelSelect(PanelSelectArgs),
    OpenCode(OpenCodeArgs),
    Terminate(TerminateArgs),
    Detach(DetachArgs),
    QaSendFocused(SendFocusedArgs),
    QaCapture(CaptureArgs),
    Registry(RegistryCommand),
    Doctor(DoctorArgs),
}

/// The registry (`--registry`, or `STP_REGISTRY`) and the tmux socket
/// (`--socket`, or `STP_TMUX_SOCKET`, else "stp-managed").
#[derive(Clone, Debug, PartialEq, Eq)]
pub struct CommonStateArgs {
    pub registry: Option<String>,
    pub socket: String,
}

/// Registers a terminal for a workspace and attaches to its session.
#[derive(Clone, Debug, PartialEq, Eq)]
pub struct TerminalArgs {
    pub state: CommonStateArgs,
    pub workspace: String,
    pub window_id: String,
    pub terminal_id: String,
    pub shell: Option<String>,
    pub detach: bool,
}

/// Opens the panel (`--layout` "2x2" by default), or prints it once.
#[derive(Clone, Debug, PartialEq, Eq)]
pub struct PanelArgs {
    pub state: CommonStateArgs,
    pub layout: String,
    pub once: bool,
}

/// A click on the panel's sidebar, at the mouse line tmux reports.
#[derive(Clone, Debug, PartialEq, Eq)]
pub struct PanelSelectArgs {
    pub state: CommonStateArgs,
    pub mouse_line: String,
}

/// Opens a terminal's workspace in the editor.
#[derive(Clone, Debug, PartialEq, Eq)]
pub struct OpenCodeArgs {
    pub registry: Option<String>,
    pub terminal_id: String,
    pub dry_run: bool,
    pub log: Option<String>,
}

/// Kills a terminal's session (only with `--yes`).
#[derive(Clone, Debug, PartialEq, Eq)]
pub struct TerminateArgs {
    pub registry: Option<String>,
    pub terminal_id: String,
    pub yes: bool,
}

/// Hides a terminal from the panel without killing its session.
#[derive(Clone, Debug, PartialEq, Eq)]
pub struct DetachArgs {
    pub registry: Option<String>,
    pub terminal_id: String,
}

/// Sends text to a terminal's session.
#[derive(Clone, Debug, PartialEq, Eq)]
pub struct SendFocusedArgs {
    pub state: CommonStateArgs,
    pub terminal_id: String,
    pub text: String,
}

/// Prints the last `lines` lines (50 by default) of a terminal's session.
#[derive(Clone, Debug, PartialEq, Eq)]
pub struct CaptureArgs {
    pub registry: Option<String>,
    pub terminal_id: String,
    pub lines: usize,
}

/// Checks the tools the CLI needs.
#[derive(Clone, Debug, PartialEq, Eq)]
pub struct DoctorArgs {
    pub registry: Option<String>,
}

/// The registry maintenance subcommands.
#[derive(Clone, Debug, PartialEq, Eq)]
pub enum RegistrySubcommand {
    RemoveStale(RemoveStaleArgs),
    CleanupZombies(CleanupZombiesArgs),
}

#[derive(Clone, Debug, PartialEq, Eq)]
pub struct RegistryCommand {
    pub command: RegistrySubcommand,
}

/// Drops the stale entries (only with `--yes`).
#[derive(Clone, Debug, PartialEq, Eq)]
pub struct RemoveStaleArgs {
    pub registry: Option<String>,
    pub yes: bool,
}

/// Drops the live entries whose session is gone (only with `--yes`).
#[derive(Clone, Debug, PartialEq, Eq)]
pub struct CleanupZombiesArgs {
    pub registry: Option<String>,
    pub yes: bool,
}

} // verus!
