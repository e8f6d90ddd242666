use stp::ids::{TerminalId, WindowId, WorkspaceId};
use stp::panel::bindings::terminate_binding;
use stp::panel::terminal_size::{parse_cols_rows_text, parse_rows_cols};
use stp::panel::tmux_grid::{command_at, split_plan};
use stp::panel::tmux_panel::{
    connect_registered_terminal, empty_slot_number, first_empty_pane, pane_title_for_key, select_from_sidebar,
    ConnectPlan, PaneInfo, SidebarSelection,
};
use stp::panel::Layout;
use stp::registry::{ManagedTerminal, TerminalBackend, TerminalStatus};

fn terminal(id: u128) -> ManagedTerminal {
    ManagedTerminal {
        terminal_id: TerminalId::from_u128(id),
        workspace_id: WorkspaceId::new("workspace".to_owned()),
        window_id: WindowId::from_u128(1),
        workspace_path: "/tmp/workspace".to_owned(),
        repo_root: "/tmp/workspace".to_owned(),
        branch_name: Some("main".to_owned()),
        backend: TerminalBackend::legacy_tmux("sock".to_owned(), "sess".to_owned(), "0".to_owned()),
        tmux_socket: "sock".to_owned(),
        tmux_session: "sess".to_owned(),
        tmux_window: "0".to_owned(),
        created_at: 0,
        last_seen_at: 0,
        status: TerminalStatus::Live,
    }
}

fn pane(id: &str, key: &str) -> PaneInfo {
    PaneInfo { pane_id: id.to_owned(), pane_key: key.to_owned() }
}

#[test]
fn terminal_size_parsers_keep_column_row_order() {
    let from_tty = parse_rows_cols("28 120\n").expect("stty size");
    let from_tmux = parse_cols_rows_text("120 28\n").expect("tmux size");

    assert_eq!((from_tty.cols(), from_tty.rows()), (120, 28));
    assert_eq!((from_tmux.cols(), from_tmux.rows()), (120, 28));
}

#[test]
fn terminal_size_parsers_reject_tiny_or_invalid_sizes() {
    assert_eq!(parse_rows_cols("19 120\n"), None);
    assert_eq!(parse_cols_rows_text("120 nope\n"), None);
}

#[test]
fn terminate_binding_uses_prefix_safe_cli_command() {
    let binding = terminate_binding("/opt/stp/bin/stp", "/tmp/registry.json", "stp-managed");

    assert!(binding.prompt.contains("selected STP pane"));
    assert!(binding.run_command.contains("run-shell -b"));
    assert!(!binding.run_command.contains("run-shell -b -F"));
    assert!(binding.run_command.contains("terminate --registry"));
    assert!(binding.run_command.contains("/tmp/registry.json"));
    assert!(binding.run_command.contains("pane_id=#{q:pane_id}"));
    assert!(binding.run_command.contains("##{@stp-pane-key}"));
    assert!(binding.run_command.contains("tmux -L"));
    assert!(binding.run_command.contains("stp-managed"));
    assert!(binding.run_command.contains("--terminal-id \"$terminal_id\" --yes"));
    assert!(binding.run_command.contains("No selected STP terminal"));
    assert!(binding.run_command.contains("stp-sidebar"));
}

#[test]
fn pane_titles_name_empty_slots_and_short_ids() {
    assert_eq!(pane_title_for_key("empty:3"), "slot 3 empty");
    assert_eq!(pane_title_for_key("00000000-0000-0000-0000-000000000101"), "STP 00000000");
    assert_eq!(pane_title_for_key("abc"), "STP abc");
    assert_eq!(empty_slot_number("empty:12"), Some(12));
    assert_eq!(empty_slot_number("empty:x"), None);
    assert_eq!(empty_slot_number("stp-sidebar"), None);
}

#[test]
fn first_empty_pane_takes_the_smallest_slot() {
    let panes = vec![pane("%0", "stp-sidebar"), pane("%1", "empty:3"), pane("%2", "empty:2"), pane("%3", "empty:2")];
    assert_eq!(first_empty_pane(&panes), Some(2));
    assert_eq!(first_empty_pane(&vec![pane("%0", "stp-sidebar")]), None);
}

#[test]
fn sidebar_click_focuses_visible_then_empty_then_rightmost() {
    let t = terminal(0x101);
    let key = t.terminal_id.to_string();
    let shown = vec![pane("%0", "stp-sidebar"), pane("%1", "empty:1"), pane("%2", &key)];
    assert!(matches!(select_from_sidebar(Some(t.duplicate()), false, &shown), SidebarSelection::Focus { pane: 2 }));
    let with_empty = vec![pane("%0", "stp-sidebar"), pane("%1", "other"), pane("%2", "empty:2")];
    match select_from_sidebar(Some(t.duplicate()), false, &with_empty) {
        SidebarSelection::Load { pane, command, key: k } => {
            assert_eq!(pane, 2);
            assert!(command.contains("attach-session -t 'sess'"));
            assert_eq!(k, key);
        },
        other => panic!("unexpected {other:?}"),
    }
    let full = vec![pane("%0", "stp-sidebar"), pane("%1", "a"), pane("%2", "b"), pane("%3", "stp-sidebar")];
    assert!(matches!(select_from_sidebar(Some(t.duplicate()), false, &full), SidebarSelection::Load { pane: 2, .. }));
    assert!(matches!(select_from_sidebar(None, false, &full), SidebarSelection::NoSession));
    assert!(matches!(select_from_sidebar(Some(t.duplicate()), true, &full), SidebarSelection::SessionGone));
    assert!(matches!(
        select_from_sidebar(Some(t), false, &vec![pane("%0", "stp-sidebar")]),
        SidebarSelection::NoContentPane
    ));
}

#[test]
fn connecting_uses_the_lowest_empty_slot() {
    let t = terminal(0x202);
    let key = t.terminal_id.to_string();
    assert!(matches!(connect_registered_terminal(&t, &vec![pane("%1", &key)]), ConnectPlan::AlreadyShown));
    assert!(matches!(connect_registered_terminal(&t, &vec![pane("%1", "x")]), ConnectPlan::NoEmptySlot));
    let panes = vec![pane("%1", "empty:4"), pane("%2", "empty:1")];
    assert!(matches!(connect_registered_terminal(&t, &panes), ConnectPlan::Load { pane: 1, .. }));
}

#[test]
fn split_plans_make_one_pane_per_slot() {
    assert_eq!(split_plan(Layout::TwoByTwo).len(), 3);
    let plan = split_plan(Layout::ThreeByThree);
    assert_eq!(plan.len(), 8);
    assert_eq!((plan[0].from, plan[0].right, plan[0].percent), (0, true, 67));
    assert_eq!((plan[7].from, plan[7].right, plan[7].percent, plan[7].command_slot), (5, false, 50, 8));
    let commands = vec!["a".to_owned()];
    assert_eq!(command_at(&commands, 0).map(String::as_str), Some("a"));
    assert_eq!(command_at(&commands, 1), None);
}
