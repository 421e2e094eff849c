use std::collections::HashMap;

use minimum_viewer::app::{App, DirEntry, Mode};
use minimum_viewer::command::filter_candidates;
use minimum_viewer::config::Config;
use minimum_viewer::dispatch::Action;
use minimum_viewer::command::CommandId;

fn mk_entry(name: &str, is_dir: bool) -> DirEntry {
    DirEntry {
        name: name.to_string(),
        path: name.to_string(),
        is_dir,
        size: if is_dir { None } else { Some(1) },
        modified: None,
        permissions: None,
        uid: None,
        gid: None,
        owner: None,
        group: None,
        link_target: None,
        is_dangling: false,
    }
}

fn test_app() -> App {
    App {
        mode: Mode::Browse,
        current_dir: ".".to_string(),
        all_entries: vec![],
        entries: vec![],
        selected_index: 0,
        filter_input: String::new(),
        command_input: String::new(),
        command_candidates: vec![],
        command_selected: None,
        shell_input: String::new(),
        create_input: String::new(),
        shell_last_output: None,
        show_shell_popup: false,
        help_selected: None,
        show_delete_confirm: false,
        pending_delete: None,
        needs_full_redraw: false,
        status_bar_expanded: false,
        status_message: String::new(),
        config: Config { cd_on_quit: false, markdown_viewer: "treemd".to_string() },
        user_name_cache: HashMap::new(),
        group_name_cache: HashMap::new(),
    }
}

fn names(app: &App) -> Vec<&str> {
    app.entries.iter().map(|e| e.name.as_str()).collect()
}

#[test]
fn empty_filter_shows_all_entries() {
    let mut app = test_app();
    app.all_entries = vec![mk_entry("..", true), mk_entry("src", true), mk_entry("README.md", false)];
    app.apply_entry_filter();
    assert_eq!(app.entries.len(), 3);
}

#[test]
fn filter_matches_contains_case_insensitive() {
    let mut app = test_app();
    app.all_entries = vec![
        mk_entry("..", true),
        mk_entry("Cargo.toml", false),
        mk_entry("README.md", false),
        mk_entry("src", true),
    ];
    app.filter_input = "reAd".to_string();
    app.apply_entry_filter();
    assert_eq!(names(&app), vec!["..", "README.md"]);
}

#[test]
fn filter_keeps_parent_directory_entry() {
    let mut app = test_app();
    app.all_entries = vec![mk_entry("..", true), mk_entry("src", true)];
    app.filter_input = "zzz".to_string();
    app.apply_entry_filter();
    assert_eq!(app.entries.len(), 1);
    assert_eq!(app.entries[0].name, "..");
}

#[test]
fn filter_clamps_selection_index() {
    let mut app = test_app();
    app.all_entries = vec![mk_entry("..", true), mk_entry("src", true), mk_entry("README.md", false)];
    app.selected_index = 2;
    app.filter_input = "src".to_string();
    app.apply_entry_filter();
    assert_eq!(app.entries.len(), 2);
    assert_eq!(app.selected_index, 1);
}

#[test]
fn blank_filter_after_trim_shows_all_entries() {
    let mut app = test_app();
    app.all_entries = vec![mk_entry("a", false), mk_entry("b", false)];
    app.filter_input = "   ".to_string();
    app.apply_entry_filter();
    assert_eq!(names(&app), vec!["a", "b"]);
}

#[test]
fn browse_wraps_to_bottom_when_moving_up_from_top() {
    let mut app = test_app();
    app.entries = vec![mk_entry("..", true), mk_entry("src", true), mk_entry("README.md", false)];
    app.selected_index = 0;
    app.move_selection_up();
    assert_eq!(app.selected_index, 2);
}

#[test]
fn browse_wraps_to_top_when_moving_down_from_bottom() {
    let mut app = test_app();
    app.entries = vec![mk_entry("..", true), mk_entry("src", true), mk_entry("README.md", false)];
    app.selected_index = 2;
    app.move_selection_down();
    assert_eq!(app.selected_index, 0);
}

#[test]
fn selection_move_noop_when_entries_empty() {
    let mut app = test_app();
    app.selected_index = 0;
    app.move_selection_up();
    app.move_selection_down();
    assert_eq!(app.selected_index, 0);
}

#[test]
fn selection_stays_on_single_entry_when_wrapping() {
    let mut app = test_app();
    app.entries = vec![mk_entry("..", true)];
    app.selected_index = 0;
    app.move_selection_up();
    assert_eq!(app.selected_index, 0);
    app.move_selection_down();
    assert_eq!(app.selected_index, 0);
}

#[test]
fn up_then_down_returns_to_the_same_entry() {
    let mut app = test_app();
    app.entries = vec![mk_entry("a", false), mk_entry("b", false), mk_entry("c", false)];
    for start in 0..3 {
        app.selected_index = start;
        app.move_selection_up();
        app.move_selection_down();
        assert_eq!(app.selected_index, start);
    }
}

#[test]
fn command_mode_selection_still_clamps() {
    let mut app = test_app();
    app.mode = Mode::Command;
    app.command_candidates = vec!["cd".to_string(), "quit".to_string(), "help".to_string()];
    app.command_selected = Some(0);
    app.move_selection_up();
    assert_eq!(app.command_selected, Some(0));
    app.command_selected = Some(2);
    app.move_selection_down();
    assert_eq!(app.command_selected, Some(2));
}

#[test]
fn command_select_next_cycles_and_syncs_input() {
    let mut app = test_app();
    app.mode = Mode::Command;
    app.command_candidates = vec!["cd".to_string(), "mkdir".to_string()];
    app.command_selected = Some(0);
    app.command_select_next();
    assert_eq!(app.command_selected, Some(1));
    assert_eq!(app.command_input, "mkdir");
    app.command_select_next();
    assert_eq!(app.command_selected, Some(0));
    assert_eq!(app.command_input, "cd");
}

#[test]
fn command_select_prev_cycles_and_syncs_input() {
    let mut app = test_app();
    app.mode = Mode::Command;
    app.command_candidates = vec!["cd".to_string(), "mkdir".to_string()];
    app.command_selected = Some(0);
    app.command_select_prev();
    assert_eq!(app.command_selected, Some(1));
    assert_eq!(app.command_input, "mkdir");
}

#[test]
fn tab_then_shift_tab_returns_to_the_same_candidate() {
    let mut app = test_app();
    app.mode = Mode::Command;
    app.command_candidates = vec!["cd".to_string(), "mkdir".to_string(), "quit".to_string()];
    for start in 0..3 {
        app.command_selected = Some(start);
        app.command_select_next();
        app.command_select_prev();
        assert_eq!(app.command_selected, Some(start));
    }
}

#[test]
fn command_mode_starts_without_selected_candidate() {
    let mut app = test_app();
    app.command_input = "abc".to_string();
    app.command_selected = Some(1);
    app.enter_command_mode();
    assert_eq!(app.mode, Mode::Command);
    assert!(app.command_input.is_empty());
    assert_eq!(app.command_selected, None);
    assert_eq!(app.command_candidates, filter_candidates(""));
}

#[test]
fn command_select_next_starts_from_first_when_unselected() {
    let mut app = test_app();
    app.mode = Mode::Command;
    app.command_candidates = vec!["cd".to_string(), "mkdir".to_string()];
    app.command_selected = None;
    app.command_select_next();
    assert_eq!(app.command_selected, Some(0));
    assert_eq!(app.command_input, "cd");
}

#[test]
fn command_select_prev_starts_from_last_when_unselected() {
    let mut app = test_app();
    app.mode = Mode::Command;
    app.command_candidates = vec!["cd".to_string(), "mkdir".to_string()];
    app.command_selected = None;
    app.command_select_prev();
    assert_eq!(app.command_selected, Some(1));
    assert_eq!(app.command_input, "mkdir");
}

#[test]
fn typing_in_the_palette_refreshes_candidates() {
    let mut app = test_app();
    app.enter_command_mode();
    app.command_push_char('m');
    assert_eq!(app.command_candidates, vec!["mkdir"]);
    app.command_pop_char();
    assert_eq!(app.command_candidates, filter_candidates(""));
}

#[test]
fn execute_selected_command_with_empty_input_and_no_selection_exits_command_mode() {
    let mut app = test_app();
    app.mode = Mode::Command;
    app.command_input.clear();
    app.command_selected = None;
    app.status_message = "old".to_string();
    let action = app.execute_selected_command();
    assert!(matches!(action, Action::Continue));
    assert_eq!(app.mode, Mode::Browse);
    assert_eq!(app.status_message, "old");
}

#[test]
fn execute_selected_command_rejects_unexpected_args_for_quit() {
    let mut app = test_app();
    app.mode = Mode::Command;
    app.command_input = "quit now".to_string();
    app.command_candidates = vec!["quit".to_string()];
    app.command_selected = Some(0);
    let action = app.execute_selected_command();
    assert!(matches!(action, Action::Continue));
    assert_eq!(app.mode, Mode::Browse);
    assert_eq!(app.status_message, "quit: unexpected arguments");
}

#[test]
fn execute_selected_command_rejects_unexpected_args_for_help() {
    let mut app = test_app();
    app.mode = Mode::Command;
    app.command_input = "help extra".to_string();
    app.command_candidates = vec!["help".to_string()];
    app.command_selected = Some(0);
    let action = app.execute_selected_command();
    assert!(matches!(action, Action::Continue));
    assert_eq!(app.mode, Mode::Browse);
    assert_eq!(app.status_message, "help: unexpected arguments");
    assert_ne!(app.mode, Mode::Help);
}

#[test]
fn execute_selected_command_quits_on_plain_quit() {
    let mut app = test_app();
    app.mode = Mode::Command;
    app.command_input = "q".to_string();
    let action = app.execute_selected_command();
    assert!(matches!(action, Action::Quit));
}

#[test]
fn execute_selected_command_reports_unknown_command() {
    let mut app = test_app();
    app.mode = Mode::Command;
    app.command_input = "zzz".to_string();
    let action = app.execute_selected_command();
    assert!(matches!(action, Action::Continue));
    assert_eq!(app.status_message, "no matching command");
}

fn run_args(action: Action, id: CommandId) -> Vec<String> {
    match action {
        Action::Run(got, args) if got == id => args,
        _ => panic!("expected the command to run"),
    }
}

#[test]
fn execute_selected_command_passes_args_to_cd() {
    let mut app = test_app();
    app.mode = Mode::Command;
    app.command_input = "cd a b".to_string();
    app.command_candidates = vec!["cd".to_string()];
    app.command_selected = Some(0);
    let args = run_args(app.execute_selected_command(), CommandId::Cd);
    assert_eq!(app.plan_cd(&args, None), None);
    assert_eq!(app.status_message, "cd: too many arguments");
}

#[test]
fn execute_selected_command_passes_args_to_delete() {
    let mut app = test_app();
    app.mode = Mode::Command;
    app.command_input = "delete a b".to_string();
    app.command_candidates = vec!["delete".to_string()];
    app.command_selected = Some(0);
    let args = run_args(app.execute_selected_command(), CommandId::Delete);
    assert_eq!(app.plan_delete(&args, None), None);
    assert_eq!(app.status_message, "delete: too many arguments");
}

#[test]
fn execute_selected_command_passes_args_to_rename() {
    let mut app = test_app();
    app.mode = Mode::Command;
    app.command_input = "rename a b".to_string();
    app.command_candidates = vec!["rename".to_string()];
    app.command_selected = Some(0);
    let args = run_args(app.execute_selected_command(), CommandId::Rename);
    assert!(app.plan_rename(&args).is_none());
    assert_eq!(app.status_message, "rename: too many arguments");
}

#[test]
fn on_directory_changed_resets_filter_and_mode() {
    let mut app = test_app();
    app.mode = Mode::Filter;
    app.filter_input = "src".to_string();
    app.selected_index = 3;
    app.on_directory_changed("/tmp/base/sub".to_string(), Ok(vec![mk_entry("..", true), mk_entry("x", false)]));
    assert_eq!(app.mode, Mode::Browse);
    assert!(app.filter_input.is_empty());
    assert_eq!(app.selected_index, 0);
    assert_eq!(app.current_dir, "/tmp/base/sub");
    assert_eq!(app.entries.len(), 2);
}

#[test]
fn move_to_parent_directory_moves_when_parent_exists() {
    let mut app = test_app();
    app.current_dir = "/tmp/base/sub".to_string();
    app.mode = Mode::Filter;
    app.filter_input = "tmp".to_string();
    assert_eq!(app.parent_directory(), Some("/tmp/base".to_string()));
    app.move_to_parent_directory(Ok(vec![mk_entry("sub", true)]));
    assert_eq!(app.current_dir, "/tmp/base");
    assert_eq!(app.mode, Mode::Browse);
    assert!(app.filter_input.is_empty());
    assert!(app.status_message.starts_with("cd: "));
}

#[test]
fn move_to_parent_directory_sets_message_when_parent_missing() {
    let mut app = test_app();
    app.current_dir = "/".to_string();
    app.mode = Mode::Filter;
    app.filter_input = "tmp".to_string();
    app.move_to_parent_directory(Ok(vec![]));
    assert_eq!(app.current_dir, "/");
    assert_eq!(app.mode, Mode::Browse);
    assert!(app.filter_input.is_empty());
    assert_eq!(app.status_message, "cd: parent directory not found");
}

#[test]
fn toggle_status_bar_expanded_switches_state() {
    let mut app = test_app();
    assert!(!app.status_bar_expanded);
    app.toggle_status_bar_expanded();
    assert!(app.status_bar_expanded);
    app.toggle_status_bar_expanded();
    assert!(!app.status_bar_expanded);
}

#[test]
fn full_redraw_request_is_consumed_once() {
    let mut app = test_app();
    assert!(!app.consume_full_redraw_request());
    app.request_full_redraw();
    assert!(app.consume_full_redraw_request());
    assert!(!app.consume_full_redraw_request());
}

#[test]
fn reload_error_empties_listing_and_reports() {
    let mut app = test_app();
    app.all_entries = vec![mk_entry("a", false)];
    app.reload_entries(Err("permission denied".to_string()));
    assert!(app.entries.is_empty());
    assert_eq!(app.status_message, "Error: permission denied");
}

#[test]
fn new_app_reports_config_error_and_uses_defaults() {
    let app = App::new("/tmp".to_string(), Err("broken".to_string()), Ok(vec![mk_entry("..", true)]));
    assert_eq!(app.status_message, "config: broken");
    assert_eq!(app.config, Config { cd_on_quit: false, markdown_viewer: "treemd".to_string() });
    assert_eq!(app.mode, Mode::Browse);
    assert_eq!(app.entries.len(), 1);
    assert_eq!(app.command_candidates, filter_candidates(""));
    let ok = App::new(
        "/tmp".to_string(),
        Ok(Config { cd_on_quit: true, markdown_viewer: "glow".to_string() }),
        Ok(vec![]),
    );
    assert!(ok.status_message.is_empty());
    assert!(ok.config.cd_on_quit);
}

#[test]
fn help_navigation_wraps_and_enter_runs_the_line() {
    let mut app = test_app();
    app.enter_help_mode();
    assert_eq!(app.help_selected, Some(0));
    app.help_move_up();
    assert_eq!(app.help_selected, Some(16));
    app.help_move_down();
    assert_eq!(app.help_selected, Some(0));
    // The first help line is "up": it moves the selection and closes help.
    app.entries = vec![mk_entry("a", false), mk_entry("b", false)];
    app.selected_index = 1;
    let action = app.execute_help_selection();
    assert!(matches!(action, Action::Continue));
    assert_eq!(app.mode, Mode::Browse);
    assert_eq!(app.selected_index, 0);
}

#[test]
fn help_line_with_arguments_opens_the_palette() {
    let mut app = test_app();
    app.enter_help_mode();
    app.help_selected = Some(15); // cd, which needs a path
    let action = app.execute_help_selection();
    assert!(matches!(action, Action::Continue));
    assert_eq!(app.mode, Mode::Command);
    assert_eq!(app.command_input, "cd ");
    assert_eq!(app.command_candidates, vec!["cd"]);
}

#[test]
fn delete_confirmation_yes_and_no() {
    let mut app = test_app();
    app.open_delete_confirm("/tmp/x".to_string(), true);
    assert!(app.show_delete_confirm);
    assert_eq!(app.status_message, "delete: confirm with y/N");
    app.confirm_delete_no();
    assert!(!app.show_delete_confirm);
    assert!(app.pending_delete.is_none());
    assert_eq!(app.status_message, "delete: canceled");
    app.open_delete_confirm("/tmp/x".to_string(), true);
    let taken = app.take_pending_delete().expect("a pending deletion");
    assert_eq!(taken.path, "/tmp/x");
    assert!(!app.show_delete_confirm);
}

#[test]
fn command_names_ignore_ascii_case() {
    let lower = minimum_viewer::command::find_by_name_or_alias("cd");
    assert!(lower.is_some());
    assert_eq!(minimum_viewer::command::find_by_name_or_alias("  CD "), lower);
    assert_eq!(minimum_viewer::command::find_by_name_or_alias("Cd"), lower);
    assert_eq!(filter_candidates("RE"), filter_candidates("re"));
    assert!(!filter_candidates("RE").is_empty());
}
