use std::collections::HashMap;

use minimum_viewer::app::{App, DirEntry, Mode, ShellResult};
use minimum_viewer::command::CommandId;
use minimum_viewer::config::Config;
use minimum_viewer::keys::{Key, KeyEffect};

fn mk_entry(name: &str) -> DirEntry {
    DirEntry {
        name: name.to_string(),
        path: format!("/tmp/base/{}", name),
        is_dir: false,
        size: Some(1),
        modified: None,
        permissions: None,
        uid: None,
        gid: None,
        owner: None,
        group: None,
        link_target: None,
        is_dangling: false,
    }
}

fn app_with(names: &[&str]) -> App {
    let mut app = App {
        mode: Mode::Browse,
        current_dir: "/tmp/base".to_string(),
        all_entries: vec![],
        entries: vec![],
        selected_index: 0,
        filter_input: String::new(),
        command_input: String::new(),
        command_candidates: vec![],
        command_selected: None,
        shell_input: String::new(),
        create_input: String::new(),
        shell_last_output: None,
        show_shell_popup: false,
        help_selected: None,
        show_delete_confirm: false,
        pending_delete: None,
        needs_full_redraw: false,
        status_bar_expanded: false,
        status_message: String::new(),
        config: Config { cd_on_quit: false, markdown_viewer: "treemd".to_string() },
        user_name_cache: HashMap::new(),
        group_name_cache: HashMap::new(),
    };
    app.reload_entries(Ok(names.iter().map(|n| mk_entry(n)).collect()));
    app
}

fn type_text(app: &mut App, text: &str) {
    for c in text.chars() {
        assert!(matches!(app.handle_key(Key::Char(c), false), KeyEffect::Stay));
    }
}

#[test]
fn browse_keys_move_and_quit() {
    let mut app = app_with(&["a", "b", "c"]);
    app.handle_key(Key::Char('j'), false);
    assert_eq!(app.selected_index, 1);
    app.handle_key(Key::Up, false);
    app.handle_key(Key::Char('k'), false);
    assert_eq!(app.selected_index, 2);
    assert!(matches!(app.handle_key(Key::Char('q'), false), KeyEffect::Quit));
    assert!(matches!(app.handle_key(Key::Backspace, false), KeyEffect::ToParent));
    assert!(matches!(app.handle_key(Key::Enter, false), KeyEffect::Open(p) if p == "/tmp/base/c"));
}

#[test]
fn status_toggle_twice_restores() {
    let mut app = app_with(&["a"]);
    app.handle_key(Key::Char('m'), false);
    assert!(app.status_bar_expanded);
    app.handle_key(Key::Char('m'), false);
    assert!(!app.status_bar_expanded);
}

#[test]
fn control_keys_run_commands() {
    let mut app = app_with(&["a"]);
    assert!(matches!(app.handle_key(Key::Char('d'), true), KeyEffect::Run(CommandId::Delete, a) if a.is_empty()));
    assert!(matches!(app.handle_key(Key::Char('c'), true), KeyEffect::Run(CommandId::Cp, _)));
    assert!(matches!(app.handle_key(Key::Char('d'), false), KeyEffect::Stay));
    assert!(matches!(app.handle_key(Key::Char('y'), false), KeyEffect::Run(CommandId::Yank, _)));
    assert!(matches!(app.handle_key(Key::Char('e'), false), KeyEffect::Run(CommandId::Editor, _)));
    assert!(matches!(app.handle_key(Key::Char('M'), false), KeyEffect::Markdown));
    app.handle_key(Key::Char('r'), true);
    assert_eq!(app.mode, Mode::Command);
    assert_eq!(app.command_input, "rename ");
    assert_eq!(app.command_candidates, vec!["rename"]);
}

#[test]
fn filter_mode_enter_keeps_and_esc_clears() {
    let mut app = app_with(&["alpha", "beta"]);
    app.handle_key(Key::Char('/'), false);
    assert_eq!(app.mode, Mode::Filter);
    type_text(&mut app, "AL");
    assert_eq!(app.entries.len(), 1);
    app.handle_key(Key::Enter, false);
    assert_eq!(app.mode, Mode::Browse);
    assert_eq!(app.filter_input, "AL");
    app.handle_key(Key::Char('/'), false);
    app.handle_key(Key::Esc, false);
    assert_eq!(app.mode, Mode::Browse);
    assert!(app.filter_input.is_empty());
    assert_eq!(app.entries.len(), 2);
}

#[test]
fn palette_runs_commands_from_keys() {
    let mut app = app_with(&["a"]);
    app.handle_key(Key::Char(':'), false);
    type_text(&mut app, "cd /tmp");
    match app.handle_key(Key::Enter, false) {
        KeyEffect::Run(CommandId::Cd, args) => assert_eq!(args, vec!["/tmp".to_string()]),
        _ => panic!("expected cd to run"),
    }
    assert_eq!(app.mode, Mode::Browse);
    app.handle_key(Key::Char(':'), false);
    app.handle_key(Key::Tab, false);
    assert_eq!(app.command_input, "quit");
    assert!(matches!(app.handle_key(Key::Enter, false), KeyEffect::Quit));
}

#[test]
fn shell_and_create_modes_hand_out_their_work() {
    let mut app = app_with(&["a"]);
    app.handle_key(Key::Char('!'), false);
    type_text(&mut app, " ls ");
    assert!(matches!(app.handle_key(Key::Enter, false), KeyEffect::Shell(c) if c == "ls"));
    assert_eq!(app.mode, Mode::Browse);
    app.handle_key(Key::Char('!'), false);
    app.handle_key(Key::Enter, false);
    assert_eq!(app.status_message, "shell: empty command");
    app.handle_key(Key::Char('n'), false);
    assert_eq!(app.mode, Mode::Create);
    type_text(&mut app, "x.txt");
    assert!(matches!(app.handle_key(Key::Enter, false), KeyEffect::Create(r) if r.target == "/tmp/base/x.txt"));
}

#[test]
fn popups_take_the_keys_first() {
    let mut app = app_with(&["a"]);
    app.open_delete_confirm("/tmp/base/dir".to_string(), true);
    assert!(matches!(app.handle_key(Key::Char('j'), false), KeyEffect::Stay));
    assert!(app.show_delete_confirm);
    assert!(matches!(app.handle_key(Key::Char('Y'), false), KeyEffect::Delete(p) if p.path == "/tmp/base/dir"));
    assert!(!app.show_delete_confirm);

    app.shell_last_output = Some(ShellResult {
        exit_code: Some(0),
        stdout: "out".to_string(),
        stderr: String::new(),
        ran_shell: "/bin/sh".to_string(),
    });
    app.show_shell_popup = true;
    app.handle_key(Key::Char('q'), false);
    assert!(app.show_shell_popup);
    app.handle_key(Key::Esc, false);
    assert!(!app.show_shell_popup);
    assert!(app.shell_last_output.is_none());
}

#[test]
fn help_screen_keys() {
    let mut app = app_with(&["a", "b"]);
    app.handle_key(Key::Char('?'), false);
    assert_eq!(app.mode, Mode::Help);
    app.handle_key(Key::Char('k'), false);
    assert_eq!(app.help_selected, Some(16));
    app.handle_key(Key::Char('j'), false);
    assert_eq!(app.help_selected, Some(0));
    app.handle_key(Key::Char('q'), false);
    assert_eq!(app.mode, Mode::Browse);
}

#[test]
fn key_presses_keep_the_directory_and_a_valid_selection() {
    let mut app = app_with(&["a", "b", "c"]);
    let keys = [
        Key::Char('/'), Key::Char('b'), Key::Up, Key::Down, Key::Backspace, Key::Enter,
        Key::Char(':'), Key::Tab, Key::BackTab, Key::Esc, Key::Char('?'), Key::Char('j'),
        Key::Enter, Key::Char('n'), Key::Char('x'), Key::Esc, Key::Other, Key::Char('j'),
    ];
    for key in keys {
        let _ = app.handle_key(key, false);
        assert_eq!(app.current_dir, "/tmp/base");
        assert_eq!(app.all_entries.len(), 3);
        if app.entries.is_empty() {
            assert_eq!(app.selected_index, 0);
        } else {
            assert!(app.selected_index < app.entries.len());
        }
    }
}
