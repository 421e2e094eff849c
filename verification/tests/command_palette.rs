use minimum_viewer::command::{filter_candidates, help_items, resolve_command, CommandId};

#[test]
fn filter_candidates_returns_command_mode_commands_for_empty_input() {
    let list = filter_candidates("");
    assert!(list.contains(&"quit".to_string()));
    assert!(list.contains(&"cd".to_string()));
    assert!(list.contains(&"mkdir".to_string()));
    assert!(list.contains(&"delete".to_string()));
    assert!(list.contains(&"rename".to_string()));
    assert!(list.contains(&"help".to_string()));
    // Navigation-only commands are not offered.
    assert!(!list.contains(&"up".to_string()));
    assert!(!list.contains(&"down".to_string()));
    assert!(!list.contains(&"parent".to_string()));
}

#[test]
fn filter_candidates_matches_prefix_case_insensitive() {
    assert_eq!(filter_candidates("C"), vec!["cd", "cp"]);
    assert_eq!(filter_candidates("HE"), vec!["help"]);
}

#[test]
fn filter_candidates_ignores_surrounding_whitespace_and_keeps_table_order() {
    assert_eq!(filter_candidates("  c  "), vec!["cd", "cp"]);
    assert_eq!(
        filter_candidates(""),
        vec!["quit", "cd", "mkdir", "delete", "rename", "help", "yank", "cp"]
    );
    assert!(filter_candidates("zzz").is_empty());
}

#[test]
fn typing_more_only_narrows_candidates() {
    let shorter = filter_candidates("c");
    let longer = filter_candidates("cd");
    for name in &longer {
        assert!(shorter.contains(name));
    }
    assert_eq!(longer, vec!["cd"]);
}

#[test]
fn resolve_command_prefers_exact_input() {
    assert_eq!(resolve_command("help", None, &["quit".to_string()]), Some(CommandId::Help));
    assert_eq!(resolve_command("?", None, &["quit".to_string()]), Some(CommandId::Help));
}

#[test]
fn resolve_command_falls_back_to_selected_candidate() {
    let candidates = vec!["mkdir".to_string(), "quit".to_string()];
    assert_eq!(resolve_command("", Some(1), &candidates), Some(CommandId::Quit));
    assert_eq!(resolve_command("zzz", Some(0), &candidates), Some(CommandId::Mkdir));
}

#[test]
fn resolve_command_returns_none_when_no_candidate_exists() {
    assert_eq!(resolve_command("zzz", Some(0), &[]), None);
}

#[test]
fn resolve_command_returns_none_when_selected_is_none_and_input_not_exact() {
    let candidates = vec!["mkdir".to_string(), "quit".to_string()];
    assert_eq!(resolve_command("", None, &candidates), None);
    assert_eq!(resolve_command("zzz", None, &candidates), None);
}

#[test]
fn resolve_command_accepts_aliases_in_any_case() {
    assert_eq!(resolve_command("Q", None, &[]), Some(CommandId::Quit));
    assert_eq!(resolve_command("  YANK ", None, &[]), Some(CommandId::Yank));
    assert_eq!(resolve_command("y", None, &[]), Some(CommandId::Yank));
}

#[test]
fn help_items_includes_all_keybindings_first_then_command_only() {
    let items = help_items();
    // The first lines come from the key bindings and show their keys.
    assert!(items[0].keys_display.is_some());
    // cd and mkdir have no key and come at the end.
    let cd_item = items.iter().find(|i| i.command_name == "cd").unwrap();
    assert!(cd_item.keys_display.is_none());
    let mkdir_item = items.iter().find(|i| i.command_name == "mkdir").unwrap();
    assert!(mkdir_item.keys_display.is_none());
}

#[test]
fn help_items_has_no_duplicates() {
    let items = help_items();
    let mut seen = Vec::new();
    for item in &items {
        assert!(!seen.contains(&item.command_id), "duplicate: {:?}", item.command_id);
        seen.push(item.command_id);
    }
}

#[test]
fn help_items_lists_every_command_once() {
    let items = help_items();
    assert_eq!(items.len(), 17);
    assert_eq!(items[0].command_id, CommandId::SelectUp);
    assert_eq!(items[0].keys_display, Some("Up, k"));
    let bound = items.iter().take_while(|i| i.keys_display.is_some()).count();
    assert_eq!(bound, 15);
}
