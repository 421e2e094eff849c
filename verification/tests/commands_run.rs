use std::collections::HashMap;

use minimum_viewer::app::{App, DirEntry, Mode};
use minimum_viewer::commands::{
    build_editor_command, build_viewer_command, choose_named_destination, copy_into_itself, copy_name_candidate,
    copy_name_fallback, first_copy_name, next_copy_name, CopyDest, CopyNameStep, CpPlan, FsOutcome,
    PathKind, RenameOutcome,
};
use minimum_viewer::config::Config;
use minimum_viewer::keys::{Key, KeyEffect};
use minimum_viewer::listing::{ancestor_chain, collect_missing_ancestors};
use minimum_viewer::open::{program_outcome, resolve_open_target, FileType, MetaRead, OpenTarget};

fn mk_entry(name: &str, is_dir: bool) -> DirEntry {
    DirEntry {
        name: name.to_string(),
        path: format!("/tmp/base/{}", name),
        is_dir,
        size: if is_dir { None } else { Some(1) },
        modified: None,
        permissions: None,
        uid: None,
        gid: None,
        owner: None,
        group: None,
        link_target: None,
        is_dangling: false,
    }
}

fn test_app() -> App {
    App::new(
        "/tmp/base".to_string(),
        Ok(Config { cd_on_quit: false, markdown_viewer: "treemd".to_string() }),
        Ok(vec![]),
    )
}

fn with_entries(entries: Vec<DirEntry>) -> App {
    let mut app = test_app();
    app.reload_entries(Ok(entries));
    app
}

fn parent_entry() -> DirEntry {
    let mut e = mk_entry("..", true);
    e.path = "/tmp".to_string();
    e
}

#[test]
fn cd_run_rejects_multiple_arguments() {
    let mut app = test_app();
    assert_eq!(app.plan_cd(&["a".to_string(), "b".to_string()], None), None);
    assert_eq!(app.status_message, "cd: too many arguments");
}

#[test]
fn cd_run_no_args_goes_to_home() {
    let mut app = test_app();
    assert_eq!(app.plan_cd(&[], Some("/tmp/home".to_string())), Some("/tmp/home".to_string()));
    assert_eq!(app.plan_cd(&[], None), None);
    assert_eq!(app.status_message, "cd: HOME not set");
}

#[test]
fn cd_run_supports_relative_path_argument() {
    let mut app = test_app();
    let target = app.plan_cd(&["sub".to_string()], None).expect("a target");
    assert_eq!(target, "/tmp/base/sub");
    app.finish_cd(target, PathKind::Directory, Ok(vec![mk_entry("inner", false)]));
    assert_eq!(app.current_dir, "/tmp/base/sub");
    assert_eq!(app.status_message, "cd: /tmp/base/sub");
    assert_eq!(app.entries.len(), 1);
}

#[test]
fn cd_run_supports_tilde_path_argument() {
    let mut app = test_app();
    let target = app.plan_cd(&["~/project".to_string()], Some("/tmp/home".to_string()));
    assert_eq!(target, Some("/tmp/home/project".to_string()));
}

#[test]
fn cd_reports_missing_and_file_targets() {
    let mut app = test_app();
    app.finish_cd("/nope".to_string(), PathKind::Missing("No such file or directory".to_string()), Ok(vec![]));
    assert_eq!(app.status_message, "cd: /nope: No such file or directory");
    app.finish_cd("/etc/hosts".to_string(), PathKind::File, Ok(vec![]));
    assert_eq!(app.status_message, "cd: '/etc/hosts' is not a directory");
    assert_eq!(app.current_dir, "/tmp/base");
}

#[test]
fn mkdir_requires_argument() {
    let mut app = test_app();
    assert!(app.plan_mkdir(&[]).is_none());
    assert_eq!(app.status_message, "mkdir: missing directory name");
}

#[test]
fn mkdir_rejects_multiple_arguments() {
    let mut app = test_app();
    assert!(app.plan_mkdir(&["a".to_string(), "b".to_string()]).is_none());
    assert_eq!(app.status_message, "mkdir: too many arguments");
}

#[test]
fn mkdir_creates_directory() {
    let mut app = test_app();
    let (name, target) = app.plan_mkdir(&["child".to_string()]).expect("a plan");
    assert_eq!(target, "/tmp/base/child");
    app.finish_mkdir(&name, FsOutcome::Done(Ok(vec![mk_entry("child", true)])));
    assert_eq!(app.status_message, "mkdir: created 'child'");
    assert_eq!(app.entries.len(), 1);
}

#[test]
fn delete_rejects_parent_entry_when_no_args() {
    let mut app = with_entries(vec![parent_entry()]);
    app.selected_index = 0;
    assert_eq!(app.plan_delete(&[], None), None);
    assert_eq!(app.status_message, "delete: cannot delete parent entry");
}

#[test]
fn delete_file_without_args_uses_selected_entry() {
    let mut app = with_entries(vec![parent_entry(), mk_entry("selected.txt", false)]);
    app.selected_index = 1;
    let target = app.plan_delete(&[], None).expect("a target");
    assert_eq!(target, "/tmp/base/selected.txt");
    assert!(app.delete_checked(target.clone(), PathKind::File));
    app.finish_delete(&target, FsOutcome::Done(Ok(vec![parent_entry()])));
    assert_eq!(app.status_message, "delete: removed '/tmp/base/selected.txt'");
}

#[test]
fn delete_directory_enters_confirmation_state() {
    let mut app = test_app();
    let target = app.plan_delete(&["dir".to_string()], None).expect("a target");
    assert!(!app.delete_checked(target, PathKind::Directory));
    assert!(app.show_delete_confirm);
    assert!(app.pending_delete.is_some());
}

#[test]
fn rename_requires_argument() {
    let mut app = test_app();
    assert!(app.plan_rename(&[]).is_none());
    assert_eq!(app.status_message, "rename: missing new name");
}

#[test]
fn rename_rejects_separator() {
    let mut app = test_app();
    assert!(app.plan_rename(&["a/b".to_string()]).is_none());
    assert_eq!(app.status_message, "rename: new name must not contain path separators");
}

#[test]
fn rename_rejects_parent_entry() {
    let mut app = with_entries(vec![parent_entry()]);
    app.selected_index = 0;
    assert!(app.plan_rename(&["next".to_string()]).is_none());
    assert_eq!(app.status_message, "rename: cannot rename parent entry");
}

#[test]
fn rename_selected_entry() {
    let mut app = with_entries(vec![mk_entry("old.txt", false)]);
    let plan = app.plan_rename(&["new.txt".to_string()]).expect("a plan");
    assert_eq!(plan.source, "/tmp/base/old.txt");
    assert_eq!(plan.destination, "/tmp/base/new.txt");
    app.finish_rename(&plan, RenameOutcome::Renamed(Ok(vec![mk_entry("a", false), mk_entry("new.txt", false)])));
    assert_eq!(app.status_message, "rename: 'old.txt' -> 'new.txt'");
    assert_eq!(app.selected_index, 1);
}

#[test]
fn rename_rejects_existing_destination() {
    let mut app = with_entries(vec![mk_entry("old.txt", false)]);
    let plan = app.plan_rename(&["new.txt".to_string()]).expect("a plan");
    app.finish_rename(&plan, RenameOutcome::AlreadyExists);
    assert_eq!(app.status_message, "rename: 'new.txt' already exists");
}

#[test]
fn yank_returns_false_and_sets_no_selection() {
    let mut app = test_app();
    app.entries = vec![];
    app.selected_index = 0;
    assert_eq!(app.plan_yank(&[], None), None);
    assert_eq!(app.status_message, "yank: no selection");
}

#[test]
fn yank_rejects_multiple_args() {
    let mut app = test_app();
    assert_eq!(app.plan_yank(&["a".to_string(), "b".to_string()], None), None);
    assert_eq!(app.status_message, "yank: too many arguments");
}

#[test]
fn yank_file_copies_path_and_sets_yanked_message() {
    let mut app = with_entries(vec![mk_entry("sample.txt", false)]);
    let path = app.plan_yank(&[], None).expect("a path");
    app.finish_yank(&path, Ok(()));
    assert_eq!(app.status_message, "yanked: /tmp/base/sample.txt");
    app.finish_yank(&path, Err("clipboard unavailable".to_string()));
    assert_eq!(app.status_message, "yank: clipboard unavailable");
}

#[test]
fn cp_rejects_parent_entry() {
    let mut app = with_entries(vec![parent_entry()]);
    app.selected_index = 0;
    assert!(app.plan_cp(&[], None).is_none());
    assert_eq!(app.status_message, "cp: cannot copy parent entry");
}

#[test]
fn cp_rejects_too_many_args() {
    let mut app = test_app();
    assert!(app.plan_cp(&["a".into(), "b".into(), "c".into()], None).is_none());
    assert_eq!(app.status_message, "cp: too many arguments");
}

#[test]
fn cp_splits_arguments_on_whitespace() {
    let mut app = test_app();
    match app.plan_cp(&["a.txt b.txt".to_string()], None) {
        Some(CpPlan::Explicit { src, dest }) => {
            assert_eq!(src, "/tmp/base/a.txt");
            assert_eq!(dest, "/tmp/base/b.txt");
        }
        _ => panic!("expected an explicit copy"),
    }
}

#[test]
fn cp_with_one_arg_from_current_dir() {
    let mut app = test_app();
    match app.plan_cp(&["/tmp/other/file.txt".to_string()], None) {
        Some(CpPlan::Named { src, candidate }) => {
            assert_eq!(src, "/tmp/other/file.txt");
            assert_eq!(candidate, "/tmp/base/file.txt");
        }
        _ => panic!("expected a named copy"),
    }
}

#[test]
fn generate_copy_name_basic() {
    assert_eq!(copy_name_candidate("/tmp/base/test.txt", 1), "/tmp/base/test(1).txt");
    assert_eq!(copy_name_candidate("/tmp/base/test.txt", 12), "/tmp/base/test(12).txt");
    assert_eq!(copy_name_candidate("/tmp/base/Makefile", 2), "/tmp/base/Makefile(2)");
    assert_eq!(copy_name_fallback("/tmp/base/test.txt"), "/tmp/base/test(copy).txt");
    assert_eq!(copy_name_candidate("test.txt", 1), "test(1).txt");
}

#[test]
fn cp_named_destination_choice() {
    assert!(matches!(
        choose_named_destination("/tmp/base/a.txt", "/tmp/base/a.txt", true),
        CopyDest::Fresh(p) if p == "/tmp/base/a.txt"
    ));
    assert!(matches!(
        choose_named_destination("/tmp/x/a.txt", "/tmp/base/a.txt", true),
        CopyDest::Fresh(p) if p == "/tmp/base/a.txt"
    ));
    assert!(matches!(
        choose_named_destination("/tmp/x/a.txt", "/tmp/base/a.txt", false),
        CopyDest::Use(p) if p == "/tmp/base/a.txt"
    ));
}

#[test]
fn cp_reports_copy_and_selects_it() {
    let mut app = test_app();
    app.finish_cp(
        "/tmp/base/file.txt",
        "/tmp/base/file(1).txt",
        FsOutcome::Done(Ok(vec![mk_entry("file(1).txt", false), mk_entry("file.txt", false)])),
    );
    assert_eq!(app.status_message, "cp: '/tmp/base/file.txt' -> '/tmp/base/file(1).txt'");
    assert_eq!(app.selected_index, 0);
}

#[test]
fn reload_rejects_arguments() {
    let mut app = test_app();
    assert!(!app.reload_args_accepted(&["extra".to_string()]));
    assert_eq!(app.status_message, "reload: unexpected arguments");
}

#[test]
fn reload_updates_entries_and_keeps_selected_name_when_present() {
    let mut app = with_entries(vec![mk_entry("a.txt", false), mk_entry("b.txt", false)]);
    app.selected_index = 1;
    app.refresh(Ok(vec![mk_entry("a.txt", false), mk_entry("aa.txt", false), mk_entry("b.txt", false), mk_entry("c.txt", false)]));
    let selected = app.selected_entry().expect("selection must exist");
    assert_eq!(selected.name, "b.txt");
    assert!(app.entries.iter().any(|entry| entry.name == "c.txt"));
    assert_eq!(app.status_message, "reload: refreshed 4 entries");
}

#[test]
fn reload_falls_back_to_clamped_previous_index_when_selected_name_disappears() {
    let mut app = with_entries(vec![mk_entry("a.txt", false), mk_entry("b.txt", false)]);
    app.selected_index = 1;
    app.refresh(Ok(vec![mk_entry("a.txt", false)]));
    let selected = app.selected_entry().expect("selection must exist");
    assert_eq!(selected.name, "a.txt");
}

#[test]
fn reload_preserves_filter_and_reapplies_to_updated_entries() {
    let mut app = with_entries(vec![mk_entry("alpha.txt", false), mk_entry("beta.txt", false)]);
    app.filter_input = "alpha".to_string();
    app.apply_entry_filter();
    assert!(app.entries.iter().any(|entry| entry.name == "alpha.txt"));
    assert!(!app.entries.iter().any(|entry| entry.name == "beta.txt"));
    app.refresh(Ok(vec![mk_entry("alpha2.txt", false), mk_entry("beta.txt", false)]));
    assert_eq!(app.filter_input, "alpha");
    assert!(app.entries.iter().any(|entry| entry.name == "alpha2.txt"));
    assert!(!app.entries.iter().any(|entry| entry.name == "beta.txt"));
}

#[test]
fn editor_run_sets_error_when_no_selection() {
    let mut app = test_app();
    assert_eq!(app.plan_editor(&None), None);
    assert_eq!(app.status_message, "editor: no selection");
}

#[test]
fn run_sets_error_when_editor_is_not_set() {
    let mut app = with_entries(vec![mk_entry("file.txt", false)]);
    assert_eq!(app.plan_editor(&None), None);
    assert_eq!(app.status_message, "editor: $EDITOR is not set");
    assert_eq!(app.plan_editor(&Some("vim".to_string())), Some("/tmp/base/file.txt".to_string()));
}

#[test]
fn editor_outcome_is_reported_and_asks_for_redraw() {
    let mut app = test_app();
    app.finish_editor(Ok(Some(0)));
    assert_eq!(app.status_message, "editor exited with code 0");
    assert!(app.needs_full_redraw);
    app.finish_editor(Ok(None));
    assert_eq!(app.status_message, "editor terminated by signal");
    app.finish_editor(Err("boom".to_string()));
    assert_eq!(app.status_message, "editor failed: boom");
}

#[test]
fn build_editor_command_uses_shell_snippet_and_target_path_env() {
    let command = build_editor_command(Some("/bin/test-shell".to_string()), "/tmp/sample.txt");
    assert_eq!(command.program, "/bin/test-shell");
    assert_eq!(command.args, vec!["-lc".to_string(), "${EDITOR} \"$TARGET_PATH\"".to_string()]);
    let target_env = command.envs.iter().find(|(k, _)| k == "TARGET_PATH").map(|(_, v)| v.clone());
    assert_eq!(target_env, Some("/tmp/sample.txt".to_string()));
    assert_eq!(build_editor_command(None, "x").program, "/bin/sh");
}

#[test]
fn build_viewer_command_uses_shell_snippet_and_envs() {
    let command = build_viewer_command(Some("/bin/test-shell".to_string()), "treemd", "/tmp/README.md");
    assert_eq!(command.program, "/bin/test-shell");
    assert_eq!(
        command.args,
        vec!["-lc".to_string(), "${MARKDOWN_VIEWER} \"${TARGET_PATH}\"".to_string()]
    );
    let viewer_env = command.envs.iter().find(|(k, _)| k == "MARKDOWN_VIEWER").map(|(_, v)| v.clone());
    assert_eq!(viewer_env, Some("treemd".to_string()));
    let path_env = command.envs.iter().find(|(k, _)| k == "TARGET_PATH").map(|(_, v)| v.clone());
    assert_eq!(path_env, Some("/tmp/README.md".to_string()));
}

#[test]
fn markdown_run_sets_error_when_no_selection() {
    let mut app = test_app();
    assert!(app.plan_markdown().is_none());
    assert_eq!(app.status_message, "markdown: no selection");
}

#[test]
fn run_sets_error_when_viewer_is_empty() {
    let mut app = with_entries(vec![mk_entry("README.md", false)]);
    app.config = Config { cd_on_quit: false, markdown_viewer: String::new() };
    assert!(app.plan_markdown().is_none());
    assert_eq!(app.status_message, "markdown: viewer is not configured");
}

#[test]
fn run_sets_error_when_directory_selected() {
    let mut app = with_entries(vec![mk_entry("src", true)]);
    assert!(app.plan_markdown().is_none());
    assert_eq!(app.status_message, "Please select the file you want to display");
}

#[test]
fn program_outcome_combines_both_errors() {
    assert_eq!(program_outcome("editor", Ok(Some(3)), Ok(())), Ok(Some(3)));
    assert_eq!(program_outcome("editor", Err("e".to_string()), Ok(())), Err("e".to_string()));
    assert_eq!(program_outcome("editor", Ok(Some(0)), Err("r".to_string())), Err("r".to_string()));
    assert_eq!(
        program_outcome("viewer", Err("e".to_string()), Err("r".to_string())),
        Err("r; also failed to run viewer: e".to_string())
    );
}

#[test]
fn execute_create_rejects_empty_input() {
    let mut app = test_app();
    app.enter_create_mode();
    app.create_input = "   ".to_string();
    assert!(app.take_create_request().is_none());
    assert_eq!(app.status_message, "create: missing name");
    assert_eq!(app.mode, Mode::Browse);
}

#[test]
fn execute_create_plans_file_and_directories() {
    let mut app = test_app();
    app.enter_create_mode();
    app.create_input = " newfile.txt ".to_string();
    let req = app.take_create_request().expect("a request");
    assert_eq!((req.name.as_str(), req.is_dir, req.target.as_str()), ("newfile.txt", false, "/tmp/base/newfile.txt"));
    app.create_input = "/newdir".to_string();
    let req = app.take_create_request().expect("a request");
    assert_eq!((req.name.as_str(), req.is_dir), ("newdir", true));
    app.create_input = "newdir/".to_string();
    let req = app.take_create_request().expect("a request");
    assert_eq!((req.name.as_str(), req.is_dir), ("newdir", true));
    app.create_input = "test99/test.md".to_string();
    let req = app.take_create_request().expect("a request");
    assert_eq!((req.name.as_str(), req.is_dir), ("test99/test.md", false));
}

#[test]
fn execute_create_rejects_duplicate_name() {
    let mut app = test_app();
    app.enter_create_mode();
    app.create_input = "existing.txt".to_string();
    let req = app.take_create_request().expect("a request");
    app.create_blocked(&req.name);
    assert!(app.status_message.contains("already exists"));
    assert_eq!(app.mode, Mode::Create);
}

#[test]
fn execute_create_creates_file() {
    let mut app = test_app();
    app.enter_create_mode();
    app.create_input = "newfile.txt".to_string();
    let req = app.take_create_request().expect("a request");
    app.finish_create(&req, FsOutcome::Done(Ok(vec![mk_entry("a", false), mk_entry("newfile.txt", false)])));
    assert_eq!(app.status_message, "create: created file 'newfile.txt'");
    assert_eq!(app.mode, Mode::Browse);
    assert_eq!(app.selected_index, 1);
}

#[test]
fn execute_create_rolls_back_on_file_create_failure() {
    let chain = ancestor_chain("/tmp/base/x/y");
    assert_eq!(chain, vec!["/tmp/base/x/y", "/tmp/base/x", "/tmp/base", "/tmp", "/"]);
    let missing = collect_missing_ancestors(&chain, &[false, false, true, true, true]);
    assert_eq!(missing, vec!["/tmp/base/x", "/tmp/base/x/y"]);
    let mut app = test_app();
    app.enter_create_mode();
    app.create_input = "x/y/.".to_string();
    let req = app.take_create_request().expect("a request");
    app.finish_create(&req, FsOutcome::Failed("Is a directory".to_string()));
    assert!(app.status_message.contains("create:"));
    assert!(app.status_message.contains("x/y/."));
}

#[test]
fn open_selected_sets_error_for_dangling_symlink() {
    let r = resolve_open_target(
        "/tmp/base/dangling-link",
        MetaRead::Read(FileType::Symlink),
        MetaRead::NotFound("No such file or directory".to_string()),
        Err("No such file or directory".to_string()),
    );
    assert!(matches!(r, Err(m) if m == "open: broken symlink: /tmp/base/dangling-link"));
}

#[test]
fn open_selected_moves_to_canonical_directory_for_symlink() {
    let r = resolve_open_target(
        "/tmp/base/dir-link",
        MetaRead::Read(FileType::Symlink),
        MetaRead::Read(FileType::Directory),
        Ok("/tmp/base/target".to_string()),
    );
    assert!(matches!(r, Ok(OpenTarget::Directory(p)) if p == "/tmp/base/target"));
}

#[test]
fn open_selected_opens_file_symlink_via_editor_command() {
    let r = resolve_open_target(
        "/tmp/base/file-link",
        MetaRead::Read(FileType::Symlink),
        MetaRead::Read(FileType::File),
        Ok("/tmp/base/file.txt".to_string()),
    );
    assert!(matches!(r, Ok(OpenTarget::File(p)) if p == "/tmp/base/file-link"));
}

#[test]
fn open_selected_opens_regular_file_via_editor_command() {
    let r = resolve_open_target(
        "/tmp/base/file.txt",
        MetaRead::Read(FileType::File),
        MetaRead::Read(FileType::File),
        Ok("/tmp/base/file.txt".to_string()),
    );
    assert!(matches!(r, Ok(OpenTarget::File(p)) if p == "/tmp/base/file.txt"));
    let r = resolve_open_target("/dev/null", MetaRead::Read(FileType::Other), MetaRead::Read(FileType::Other), Err("x".to_string()));
    assert!(matches!(r, Err(m) if m == "open: unsupported file type: /dev/null"));
    let r = resolve_open_target("/gone", MetaRead::Failed("denied".to_string()), MetaRead::Failed("denied".to_string()), Err("x".to_string()));
    assert!(matches!(r, Err(m) if m == "open: /gone: denied"));
}

fn owned_entry(name: &str, uid: u32, gid: u32) -> DirEntry {
    let mut e = mk_entry(name, false);
    e.permissions = Some("rw-r--r--".to_string());
    e.uid = Some(uid);
    e.gid = Some(gid);
    e
}

#[test]
fn ensure_selected_owner_group_resolved_uses_cached_names() {
    let mut app = test_app();
    app.entries = vec![owned_entry("sample.txt", 42, 84)];
    app.user_name_cache.insert(42, "cached-user".to_string());
    app.group_name_cache.insert(84, "cached-group".to_string());
    assert_eq!(app.owner_group_lookups(), (None, None));
    app.ensure_selected_owner_group_resolved(None, None);
    let entry = app.selected_entry().expect("selection must exist");
    assert_eq!(entry.owner.as_deref(), Some("cached-user"));
    assert_eq!(entry.group.as_deref(), Some("cached-group"));
}

#[test]
fn ensure_selected_owner_group_resolved_is_noop_for_parent_entry() {
    let mut app = test_app();
    let mut e = parent_entry();
    e.uid = Some(1);
    e.gid = Some(1);
    app.entries = vec![e];
    app.user_name_cache.insert(1, "root".to_string());
    app.group_name_cache.insert(1, "wheel".to_string());
    app.ensure_selected_owner_group_resolved(None, None);
    let entry = app.selected_entry().expect("selection must exist");
    assert!(entry.owner.is_none());
    assert!(entry.group.is_none());
}

#[test]
fn ensure_selected_owner_group_resolved_is_noop_when_ids_missing() {
    let mut app = test_app();
    app.entries = vec![mk_entry("sample.txt", false)];
    app.ensure_selected_owner_group_resolved(None, None);
    let entry = app.selected_entry().expect("selection must exist");
    assert!(entry.owner.is_none());
    assert!(entry.group.is_none());
}

#[test]
fn ensure_selected_owner_group_resolved_uses_cache_for_multiple_entries() {
    let mut app = test_app();
    app.entries = vec![owned_entry("a.txt", 100, 200), owned_entry("b.txt", 100, 200)];
    app.user_name_cache.insert(100, "same-user".to_string());
    app.group_name_cache.insert(200, "same-group".to_string());
    app.selected_index = 0;
    app.ensure_selected_owner_group_resolved(None, None);
    app.selected_index = 1;
    app.ensure_selected_owner_group_resolved(None, None);
    assert_eq!(app.entries[0].owner.as_deref(), Some("same-user"));
    assert_eq!(app.entries[0].group.as_deref(), Some("same-group"));
    assert_eq!(app.entries[1].owner.as_deref(), Some("same-user"));
    assert_eq!(app.entries[1].group.as_deref(), Some("same-group"));
}

#[test]
fn owner_group_lookup_falls_back_to_the_id_and_caches_it() {
    let mut app = test_app();
    app.entries = vec![owned_entry("a.txt", 7, 8)];
    assert_eq!(app.owner_group_lookups(), (Some(7), Some(8)));
    app.ensure_selected_owner_group_resolved(Some("alice".to_string()), None);
    assert_eq!(app.entries[0].owner.as_deref(), Some("alice"));
    assert_eq!(app.entries[0].group.as_deref(), Some("8"));
    let expected: HashMap<u32, String> = [(7u32, "alice".to_string())].into_iter().collect();
    assert_eq!(app.user_name_cache, expected);
    assert_eq!(app.group_name_cache.get(&8).map(|s| s.as_str()), Some("8"));
}

#[test]
fn cp_rejects_existing_explicit_dest() {
    let mut app = test_app();
    let plan = app.plan_cp(&["a.txt".to_string(), "b.txt".to_string()], None).expect("a plan");
    assert!(app.cp_checked(plan, true, true).is_none());
    assert_eq!(app.status_message, "cp: '/tmp/base/b.txt' already exists");
}

#[test]
fn cp_nonexistent_source() {
    let mut app = test_app();
    let plan = app.plan_cp(&["missing.txt".to_string(), "b.txt".to_string()], None).expect("a plan");
    assert!(app.cp_checked(plan, false, false).is_none());
    assert_eq!(app.status_message, "cp: '/tmp/base/missing.txt': No such file or directory");
}

#[test]
fn cp_file_without_args() {
    let mut app = with_entries(vec![mk_entry("file.txt", false)]);
    let plan = app.plan_cp(&[], None).expect("a plan");
    match app.cp_checked(plan, false, true) {
        Some((src, CopyDest::Fresh(base))) => {
            assert_eq!(src, "/tmp/base/file.txt");
            assert_eq!(copy_name_candidate(&base, 1), "/tmp/base/file(1).txt");
        }
        _ => panic!("expected a fresh name"),
    }
}

#[test]
fn copy_name_search_stops_at_the_first_free_name() {
    let mut step = first_copy_name("/tmp/base/test.txt");
    let mut probes = 0;
    let name = loop {
        match step {
            CopyNameStep::Found(name) => break name,
            CopyNameStep::Probe(n, _) => {
                probes += 1;
                step = next_copy_name("/tmp/base/test.txt", n, n < 3);
            }
        }
    };
    assert_eq!(probes, 3);
    assert_eq!(name, "/tmp/base/test(3).txt");
    assert!(matches!(next_copy_name("/tmp/base/test.txt", 999, true), CopyNameStep::Found(n) if n == "/tmp/base/test(copy).txt"));
}

#[test]
fn cp_file_increments_number() {
    // file(1).txt is taken, so the copy becomes file(2).txt.
    match next_copy_name("/tmp/base/file.txt", 1, true) {
        CopyNameStep::Probe(2, c) => {
            assert_eq!(c, "/tmp/base/file(2).txt");
            assert!(matches!(next_copy_name("/tmp/base/file.txt", 2, false), CopyNameStep::Found(n) if n == c));
        }
        _ => panic!("expected the second candidate"),
    }
}

#[test]
fn shell_command_runs_in_a_login_shell() {
    let cmd = minimum_viewer::commands::build_shell_command(None, "ls -la", "/tmp/base");
    assert_eq!(cmd.program, "/bin/sh");
    assert_eq!(cmd.args, vec!["-lc".to_string(), "ls -la".to_string()]);
    assert!(cmd.envs.is_empty());
    assert_eq!(cmd.dir, Some("/tmp/base".to_string()));
}

fn create_with(input: &str) -> (App, minimum_viewer::commands::CreateRequest) {
    let mut app = test_app();
    app.enter_create_mode();
    app.create_input = input.to_string();
    let req = app.take_create_request().expect("a request");
    (app, req)
}

#[test]
fn execute_create_creates_file_with_nested_path() {
    let (mut app, req) = create_with("test99/test.md");
    assert_eq!(req.target, "/tmp/base/test99/test.md");
    assert!(!req.is_dir);
    let chain = ancestor_chain("/tmp/base/test99");
    let missing = collect_missing_ancestors(&chain, &[false, true, true, true]);
    assert_eq!(missing, vec!["/tmp/base/test99"]);
    app.finish_create(&req, FsOutcome::Done(Ok(vec![mk_entry("test99", true)])));
    assert!(app.status_message.contains("created file"));
    assert_eq!(app.mode, Mode::Browse);
}

#[test]
fn execute_create_creates_directory_with_slash_prefix() {
    let (mut app, req) = create_with("/newdir");
    assert!(req.is_dir);
    assert_eq!(req.target, "/tmp/base/newdir");
    app.finish_create(&req, FsOutcome::Done(Ok(vec![mk_entry("newdir", true)])));
    assert!(app.status_message.contains("created directory"));
    assert_eq!(app.mode, Mode::Browse);
}

#[test]
fn execute_create_creates_directory_with_trailing_slash() {
    let (mut app, req) = create_with("newdir/");
    assert!(req.is_dir);
    assert_eq!(req.name, "newdir");
    app.finish_create(&req, FsOutcome::Done(Ok(vec![mk_entry("newdir", true)])));
    assert!(app.status_message.contains("created directory"));
    assert_eq!(app.mode, Mode::Browse);
}

#[test]
fn execute_create_rejects_dangling_symlink() {
    let (mut app, req) = create_with("broken-link");
    app.create_blocked(&req.name);
    assert!(app.status_message.contains("already exists"));
    assert_eq!(app.mode, Mode::Create);
}

#[test]
fn cp_file_with_explicit_dest() {
    let mut app = test_app();
    let plan = app.plan_cp(&["a.txt".to_string(), "copy.txt".to_string()], None).expect("a plan");
    match app.cp_checked(plan, false, true) {
        Some((src, CopyDest::Use(dest))) => {
            assert_eq!(src, "/tmp/base/a.txt");
            assert_eq!(dest, "/tmp/base/copy.txt");
            app.finish_cp(&src, &dest, FsOutcome::Done(Ok(vec![mk_entry("a.txt", false), mk_entry("copy.txt", false)])));
            assert_eq!(app.status_message, "cp: '/tmp/base/a.txt' -> '/tmp/base/copy.txt'");
            assert_eq!(app.selected_index, 1);
        }
        _ => panic!("expected the named destination"),
    }
}

#[test]
fn cp_file_no_extension() {
    assert_eq!(copy_name_candidate("/tmp/base/Makefile", 1), "/tmp/base/Makefile(1)");
}

#[test]
fn delete_file_with_explicit_path() {
    let mut app = test_app();
    let target = app.plan_delete(&["a.txt".to_string()], None).expect("a target");
    assert_eq!(target, "/tmp/base/a.txt");
    assert!(app.delete_checked(target.clone(), PathKind::File));
    app.finish_delete(&target, FsOutcome::Done(Ok(vec![])));
    assert_eq!(app.status_message, "delete: removed '/tmp/base/a.txt'");
}

#[test]
fn delete_directory_is_removed_after_confirmation_yes() {
    let mut app = test_app();
    let target = app.plan_delete(&["dir".to_string()], None).expect("a target");
    assert!(!app.delete_checked(target, PathKind::Directory));
    match app.handle_key(Key::Char('y'), false) {
        KeyEffect::Delete(p) => {
            assert_eq!(p.path, "/tmp/base/dir");
            app.finish_delete(&p.path, FsOutcome::Done(Ok(vec![])));
        }
        _ => panic!("expected the deletion"),
    }
    assert!(!app.show_delete_confirm);
    assert!(app.pending_delete.is_none());
    assert_eq!(app.status_message, "delete: removed '/tmp/base/dir'");
}

#[test]
fn delete_directory_is_not_removed_after_confirmation_no() {
    let mut app = test_app();
    let target = app.plan_delete(&["dir".to_string()], None).expect("a target");
    assert!(!app.delete_checked(target, PathKind::Directory));
    assert!(matches!(app.handle_key(Key::Char('n'), false), KeyEffect::Stay));
    assert!(!app.show_delete_confirm);
    assert!(app.pending_delete.is_none());
    assert_eq!(app.status_message, "delete: canceled");
}

#[test]
fn rename_rejects_existing_dangling_symlink_destination() {
    let mut app = with_entries(vec![mk_entry("old.txt", false)]);
    let plan = app.plan_rename(&["dangling".to_string()]).expect("a plan");
    app.finish_rename(&plan, RenameOutcome::AlreadyExists);
    assert_eq!(app.status_message, "rename: 'dangling' already exists");
}

#[test]
fn yank_directory_copies_path_and_sets_yanked_message() {
    let mut app = with_entries(vec![mk_entry("mydir", true)]);
    let path = app.plan_yank(&[], None).expect("a path");
    app.finish_yank(&path, Ok(()));
    assert_eq!(app.status_message, "yanked: /tmp/base/mydir");
}

#[test]
fn cp_rejects_copy_into_self() {
    assert_eq!(
        copy_into_itself("/tmp/base/dir", "/tmp/base/dir/inner", "/tmp/base/dir"),
        Some("cannot copy '/tmp/base/dir' into itself".to_string())
    );
    assert_eq!(copy_into_itself("/tmp/base/dir", "/tmp/base/dir2", "/tmp/base/dir"), None);
}

#[test]
fn reload_keeps_the_error_when_the_directory_cannot_be_read() {
    let mut app = with_entries(vec![mk_entry("a.txt", false)]);
    app.refresh(Err("Permission denied (os error 13)".to_string()));
    assert_eq!(app.status_message, "Error: Permission denied (os error 13)");
    assert!(app.all_entries.is_empty());
    assert!(app.entries.is_empty());
}

#[test]
fn shell_mode_runs_in_the_current_directory() {
    let app = test_app();
    let cmd = app.shell_invocation(Some("/bin/zsh".to_string()), "pwd");
    assert_eq!(cmd.program, "/bin/zsh");
    assert_eq!(cmd.args, vec!["-lc".to_string(), "pwd".to_string()]);
    assert_eq!(cmd.dir, Some(app.current_dir.clone()));
    assert_eq!(cmd.dir, Some("/tmp/base".to_string()));
}

#[test]
fn copy_lands_under_the_canonical_parent() {
    let landed = minimum_viewer::commands::landing_path("/tmp/link/inner", Some("/private/tmp/real".to_string()));
    assert_eq!(landed, "/private/tmp/real/inner");
    assert_eq!(minimum_viewer::commands::landing_path("/", None), "/");
    assert_eq!(
        copy_into_itself("dir", &landed, "/private/tmp/real"),
        Some("cannot copy 'dir' into itself".to_string())
    );
}
