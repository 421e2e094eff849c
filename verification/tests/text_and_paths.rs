use minimum_viewer::base64::{after_tool, base64_encode, ClipboardStep, clipboard_plan, is_ssh_session_with_env, osc52_sequence, ClipboardMethod};
use minimum_viewer::config::{
    default_config_content, parse_config, resolve_config_path_from, resolve_lastdir_path_from, Config,
};
use minimum_viewer::path::{join_path, resolve_path};
use minimum_viewer::shell::{
    build_cd_on_quit_command, cd_on_quit_file_text, shell_single_quote, should_write_cd_on_quit_file,
};

#[test]
fn base64_encode_basic() {
    assert_eq!(base64_encode(b"Hello"), "SGVsbG8=");
    assert_eq!(base64_encode(b"Hello, World!"), "SGVsbG8sIFdvcmxkIQ==");
    assert_eq!(base64_encode(b""), "");
}

#[test]
fn osc52_encodes_path_correctly() {
    let encoded = base64_encode(b"/tmp/foo");
    assert_eq!(encoded, "L3RtcC9mb28=");
}

#[test]
fn base64_length_is_four_per_started_group() {
    for n in 0..10usize {
        let data = vec![0xffu8; n];
        assert_eq!(base64_encode(&data).len(), 4 * ((n + 2) / 3));
    }
    assert_eq!(base64_encode(&[0xfb, 0xff]), "+/8=");
}

#[test]
fn osc52_sequence_wraps_base64_of_the_text() {
    assert_eq!(osc52_sequence("/tmp/foo"), "\u{1b}]52;c;L3RtcC9mb28=\u{7}");
}

#[test]
fn ssh_detection_no_vars_returns_false() {
    assert!(!is_ssh_session_with_env(None, None, None));
}

#[test]
fn ssh_detection_uses_ssh_connection() {
    assert!(is_ssh_session_with_env(Some("10.0.0.1 12345 10.0.0.2 22".to_string()), None, None));
}

#[test]
fn ssh_detection_falls_back_to_ssh_client() {
    assert!(is_ssh_session_with_env(None, Some("10.0.0.1 12345 22".to_string()), None));
}

#[test]
fn ssh_detection_falls_back_to_ssh_tty() {
    assert!(is_ssh_session_with_env(None, None, Some("/dev/pts/0".to_string())));
}

fn describe(m: &ClipboardMethod) -> String {
    match m {
        ClipboardMethod::Tool(p, a, last) => {
            format!("{} {}{}", p, a.join(" "), if *last { " (last word)" } else { "" }).trim().to_string()
        }
        ClipboardMethod::Osc52 => "osc52".to_string(),
    }
}

#[test]
fn clipboard_plan_orders_tools_then_osc52() {
    let plan: Vec<String> = clipboard_plan(false, true, true).iter().map(describe).collect();
    assert_eq!(
        plan,
        vec!["wl-copy", "xclip -selection clipboard", "xsel --clipboard --input", "osc52"]
    );
    let plan: Vec<String> = clipboard_plan(false, false, false).iter().map(describe).collect();
    assert_eq!(plan, vec!["xclip -selection clipboard", "xsel --clipboard --input"]);
    let plan: Vec<String> = clipboard_plan(true, true, true).iter().map(describe).collect();
    assert_eq!(plan, vec!["pbcopy  (last word)"]);
}

#[test]
fn parse_config_rejects_invalid_boolean() {
    let err = parse_config("cd_on_quit = maybe\n").expect_err("must fail");
    assert!(err.contains("cd_on_quit must be true or false"));
}

#[test]
fn parse_config_reads_default_content() {
    let cfg = parse_config(default_config_content()).expect("default config parses");
    assert_eq!(cfg, Config { cd_on_quit: false, markdown_viewer: "treemd".to_string() });
}

#[test]
fn parse_config_reads_values_comments_and_quotes() {
    let cfg = parse_config("# comment\n\ncd_on_quit = true # trailing\nmarkdown_viewer = \"glow\"\nunknown = 1\n")
        .expect("config parses");
    assert_eq!(cfg, Config { cd_on_quit: true, markdown_viewer: "glow".to_string() });
}

#[test]
fn parse_config_rejects_line_without_equals() {
    let err = parse_config("cd_on_quit\n").expect_err("must fail");
    assert_eq!(err, "invalid config line: cd_on_quit");
}

#[test]
fn resolve_path_prefers_minimum_viewer_config() {
    let resolved = resolve_config_path_from(
        Some("/tmp/mmv-config.toml".to_string()),
        Some("/tmp/xdg".to_string()),
        Some("/tmp/home".to_string()),
    )
    .expect("path must resolve");
    assert_eq!(resolved, "/tmp/mmv-config.toml");
}

#[test]
fn resolve_path_uses_xdg_config_home_when_override_missing() {
    let resolved = resolve_config_path_from(None, Some("/tmp/xdg".to_string()), Some("/tmp/home".to_string()))
        .expect("path must resolve");
    assert_eq!(resolved, "/tmp/xdg/mmv/config.toml");
}

#[test]
fn resolve_path_falls_back_to_home_config() {
    let resolved = resolve_config_path_from(None, None, Some("/tmp/home".to_string())).expect("path must resolve");
    assert_eq!(resolved, "/tmp/home/.config/mmv/config.toml");
}

#[test]
fn config_path_needs_some_location() {
    assert_eq!(
        resolve_config_path_from(Some(String::new()), None, None),
        Err("HOME is not set and no config override was provided".to_string())
    );
}

#[test]
fn resolve_lastdir_path_prefers_override() {
    let resolved = resolve_lastdir_path_from(
        Some("/tmp/mmv-lastdir".to_string()),
        Some("/tmp/state".to_string()),
        Some("/tmp/home".to_string()),
    )
    .expect("path must resolve");
    assert_eq!(resolved, "/tmp/mmv-lastdir");
}

#[test]
fn resolve_lastdir_path_uses_xdg_state_home() {
    let resolved = resolve_lastdir_path_from(None, Some("/tmp/state".to_string()), Some("/tmp/home".to_string()))
        .expect("path must resolve");
    assert_eq!(resolved, "/tmp/state/mmv/lastdir");
}

#[test]
fn resolve_lastdir_path_falls_back_to_home_state_dir() {
    let resolved = resolve_lastdir_path_from(None, None, Some("/tmp/home".to_string())).expect("path must resolve");
    assert_eq!(resolved, "/tmp/home/.local/state/mmv/lastdir");
}

#[test]
fn shell_single_quote_escapes_single_quote() {
    assert_eq!(shell_single_quote("a'b"), "'a'\"'\"'b'");
}

#[test]
fn build_cd_on_quit_command_handles_single_dash_path() {
    let command = build_cd_on_quit_command("-");
    assert_eq!(command, "cd -- '-'");
}

#[test]
fn build_cd_on_quit_command_handles_leading_dash_path() {
    let command = build_cd_on_quit_command("-foo");
    assert_eq!(command, "cd -- '-foo'");
}

#[test]
fn write_cd_on_quit_file_writes_command() {
    assert_eq!(cd_on_quit_file_text("/tmp/work"), "cd -- '/tmp/work'\n");
}

#[test]
fn write_cd_on_quit_file_escapes_single_quote() {
    assert_eq!(cd_on_quit_file_text("/tmp/a'b"), "cd -- '/tmp/a'\"'\"'b'\n");
}

#[test]
fn maybe_write_cd_on_quit_file_skips_when_disabled() {
    assert!(!should_write_cd_on_quit_file(true, false));
}

#[test]
fn maybe_write_cd_on_quit_file_skips_when_not_quit() {
    assert!(!should_write_cd_on_quit_file(false, true));
    assert!(should_write_cd_on_quit_file(true, true));
}

#[test]
fn resolve_path_handles_absolute_and_relative() {
    assert_eq!(resolve_path("/tmp/base", "/tmp/abs", None).expect("absolute path"), "/tmp/abs");
    assert_eq!(resolve_path("/tmp/base", "child", None).expect("relative path"), "/tmp/base/child");
}

#[test]
fn resolve_path_expands_tilde() {
    let home = Some("/tmp/home".to_string());
    assert_eq!(resolve_path("/tmp/base", "~", home.clone()).expect("home path"), "/tmp/home");
    assert_eq!(resolve_path("/tmp/base", "~/project", home).expect("home child path"), "/tmp/home/project");
}

#[test]
fn resolve_path_rejects_tilde_user() {
    let err = resolve_path("/tmp/base", "~someone", None).expect_err("must reject ~user");
    assert_eq!(err, "~user expansion is not supported");
}

#[test]
fn resolve_path_reports_empty_input_and_missing_home() {
    assert_eq!(resolve_path("/tmp/base", "   ", None), Err("empty path".to_string()));
    assert_eq!(resolve_path("/tmp/base", "~/x", None), Err("HOME is not set".to_string()));
    assert_eq!(resolve_path("/tmp/base", "  child  ", None), Ok("/tmp/base/child".to_string()));
}

#[test]
fn join_path_follows_unix_rules() {
    assert_eq!(join_path("/tmp", "a"), "/tmp/a");
    assert_eq!(join_path("/tmp/", "a"), "/tmp/a");
    assert_eq!(join_path("/tmp", "/abs"), "/abs");
    assert_eq!(join_path("", "a"), "a");
}

#[test]
fn load_or_create_writes_default_config_when_missing() {
    assert_eq!(default_config_content(), "cd_on_quit = false\nmarkdown_viewer = \"treemd\"\n");
}

#[test]
fn load_or_create_reads_true_value() {
    let cfg = parse_config("cd_on_quit = true\n").expect("config parses");
    assert!(cfg.cd_on_quit);
}

#[test]
fn base64_pads_only_at_the_end() {
    for n in 0..10usize {
        let data: Vec<u8> = (0..n).map(|i| (i * 97 + 251) as u8).collect();
        let encoded = base64_encode(&data);
        let padding = (3 - n % 3) % 3;
        let cut = encoded.len() - padding;
        assert!(encoded[..cut].chars().all(|c| c.is_ascii_alphanumeric() || c == '+' || c == '/'));
        assert!(encoded[cut..].chars().all(|c| c == '='));
    }
}

fn decode_standard(text: &str) -> Vec<u8> {
    let value = |c: u8| -> u32 {
        match c {
            b'A'..=b'Z' => (c - b'A') as u32,
            b'a'..=b'z' => (c - b'a') as u32 + 26,
            b'0'..=b'9' => (c - b'0') as u32 + 52,
            b'+' => 62,
            _ => 63,
        }
    };
    let mut out = Vec::new();
    for q in text.as_bytes().chunks(4) {
        let n = (value(q[0]) << 18) | (value(q[1]) << 12)
            | (if q[2] == b'=' { 0 } else { value(q[2]) << 6 })
            | (if q[3] == b'=' { 0 } else { value(q[3]) });
        out.push((n >> 16) as u8);
        if q[2] != b'=' {
            out.push((n >> 8) as u8);
        }
        if q[3] != b'=' {
            out.push(n as u8);
        }
    }
    out
}

#[test]
fn base64_reads_back_to_the_bytes() {
    for n in 0..12usize {
        let data: Vec<u8> = (0..n).map(|i| (i * 131 + 7) as u8).collect();
        assert_eq!(decode_standard(&base64_encode(&data)), data);
    }
    assert_eq!(decode_standard("SGVsbG8="), b"Hello".to_vec());
}

#[test]
fn clipboard_tries_the_next_way_only_after_a_failure_without_last_word() {
    assert!(matches!(after_tool(false, Ok(())), ClipboardStep::Finish(Ok(()))));
    assert!(matches!(after_tool(false, Err("clipboard unavailable".to_string())), ClipboardStep::TryNext));
    match after_tool(true, Err("clipboard unavailable".to_string())) {
        ClipboardStep::Finish(Err(e)) => assert_eq!(e, "clipboard unavailable"),
        _ => panic!("the last word is the answer"),
    }
}
