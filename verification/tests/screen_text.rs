use minimum_viewer::app::{DirEntry, Mode};
use minimum_viewer::calendar::{civil_from_days, format_local_with_offset, format_modified, format_unix_utc, LocalTime};
use minimum_viewer::listing::{name_less, sort_entries, with_parent_entry};
use minimum_viewer::status::{format_permissions, format_status_bar, format_status_rows, truncate_to_width};
use minimum_viewer::layout::{centered_rect, screen_areas, Area, Size};
use minimum_viewer::view::{create_row, entry_row, path_line, screen_rows};

// The size text as the front end makes it (with one decimal, in binary units).
fn human_size(n: u64) -> String {
    const KB: u64 = 1024;
    const MB: u64 = KB * 1024;
    const GB: u64 = MB * 1024;
    if n >= GB {
        format!("{:.1}G", n as f64 / GB as f64)
    } else if n >= MB {
        format!("{:.1}M", n as f64 / MB as f64)
    } else if n >= KB {
        format!("{:.1}K", n as f64 / KB as f64)
    } else {
        format!("{}B", n)
    }
}

fn utc_fields(secs: i64) -> Option<LocalTime> {
    let (y, m, d) = civil_from_days(secs.div_euclid(86_400));
    let s = secs.rem_euclid(86_400);
    Some(LocalTime {
        tm_year: (y - 1900) as i32,
        tm_mon: (m - 1) as i32,
        tm_mday: d as i32,
        tm_hour: (s / 3600) as i32,
        tm_min: ((s % 3600) / 60) as i32,
        tm_gmtoff: 0,
    })
}

fn example_entry() -> DirEntry {
    DirEntry {
        name: "example.txt".to_string(),
        path: "example.txt".to_string(),
        is_dir: false,
        size: Some(1234),
        modified: Some(0),
        permissions: Some("rw-r--r--".to_string()),
        uid: None,
        gid: None,
        owner: Some("alice".to_string()),
        group: Some("staff".to_string()),
        link_target: None,
        is_dangling: false,
    }
}

#[test]
fn unix_epoch_formats_as_expected() {
    assert_eq!(format_unix_utc(0), "1970-01-01 00:00");
}

#[test]
fn unix_times_format_across_leap_days_and_before_the_epoch() {
    assert_eq!(format_unix_utc(951_782_400), "2000-02-29 00:00");
    assert_eq!(format_unix_utc(1_709_210_096), "2024-02-29 12:34");
    assert_eq!(format_unix_utc(-1), "1969-12-31 23:59");
    assert_eq!(format_unix_utc(-86_400 * 365), "1969-01-01 00:00");
    assert_eq!(format_unix_utc(4_102_444_800), "2100-01-01 00:00");
}

#[test]
fn civil_from_days_matches_the_calendar() {
    assert_eq!(civil_from_days(0), (1970, 1, 1));
    assert_eq!(civil_from_days(59), (1970, 3, 1));
    assert_eq!(civil_from_days(11_016), (2000, 2, 29));
    assert_eq!(civil_from_days(-719_468), (0, 3, 1));
    assert_eq!(civil_from_days(-1), (1969, 12, 31));
    for days in -1000..1000i64 {
        let (y, m, d) = civil_from_days(days);
        let (y2, m2, d2) = civil_from_days(days + 1);
        assert!((y2, m2, d2) > (y, m, d));
    }
}

#[test]
fn status_bar_collapsed_contains_only_size_and_modified() {
    let entry = example_entry();
    let status = format_status_bar(&entry, 80, false, entry.size.map(human_size), utc_fields(0));
    let modified_pos = status.find("Modified: ").expect("Modified must exist");
    let size_pos = status.find("Size: 1.2K").expect("Size must exist");
    assert!(modified_pos < size_pos);
    assert!(status.contains(" +"));
    assert!(!status.contains("…"));
    assert!(!status.contains("Perm:"));
    assert!(!status.contains("Owner:"));
    assert!(!status.contains("Group:"));
}

#[test]
fn status_bar_expanded_contains_permission_owner_group() {
    let entry = example_entry();
    let status = format_status_bar(&entry, 80, true, entry.size.map(human_size), utc_fields(0));
    let modified_pos = status.find("Modified: ").expect("Modified must exist");
    let size_pos = status.find("Size: 1.2K").expect("Size must exist");
    let perm_pos = status.find("Perm: rw-r--r--").expect("Perm must exist");
    let owner_pos = status.find("Owner: alice").expect("Owner must exist");
    let group_pos = status.find("Group: staff").expect("Group must exist");
    assert!(modified_pos < size_pos);
    assert!(size_pos < perm_pos);
    assert!(perm_pos < owner_pos);
    assert!(owner_pos < group_pos);
    assert!(status.contains("Perm: rw-r--r--"));
    assert!(status.contains("Owner: alice"));
    assert!(status.contains("Group: staff"));
    assert!(!status.contains("…"));
}

#[test]
fn status_bar_expanded_small_width_breaks_into_multiple_lines() {
    let entry = example_entry();
    let status = format_status_bar(&entry, 30, true, entry.size.map(human_size), utc_fields(0));
    let lines: Vec<&str> = status.lines().collect();
    assert!(lines.len() >= 3);
}

#[test]
fn status_bar_names_broken_links() {
    let mut entry = example_entry();
    entry.is_dangling = true;
    entry.link_target = Some("/nowhere".to_string());
    assert_eq!(format_status_bar(&entry, 80, false, None, None), "Broken symlink: example.txt >> /nowhere");
    entry.link_target = None;
    assert_eq!(format_status_bar(&entry, 80, false, None, None), "Broken symlink: example.txt >> (unknown)");
}

#[test]
fn modified_has_timezone_offset_format() {
    for local in [utc_fields(0), None] {
        let rendered = format_modified(Some(0), local);
        let bytes = rendered.as_bytes();
        assert_eq!(bytes.len(), 23);
        assert_eq!(bytes[4], b'-');
        assert_eq!(bytes[7], b'-');
        assert_eq!(bytes[10], b' ');
        assert_eq!(bytes[13], b':');
        assert_eq!(bytes[16], b' ');
        assert!(bytes[17] == b'+' || bytes[17] == b'-');
        assert_eq!(bytes[20], b':');
    }
    assert_eq!(format_modified(None, None), "-");
}

#[test]
fn local_time_shows_its_offset() {
    let t = LocalTime { tm_year: 124, tm_mon: 6, tm_mday: 4, tm_hour: 9, tm_min: 5, tm_gmtoff: -(5 * 3600 + 30 * 60) };
    assert_eq!(format_local_with_offset(0, Some(t)), "2024-07-04 09:05 -05:30");
    let t = LocalTime { tm_gmtoff: 9 * 3600, ..t };
    assert_eq!(format_local_with_offset(0, Some(t)), "2024-07-04 09:05 +09:00");
    assert_eq!(format_local_with_offset(0, None), "1970-01-01 00:00 +00:00");
}

#[test]
fn status_rows_join_segments_within_the_width() {
    let items = [("A", "1".to_string()), ("B", "2".to_string()), ("C", "3".to_string())];
    assert_eq!(format_status_rows(&items, 80), "A: 1 | B: 2 | C: 3");
    assert_eq!(format_status_rows(&items, 11), "A: 1\nB: 2\nC: 3");
    assert_eq!(format_status_rows(&items, 18), "A: 1 | B: 2 | C: 3");
    assert_eq!(format_status_rows(&items, 17), "A: 1\nB: 2\nC: 3");
    assert_eq!(format_status_rows(&items, 0), "A: 1\nB: 2\nC: 3");
    assert_eq!(format_status_rows(&[], 10), "");
}

#[test]
fn truncation_keeps_fitting_text_and_marks_cuts() {
    assert_eq!(truncate_to_width("abc", 3), "abc");
    assert_eq!(truncate_to_width("abcd", 3), "ab…");
    assert_eq!(truncate_to_width("abcd", 1), "…");
    assert_eq!(truncate_to_width("abcd", 0), "");
    assert_eq!(truncate_to_width("", 0), "");
}

#[test]
fn permissions_render_as_rwx() {
    assert_eq!(format_permissions(0o644), "rw-r--r--");
    assert_eq!(format_permissions(0o100755), "rwxr-xr-x");
    assert_eq!(format_permissions(0), "---------");
}

fn mk(name: &str, is_dir: bool) -> DirEntry {
    let mut e = example_entry();
    e.name = name.to_string();
    e.path = format!("/tmp/base/{}", name);
    e.is_dir = is_dir;
    e
}

#[test]
fn listing_puts_directories_first_then_names_without_case() {
    let sorted = sort_entries(vec![mk("b.txt", false), mk("Zeta", true), mk("A.txt", false), mk("alpha", true), mk("a.txt", false)]);
    let names: Vec<&str> = sorted.iter().map(|e| e.name.as_str()).collect();
    assert_eq!(names, vec!["alpha", "Zeta", "A.txt", "a.txt", "b.txt"]);
    assert!(name_less("abc", "abd"));
    assert!(name_less("ab", "abc"));
    assert!(!name_less("abc", "abc"));
}

#[test]
fn read_sorted_entries_adds_parent_with_empty_metadata() {
    let entries = with_parent_entry("/tmp/base/sub", sort_entries(vec![mk("x", false)]));
    assert!(!entries.is_empty());
    let parent = &entries[0];
    assert_eq!(parent.name, "..");
    assert_eq!(parent.path, "/tmp/base");
    assert!(parent.modified.is_none());
    assert!(parent.permissions.is_none());
    assert!(parent.uid.is_none());
    assert!(parent.gid.is_none());
    assert!(parent.owner.is_none());
    assert!(parent.group.is_none());
    assert_eq!(with_parent_entry("/", vec![]).len(), 0);
}

#[test]
fn screen_rows_follow_the_mode() {
    assert_eq!(screen_rows(Mode::Command, false), vec![Size::Length(2), Size::Min(3), Size::Length(6), Size::Length(3)]);
    assert_eq!(screen_rows(Mode::Browse, true), vec![Size::Length(3), Size::Min(3), Size::Length(6)]);
    assert_eq!(screen_rows(Mode::Help, false), vec![Size::Length(3), Size::Min(3), Size::Length(3)]);
}

#[test]
fn rows_of_the_listing_and_path_line() {
    let mut e = mk("link", false);
    e.link_target = Some("/target".to_string());
    let (indent, icon, label) = entry_row(&e, 100);
    assert_eq!(indent, "  ");
    assert_eq!(icon, "\u{f15b} ");
    assert_eq!(label, "link  >>  /target");
    let (_, _, label) = entry_row(&e, 12);
    assert_eq!(label, "lin…");
    let (indent, icon, _) = entry_row(&mk("..", true), 100);
    assert_eq!(indent, "");
    assert_eq!(icon, "\u{f07b} ");
    assert_eq!(path_line("/tmp", 100), "\u{f07b} /tmp");
    assert_eq!(path_line("/tmp/long", 8), "\u{f07b} /…");
}

#[test]
fn create_row_fills_the_line() {
    let row = create_row("new", 60);
    assert!(row.starts_with("  \u{f15b}  new"));
    assert!(row.ends_with(" // `/`[Folder name] or [File name]"));
    assert_eq!(row.chars().count(), 48);
    assert!(create_row("dir/", 60).starts_with("  \u{f07b}  dir/"));
}

#[test]
fn four_hundred_years_later_is_the_same_date() {
    for days in [-1_000_000i64, -1, 0, 59, 11_016, 2_000_000] {
        let (y, m, d) = civil_from_days(days);
        assert_eq!(civil_from_days(days + 146_097), (y + 400, m, d));
    }
}

#[test]
fn screen_areas_stack_full_width_panels() {
    let screen = Area { x: 0, y: 0, width: 80, height: 24 };
    let areas = screen_areas(Mode::Browse, false, screen);
    assert_eq!(
        areas,
        vec![
            Area { x: 0, y: 0, width: 80, height: 3 },
            Area { x: 0, y: 3, width: 80, height: 18 },
            Area { x: 0, y: 21, width: 80, height: 3 },
        ]
    );
    assert_eq!(screen_areas(Mode::Command, false, screen).len(), 4);
}

#[test]
fn centered_rect_sits_in_the_middle() {
    let screen = Area { x: 0, y: 0, width: 100, height: 50 };
    let popup = centered_rect(80, 50, screen);
    assert_eq!((popup.x, popup.width, popup.height), (10, 80, 25));
    assert!(popup.y == 12 || popup.y == 13);
    let offset = Area { x: 7, y: 3, width: 41, height: 17 };
    let inner = centered_rect(70, 40, offset);
    assert!(inner.x >= 7 && inner.x + inner.width <= 48);
    assert!(inner.y >= 3 && inner.y + inner.height <= 20);
}

#[test]
fn expanded_status_bar_takes_the_detail_rows() {
    let screen = Area { x: 0, y: 0, width: 80, height: 24 };
    let areas = screen_areas(Mode::Browse, true, screen);
    assert_eq!(
        areas,
        vec![
            Area { x: 0, y: 0, width: 80, height: 3 },
            Area { x: 0, y: 3, width: 80, height: 15 },
            Area { x: 0, y: 18, width: 80, height: 6 },
        ]
    );
    let command = screen_areas(Mode::Command, false, screen);
    let heights: Vec<u16> = command.iter().map(|a| a.height).collect();
    assert_eq!(heights, vec![2, 13, 6, 3]);
    let shell = screen_areas(Mode::Shell, false, screen);
    let heights: Vec<u16> = shell.iter().map(|a| a.height).collect();
    assert_eq!(heights, vec![2, 13, 3, 6]);
}

#[test]
fn centered_rect_takes_each_share_along_its_own_side() {
    let screen = Area { x: 0, y: 0, width: 100, height: 50 };
    let wide = centered_rect(80, 40, screen);
    assert_eq!((wide.width, wide.height), (80, 20));
    let tall = centered_rect(40, 80, screen);
    assert_eq!((tall.width, tall.height), (40, 40));
    assert_eq!(tall.x, 30);
}

#[test]
fn narrow_status_bar_puts_one_item_per_line() {
    let entry = example_entry();
    let status = format_status_bar(&entry, 30, true, entry.size.map(human_size), utc_fields(0));
    let lines: Vec<&str> = status.lines().collect();
    assert_eq!(lines.len(), 5);
    assert!(lines[0].starts_with("Modified: "));
    assert_eq!(&lines[1..], &["Size: 1.2K", "Perm: rw-r--r--", "Owner: alice", "Group: staff"]);
    assert!(!status.contains('…'));
    let collapsed = format_status_bar(&entry, 20, false, entry.size.map(human_size), utc_fields(0));
    assert_eq!(collapsed.lines().count(), 2);
}
