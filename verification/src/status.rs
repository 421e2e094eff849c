//! The text of the status bar, of a permission mode and of a line cut to a
//! width.
use vstd::prelude::*;
use vstd::string::*;
use crate::app::{DirEntry, EntryModel};
use crate::calendar::{LocalTime, format_modified, modified_text};
use crate::text::{owned, push_char};

verus! {

/// The ellipsis that ends a cut line.
pub open spec fn ellipsis() -> char {
    '\u{2026}'
}

/// `s` cut to at most `w` characters: whole when it fits, else its first
/// `w - 1` characters and an ellipsis (nothing for a width of 0, the
/// ellipsis alone for a width of 1).
pub open spec fn truncated(s: Seq<char>, w: nat) -> Seq<char> {
    if s.len() <= w {
        s
    } else if w == 0 {
        Seq::empty()
    } else if w == 1 {
        seq![ellipsis()]
    } else {
        s.take(w - 1).push(ellipsis())
    }
}

/// `s` cut to at most `width` characters (see [`truncated`]).
pub fn truncate_to_width(s: &str, width: u16) -> (r: String)
    ensures
        r@ == truncated(s@, width as nat),
{
    let w = width as usize;
    let char_count = s.unicode_len();
    if char_count <= w {
        return owned(s);
    }
    if w == 0 {
        return String::new();
    }
    if w == 1 {
        let mut out = String::new();
        push_char(&mut out, '\u{2026}');
        assert(out@ =~= seq![ellipsis()]);
        return out;
    }
    let mut head = s.substring_char(0, w - 1).to_string();
    push_char(&mut head, '\u{2026}');
    head
}

/// One `label: value` segment of the status bar.
pub open spec fn segment(item: (Seq<char>, Seq<char>)) -> Seq<char> {
    item.0 + ": "@ + item.1
}

/// All the segments of `items` on one line, separated by ` | `.
pub open spec fn one_line(items: Seq<(Seq<char>, Seq<char>)>) -> Seq<char>
    decreases items.len(),
{
    if items.len() == 0 {
        Seq::empty()
    } else if items.len() == 1 {
        segment(items[0])
    } else {
        one_line(items.drop_last()) + " | "@ + segment(items.last())
    }
}

/// The segments of `items`, one per line.
pub open spec fn segments(items: Seq<(Seq<char>, Seq<char>)>) -> Seq<Seq<char>> {
    items.map_values(|it: (Seq<char>, Seq<char>)| segment(it))
}

/// The lines of `lines` joined with newlines.
pub open spec fn joined_lines(lines: Seq<Seq<char>>) -> Seq<char>
    decreases lines.len(),
{
    if lines.len() == 0 {
        Seq::empty()
    } else if lines.len() == 1 {
        lines[0]
    } else {
        joined_lines(lines.drop_last()) + "\n"@ + lines.last()
    }
}

/// The status rows of `items` within `max` characters per line: all on
/// one line where they fit there, else one item per line, so that no item
/// is cut.
pub open spec fn status_rows(items: Seq<(Seq<char>, Seq<char>)>, max: nat) -> Seq<char> {
    if max > 0 && one_line(items).len() <= max {
        one_line(items)
    } else {
        joined_lines(segments(items))
    }
}

/// The views of status items.
pub open spec fn item_views(items: Seq<(&str, String)>) -> Seq<(Seq<char>, Seq<char>)> {
    items.map_values(|it: (&str, String)| (it.0@, it.1@))
}

fn join_lines(lines: &Vec<String>) -> (r: String)
    ensures
        r@ == joined_lines(views_of(lines@)),
{
    let mut out = String::new();
    let mut i: usize = 0;
    while i < lines.len()
        invariant
            i <= lines@.len(),
            out@ == joined_lines(views_of(lines@).take(i as int)),
        decreases lines@.len() - i,
    {
        let ghost before = views_of(lines@).take(i as int);
        if i > 0 {
            out = out.concat("\n");
        }
        out = out.concat(lines[i].as_str());
        proof {
            let after = views_of(lines@).take(i + 1);
            assert(after.drop_last() =~= before);
            assert(after.last() == lines@[i as int]@);
            if i == 0 {
                assert(after.len() == 1);
            }
        }
        i = i + 1;
    }
    assert(views_of(lines@).take(lines@.len() as int) =~= views_of(lines@));
    out
}

/// The views of a vector of strings.
pub open spec fn views_of(v: Seq<String>) -> Seq<Seq<char>> {
    v.map_values(|s: String| s@)
}

/// Lays out `label: value` segments within `width` characters per line
/// (see [`status_rows`]).
pub fn format_status_rows(items: &[(&str, String)], width: u16) -> (r: String)
    ensures
        r@ == status_rows(item_views(items@), width as nat),
{
    let ghost iv = item_views(items@);
    let mut parts: Vec<String> = Vec::new();
    let mut line = String::new();
    let mut i: usize = 0;
    while i < items.len()
        invariant
            i <= items@.len(),
            iv == item_views(items@),
            views_of(parts@) == segments(iv.take(i as int)),
            line@ == one_line(iv.take(i as int)),
        decreases items@.len() - i,
    {
        let (label, value) = &items[i];
        let segment_text = String::from_str(label).concat(": ").concat(value.as_str());
        proof {
            let t = iv.take(i + 1);
            assert(t.drop_last() =~= iv.take(i as int));
            assert(t.last() == iv[i as int]);
            assert(iv[i as int] == (items@[i as int].0@, items@[i as int].1@));
            assert(segments(t) =~= segments(iv.take(i as int)).push(segment(iv[i as int])));
            if i == 0 {
                assert(t.len() == 1 && t[0] == iv[0]);
            }
        }
        if i > 0 {
            line = line.concat(" | ");
        }
        line = line.concat(segment_text.as_str());
        let ghost before = views_of(parts@);
        parts.push(segment_text);
        assert(views_of(parts@) =~= before.push(parts@.last()@));
        i = i + 1;
    }
    assert(iv.take(items@.len() as int) =~= iv);
    let max = width as usize;
    if max > 0 && line.unicode_len() <= max {
        line
    } else {
        join_lines(&parts)
    }
}

/// The text of an optional field, `-` when it is missing.
pub open spec fn or_dash(o: Option<Seq<char>>) -> Seq<char> {
    match o {
        Some(s) => s,
        None => "-"@,
    }
}

/// The status bar of an entry: a broken link names its target; otherwise
/// the modification time and size, and, when expanded, the permissions,
/// owner and group, on one line where they fit within `width` characters,
/// else one item per line. `size` is
/// the size as text and `local` the local time of the modification, both
/// as the caller had them made.
pub open spec fn status_bar_text(
    e: EntryModel,
    width: nat,
    expanded: bool,
    size: Option<Seq<char>>,
    local: Option<LocalTime>,
) -> Seq<char> {
    if e.is_dangling {
        "Broken symlink: "@ + e.name + " >> "@ + match e.link_target {
            Some(t) => t,
            None => "(unknown)"@,
        }
    } else {
        let modified = ("Modified"@, modified_text(e.modified, local));
        let size = ("Size"@, or_dash(size));
        if !expanded {
            status_rows(seq![modified, size], width)
        } else {
            status_rows(
                seq![
                    modified,
                    size,
                    ("Perm"@, or_dash(e.permissions)),
                    ("Owner"@, or_dash(e.owner)),
                    ("Group"@, or_dash(e.group)),
                ],
                width,
            )
        }
    }
}

fn text_or_dash(o: &Option<String>) -> (r: String)
    ensures
        r@ == or_dash(crate::text::opt_view(*o)),
{
    match o {
        Some(s) => s.clone(),
        None => String::from_str("-"),
    }
}

/// The status bar of `entry` (see [`status_bar_text`]).
pub fn format_status_bar(
    entry: &DirEntry,
    content_width: u16,
    expanded: bool,
    size: Option<String>,
    local: Option<LocalTime>,
) -> (r: String)
    requires
        local matches Some(t) ==> t.tm_gmtoff != i64::MIN,
    ensures
        r@ == status_bar_text(entry@, content_width as nat, expanded, crate::text::opt_view(size), local),
{
    if entry.is_dangling {
        let target = text_or_unknown(&entry.link_target);
        return String::from_str("Broken symlink: ").concat(entry.name.as_str()).concat(" >> ").concat(
            target.as_str(),
        );
    }
    let size_text = text_or_dash(&size);
    let modified = format_modified(entry.modified, local);
    if !expanded {
        let items = [("Modified", modified), ("Size", size_text)];
        let r = format_status_rows(&items, content_width);
        proof {
            reveal_strlit("Modified");
            reveal_strlit("Size");
            assert(item_views(items@) =~= seq![
                ("Modified"@, modified_text(entry.modified, local)),
                ("Size"@, or_dash(crate::text::opt_view(size))),
            ]);
        }
        return r;
    }
    let perm = text_or_dash(&entry.permissions);
    let owner = text_or_dash(&entry.owner);
    let group = text_or_dash(&entry.group);
    let items = [("Modified", modified), ("Size", size_text), ("Perm", perm), ("Owner", owner), ("Group", group)];
    let r = format_status_rows(&items, content_width);
    proof {
        assert(item_views(items@) =~= seq![
            ("Modified"@, modified_text(entry.modified, local)),
            ("Size"@, or_dash(crate::text::opt_view(size))),
            ("Perm"@, or_dash(entry@.permissions)),
            ("Owner"@, or_dash(entry@.owner)),
            ("Group"@, or_dash(entry@.group)),
        ]);
    }
    r
}

fn text_or_unknown(o: &Option<String>) -> (r: String)
    ensures
        r@ == match *o {
            Some(s) => s@,
            None => "(unknown)"@,
        },
{
    match o {
        Some(s) => s.clone(),
        None => String::from_str("(unknown)"),
    }
}

/// The character shown for one permission bit.
pub open spec fn perm_char(mode: u32, mask: u32, c: char) -> char {
    if mode & mask != 0 {
        c
    } else {
        '-'
    }
}

/// The `rwxrwxrwx` text of the permission bits of `mode`.
pub open spec fn permission_text(mode: u32) -> Seq<char> {
    seq![
        perm_char(mode, 0o400, 'r'),
        perm_char(mode, 0o200, 'w'),
        perm_char(mode, 0o100, 'x'),
        perm_char(mode, 0o040, 'r'),
        perm_char(mode, 0o020, 'w'),
        perm_char(mode, 0o010, 'x'),
        perm_char(mode, 0o004, 'r'),
        perm_char(mode, 0o002, 'w'),
        perm_char(mode, 0o001, 'x'),
    ]
}

fn perm_bit(mode: u32, mask: u32, c: char) -> (r: char)
    ensures
        r == perm_char(mode, mask, c),
{
    if mode & mask != 0 {
        c
    } else {
        '-'
    }
}

/// The permission bits of a file mode as `rwxrwxrwx` text.
pub fn format_permissions(mode: u32) -> (r: String)
    ensures
        r@ == permission_text(mode),
{
    let mut out = String::new();
    push_char(&mut out, perm_bit(mode, 0o400, 'r'));
    push_char(&mut out, perm_bit(mode, 0o200, 'w'));
    push_char(&mut out, perm_bit(mode, 0o100, 'x'));
    push_char(&mut out, perm_bit(mode, 0o040, 'r'));
    push_char(&mut out, perm_bit(mode, 0o020, 'w'));
    push_char(&mut out, perm_bit(mode, 0o010, 'x'));
    push_char(&mut out, perm_bit(mode, 0o004, 'r'));
    push_char(&mut out, perm_bit(mode, 0o002, 'w'));
    push_char(&mut out, perm_bit(mode, 0o001, 'x'));
    assert(out@ =~= permission_text(mode));
    out
}

} // verus!
