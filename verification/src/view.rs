//! The text and the geometry of the screen: the rows of each panel, the
//! lines of the listing, the input lines, the pop-ups and where the cursor
//! stands. Colours and drawing are left to the terminal front end.
use vstd::prelude::*;
use vstd::string::*;
use crate::app::{App, AppModel, DirEntry, EntryModel, Mode, ShellModel};
use crate::calendar::LocalTime;
use crate::layout::Size;
use crate::command::{HelpItem, HelpModel};
use crate::commands::{children_count, selected_of};
use crate::status::{format_status_bar, status_bar_text, truncate_to_width, truncated};
use crate::text::{contains_seq, owned, push_char, trim_start};

verus! {

/// The icon of a folder (a Nerd Font glyph).
pub open spec fn folder_icon() -> char {
    '\u{f07b}'
}

/// The icon of a file (a Nerd Font glyph).
pub open spec fn file_icon() -> char {
    '\u{f15b}'
}

/// The panels of the screen from top to bottom in each mode: the path, the
/// listing, then the palette candidates and input, the shell input and
/// help, the filter input, or the status bar (taller when expanded).
pub open spec fn panel_rows(mode: Mode, expanded: bool) -> Seq<Size> {
    match mode {
        Mode::Command => seq![Size::Length(2), Size::Min(3), Size::Length(6), Size::Length(3)],
        Mode::Shell => seq![Size::Length(2), Size::Min(3), Size::Length(3), Size::Length(6)],
        Mode::Filter => seq![Size::Length(3), Size::Min(3), Size::Length(3)],
        _ => seq![Size::Length(3), Size::Min(3), Size::Length(if expanded { 6 } else { 3 })],
    }
}

/// The panels of the screen (see [`panel_rows`]).
pub fn screen_rows(mode: Mode, expanded: bool) -> (r: Vec<Size>)
    ensures
        r@ == panel_rows(mode, expanded),
{
    let r = match mode {
        Mode::Command => vec![Size::Length(2), Size::Min(3), Size::Length(6), Size::Length(3)],
        Mode::Shell => vec![Size::Length(2), Size::Min(3), Size::Length(3), Size::Length(6)],
        Mode::Filter => vec![Size::Length(3), Size::Min(3), Size::Length(3)],
        _ => vec![Size::Length(3), Size::Min(3), Size::Length(if expanded { 6 } else { 3 })],
    };
    assert(r@ =~= panel_rows(mode, expanded));
    r
}

/// The width of the path line: four less than the screen, at most 80.
pub open spec fn path_width(width: u16) -> nat {
    let w = if width >= 4 { (width - 4) as nat } else { 0 };
    if w > 80 { 80 } else { w }
}

/// The path line: the folder icon and the current directory, cut to fit.
pub open spec fn path_text(dir: Seq<char>, width: u16) -> Seq<char> {
    truncated(seq![folder_icon(), ' '] + dir, path_width(width))
}

/// The path line of the current directory on a screen `width` wide.
pub fn path_line(dir: &str, width: u16) -> (r: String)
    ensures
        r@ == path_text(dir@, width),
{
    let w: u16 = if width >= 4 { width - 4 } else { 0 };
    let w: u16 = if w > 80 { 80 } else { w };
    let mut s = String::new();
    push_char(&mut s, '\u{f07b}');
    push_char(&mut s, ' ');
    let s = s.concat(dir);
    assert(s@ =~= seq![folder_icon(), ' '] + dir@);
    truncate_to_width(s.as_str(), w)
}

/// The title of the listing: how many entries other than `..` are shown,
/// out of how many.
pub open spec fn files_title_text(shown: Seq<EntryModel>, all: Seq<EntryModel>) -> Seq<char> {
    " files ("@ + crate::number::decimal(children_count(shown)) + "/"@ + crate::number::decimal(children_count(all)) + ") "@
}

/// The text of an entry's row: its name, then `  >>  ` and the link
/// target for a link, cut to eight less than the screen width.
pub open spec fn entry_label_text(e: EntryModel, width: u16) -> Seq<char> {
    let text = e.name + match e.link_target {
        Some(t) => "  >>  "@ + t,
        None => Seq::empty(),
    };
    truncated(text, if width >= 8 { (width - 8) as nat } else { 0 })
}

/// The indent before an entry's icon: none for `..`, two spaces otherwise.
pub open spec fn entry_indent_text(e: EntryModel) -> Seq<char> {
    if e.name == ".."@ {
        Seq::empty()
    } else {
        "  "@
    }
}

/// The icon of an entry and a space.
pub open spec fn entry_icon_text(e: EntryModel) -> Seq<char> {
    seq![if e.is_dir { folder_icon() } else { file_icon() }, ' ']
}

/// The row of the listing that an entry makes: indent, icon, text.
pub fn entry_row(e: &DirEntry, width: u16) -> (r: (String, String, String))
    ensures
        r.0@ == entry_indent_text(e@),
        r.1@ == entry_icon_text(e@),
        r.2@ == entry_label_text(e@, width),
{
    let indent = if e.is_parent_entry() { String::new() } else { owned("  ") };
    let mut icon = String::new();
    push_char(&mut icon, if e.is_dir { '\u{f07b}' } else { '\u{f15b}' });
    push_char(&mut icon, ' ');
    assert(icon@ =~= entry_icon_text(e@));
    let text = match &e.link_target {
        Some(t) => e.name.clone().concat("  >>  ").concat(t.as_str()),
        None => e.name.clone(),
    };
    let w: u16 = if width >= 8 { width - 8 } else { 0 };
    let label = truncate_to_width(text.as_str(), w);
    proof {
        reveal_strlit("");
        assert(""@ =~= Seq::<char>::empty());
        if e.link_target is None {
            assert(e@.name + Seq::<char>::empty() =~= e@.name);
        }
    }
    (indent, icon, label)
}

/// Whether the create input names a directory: it holds a `/`.
pub open spec fn creates_folder(input: Seq<char>) -> bool {
    (trim_start(input).len() > 0 && trim_start(input)[0] == '/') || contains_seq(input, seq!['/'])
}

/// The hint shown at the end of the create row.
pub open spec fn create_hint() -> Seq<char> {
    " // `/`[Folder name] or [File name]"@
}

/// `n` spaces.
pub open spec fn spaces(n: int) -> Seq<char> {
    Seq::new(if n > 0 { n as nat } else { 0 }, |i: int| ' ')
}

/// `a - b`, or 0 when `b` is larger.
pub open spec fn minus(a: int, b: int) -> int {
    if a >= b { a - b } else { 0 }
}

/// The row where a new entry's name is typed: the icon of what it creates,
/// the input cut to the room left, spaces, and the hint, within twelve
/// less than the screen width.
pub open spec fn create_row_text(input: Seq<char>, width: u16) -> Seq<char> {
    let prefix = "  "@ + seq![if creates_folder(input) { folder_icon() } else { file_icon() }, ' '] + " "@;
    let line_width = minus(width as int, 12);
    let hint_len = create_hint().len() as int;
    let available = minus(minus(minus(line_width, prefix.len() as int), hint_len), 2);
    let part = truncated(input, (available % 65536) as nat);
    let padding = minus(minus(minus(line_width, prefix.len() as int), part.len() as int), hint_len);
    prefix + part + spaces(padding) + create_hint()
}

fn sub_or_zero(a: usize, b: usize) -> (r: usize)
    ensures
        r == minus(a as int, b as int),
{
    if a >= b { a - b } else { 0 }
}

/// The row where a new entry's name is typed (see [`create_row_text`]).
pub fn create_row(input: &str, width: u16) -> (r: String)
    ensures
        r@ == create_row_text(input@, width),
{
    let trimmed = crate::text::trim_start_str(input);
    let folder = (trimmed.unicode_len() > 0 && trimmed.get_char(0) == '/') || crate::text::contains_str(input, "/");
    proof {
        reveal_strlit("/");
        assert("/"@ =~= seq!['/']);
    }
    let mut prefix = owned("  ");
    push_char(&mut prefix, if folder { '\u{f07b}' } else { '\u{f15b}' });
    push_char(&mut prefix, ' ');
    let prefix = prefix.concat(" ");
    proof {
        reveal_strlit("  ");
        reveal_strlit(" ");
        assert(prefix@ =~= "  "@ + seq![if creates_folder(input@) { folder_icon() } else { file_icon() }, ' '] + " "@);
    }
    let hint = " // `/`[Folder name] or [File name]";
    let line_width = sub_or_zero(width as usize, 12);
    let hint_len = hint.unicode_len();
    let prefix_len = prefix.unicode_len();
    let available = sub_or_zero(sub_or_zero(sub_or_zero(line_width, prefix_len), hint_len), 2);
    let part = truncate_to_width(input, (available % 65536) as u16);
    let padding_len = sub_or_zero(sub_or_zero(sub_or_zero(line_width, prefix_len), part.unicode_len()), hint_len);
    let mut pad = String::new();
    let mut k: usize = 0;
    while k < padding_len
        invariant
            k <= padding_len,
            pad@ == spaces(k as int),
        decreases padding_len - k,
    {
        push_char(&mut pad, ' ');
        k = k + 1;
        assert(pad@ =~= spaces(k as int));
    }
    prefix.concat(part.as_str()).concat(pad.as_str()).concat(hint)
}

/// Where the cursor of the palette input stands: after `:` and the input,
/// inside the border, but not past the right border.
pub open spec fn command_cursor_x(x: u16, width: u16, input_len: nat) -> int {
    let desired = sat_add(sat_add(sat_add(x as int, 1), 1), (input_len % 65536) as int);
    let right = sat_sub(sat_add(x as int, sat_sub(width as int, 2)), 1);
    if desired < right { desired } else { right }
}

/// `a + b` held at `u16::MAX`.
pub open spec fn sat_add(a: int, b: int) -> int {
    if a + b > u16::MAX { u16::MAX as int } else { a + b }
}

/// `a - b` held at 0.
pub open spec fn sat_sub(a: int, b: int) -> int {
    if a - b < 0 { 0 } else { a - b }
}

/// The column of the palette input's cursor (see [`command_cursor_x`]).
pub fn command_cursor_column(x: u16, width: u16, input_len: usize) -> (r: u16)
    ensures
        r == command_cursor_x(x, width, input_len as nat),
{
    let len16: u16 = (input_len % 65536) as u16;
    let desired = x.saturating_add(1).saturating_add(1).saturating_add(len16);
    let right = x.saturating_add(width.saturating_sub(2)).saturating_sub(1);
    if desired < right { desired } else { right }
}

/// Where the cursor of the create row stands: seven columns into the row
/// and past the input, but not past the right border; on the row below the
/// selected entry, counted from the first row shown. Lengths and rows are
/// taken modulo 65536, as a cast to `u16` takes them.
pub open spec fn create_cursor(x: u16, y: u16, width: u16, selected: usize, offset: usize, input_len: nat) -> (int, int) {
    let row = minus(selected + 1, offset as int) % 65536;
    let desired = sat_add(sat_add(sat_add(x as int, 1), 7), (input_len % 65536) as int);
    let right = sat_sub(sat_add(x as int, width as int), 2);
    (if desired < right { desired } else { right }, y + 1 + row)
}

/// The cursor of the create row (see [`create_cursor`]); `offset` is the
/// first row of the listing that is shown.
pub fn create_cursor_position(x: u16, y: u16, width: u16, selected: usize, offset: usize, input_len: usize) -> (r: (u16, u16))
    requires
        selected < usize::MAX,
        y as int + 1 + minus(selected + 1, offset as int) % 65536 <= u16::MAX,
    ensures
        (r.0 as int, r.1 as int) == create_cursor(x, y, width, selected, offset, input_len as nat),
{
    let row: usize = if selected + 1 >= offset { selected + 1 - offset } else { 0 };
    let len16: u16 = (input_len % 65536) as u16;
    let desired = x.saturating_add(1).saturating_add(7).saturating_add(len16);
    let right = x.saturating_add(width).saturating_sub(2);
    let cx = if desired < right { desired } else { right };
    (cx, y + 1 + (row % 65536) as u16)
}

/// The input line of a mode: its sign, then what was typed.
pub fn input_line(sign: char, input: &str) -> (r: String)
    ensures
        r@ == seq![sign] + input@,
{
    let mut s = String::new();
    push_char(&mut s, sign);
    let r = s.concat(input);
    assert(r@ =~= seq![sign] + input@);
    r
}

/// The help of create mode, after the status message when there is one.
pub open spec fn create_panel_text(status: Seq<char>) -> Seq<char> {
    if status.len() > 0 {
        status + "\n\nEnter: create  Esc: cancel"@
    } else {
        "Enter: create  Esc: cancel"@
    }
}

/// The title of the shell output pop-up.
pub open spec fn shell_title_text(input: Seq<char>, r: ShellModel) -> Seq<char> {
    " shell output: "@ + input + " (exit "@ + match r.exit_code {
        Some(c) => crate::number::signed_decimal(c as int),
        None => "signal/error"@,
    } + ") "@
}

/// The body of the shell output pop-up.
pub open spec fn shell_body_text(r: ShellModel) -> Seq<char> {
    "[shell]\n"@ + r.ran_shell + "\n\n[stdout]\n"@ + r.stdout + "\n\n[stderr]\n"@ + r.stderr
}

/// The body of the delete confirmation.
pub open spec fn delete_body_text(pending: Option<(Seq<char>, bool)>) -> Seq<char> {
    let (target, is_dir) = match pending {
        Some(p) => p,
        None => ("(unknown)"@, false),
    };
    (if is_dir { "Delete this directory recursively?"@ } else { "Delete this file?"@ }) + "\n\n"@ + target
        + "\n\nPress y to confirm, n (or Esc/Enter) to cancel."@
}

/// `s` with spaces before it up to `w` characters.
pub open spec fn padded_left(s: Seq<char>, w: int) -> Seq<char> {
    spaces(w - s.len()) + s
}

/// `s` with spaces after it up to `w` characters.
pub open spec fn padded_right(s: Seq<char>, w: int) -> Seq<char> {
    s + spaces(w - s.len())
}

fn pad_with_spaces(s: &str, w: usize, left: bool) -> (r: String)
    ensures
        left ==> r@ == padded_left(s@, w as int),
        !left ==> r@ == padded_right(s@, w as int),
{
    let n = s.unicode_len();
    let fill = if w > n { w - n } else { 0 };
    let mut pad = String::new();
    let mut k: usize = 0;
    while k < fill
        invariant
            k <= fill,
            pad@ == spaces(k as int),
        decreases fill - k,
    {
        push_char(&mut pad, ' ');
        k = k + 1;
        assert(pad@ =~= spaces(k as int));
    }
    if left {
        pad.concat(s)
    } else {
        owned(s).concat(pad.as_str())
    }
}

/// The keys column of a help line: the keys right-aligned in twenty
/// columns, then two spaces.
pub open spec fn help_keys_text(item: HelpModel) -> Seq<char> {
    padded_left(match item.keys_display {
        Some(k) => k,
        None => Seq::empty(),
    }, 20) + "  "@
}

/// The name column of a help line: the name left-aligned in ten columns,
/// then two spaces.
pub open spec fn help_name_text(item: HelpModel) -> Seq<char> {
    padded_right(item.command_name, 10) + "  "@
}

/// The columns of a help line: keys, name, and description.
pub fn help_row(item: &HelpItem) -> (r: (String, String, String))
    ensures
        r.0@ == help_keys_text(item@),
        r.1@ == help_name_text(item@),
        r.2@ == item@.description,
{
    let keys: &str = match item.keys_display {
        Some(k) => k,
        None => "",
    };
    proof {
        reveal_strlit("");
        assert(""@ =~= Seq::<char>::empty());
    }
    let k = pad_with_spaces(keys, 20, true).concat("  ");
    let n = pad_with_spaces(item.command_name, 10, false).concat("  ");
    (k, n, owned(item.description))
}

impl App {
    /// The title of the listing (see [`files_title_text`]).
    pub fn files_title(&self) -> (r: String)
        ensures
            r@ == files_title_text(self@.entries, self@.all_entries),
    {
        let shown = crate::commands::count_children(&self.entries);
        let all = crate::commands::count_children(&self.all_entries);
        String::from_str(" files (").concat(crate::number::u64_to_decimal(shown).as_str()).concat("/").concat(
            crate::number::u64_to_decimal(all).as_str(),
        ).concat(") ")
    }

    /// The row of the listing that is highlighted: in create mode the input
    /// row below the selected entry, else the selected entry.
    pub fn highlighted_row(&self) -> (r: usize)
        requires
            self.selected_index < usize::MAX,
        ensures
            r == if self.mode == Mode::Create { self.selected_index + 1 } else { self.selected_index as int },
    {
        if self.mode == Mode::Create {
            self.selected_index + 1
        } else {
            self.selected_index
        }
    }

    /// The status panel: the status message when there is one, else the
    /// status bar of the selected entry, else nothing. `size` is the
    /// selected entry's size as text and `local` the local time of its
    /// modification, as the caller had them made.
    pub fn status_text(&self, width: u16, size: Option<String>, local: Option<LocalTime>) -> (r: String)
        requires
            local matches Some(t) ==> t.tm_gmtoff != i64::MIN,
        ensures
            r@ == if self@.status_message.len() > 0 {
                self@.status_message
            } else {
                match selected_of(self@) {
                    Some(e) => status_bar_text(e, if width >= 4 { (width - 4) as nat } else { 0 }, self@.status_bar_expanded, crate::text::opt_view(size), local),
                    None => Seq::empty(),
                }
            },
    {
        if self.status_message.unicode_len() > 0 {
            return self.status_message.clone();
        }
        match self.selected_entry() {
            Some(e) => {
                let w: u16 = if width >= 4 { width - 4 } else { 0 };
                format_status_bar(e, w, self.status_bar_expanded, size, local)
            },
            None => String::new(),
        }
    }

    /// The panel of create mode (see [`create_panel_text`]).
    pub fn create_panel(&self) -> (r: String)
        ensures
            r@ == create_panel_text(self@.status_message),
    {
        if self.status_message.unicode_len() > 0 {
            self.status_message.clone().concat("\n\nEnter: create  Esc: cancel")
        } else {
            owned("Enter: create  Esc: cancel")
        }
    }

    /// The title and the body of the shell output pop-up, when it shows one.
    pub fn shell_popup_text(&self) -> (r: Option<(String, String)>)
        ensures
            match self@.shell_last_output {
                Some(out) => self@.show_shell_popup ==> (r matches Some((t, b)) && t@ == shell_title_text(self@.shell_input, out) && b@ == shell_body_text(out)),
                None => r is None,
            },
            !self@.show_shell_popup ==> r is None,
    {
        if !self.show_shell_popup {
            return None;
        }
        match &self.shell_last_output {
            None => None,
            Some(out) => {
                let code = match out.exit_code {
                    Some(c) => crate::number::i64_to_decimal(c as i64),
                    None => owned("signal/error"),
                };
                let title = String::from_str(" shell output: ").concat(self.shell_input.as_str()).concat(" (exit ").concat(
                    code.as_str(),
                ).concat(") ");
                let body = String::from_str("[shell]\n").concat(out.ran_shell.as_str()).concat("\n\n[stdout]\n").concat(
                    out.stdout.as_str(),
                ).concat("\n\n[stderr]\n").concat(out.stderr.as_str());
                Some((title, body))
            },
        }
    }

    /// The body of the delete confirmation (see [`delete_body_text`]).
    pub fn delete_popup_text(&self) -> (r: String)
        ensures
            r@ == delete_body_text(self@.pending_delete),
    {
        let (target, is_dir) = match &self.pending_delete {
            Some(p) => (p.path.clone(), p.is_dir),
            None => (owned("(unknown)"), false),
        };
        let question = if is_dir { "Delete this directory recursively?" } else { "Delete this file?" };
        String::from_str(question).concat("\n\n").concat(target.as_str()).concat(
            "\n\nPress y to confirm, n (or Esc/Enter) to cancel.",
        )
    }
}

} // verus!
