//! The state of the viewer and every change of it that needs no outside
//! work: the listing and its filter, the selection, the input line of each
//! mode, the help screen and the pop-ups.
use std::collections::HashMap;
use vstd::prelude::*;
use vstd::string::*;
use crate::command::{filter_candidates, candidate_names};
use crate::config::Config;
use crate::text::{
    contains_seq, contains_str, lowercase, opt_view, owned, pop_char, push_char, str_eq,
    ascii_lowered, is_ascii_text, lemma_trim_lowered,
    to_lowercase, trim, trim_str, views, words, split_words,
};

verus! {

/// The input mode of the viewer.
#[derive(Clone, Copy, Debug, PartialEq, Eq, Structural)]
pub enum Mode {
    Browse,
    Filter,
    Command,
    Shell,
    Create,
    Help,
}

/// One entry of a directory listing. `modified` is the modification time in
/// whole seconds after the Unix epoch (`None` when unknown or earlier).
#[derive(Clone, Debug)]
pub struct DirEntry {
    pub name: String,
    pub path: String,
    pub is_dir: bool,
    pub size: Option<u64>,
    pub modified: Option<u64>,
    pub permissions: Option<String>,
    pub uid: Option<u32>,
    pub gid: Option<u32>,
    pub owner: Option<String>,
    pub group: Option<String>,
    pub link_target: Option<String>,
    pub is_dangling: bool,
}

/// The outcome of one shell command run from shell mode.
#[derive(Clone, Debug)]
pub struct ShellResult {
    pub exit_code: Option<i32>,
    pub stdout: String,
    pub stderr: String,
    pub ran_shell: String,
}

/// A directory deletion waiting for confirmation.
#[derive(Clone, Debug)]
pub struct PendingDelete {
    pub path: String,
    pub is_dir: bool,
}

/// The mathematical content of a listing entry.
pub struct EntryModel {
    pub name: Seq<char>,
    pub path: Seq<char>,
    pub is_dir: bool,
    pub size: Option<u64>,
    pub modified: Option<u64>,
    pub permissions: Option<Seq<char>>,
    pub uid: Option<u32>,
    pub gid: Option<u32>,
    pub owner: Option<Seq<char>>,
    pub group: Option<Seq<char>>,
    pub link_target: Option<Seq<char>>,
    pub is_dangling: bool,
}

impl View for DirEntry {
    type V = EntryModel;

    open spec fn view(&self) -> EntryModel {
        EntryModel {
            name: self.name@,
            path: self.path@,
            is_dir: self.is_dir,
            size: self.size,
            modified: self.modified,
            permissions: opt_view(self.permissions),
            uid: self.uid,
            gid: self.gid,
            owner: opt_view(self.owner),
            group: opt_view(self.group),
            link_target: opt_view(self.link_target),
            is_dangling: self.is_dangling,
        }
    }
}

/// The mathematical content of a shell result.
pub struct ShellModel {
    pub exit_code: Option<i32>,
    pub stdout: Seq<char>,
    pub stderr: Seq<char>,
    pub ran_shell: Seq<char>,
}

impl View for ShellResult {
    type V = ShellModel;

    open spec fn view(&self) -> ShellModel {
        ShellModel {
            exit_code: self.exit_code,
            stdout: self.stdout@,
            stderr: self.stderr@,
            ran_shell: self.ran_shell@,
        }
    }
}

impl View for PendingDelete {
    type V = (Seq<char>, bool);

    open spec fn view(&self) -> (Seq<char>, bool) {
        (self.path@, self.is_dir)
    }
}

/// The state of the viewer.
pub struct App {
    pub mode: Mode,
    pub current_dir: String,
    pub all_entries: Vec<DirEntry>,
    pub entries: Vec<DirEntry>,
    pub selected_index: usize,
    pub filter_input: String,
    pub command_input: String,
    pub command_candidates: Vec<String>,
    pub command_selected: Option<usize>,
    pub shell_input: String,
    pub create_input: String,
    pub shell_last_output: Option<ShellResult>,
    pub show_shell_popup: bool,
    pub help_selected: Option<usize>,
    pub show_delete_confirm: bool,
    pub pending_delete: Option<PendingDelete>,
    pub needs_full_redraw: bool,
    pub status_bar_expanded: bool,
    pub status_message: String,
    pub config: Config,
    pub user_name_cache: HashMap<u32, String>,
    pub group_name_cache: HashMap<u32, String>,
}

/// The mathematical content of the viewer state.
pub struct AppModel {
    pub mode: Mode,
    pub current_dir: Seq<char>,
    pub all_entries: Seq<EntryModel>,
    pub entries: Seq<EntryModel>,
    pub selected_index: usize,
    pub filter_input: Seq<char>,
    pub command_input: Seq<char>,
    pub command_candidates: Seq<Seq<char>>,
    pub command_selected: Option<usize>,
    pub shell_input: Seq<char>,
    pub create_input: Seq<char>,
    pub shell_last_output: Option<ShellModel>,
    pub show_shell_popup: bool,
    pub help_selected: Option<usize>,
    pub show_delete_confirm: bool,
    pub pending_delete: Option<(Seq<char>, bool)>,
    pub needs_full_redraw: bool,
    pub status_bar_expanded: bool,
    pub status_message: Seq<char>,
    pub config: (bool, Seq<char>),
    pub user_name_cache: Map<u32, Seq<char>>,
    pub group_name_cache: Map<u32, Seq<char>>,
}

/// The views of a sequence of entries.
pub open spec fn entry_views(v: Seq<DirEntry>) -> Seq<EntryModel> {
    v.map_values(|e: DirEntry| e@)
}

/// The views of the values of a name cache.
pub open spec fn cache_view(m: Map<u32, String>) -> Map<u32, Seq<char>> {
    m.map_values(|s: String| s@)
}

impl View for App {
    type V = AppModel;

    open spec fn view(&self) -> AppModel {
        AppModel {
            mode: self.mode,
            current_dir: self.current_dir@,
            all_entries: entry_views(self.all_entries@),
            entries: entry_views(self.entries@),
            selected_index: self.selected_index,
            filter_input: self.filter_input@,
            command_input: self.command_input@,
            command_candidates: views(self.command_candidates@),
            command_selected: self.command_selected,
            shell_input: self.shell_input@,
            create_input: self.create_input@,
            shell_last_output: match self.shell_last_output {
                Some(r) => Some(r@),
                None => None,
            },
            show_shell_popup: self.show_shell_popup,
            help_selected: self.help_selected,
            show_delete_confirm: self.show_delete_confirm,
            pending_delete: match self.pending_delete {
                Some(p) => Some(p@),
                None => None,
            },
            needs_full_redraw: self.needs_full_redraw,
            status_bar_expanded: self.status_bar_expanded,
            status_message: self.status_message@,
            config: self.config@,
            user_name_cache: cache_view(self.user_name_cache@),
            group_name_cache: cache_view(self.group_name_cache@),
        }
    }
}

/// The filter text as it is matched: trimmed and lower-cased (nothing when
/// it is blank).
pub open spec fn normalized_filter(f: Seq<char>) -> Seq<char> {
    if trim(f).len() == 0 {
        Seq::empty()
    } else {
        lowercase(trim(f))
    }
}

/// Whether an entry stays visible under the normalized filter `n`: the
/// parent entry `..` always does; otherwise its lower-cased name must
/// contain `n`.
pub open spec fn entry_visible(e: EntryModel, n: Seq<char>) -> bool {
    e.name == ".."@ || n.len() == 0 || contains_seq(lowercase(e.name), n)
}

/// Whether an entry stays visible under the filter text `m`, its name
/// compared in ASCII lower case.
pub open spec fn entry_visible_ascii(e: EntryModel, m: Seq<char>) -> bool {
    e.name == ".."@ || m.len() == 0 || contains_seq(ascii_lowered(e.name), m)
}

/// Whether every name in `es` is ASCII.
pub open spec fn names_ascii(es: Seq<EntryModel>) -> bool {
    forall|j: int| 0 <= j < es.len() ==> is_ascii_text(#[trigger] es[j].name)
}

/// The visible part of a listing under the filter text `f`, in order.
pub open spec fn visible_entries(all: Seq<EntryModel>, f: Seq<char>) -> Seq<EntryModel> {
    let n = normalized_filter(f);
    all.filter(|e: EntryModel| entry_visible(e, n))
}

/// A selection index moved into a list of `len` items.
pub open spec fn clamped(sel: usize, len: nat) -> usize {
    if len == 0 {
        0
    } else if sel >= len {
        (len - 1) as usize
    } else {
        sel
    }
}

/// The state once the filter is applied to the whole listing again.
pub open spec fn refiltered(a: AppModel) -> AppModel {
    let vis = visible_entries(a.all_entries, a.filter_input);
    AppModel { entries: vis, selected_index: clamped(a.selected_index, vis.len()), ..a }
}

/// The index above `i` in a list of `n` items, wrapping to the bottom.
pub open spec fn index_above(i: usize, n: nat) -> usize {
    if i == 0 {
        (n - 1) as usize
    } else {
        (i - 1) as usize
    }
}

/// The index below `i` in a list of `n` items, wrapping to the top.
pub open spec fn index_below(i: usize, n: nat) -> usize {
    if i + 1 < n {
        (i + 1) as usize
    } else {
        0
    }
}

/// A directory listing as it is handed in: the entries, or the text of the
/// error that stopped the read.
pub open spec fn listing_view(l: Result<Vec<DirEntry>, String>) -> Result<Seq<EntryModel>, Seq<char>> {
    match l {
        Ok(v) => Ok(entry_views(v@)),
        Err(e) => Err(e@),
    }
}

/// The state once a new listing is taken in and filtered; a failed read
/// leaves an empty listing and reports `Error: <error>`.
pub open spec fn reloaded(a: AppModel, l: Result<Seq<EntryModel>, Seq<char>>) -> AppModel {
    match l {
        Ok(v) => refiltered(AppModel { all_entries: v, ..a }),
        Err(e) => refiltered(AppModel { all_entries: Seq::empty(), status_message: "Error: "@ + e, ..a }),
    }
}

/// The state once the filter text is emptied and applied.
pub open spec fn filter_cleared(a: AppModel) -> AppModel {
    refiltered(AppModel { filter_input: Seq::empty(), ..a })
}

/// The state after moving into the directory `dir` whose listing is `l`:
/// Browse mode, no filter, the new listing, the first entry selected.
pub open spec fn changed_directory(a: AppModel, dir: Seq<char>, l: Result<Seq<EntryModel>, Seq<char>>) -> AppModel {
    let b = filter_cleared(AppModel { current_dir: dir, mode: Mode::Browse, ..a });
    AppModel { selected_index: 0, ..reloaded(b, l) }
}

/// The first word of a command line, or nothing.
pub open spec fn first_word(s: Seq<char>) -> Seq<char> {
    if words(s).len() > 0 {
        words(s)[0]
    } else {
        Seq::empty()
    }
}

/// The state once the palette candidates follow the first word of the input.
pub open spec fn candidates_refreshed(a: AppModel) -> AppModel {
    AppModel { command_candidates: candidate_names(first_word(a.command_input)), ..a }
}

/// The palette input once it shows the selected candidate, if there is one.
pub open spec fn input_synced(a: AppModel) -> AppModel {
    match a.command_selected {
        Some(i) => if i < a.command_candidates.len() {
            AppModel { command_input: a.command_candidates[i as int], ..a }
        } else {
            a
        },
        None => a,
    }
}

/// The candidate after `sel` in a list of `n`, cycling to the first.
pub open spec fn candidate_after(sel: Option<usize>, n: nat) -> usize {
    match sel {
        None => 0,
        Some(s) => ((s + 1) % (n as int)) as usize,
    }
}

/// The candidate before `sel` in a list of `n`, cycling to the last.
pub open spec fn candidate_before(sel: Option<usize>, n: nat) -> usize {
    match sel {
        None => (n - 1) as usize,
        Some(s) => if s == 0 { (n - 1) as usize } else { (s - 1) as usize },
    }
}

/// The command word and the arguments of a command line.
pub open spec fn parsed_command(s: Seq<char>) -> (Seq<char>, Seq<Seq<char>>) {
    if words(s).len() == 0 {
        (Seq::empty(), Seq::empty())
    } else {
        (words(s)[0], words(s).drop_first())
    }
}

/// The help line above `cur` in a list of `n`, wrapping to the bottom.
pub open spec fn help_above(cur: usize, n: nat) -> usize {
    if cur == 0 { (n - 1) as usize } else { (cur - 1) as usize }
}

/// The help line below `cur` in a list of `n`, wrapping to the top.
pub open spec fn help_below(cur: usize, n: nat) -> usize {
    if cur + 1 >= n { 0 } else { (cur + 1) as usize }
}

/// The state once the shell output pop-up is closed.
pub open spec fn shell_popup_closed(a: AppModel) -> AppModel {
    AppModel { show_shell_popup: false, shell_last_output: None, shell_input: Seq::empty(), ..a }
}

/// The state once a pending deletion is turned down.
pub open spec fn delete_declined(a: AppModel) -> AppModel {
    AppModel { show_delete_confirm: false, pending_delete: None, status_message: "delete: canceled"@, ..a }
}

/// The state after moving the selection up.
pub open spec fn moved_up(a: AppModel) -> AppModel {
    if a.mode == Mode::Command {
        AppModel {
            command_selected: match a.command_selected {
                Some(s) => if s > 0 { Some((s - 1) as usize) } else { Some(s) },
                None => None,
            },
            ..a
        }
    } else if a.entries.len() == 0 {
        a
    } else {
        AppModel { status_message: Seq::empty(), selected_index: index_above(a.selected_index, a.entries.len()), ..a }
    }
}

/// The state after moving the selection down.
pub open spec fn moved_down(a: AppModel) -> AppModel {
    if a.mode == Mode::Command {
        AppModel {
            command_selected: match a.command_selected {
                Some(s) => if s + 1 < a.command_candidates.len() { Some((s + 1) as usize) } else { Some(s) },
                None => None,
            },
            ..a
        }
    } else if a.entries.len() == 0 {
        a
    } else {
        AppModel { status_message: Seq::empty(), selected_index: index_below(a.selected_index, a.entries.len()), ..a }
    }
}

/// The state once command mode is entered afresh.
pub open spec fn command_mode_entered(a: AppModel) -> AppModel {
    AppModel {
        command_selected: None,
        ..candidates_refreshed(AppModel { mode: Mode::Command, command_input: Seq::empty(), ..a })
    }
}

/// A settings read as it is handed in: the settings, or the text of the
/// error that stopped the read.
pub open spec fn config_view(c: Result<Config, String>) -> Result<(bool, Seq<char>), Seq<char>> {
    match c {
        Ok(v) => Ok(v@),
        Err(e) => Err(e@),
    }
}

/// The state of a viewer opened in `dir`: Browse mode with every input
/// empty, all palette candidates offered and none selected, no pop-up, the
/// listing `l` taken in, and the settings read (the defaults, with
/// `config: <error>` reported, when they could not be read).
pub open spec fn started(
    dir: Seq<char>,
    config: Result<(bool, Seq<char>), Seq<char>>,
    l: Result<Seq<EntryModel>, Seq<char>>,
) -> AppModel {
    let a = AppModel {
        mode: Mode::Browse,
        current_dir: dir,
        all_entries: Seq::empty(),
        entries: Seq::empty(),
        selected_index: 0,
        filter_input: Seq::empty(),
        command_input: Seq::empty(),
        command_candidates: candidate_names(Seq::empty()),
        command_selected: None,
        shell_input: Seq::empty(),
        create_input: Seq::empty(),
        shell_last_output: None,
        show_shell_popup: false,
        help_selected: None,
        show_delete_confirm: false,
        pending_delete: None,
        needs_full_redraw: false,
        status_bar_expanded: false,
        status_message: match config {
            Ok(_) => Seq::empty(),
            Err(e) => "config: "@ + e,
        },
        config: match config {
            Ok(c) => c,
            Err(_) => crate::config::default_settings(),
        },
        user_name_cache: Map::empty(),
        group_name_cache: Map::empty(),
    };
    reloaded(a, l)
}

/// Keeps an index inside a list of `len` items.
pub fn clamp_index(index: usize, len: usize) -> (r: usize)
    ensures
        r == clamped(index, len as nat),
{
    if len == 0 {
        0
    } else if index >= len {
        len - 1
    } else {
        index
    }
}

/// A copy of an optional string.
pub fn copy_opt(o: &Option<String>) -> (r: Option<String>)
    ensures
        r == *o,
{
    match o {
        Some(s) => Some(s.clone()),
        None => None,
    }
}

impl DirEntry {
    /// A copy of the entry.
    pub fn duplicate(&self) -> (r: DirEntry)
        ensures
            r == *self,
    {
        DirEntry {
            name: self.name.clone(),
            path: self.path.clone(),
            is_dir: self.is_dir,
            size: self.size,
            modified: self.modified,
            permissions: copy_opt(&self.permissions),
            uid: self.uid,
            gid: self.gid,
            owner: copy_opt(&self.owner),
            group: copy_opt(&self.group),
            link_target: copy_opt(&self.link_target),
            is_dangling: self.is_dangling,
        }
    }

    /// Whether this is the parent entry `..`.
    pub fn is_parent_entry(&self) -> (r: bool)
        ensures
            r == (self.name@ == ".."@),
    {
        str_eq(self.name.as_str(), "..")
    }
}

impl App {
    /// A viewer opened in `current_dir`, with the settings `config` as they
    /// were read and the listing `listing` of the directory (see
    /// [`started`]).
    pub fn new(current_dir: String, config: Result<Config, String>, listing: Result<Vec<DirEntry>, String>) -> (r: App)
        ensures
            r@ == started(current_dir@, config_view(config), listing_view(listing)),
    {
        let (settings, message) = match config {
            Ok(c) => (c, String::new()),
            Err(e) => (
                Config { cd_on_quit: false, markdown_viewer: owned("treemd") },
                crate::text::join2("config: ", e.as_str()),
            ),
        };
        let mut app = App {
            mode: Mode::Browse,
            current_dir,
            all_entries: Vec::new(),
            entries: Vec::new(),
            selected_index: 0,
            filter_input: String::new(),
            command_input: String::new(),
            command_candidates: filter_candidates(""),
            command_selected: None,
            shell_input: String::new(),
            create_input: String::new(),
            shell_last_output: None,
            show_shell_popup: false,
            help_selected: None,
            show_delete_confirm: false,
            pending_delete: None,
            needs_full_redraw: false,
            status_bar_expanded: false,
            status_message: message,
            config: settings,
            user_name_cache: HashMap::new(),
            group_name_cache: HashMap::new(),
        };
        proof {
            reveal_strlit("");
            assert(""@ =~= Seq::<char>::empty());
            assert(entry_views(app.all_entries@) =~= Seq::empty());
            assert(entry_views(app.entries@) =~= Seq::empty());
            assert(cache_view(app.user_name_cache@) =~= Map::empty());
            assert(cache_view(app.group_name_cache@) =~= Map::empty());
        }
        app.reload_entries(listing);
        app
    }

    /// Shows the entries of the listing that pass the filter and keeps the
    /// selection inside them. Where the filter text and the names are
    /// ASCII, the match ignores the case of their letters: only their ASCII
    /// lower-case forms count.
    pub fn apply_entry_filter(&mut self)
        ensures
            final(self)@ == refiltered(old(self)@),
            is_ascii_text(old(self)@.filter_input) && names_ascii(old(self)@.all_entries) ==> final(self)@.entries
                == old(self)@.all_entries.filter(
                |e: EntryModel| entry_visible_ascii(e, trim(ascii_lowered(old(self)@.filter_input))),
            ),
    {
        let trimmed = trim_str(self.filter_input.as_str());
        let n = to_lowercase(trimmed.as_str());
        let show_all = n.unicode_len() == 0;
        let ghost all = entry_views(self.all_entries@);
        let ghost p = |e: EntryModel| entry_visible(e, n@);
        let ghost m = trim(ascii_lowered(self.filter_input@));
        let ghost q = |e: EntryModel| entry_visible_ascii(e, m);
        let ghost ascii = is_ascii_text(self.filter_input@) && names_ascii(all);
        proof {
            if is_ascii_text(self.filter_input@) {
                lemma_trim_lowered(self.filter_input@);
                assert(n@ == m);
            }
        }
        let mut out: Vec<DirEntry> = Vec::new();
        let mut i: usize = 0;
        assert(all.take(0).filter(p) =~= Seq::empty()) by {
            reveal_with_fuel(Seq::<_>::filter, 1);
        }
        assert(all.take(0).filter(q) =~= Seq::empty()) by {
            reveal_with_fuel(Seq::<_>::filter, 1);
        }
        while i < self.all_entries.len()
            invariant
                all == entry_views(self.all_entries@),
                self@ == old(self)@,
                n@ == normalized_filter(self.filter_input@),
                show_all == (n@.len() == 0),
                p == (|e: EntryModel| entry_visible(e, n@)),
                q == (|e: EntryModel| entry_visible_ascii(e, m)),
                ascii == (is_ascii_text(self.filter_input@) && names_ascii(all)),
                ascii ==> n@ == m,
                i <= self.all_entries@.len(),
                entry_views(out@) == all.take(i as int).filter(p),
                ascii ==> entry_views(out@) == all.take(i as int).filter(q),
            decreases self.all_entries@.len() - i,
        {
            let e = &self.all_entries[i];
            assert(all[i as int] == e@);
            proof {
                crate::seqs::lemma_filter_take_step(all, i as int, p);
                crate::seqs::lemma_filter_take_step(all, i as int, q);
            }
            let keep = if e.is_parent_entry() || show_all {
                true
            } else {
                let lower = to_lowercase(e.name.as_str());
                proof {
                    if ascii {
                        assert(is_ascii_text(all[i as int].name));
                    }
                }
                contains_str(lower.as_str(), n.as_str())
            };
            assert(ascii ==> p(all[i as int]) == q(all[i as int]));
            if keep {
                let copy = e.duplicate();
                let ghost before = out@;
                out.push(copy);
                assert(entry_views(out@) =~= entry_views(before).push(copy@));
            }
            i = i + 1;
        }
        assert(all.take(self.all_entries@.len() as int) =~= all);
        self.entries = out;
        self.clamp_selected_index();
    }

    fn clamp_selected_index(&mut self)
        ensures
            final(self)@ == (AppModel { selected_index: clamped(old(self).selected_index, old(self).entries@.len()), ..old(self)@ }),
    {
        if self.selected_index >= self.entries.len() && self.entries.len() > 0 {
            self.selected_index = self.entries.len() - 1;
        } else if self.entries.len() == 0 {
            self.selected_index = 0;
        }
    }

    /// The selected entry, if the selection points into the listing.
    pub fn selected_entry(&self) -> (r: Option<&DirEntry>)
        ensures
            match r {
                Some(e) => self.selected_index < self.entries@.len() && *e == self.entries@[self.selected_index as int],
                None => self.selected_index >= self.entries@.len(),
            },
    {
        if self.selected_index < self.entries.len() {
            Some(&self.entries[self.selected_index])
        } else {
            None
        }
    }

    /// Moves the selection up: in command mode the candidate selection
    /// moves up unless it is at the top; elsewhere the listing selection
    /// moves up, wrapping from the top to the bottom, and the status
    /// message is cleared.
    pub fn move_selection_up(&mut self)
        ensures
            final(self)@ == moved_up(old(self)@),
    {
        if self.mode == Mode::Command {
            if let Some(selected) = self.command_selected {
                if selected > 0 {
                    self.command_selected = Some(selected - 1);
                }
            }
            return;
        }
        if self.entries.len() == 0 {
            return;
        }
        self.status_message = String::new();
        if self.selected_index == 0 {
            self.selected_index = self.entries.len() - 1;
        } else {
            self.selected_index = self.selected_index - 1;
        }
    }

    /// Moves the selection down: in command mode the candidate selection
    /// moves down unless it is at the last candidate; elsewhere the listing
    /// selection moves down, wrapping from the bottom to the top, and the
    /// status message is cleared.
    pub fn move_selection_down(&mut self)
        ensures
            final(self)@ == moved_down(old(self)@),
    {
        if self.mode == Mode::Command {
            if let Some(selected) = self.command_selected {
                if selected < self.command_candidates.len() && selected + 1 < self.command_candidates.len() {
                    self.command_selected = Some(selected + 1);
                }
            }
            return;
        }
        if self.entries.len() == 0 {
            return;
        }
        self.status_message = String::new();
        if self.selected_index < self.entries.len() && self.selected_index + 1 < self.entries.len() {
            self.selected_index = self.selected_index + 1;
        } else {
            self.selected_index = 0;
        }
    }

    /// Takes in a new listing of the current directory (or the error of
    /// reading it) and filters it.
    pub fn reload_entries(&mut self, listing: Result<Vec<DirEntry>, String>)
        ensures
            final(self)@ == reloaded(old(self)@, listing_view(listing)),
    {
        match listing {
            Ok(v) => {
                self.all_entries = v;
            },
            Err(e) => {
                self.status_message = crate::text::join2("Error: ", e.as_str());
                self.all_entries = Vec::new();
                assert(entry_views(self.all_entries@) =~= Seq::empty());
            },
        }
        self.apply_entry_filter();
    }

    /// Enters filter mode.
    pub fn enter_filter_mode(&mut self)
        ensures
            final(self)@ == (AppModel { mode: Mode::Filter, ..old(self)@ }),
    {
        self.mode = Mode::Filter;
    }

    /// Leaves filter mode, clearing the filter when asked to.
    pub fn exit_filter_mode(&mut self, clear: bool)
        ensures
            clear ==> final(self)@ == (AppModel { mode: Mode::Browse, ..filter_cleared(old(self)@) }),
            !clear ==> final(self)@ == (AppModel { mode: Mode::Browse, ..old(self)@ }),
    {
        if clear {
            self.clear_filter();
        }
        self.mode = Mode::Browse;
    }

    /// Adds a character to the filter and applies it.
    pub fn filter_push_char(&mut self, c: char)
        ensures
            final(self)@ == refiltered(AppModel { filter_input: old(self)@.filter_input.push(c), ..old(self)@ }),
    {
        push_char(&mut self.filter_input, c);
        self.apply_entry_filter();
    }

    /// Removes the last character of the filter, if any, and applies it.
    pub fn filter_pop_char(&mut self)
        ensures
            final(self)@ == refiltered(AppModel {
                filter_input: if old(self)@.filter_input.len() > 0 {
                    old(self)@.filter_input.drop_last()
                } else {
                    old(self)@.filter_input
                },
                ..old(self)@
            }),
    {
        let _ = pop_char(&mut self.filter_input);
        self.apply_entry_filter();
    }

    /// Empties the filter and shows the whole listing.
    pub fn clear_filter(&mut self)
        ensures
            final(self)@ == filter_cleared(old(self)@),
    {
        self.filter_input = String::new();
        self.apply_entry_filter();
    }

    /// Moves into the directory `new_dir`, whose listing is `listing`.
    pub fn on_directory_changed(&mut self, new_dir: String, listing: Result<Vec<DirEntry>, String>)
        ensures
            final(self)@ == changed_directory(old(self)@, new_dir@, listing_view(listing)),
    {
        self.current_dir = new_dir;
        self.mode = Mode::Browse;
        self.clear_filter();
        self.reload_entries(listing);
        self.selected_index = 0;
    }

    /// The parent of the current directory, as `Path::parent` gives it.
    pub fn parent_directory(&self) -> (r: Option<String>)
        ensures
            opt_view(r) == crate::path::path_parent(self.current_dir@),
    {
        crate::path::parent_of(self.current_dir.as_str())
    }

    /// Moves to the parent directory, whose listing is `parent_listing`; at
    /// the root it reports that there is no parent. Either way the mode
    /// becomes Browse and the filter is cleared.
    pub fn move_to_parent_directory(&mut self, parent_listing: Result<Vec<DirEntry>, String>)
        ensures
            ({
                let a = filter_cleared(AppModel { mode: Mode::Browse, ..old(self)@ });
                match crate::path::path_parent(old(self)@.current_dir) {
                    Some(p) => final(self)@ == (AppModel {
                        status_message: "cd: "@ + p,
                        ..changed_directory(a, p, listing_view(parent_listing))
                    }),
                    None => final(self)@ == (AppModel { status_message: "cd: parent directory not found"@, ..a }),
                }
            }),
    {
        self.mode = Mode::Browse;
        self.clear_filter();
        match self.parent_directory() {
            Some(parent) => {
                self.on_directory_changed(parent, parent_listing);
                self.status_message = crate::text::join2("cd: ", self.current_dir.as_str());
            },
            None => {
                self.status_message = owned("cd: parent directory not found");
            },
        }
    }

    /// Enters command mode with an empty input, all candidates offered and
    /// none selected.
    pub fn enter_command_mode(&mut self)
        ensures
            final(self)@ == command_mode_entered(old(self)@),
    {
        self.mode = Mode::Command;
        self.command_input = String::new();
        self.filter_command_candidates();
        self.command_selected = None;
    }

    /// Leaves command mode.
    pub fn exit_command_mode(&mut self)
        ensures
            final(self)@ == (AppModel { mode: Mode::Browse, ..old(self)@ }),
    {
        self.mode = Mode::Browse;
    }

    /// Adds a character to the palette input, refreshes the candidates and
    /// drops the candidate selection.
    pub fn command_push_char(&mut self, c: char)
        ensures
            final(self)@ == (AppModel {
                command_selected: None,
                ..candidates_refreshed(AppModel { command_input: old(self)@.command_input.push(c), ..old(self)@ })
            }),
    {
        push_char(&mut self.command_input, c);
        self.filter_command_candidates();
        self.command_selected = None;
    }

    /// Removes the last character of the palette input, if any, refreshes
    /// the candidates and drops the candidate selection.
    pub fn command_pop_char(&mut self)
        ensures
            final(self)@ == (AppModel {
                command_selected: None,
                ..candidates_refreshed(AppModel {
                    command_input: if old(self)@.command_input.len() > 0 {
                        old(self)@.command_input.drop_last()
                    } else {
                        old(self)@.command_input
                    },
                    ..old(self)@
                })
            }),
    {
        let _ = pop_char(&mut self.command_input);
        self.filter_command_candidates();
        self.command_selected = None;
    }

    /// Selects the next candidate, cycling, and shows it in the input.
    pub fn command_select_next(&mut self)
        ensures
            old(self).command_candidates@.len() == 0 ==> final(self)@ == old(self)@,
            old(self).command_candidates@.len() > 0 ==> final(self)@ == input_synced(AppModel {
                command_selected: Some(candidate_after(old(self).command_selected, old(self).command_candidates@.len())),
                ..old(self)@
            }),
    {
        let n = self.command_candidates.len();
        if n == 0 {
            return;
        }
        let next = match self.command_selected {
            None => 0,
            Some(s) => {
                proof {
                    vstd::arithmetic::div_mod::lemma_add_mod_noop(s as int, 1, n as int);
                    vstd::arithmetic::div_mod::lemma_mod_bound(s as int, n as int);
                    if n > 1 {
                        vstd::arithmetic::div_mod::lemma_small_mod(1, n as nat);
                    }
                }
                (s % n + 1) % n
            },
        };
        self.command_selected = Some(next);
        self.sync_command_input_to_selected();
    }

    /// Selects the previous candidate, cycling, and shows it in the input.
    pub fn command_select_prev(&mut self)
        ensures
            old(self).command_candidates@.len() == 0 ==> final(self)@ == old(self)@,
            old(self).command_candidates@.len() > 0 ==> final(self)@ == input_synced(AppModel {
                command_selected: Some(candidate_before(old(self).command_selected, old(self).command_candidates@.len())),
                ..old(self)@
            }),
    {
        let n = self.command_candidates.len();
        if n == 0 {
            return;
        }
        let prev = match self.command_selected {
            None => n - 1,
            Some(0) => n - 1,
            Some(s) => s - 1,
        };
        self.command_selected = Some(prev);
        self.sync_command_input_to_selected();
    }

    fn sync_command_input_to_selected(&mut self)
        ensures
            final(self)@ == input_synced(old(self)@),
    {
        if let Some(i) = self.command_selected {
            if i < self.command_candidates.len() {
                self.command_input = self.command_candidates[i].clone();
            }
        }
    }

    /// The command word of the palette input and its arguments.
    pub fn parse_command_input(&self) -> (r: (String, Vec<String>))
        ensures
            (r.0@, views(r.1@)) == parsed_command(self.command_input@),
    {
        let mut parts = split_words(self.command_input.as_str());
        if parts.len() == 0 {
            return (String::new(), Vec::new());
        }
        let ghost ws = views(parts@);
        let command_name = parts.remove(0);
        assert(views(parts@) =~= ws.drop_first());
        (command_name, parts)
    }

    /// Offers the candidates that match the first word of the palette input.
    pub fn filter_command_candidates(&mut self)
        ensures
            final(self)@ == candidates_refreshed(old(self)@),
    {
        let parts = split_words(self.command_input.as_str());
        let token = if parts.len() > 0 {
            parts[0].clone()
        } else {
            String::new()
        };
        self.command_candidates = filter_candidates(token.as_str());
    }

    /// Enters shell mode with an empty input.
    pub fn enter_shell_mode(&mut self)
        ensures
            final(self)@ == (AppModel { mode: Mode::Shell, shell_input: Seq::empty(), ..old(self)@ }),
    {
        self.mode = Mode::Shell;
        self.shell_input = String::new();
    }

    /// Leaves shell mode.
    pub fn exit_shell_mode(&mut self)
        ensures
            final(self)@ == (AppModel { mode: Mode::Browse, ..old(self)@ }),
    {
        self.mode = Mode::Browse;
    }

    /// Enters create mode with an empty input.
    pub fn enter_create_mode(&mut self)
        ensures
            final(self)@ == (AppModel { mode: Mode::Create, create_input: Seq::empty(), ..old(self)@ }),
    {
        self.mode = Mode::Create;
        self.create_input = String::new();
    }

    /// Leaves create mode and empties its input.
    pub fn exit_create_mode(&mut self)
        ensures
            final(self)@ == (AppModel { mode: Mode::Browse, create_input: Seq::empty(), ..old(self)@ }),
    {
        self.mode = Mode::Browse;
        self.create_input = String::new();
    }

    /// Adds a character to the create input.
    pub fn create_push_char(&mut self, c: char)
        ensures
            final(self)@ == (AppModel { create_input: old(self)@.create_input.push(c), ..old(self)@ }),
    {
        push_char(&mut self.create_input, c);
    }

    /// Removes the last character of the create input, if any.
    pub fn create_pop_char(&mut self)
        ensures
            final(self)@ == (AppModel {
                create_input: if old(self)@.create_input.len() > 0 {
                    old(self)@.create_input.drop_last()
                } else {
                    old(self)@.create_input
                },
                ..old(self)@
            }),
    {
        let _ = pop_char(&mut self.create_input);
    }

    /// Adds a character to the shell input.
    pub fn shell_push_char(&mut self, c: char)
        ensures
            final(self)@ == (AppModel { shell_input: old(self)@.shell_input.push(c), ..old(self)@ }),
    {
        push_char(&mut self.shell_input, c);
    }

    /// Removes the last character of the shell input, if any.
    pub fn shell_pop_char(&mut self)
        ensures
            final(self)@ == (AppModel {
                shell_input: if old(self)@.shell_input.len() > 0 {
                    old(self)@.shell_input.drop_last()
                } else {
                    old(self)@.shell_input
                },
                ..old(self)@
            }),
    {
        let _ = pop_char(&mut self.shell_input);
    }

    /// Closes the shell output pop-up and forgets the output and the input.
    pub fn close_shell_popup(&mut self)
        ensures
            final(self)@ == shell_popup_closed(old(self)@),
    {
        self.show_shell_popup = false;
        self.shell_last_output = None;
        self.shell_input = String::new();
    }

    /// Opens the help screen on its first line.
    pub fn enter_help_mode(&mut self)
        ensures
            final(self)@ == (AppModel { mode: Mode::Help, help_selected: Some(0), ..old(self)@ }),
    {
        self.mode = Mode::Help;
        self.help_selected = Some(0);
    }

    /// Closes the help screen.
    pub fn exit_help_mode(&mut self)
        ensures
            final(self)@ == (AppModel { mode: Mode::Browse, ..old(self)@ }),
    {
        self.mode = Mode::Browse;
    }

    /// Moves the help selection up, wrapping from the top to the bottom.
    pub fn help_move_up(&mut self)
        ensures
            crate::command::help_listing().len() == 0 ==> final(self)@ == old(self)@,
            crate::command::help_listing().len() > 0 ==> final(self)@ == (AppModel {
                help_selected: Some(help_above(
                    match old(self).help_selected { Some(c) => c, None => 0 },
                    crate::command::help_listing().len(),
                )),
                ..old(self)@
            }),
    {
        let items_len = crate::command::help_items().len();
        if items_len == 0 {
            return;
        }
        let current = match self.help_selected {
            Some(c) => c,
            None => 0,
        };
        let next = if current == 0 { items_len - 1 } else { current - 1 };
        self.help_selected = Some(next);
    }

    /// Moves the help selection down, wrapping from the bottom to the top.
    pub fn help_move_down(&mut self)
        ensures
            crate::command::help_listing().len() == 0 ==> final(self)@ == old(self)@,
            crate::command::help_listing().len() > 0 ==> final(self)@ == (AppModel {
                help_selected: Some(help_below(
                    match old(self).help_selected { Some(c) => c, None => 0 },
                    crate::command::help_listing().len(),
                )),
                ..old(self)@
            }),
    {
        let items_len = crate::command::help_items().len();
        if items_len == 0 {
            return;
        }
        let current = match self.help_selected {
            Some(c) => c,
            None => 0,
        };
        let next = if current >= items_len - 1 { 0 } else { current + 1 };
        self.help_selected = Some(next);
    }

    /// Asks for confirmation before deleting the directory `path`.
    pub fn open_delete_confirm(&mut self, path: String, is_dir: bool)
        ensures
            final(self)@ == (AppModel {
                pending_delete: Some((path@, is_dir)),
                show_delete_confirm: true,
                status_message: "delete: confirm with y/N"@,
                ..old(self)@
            }),
    {
        self.pending_delete = Some(PendingDelete { path, is_dir });
        self.show_delete_confirm = true;
        self.status_message = owned("delete: confirm with y/N");
    }

    /// Takes the confirmed deletion out of the state and closes the
    /// confirmation; the caller removes the returned path.
    pub fn take_pending_delete(&mut self) -> (r: Option<PendingDelete>)
        ensures
            match old(self).pending_delete {
                None => r is None && final(self)@ == (AppModel { show_delete_confirm: false, ..old(self)@ }),
                Some(p) => r == Some(p) && final(self)@ == (AppModel {
                    show_delete_confirm: false,
                    pending_delete: None,
                    ..old(self)@
                }),
            },
    {
        let pending = self.pending_delete.take();
        self.show_delete_confirm = false;
        pending
    }

    /// Turns down the pending deletion.
    pub fn confirm_delete_no(&mut self)
        ensures
            final(self)@ == delete_declined(old(self)@),
    {
        self.show_delete_confirm = false;
        self.pending_delete = None;
        self.status_message = owned("delete: canceled");
    }

    /// Closes whichever pop-up is open: the delete confirmation (turning the
    /// deletion down) before the shell output.
    pub fn close_active_popup(&mut self)
        ensures
            old(self).show_delete_confirm ==> final(self)@ == delete_declined(old(self)@),
            !old(self).show_delete_confirm && old(self).show_shell_popup ==> final(self)@ == shell_popup_closed(old(self)@),
            !old(self).show_delete_confirm && !old(self).show_shell_popup ==> final(self)@ == old(self)@,
    {
        if self.show_delete_confirm {
            self.confirm_delete_no();
            return;
        }
        if self.show_shell_popup {
            self.close_shell_popup();
        }
    }

    /// Asks for the whole screen to be drawn again.
    pub fn request_full_redraw(&mut self)
        ensures
            final(self)@ == (AppModel { needs_full_redraw: true, ..old(self)@ }),
    {
        self.needs_full_redraw = true;
    }

    /// Whether a full redraw was asked for; the request is used up.
    pub fn consume_full_redraw_request(&mut self) -> (r: bool)
        ensures
            r == old(self).needs_full_redraw,
            final(self)@ == (AppModel { needs_full_redraw: false, ..old(self)@ }),
    {
        let requested = self.needs_full_redraw;
        self.needs_full_redraw = false;
        requested
    }

    /// Shows or hides the detailed status bar.
    pub fn toggle_status_bar_expanded(&mut self)
        ensures
            final(self)@ == (AppModel { status_bar_expanded: !old(self).status_bar_expanded, ..old(self)@ }),
    {
        self.status_bar_expanded = !self.status_bar_expanded;
    }
}

} // verus!
