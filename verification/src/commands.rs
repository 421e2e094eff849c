//! The decisions of the commands that touch the file system, the
//! environment, a child process or the clipboard. Each command is planned
//! here from the state and its arguments; the caller does the outside work
//! the plan names and hands the result back to be reported.
use vstd::prelude::*;
use std::collections::HashMap;
use vstd::string::*;
use crate::app::{
    App, AppModel, DirEntry, EntryModel, ShellResult, ShellModel, changed_directory, clamped,
    listing_view, reloaded, Mode,
};
use crate::number::{decimal, signed_decimal, i64_to_decimal, u64_to_decimal};
use crate::path::{
    path_join, path_parent, path_file_name, path_file_stem, path_extension, resolved_path,
    resolve_path, join_path, parent_of, file_name_of, file_stem_of, extension_of,
};
use crate::text::{
    opt_view, owned, trim, trim_str, views, find_char, str_eq, strip_start, strip_end,
    strip_char_start, strip_char_end, words, split_words,
};

verus! {

/// What a path names on disk, as the caller found it.
pub enum PathKind {
    /// Nothing could be read there; the text of the error.
    Missing(String),
    /// Something that is not a directory.
    File,
    /// A directory.
    Directory,
}

/// The mathematical content of a [`PathKind`].
pub enum PathKindModel {
    Missing(Seq<char>),
    File,
    Directory,
}

impl View for PathKind {
    type V = PathKindModel;

    open spec fn view(&self) -> PathKindModel {
        match self {
            PathKind::Missing(e) => PathKindModel::Missing(e@),
            PathKind::File => PathKindModel::File,
            PathKind::Directory => PathKindModel::Directory,
        }
    }
}

/// How a change to the file system went: done, with the new listing of the
/// current directory, or failed, with the text of the error.
pub enum FsOutcome {
    Done(Result<Vec<DirEntry>, String>),
    Failed(String),
}

/// The mathematical content of an [`FsOutcome`].
pub enum FsOutcomeModel {
    Done(Result<Seq<EntryModel>, Seq<char>>),
    Failed(Seq<char>),
}

impl View for FsOutcome {
    type V = FsOutcomeModel;

    open spec fn view(&self) -> FsOutcomeModel {
        match self {
            FsOutcome::Done(l) => FsOutcomeModel::Done(listing_view(*l)),
            FsOutcome::Failed(e) => FsOutcomeModel::Failed(e@),
        }
    }
}

/// The selected entry of a state, if the selection points into the listing.
pub open spec fn selected_of(a: AppModel) -> Option<EntryModel> {
    if a.selected_index < a.entries.len() {
        Some(a.entries[a.selected_index as int])
    } else {
        None
    }
}

/// The state with a new status message.
pub open spec fn with_status(a: AppModel, m: Seq<char>) -> AppModel {
    AppModel { status_message: m, ..a }
}

/// How planning a command leaves the state: unchanged with a plan, or with
/// the refusal as its status message.
pub open spec fn planned<T>(old: AppModel, new: AppModel, r: Option<T>, plan: Result<T, Seq<char>>) -> bool {
    match plan {
        Ok(t) => r == Some(t) && new == old,
        Err(m) => r is None && new == with_status(old, m),
    }
}

/// The string of an optional owned string, as a sequence result.
pub open spec fn opt_str(r: Option<String>) -> Option<Seq<char>> {
    opt_view(r)
}

/// Where `cd` goes: the home directory without arguments, else the one
/// resolved path.
pub open spec fn cd_plan(a: AppModel, args: Seq<Seq<char>>, home: Option<Seq<char>>) -> Result<Seq<char>, Seq<char>> {
    if args.len() > 1 {
        Err("cd: too many arguments"@)
    } else if args.len() == 0 {
        match home {
            Some(h) => Ok(h),
            None => Err("cd: HOME not set"@),
        }
    } else {
        match resolved_path(a.current_dir, args[0], home) {
            Ok(p) => Ok(p),
            Err(e) => Err("cd: "@ + e),
        }
    }
}

/// What `cd` does once the target was looked at.
pub open spec fn cd_done(a: AppModel, target: Seq<char>, kind: PathKindModel, l: Result<Seq<EntryModel>, Seq<char>>) -> AppModel {
    match kind {
        PathKindModel::Missing(e) => with_status(a, "cd: "@ + target + ": "@ + e),
        PathKindModel::File => with_status(a, "cd: '"@ + target + "' is not a directory"@),
        PathKindModel::Directory => with_status(changed_directory(a, target, l), "cd: "@ + target),
    }
}

/// What `mkdir` creates: the one trimmed name, inside the current directory.
pub open spec fn mkdir_plan(a: AppModel, args: Seq<Seq<char>>) -> Result<(Seq<char>, Seq<char>), Seq<char>> {
    if args.len() == 0 {
        Err("mkdir: missing directory name"@)
    } else if args.len() > 1 {
        Err("mkdir: too many arguments"@)
    } else if trim(args[0]).len() == 0 {
        Err("mkdir: missing directory name"@)
    } else {
        Ok((trim(args[0]), path_join(a.current_dir, trim(args[0]))))
    }
}

/// How a change to the file system is reported: after success the listing
/// is taken in and `done` is shown; after failure `failed + error`.
pub open spec fn fs_reported(a: AppModel, o: FsOutcomeModel, done: Seq<char>, failed: Seq<char>) -> AppModel {
    match o {
        FsOutcomeModel::Done(l) => with_status(reloaded(a, l), done),
        FsOutcomeModel::Failed(e) => with_status(a, failed + e),
    }
}

/// What `delete` removes: the selected entry (never `..`) without
/// arguments, else the one resolved path.
pub open spec fn delete_plan(a: AppModel, args: Seq<Seq<char>>, home: Option<Seq<char>>) -> Result<Seq<char>, Seq<char>> {
    if args.len() > 1 {
        Err("delete: too many arguments"@)
    } else if args.len() == 0 {
        match selected_of(a) {
            None => Err("delete: no selection"@),
            Some(e) => if e.name == ".."@ {
                Err("delete: cannot delete parent entry"@)
            } else {
                Ok(e.path)
            },
        }
    } else {
        match resolved_path(a.current_dir, args[0], home) {
            Ok(p) => Ok(p),
            Err(e) => Err("delete: "@ + e),
        }
    }
}

/// What `yank` copies: the selected entry's path without arguments, else
/// the one resolved path.
pub open spec fn yank_plan(a: AppModel, args: Seq<Seq<char>>, home: Option<Seq<char>>) -> Result<Seq<char>, Seq<char>> {
    if args.len() > 1 {
        Err("yank: too many arguments"@)
    } else if args.len() == 0 {
        match selected_of(a) {
            None => Err("yank: no selection"@),
            Some(e) => Ok(e.path),
        }
    } else {
        match resolved_path(a.current_dir, args[0], home) {
            Ok(p) => Ok(p),
            Err(e) => Err("yank: "@ + e),
        }
    }
}

/// The position of the first entry named `name`.
pub open spec fn index_named(es: Seq<EntryModel>, name: Seq<char>) -> Option<int>
    decreases es.len(),
{
    if es.len() == 0 {
        None
    } else if index_named(es.drop_last(), name) is Some {
        index_named(es.drop_last(), name)
    } else if es.last().name == name {
        Some(es.len() - 1)
    } else {
        None
    }
}

/// The state with the first entry named `name` selected, if there is one.
pub open spec fn reselected(a: AppModel, name: Seq<char>) -> AppModel {
    match index_named(a.entries, name) {
        Some(i) => AppModel { selected_index: i as usize, ..a },
        None => a,
    }
}

/// A planned rename: the entry's name and path, its new path and new name.
pub struct RenamePlan {
    pub old_name: String,
    pub source: String,
    pub destination: String,
    pub new_name: String,
}

impl View for RenamePlan {
    type V = (Seq<char>, Seq<char>, Seq<char>, Seq<char>);

    open spec fn view(&self) -> (Seq<char>, Seq<char>, Seq<char>, Seq<char>) {
        (self.old_name@, self.source@, self.destination@, self.new_name@)
    }
}

/// How a rename went.
pub enum RenameOutcome {
    /// Something already has the new name.
    AlreadyExists,
    /// Looking for something with the new name failed; the error.
    CheckFailed(String),
    /// Renamed; the new listing.
    Renamed(Result<Vec<DirEntry>, String>),
    /// The rename itself failed; the error.
    Failed(String),
}

/// The mathematical content of a [`RenameOutcome`].
pub enum RenameOutcomeModel {
    AlreadyExists,
    CheckFailed(Seq<char>),
    Renamed(Result<Seq<EntryModel>, Seq<char>>),
    Failed(Seq<char>),
}

impl View for RenameOutcome {
    type V = RenameOutcomeModel;

    open spec fn view(&self) -> RenameOutcomeModel {
        match self {
            RenameOutcome::AlreadyExists => RenameOutcomeModel::AlreadyExists,
            RenameOutcome::CheckFailed(e) => RenameOutcomeModel::CheckFailed(e@),
            RenameOutcome::Renamed(l) => RenameOutcomeModel::Renamed(listing_view(*l)),
            RenameOutcome::Failed(e) => RenameOutcomeModel::Failed(e@),
        }
    }
}

/// What `rename <new_name>` renames: the selected entry (never `..`), to a
/// trimmed name without `/` that differs from its name, in the same
/// directory.
pub open spec fn rename_plan(a: AppModel, args: Seq<Seq<char>>) -> Result<(Seq<char>, Seq<char>, Seq<char>, Seq<char>), Seq<char>> {
    if args.len() == 0 {
        Err("rename: missing new name"@)
    } else if args.len() > 1 {
        Err("rename: too many arguments"@)
    } else {
        let new_name = trim(args[0]);
        if new_name.len() == 0 {
            Err("rename: missing new name"@)
        } else if new_name.contains('/') {
            Err("rename: new name must not contain path separators"@)
        } else {
            match selected_of(a) {
                None => Err("rename: no selection"@),
                Some(e) => if e.name == ".."@ {
                    Err("rename: cannot rename parent entry"@)
                } else if e.name == new_name {
                    Err("rename: new name is the same as current name"@)
                } else {
                    match path_parent(e.path) {
                        None => Err("rename: cannot resolve parent directory"@),
                        Some(parent) => Ok((e.name, e.path, path_join(parent, new_name), new_name)),
                    }
                },
            }
        }
    }
}

/// How a rename is reported.
pub open spec fn rename_done(a: AppModel, plan: (Seq<char>, Seq<char>, Seq<char>, Seq<char>), o: RenameOutcomeModel) -> AppModel {
    let (old_name, source, destination, new_name) = plan;
    match o {
        RenameOutcomeModel::AlreadyExists => with_status(a, "rename: '"@ + new_name + "' already exists"@),
        RenameOutcomeModel::CheckFailed(e) => with_status(a, "rename: "@ + destination + ": "@ + e),
        RenameOutcomeModel::Renamed(l) => with_status(
            reselected(reloaded(a, l), new_name),
            "rename: '"@ + old_name + "' -> '"@ + new_name + "'"@,
        ),
        RenameOutcomeModel::Failed(e) => with_status(a, "rename: "@ + source + " -> "@ + destination + ": "@ + e),
    }
}

/// Whether `$EDITOR` names an editor.
pub open spec fn editor_set(editor: Option<Seq<char>>) -> bool {
    editor matches Some(v) && trim(v).len() > 0
}

/// What the editor opens: the selected entry, when `$EDITOR` is set.
pub open spec fn editor_plan(a: AppModel, editor: Option<Seq<char>>) -> Result<Seq<char>, Seq<char>> {
    match selected_of(a) {
        None => Err("editor: no selection"@),
        Some(e) => if editor_set(editor) {
            Ok(e.path)
        } else {
            Err("editor: $EDITOR is not set"@)
        },
    }
}

/// How a finished child program is reported: its exit code, that a signal
/// ended it, or that it could not run; the screen is then drawn afresh.
pub open spec fn program_reported(a: AppModel, what: Seq<char>, r: Result<Option<i32>, Seq<char>>) -> AppModel {
    let m = match r {
        Ok(Some(c)) => what + " exited with code "@ + signed_decimal(c as int),
        Ok(None) => what + " terminated by signal"@,
        Err(e) => what + " failed: "@ + e,
    };
    AppModel { status_message: m, needs_full_redraw: true, ..a }
}

/// The view of a program result.
pub open spec fn run_view(r: Result<Option<i32>, String>) -> Result<Option<i32>, Seq<char>> {
    match r {
        Ok(c) => Ok(c),
        Err(e) => Err(e@),
    }
}

/// What the markdown viewer opens: the selected file, with the configured
/// viewer.
pub open spec fn markdown_plan(a: AppModel) -> Result<(Seq<char>, Seq<char>), Seq<char>> {
    match selected_of(a) {
        None => Err("markdown: no selection"@),
        Some(e) => if e.is_dir {
            Err("Please select the file you want to display"@)
        } else if trim(a.config.1).len() == 0 {
            Err("markdown: viewer is not configured"@)
        } else {
            Ok((e.path, a.config.1))
        },
    }
}

/// The number of entries other than `..`.
pub open spec fn children_count(es: Seq<EntryModel>) -> nat {
    es.filter(|e: EntryModel| e.name != ".."@).len()
}

/// The state after `reload`: the new listing, the same entry selected when
/// it is still there (else the old position, kept inside the listing), and
/// a count of the entries; when the directory could not be read, the status
/// keeps the read error.
pub open spec fn refreshed(a: AppModel, l: Result<Seq<EntryModel>, Seq<char>>) -> AppModel {
    let b = reloaded(a, l);
    let c = match selected_of(a) {
        Some(e) => match index_named(b.entries, e.name) {
            Some(i) => AppModel { selected_index: i as usize, ..b },
            None => AppModel { selected_index: clamped(a.selected_index, b.entries.len()), ..b },
        },
        None => b,
    };
    match l {
        Ok(_) => with_status(c, "reload: refreshed "@ + decimal(children_count(b.entries)) + " entries"@),
        Err(_) => c,
    }
}

/// The shell command to run: the trimmed input, unless it is empty.
pub open spec fn shell_plan(a: AppModel) -> Result<Seq<char>, Seq<char>> {
    if trim(a.shell_input).len() == 0 {
        Err("shell: empty command"@)
    } else {
        Ok(trim(a.shell_input))
    }
}

/// The view of a shell run: exit code, standard output and error, or the
/// error that kept it from running.
pub open spec fn shell_run_view(r: Result<(Option<i32>, String, String), String>) -> Result<(Option<i32>, Seq<char>, Seq<char>), Seq<char>> {
    match r {
        Ok((c, o, e)) => Ok((c, o@, e@)),
        Err(e) => Err(e@),
    }
}

/// How a shell run is reported: the status names the exit code, and the
/// output pop-up opens.
pub open spec fn shell_reported(a: AppModel, shell: Seq<char>, r: Result<(Option<i32>, Seq<char>, Seq<char>), Seq<char>>) -> AppModel {
    match r {
        Ok((code, out, err)) => AppModel {
            status_message: match code {
                Some(c) => "shell exited with code "@ + signed_decimal(c as int),
                None => "shell terminated by signal"@,
            },
            shell_last_output: Some(ShellModel { exit_code: code, stdout: out, stderr: err, ran_shell: shell }),
            show_shell_popup: true,
            ..a
        },
        Err(e) => AppModel {
            status_message: "shell execution failed: "@ + e,
            shell_last_output: Some(ShellModel { exit_code: None, stdout: Seq::empty(), stderr: e, ran_shell: shell }),
            show_shell_popup: true,
            ..a
        },
    }
}

/// A planned creation: the name, whether it is a directory, and the path.
pub struct CreateRequest {
    pub name: String,
    pub is_dir: bool,
    pub target: String,
}

impl View for CreateRequest {
    type V = (Seq<char>, bool, Seq<char>);

    open spec fn view(&self) -> (Seq<char>, bool, Seq<char>) {
        (self.name@, self.is_dir, self.target@)
    }
}

/// What create mode creates: the trimmed input names a file; a leading or
/// trailing `/` makes it a directory (the slashes are dropped).
pub open spec fn create_plan(a: AppModel) -> Result<(Seq<char>, bool, Seq<char>), Seq<char>> {
    let input = trim(a.create_input);
    if input.len() == 0 {
        Err("create: missing name"@)
    } else {
        let is_dir = input[0] == '/' || input.last() == '/';
        let name = if is_dir { trim(strip_end(strip_start(input, '/'), '/')) } else { input };
        if name.len() == 0 {
            Err("create: missing name"@)
        } else {
            Ok((name, is_dir, path_join(a.current_dir, name)))
        }
    }
}

/// The state once create mode is left.
pub open spec fn create_closed(a: AppModel) -> AppModel {
    AppModel { mode: Mode::Browse, create_input: Seq::empty(), ..a }
}

/// How a creation is reported.
pub open spec fn create_done(a: AppModel, req: (Seq<char>, bool, Seq<char>), o: FsOutcomeModel) -> AppModel {
    let (name, is_dir, target) = req;
    match o {
        FsOutcomeModel::Done(l) => with_status(
            reselected(reloaded(create_closed(a), l), name),
            if is_dir {
                "create: created directory '"@ + name + "'"@
            } else {
                "create: created file '"@ + name + "'"@
            },
        ),
        FsOutcomeModel::Failed(e) => with_status(create_closed(a), "create: "@ + name + ": "@ + e),
    }
}

/// The words of all arguments, in order.
pub open spec fn flat_words(args: Seq<Seq<char>>) -> Seq<Seq<char>>
    decreases args.len(),
{
    if args.len() == 0 {
        Seq::empty()
    } else {
        flat_words(args.drop_last()) + words(args.last())
    }
}

/// What `cp` copies.
pub enum CpPlan {
    /// The selected entry, to a fresh numbered name beside it.
    Selected(String),
    /// A named source, to the same name in the current directory (or a
    /// fresh numbered name when that is taken).
    Named { src: String, candidate: String },
    /// A named source to a named destination.
    Explicit { src: String, dest: String },
}

/// The mathematical content of a [`CpPlan`].
pub enum CpPlanModel {
    Selected(Seq<char>),
    Named(Seq<char>, Seq<char>),
    Explicit(Seq<char>, Seq<char>),
}

impl View for CpPlan {
    type V = CpPlanModel;

    open spec fn view(&self) -> CpPlanModel {
        match self {
            CpPlan::Selected(p) => CpPlanModel::Selected(p@),
            CpPlan::Named { src, candidate } => CpPlanModel::Named(src@, candidate@),
            CpPlan::Explicit { src, dest } => CpPlanModel::Explicit(src@, dest@),
        }
    }
}

/// What `cp [src] [dest]` copies; the arguments are split on whitespace
/// again first.
pub open spec fn cp_plan(a: AppModel, args: Seq<Seq<char>>, home: Option<Seq<char>>) -> Result<CpPlanModel, Seq<char>> {
    let p = flat_words(args);
    if p.len() > 2 {
        Err("cp: too many arguments"@)
    } else if p.len() == 0 {
        match selected_of(a) {
            None => Err("cp: no selection"@),
            Some(e) => if e.name == ".."@ {
                Err("cp: cannot copy parent entry"@)
            } else {
                Ok(CpPlanModel::Selected(e.path))
            },
        }
    } else if p.len() == 1 {
        match resolved_path(a.current_dir, p[0], home) {
            Err(e) => Err("cp: "@ + e),
            Ok(src) => match path_file_name(src) {
                None => Err("cp: cannot determine file name"@),
                Some(f) => Ok(CpPlanModel::Named(src, path_join(a.current_dir, f))),
            },
        }
    } else {
        match resolved_path(a.current_dir, p[0], home) {
            Err(e) => Err("cp: "@ + e),
            Ok(src) => match resolved_path(a.current_dir, p[1], home) {
                Err(e) => Err("cp: "@ + e),
                Ok(dest) => Ok(CpPlanModel::Explicit(src, dest)),
            },
        }
    }
}

/// Whether two paths are equal as `Path`s (component by component).
pub uninterp spec fn same_path(a: Seq<char>, b: Seq<char>) -> bool;

/// Compares two paths with `Path`'s `==`; the answer is named `same_path`.
#[verifier::external_body]
fn paths_equal(a: &str, b: &str) -> (r: bool)
    ensures
        r == same_path(a@, b@),
{
    std::path::Path::new(a) == std::path::Path::new(b)
}

/// Where a copy goes.
pub enum CopyDest {
    /// A fresh numbered name next to this path.
    Fresh(String),
    /// This path.
    Use(String),
}

/// The mathematical content of a [`CopyDest`].
pub enum CopyDestModel {
    Fresh(Seq<char>),
    Use(Seq<char>),
}

impl View for CopyDest {
    type V = CopyDestModel;

    open spec fn view(&self) -> CopyDestModel {
        match self {
            CopyDest::Fresh(p) => CopyDestModel::Fresh(p@),
            CopyDest::Use(p) => CopyDestModel::Use(p@),
        }
    }
}

/// What a planned copy copies where, once the paths were looked at:
/// `taken` tells whether something is at the named candidate (or the
/// explicit destination) and `src_exists` whether the source is there. A
/// taken explicit destination and a missing source stop the copy; the
/// selected entry, and a named source whose candidate is itself or taken,
/// go to a fresh numbered name.
pub open spec fn cp_target(plan: CpPlanModel, taken: bool, src_exists: bool) -> Result<(Seq<char>, CopyDestModel), Seq<char>> {
    let (src, dest) = match plan {
        CpPlanModel::Selected(p) => (p, Ok(CopyDestModel::Fresh(p))),
        CpPlanModel::Named(src, candidate) => (src, Ok(
            if same_path(candidate, src) {
                CopyDestModel::Fresh(src)
            } else if taken {
                CopyDestModel::Fresh(candidate)
            } else {
                CopyDestModel::Use(candidate)
            },
        )),
        CpPlanModel::Explicit(src, dest) => (src, if taken {
            Err("cp: '"@ + dest + "' already exists"@)
        } else {
            Ok(CopyDestModel::Use(dest))
        }),
    };
    match dest {
        Err(m) => Err(m),
        Ok(d) => if src_exists {
            Ok((src, d))
        } else {
            Err("cp: '"@ + src + "': No such file or directory"@)
        },
    }
}

/// The name of a copy of `path` with `middle` put between its stem and
/// its extension, in the same directory (`.` where `path` has none).
pub open spec fn named_copy(path: Seq<char>, middle: Seq<char>) -> Seq<char> {
    let parent = match path_parent(path) {
        Some(q) => q,
        None => "."@,
    };
    let stem = match path_file_stem(path) {
        Some(s) => s,
        None => Seq::empty(),
    };
    let name = match path_extension(path) {
        Some(e) => stem + middle + "."@ + e,
        None => stem + middle,
    };
    path_join(parent, name)
}

/// The `n`th numbered name for a copy of `path`: `stem(n).ext` (or
/// `stem(n)` without an extension) in the same directory.
pub open spec fn copy_candidate(path: Seq<char>, n: nat) -> Seq<char> {
    named_copy(path, "("@ + decimal(n) + ")"@)
}

/// The name for a copy of `path` when every numbered name is taken:
/// `stem(copy).ext`.
pub open spec fn copy_fallback(path: Seq<char>) -> Seq<char> {
    named_copy(path, "(copy)"@)
}

/// How a copy is reported.
pub open spec fn cp_done(a: AppModel, src: Seq<char>, dest: Seq<char>, o: FsOutcomeModel) -> AppModel {
    match o {
        FsOutcomeModel::Done(l) => {
            let b = reloaded(a, l);
            let c = match path_file_name(dest) {
                Some(n) => reselected(b, n),
                None => b,
            };
            with_status(c, "cp: '"@ + src + "' -> '"@ + dest + "'"@)
        },
        FsOutcomeModel::Failed(e) => with_status(a, "cp: "@ + e),
    }
}

/// The name a lookup gives an id: the cached name, else the looked-up one,
/// else the id in decimal.
pub open spec fn name_for(cache: Map<u32, Seq<char>>, id: u32, lookup: Option<Seq<char>>) -> Seq<char> {
    if cache.contains_key(id) {
        cache[id]
    } else {
        match lookup {
            Some(n) => n,
            None => decimal(id as nat),
        }
    }
}

/// The cache once `id` has been resolved.
pub open spec fn cache_after(cache: Map<u32, Seq<char>>, id: u32, lookup: Option<Seq<char>>) -> Map<u32, Seq<char>> {
    if cache.contains_key(id) {
        cache
    } else {
        cache.insert(id, name_for(cache, id, lookup))
    }
}

/// The id whose name the selected entry still needs from outside: its
/// owner (or group) is unknown, its id is known and not cached.
pub open spec fn pending_lookup(e: EntryModel, name_known: bool, id: Option<u32>, cache: Map<u32, Seq<char>>) -> Option<u32> {
    if e.name == ".."@ || name_known {
        None
    } else {
        match id {
            Some(i) => if cache.contains_key(i) { None } else { Some(i) },
            None => None,
        }
    }
}

/// The state once the owner and group names of the selected entry are
/// filled in from the caches or from the lookups handed in.
pub open spec fn owner_group_resolved(a: AppModel, ul: Option<Seq<char>>, gl: Option<Seq<char>>) -> AppModel {
    match selected_of(a) {
        None => a,
        Some(e) => if e.name == ".."@ {
            a
        } else {
            let owner = if e.owner is None {
                match e.uid {
                    Some(u) => Some(name_for(a.user_name_cache, u, ul)),
                    None => None,
                }
            } else {
                None
            };
            let users = if e.owner is None && e.uid is Some {
                cache_after(a.user_name_cache, e.uid.unwrap(), ul)
            } else {
                a.user_name_cache
            };
            let group = if e.group is None {
                match e.gid {
                    Some(g) => Some(name_for(a.group_name_cache, g, gl)),
                    None => None,
                }
            } else {
                None
            };
            let groups = if e.group is None && e.gid is Some {
                cache_after(a.group_name_cache, e.gid.unwrap(), gl)
            } else {
                a.group_name_cache
            };
            if owner is None && group is None {
                a
            } else {
                let e2 = EntryModel {
                    owner: if owner is Some { owner } else { e.owner },
                    group: if group is Some { group } else { e.group },
                    ..e
                };
                AppModel {
                    entries: a.entries.update(a.selected_index as int, e2),
                    user_name_cache: users,
                    group_name_cache: groups,
                    ..a
                }
            }
        },
    }
}

/// The first `c` of a listing prefix that is absent.
proof fn lemma_index_named_prefix(es: Seq<EntryModel>, name: Seq<char>, i: int)
    requires
        0 <= i < es.len(),
        es[i].name == name,
        index_named(es.take(i), name) is None,
    ensures
        index_named(es, name) == Some(i),
    decreases es.len(),
{
    if i == es.len() - 1 {
        assert(es.drop_last() =~= es.take(i));
    } else {
        assert(es.drop_last().take(i) =~= es.take(i));
        lemma_index_named_prefix(es.drop_last(), name, i);
    }
}

/// The number of entries other than `..` in a listing.
pub(crate) fn count_children(es: &Vec<DirEntry>) -> (r: u64)
    ensures
        r as nat == children_count(crate::app::entry_views(es@)),
{
    let ghost v = crate::app::entry_views(es@);
    let ghost p = |e: EntryModel| e.name != ".."@;
    let mut n: u64 = 0;
    let mut i: usize = 0;
    assert(v.take(0).filter(p) =~= Seq::empty()) by {
        reveal_with_fuel(Seq::<_>::filter, 1);
    }
    while i < es.len()
        invariant
            v == crate::app::entry_views(es@),
            p == (|e: EntryModel| e.name != ".."@),
            i <= es@.len(),
            n as nat == v.take(i as int).filter(p).len(),
            n <= i,
        decreases es@.len() - i,
    {
        proof {
            crate::seqs::lemma_filter_take_step(v, i as int, p);
        }
        assert(v[i as int] == es@[i as int]@);
        if !es[i].is_parent_entry() {
            n = n + 1;
        }
        i = i + 1;
    }
    assert(v.take(es@.len() as int) =~= v);
    n
}

/// Reports a refused plan, or keeps the plan.
fn refuse<T>(app: &mut App, plan: Result<T, String>) -> (r: Option<T>)
    ensures
        match plan {
            Ok(t) => r == Some(t) && final(app)@ == old(app)@,
            Err(m) => r is None && final(app)@ == with_status(old(app)@, m@),
        },
{
    match plan {
        Ok(t) => Some(t),
        Err(m) => {
            app.status_message = m;
            None
        },
    }
}

impl App {
    /// Where `cd` goes (see [`cd_plan`]); a refusal becomes the status
    /// message. `home` is the value of `HOME`.
    pub fn plan_cd(&mut self, args: &[String], home: Option<String>) -> (r: Option<String>)
        ensures
            planned(old(self)@, final(self)@, opt_str(r), cd_plan(old(self)@, views(args@), opt_view(home))),
    {
        let plan: Result<String, String> = if args.len() > 1 {
            Err(owned("cd: too many arguments"))
        } else if args.len() == 0 {
            match home {
                Some(h) => Ok(h),
                None => Err(owned("cd: HOME not set")),
            }
        } else {
            assert(views(args@)[0] == args@[0]@);
            match resolve_path(self.current_dir.as_str(), args[0].as_str(), home) {
                Ok(p) => Ok(p),
                Err(e) => Err(String::from_str("cd: ").concat(e.as_str())),
            }
        };
        let r = refuse(self, plan);
        r
    }

    /// Reports `cd` once the target was looked at (see [`cd_done`]); the
    /// listing is the target's and counts only when it is a directory.
    pub fn finish_cd(&mut self, target: String, kind: PathKind, listing: Result<Vec<DirEntry>, String>)
        ensures
            final(self)@ == cd_done(old(self)@, target@, kind@, listing_view(listing)),
    {
        match kind {
            PathKind::Missing(e) => {
                self.status_message = String::from_str("cd: ").concat(target.as_str()).concat(": ").concat(e.as_str());
            },
            PathKind::File => {
                self.status_message = String::from_str("cd: '").concat(target.as_str()).concat("' is not a directory");
            },
            PathKind::Directory => {
                let t = target.clone();
                self.on_directory_changed(target, listing);
                self.status_message = String::from_str("cd: ").concat(t.as_str());
            },
        }
    }

    /// What `mkdir` creates (see [`mkdir_plan`]): the name and the path.
    pub fn plan_mkdir(&mut self, args: &[String]) -> (r: Option<(String, String)>)
        ensures
            planned(old(self)@, final(self)@, match r { Some((n, p)) => Some((n@, p@)), None => None }, mkdir_plan(old(self)@, views(args@))),
    {
        if args.len() == 0 {
            self.status_message = owned("mkdir: missing directory name");
            return None;
        }
        if args.len() > 1 {
            self.status_message = owned("mkdir: too many arguments");
            return None;
        }
        assert(views(args@)[0] == args@[0]@);
        let name = trim_str(args[0].as_str());
        if name.unicode_len() == 0 {
            self.status_message = owned("mkdir: missing directory name");
            return None;
        }
        let target = join_path(self.current_dir.as_str(), name.as_str());
        Some((name, target))
    }

    /// Reports `mkdir`.
    pub fn finish_mkdir(&mut self, name: &str, outcome: FsOutcome)
        ensures
            final(self)@ == fs_reported(old(self)@, outcome@, "mkdir: created '"@ + name@ + "'"@, "mkdir: "@ + name@ + ": "@),
    {
        match outcome {
            FsOutcome::Done(l) => {
                self.reload_entries(l);
                self.status_message = String::from_str("mkdir: created '").concat(name).concat("'");
            },
            FsOutcome::Failed(e) => {
                self.status_message = String::from_str("mkdir: ").concat(name).concat(": ").concat(e.as_str());
            },
        }
    }

    /// What `delete` removes (see [`delete_plan`]).
    pub fn plan_delete(&mut self, args: &[String], home: Option<String>) -> (r: Option<String>)
        ensures
            planned(old(self)@, final(self)@, opt_str(r), delete_plan(old(self)@, views(args@), opt_view(home))),
    {
        let plan: Result<String, String> = if args.len() > 1 {
            Err(owned("delete: too many arguments"))
        } else if args.len() == 0 {
            match self.selected_entry() {
                None => Err(owned("delete: no selection")),
                Some(e) => if e.is_parent_entry() {
                    Err(owned("delete: cannot delete parent entry"))
                } else {
                    Ok(e.path.clone())
                },
            }
        } else {
            assert(views(args@)[0] == args@[0]@);
            match resolve_path(self.current_dir.as_str(), args[0].as_str(), home) {
                Ok(p) => Ok(p),
                Err(e) => Err(String::from_str("delete: ").concat(e.as_str())),
            }
        };
        refuse(self, plan)
    }

    /// Goes on with `delete` once the target was looked at: a missing
    /// target is reported, a directory asks for confirmation, and for
    /// anything else the answer is `true`: the caller removes it.
    pub fn delete_checked(&mut self, target: String, kind: PathKind) -> (r: bool)
        ensures
            r == (kind@ is File),
            match kind@ {
                PathKindModel::Missing(e) => final(self)@ == with_status(old(self)@, "delete: "@ + target@ + ": "@ + e),
                PathKindModel::Directory => final(self)@ == (AppModel {
                    pending_delete: Some((target@, true)),
                    show_delete_confirm: true,
                    status_message: "delete: confirm with y/N"@,
                    ..old(self)@
                }),
                PathKindModel::File => final(self)@ == old(self)@,
            },
    {
        match kind {
            PathKind::Missing(e) => {
                self.status_message = String::from_str("delete: ").concat(target.as_str()).concat(": ").concat(e.as_str());
                false
            },
            PathKind::Directory => {
                self.open_delete_confirm(target, true);
                false
            },
            PathKind::File => true,
        }
    }

    /// Reports a deletion of `path`.
    pub fn finish_delete(&mut self, path: &str, outcome: FsOutcome)
        ensures
            final(self)@ == fs_reported(old(self)@, outcome@, "delete: removed '"@ + path@ + "'"@, "delete: "@ + path@ + ": "@),
    {
        match outcome {
            FsOutcome::Done(l) => {
                self.reload_entries(l);
                self.status_message = String::from_str("delete: removed '").concat(path).concat("'");
            },
            FsOutcome::Failed(e) => {
                self.status_message = String::from_str("delete: ").concat(path).concat(": ").concat(e.as_str());
            },
        }
    }

    /// What `yank` copies (see [`yank_plan`]).
    pub fn plan_yank(&mut self, args: &[String], home: Option<String>) -> (r: Option<String>)
        ensures
            planned(old(self)@, final(self)@, opt_str(r), yank_plan(old(self)@, views(args@), opt_view(home))),
    {
        let plan: Result<String, String> = if args.len() > 1 {
            Err(owned("yank: too many arguments"))
        } else if args.len() == 0 {
            match self.selected_entry() {
                None => Err(owned("yank: no selection")),
                Some(e) => Ok(e.path.clone()),
            }
        } else {
            assert(views(args@)[0] == args@[0]@);
            match resolve_path(self.current_dir.as_str(), args[0].as_str(), home) {
                Ok(p) => Ok(p),
                Err(e) => Err(String::from_str("yank: ").concat(e.as_str())),
            }
        };
        refuse(self, plan)
    }

    /// Reports `yank`: `yanked: <path>`, or `yank: <reason>`.
    pub fn finish_yank(&mut self, path: &str, copied: Result<(), String>)
        ensures
            match copied {
                Ok(()) => final(self)@ == with_status(old(self)@, "yanked: "@ + path@),
                Err(e) => final(self)@ == with_status(old(self)@, "yank: "@ + e@),
            },
    {
        match copied {
            Ok(()) => {
                self.status_message = String::from_str("yanked: ").concat(path);
            },
            Err(e) => {
                self.status_message = String::from_str("yank: ").concat(e.as_str());
            },
        }
    }

    /// Selects the first entry named `name`, if there is one.
    pub fn select_entry_named(&mut self, name: &str) -> (found: bool)
        ensures
            final(self)@ == reselected(old(self)@, name@),
            found == (index_named(old(self)@.entries, name@) is Some),
    {
        let ghost es = crate::app::entry_views(self.entries@);
        let mut i: usize = 0;
        while i < self.entries.len()
            invariant
                es == crate::app::entry_views(self.entries@),
                self@ == old(self)@,
                i <= self.entries@.len(),
                index_named(es.take(i as int), name@) is None,
            decreases self.entries@.len() - i,
        {
            assert(es.take(i + 1).drop_last() =~= es.take(i as int));
            assert(es[i as int] == self.entries@[i as int]@);
            if str_eq(self.entries[i].name.as_str(), name) {
                proof {
                    lemma_index_named_prefix(es, name@, i as int);
                }
                self.selected_index = i;
                return true;
            }
            i = i + 1;
        }
        assert(es.take(self.entries@.len() as int) =~= es);
        false
    }

    /// What `rename` does (see [`rename_plan`]).
    pub fn plan_rename(&mut self, args: &[String]) -> (r: Option<RenamePlan>)
        ensures
            planned(old(self)@, final(self)@, match r { Some(p) => Some(p@), None => None }, rename_plan(old(self)@, views(args@))),
    {
        if args.len() == 0 {
            self.status_message = owned("rename: missing new name");
            return None;
        }
        if args.len() > 1 {
            self.status_message = owned("rename: too many arguments");
            return None;
        }
        assert(views(args@)[0] == args@[0]@);
        let new_name = trim_str(args[0].as_str());
        if new_name.unicode_len() == 0 {
            self.status_message = owned("rename: missing new name");
            return None;
        }
        match find_char(new_name.as_str(), '/') {
            Some(k) => {
                assert(new_name@.contains('/'));
                self.status_message = owned("rename: new name must not contain path separators");
                return None;
            },
            None => {
                assert(!new_name@.contains('/')) by {
                    if new_name@.contains('/') {
                        let k = choose|k: int| 0 <= k < new_name@.len() && new_name@[k] == '/';
                        crate::text::lemma_first_index_some(new_name@, '/', k);
                    }
                }
            },
        }
        let plan = match self.selected_entry() {
            None => Err(owned("rename: no selection")),
            Some(e) => if e.is_parent_entry() {
                Err(owned("rename: cannot rename parent entry"))
            } else if str_eq(e.name.as_str(), new_name.as_str()) {
                Err(owned("rename: new name is the same as current name"))
            } else {
                match parent_of(e.path.as_str()) {
                    None => Err(owned("rename: cannot resolve parent directory")),
                    Some(parent) => {
                        let destination = join_path(parent.as_str(), new_name.as_str());
                        Ok(RenamePlan { old_name: e.name.clone(), source: e.path.clone(), destination, new_name })
                    },
                }
            },
        };
        refuse(self, plan)
    }

    /// Reports a rename (see [`rename_done`]).
    pub fn finish_rename(&mut self, plan: &RenamePlan, outcome: RenameOutcome)
        ensures
            final(self)@ == rename_done(old(self)@, plan@, outcome@),
    {
        match outcome {
            RenameOutcome::AlreadyExists => {
                self.status_message = String::from_str("rename: '").concat(plan.new_name.as_str()).concat("' already exists");
            },
            RenameOutcome::CheckFailed(e) => {
                self.status_message = String::from_str("rename: ").concat(plan.destination.as_str()).concat(": ").concat(e.as_str());
            },
            RenameOutcome::Renamed(l) => {
                self.reload_entries(l);
                let _ = self.select_entry_named(plan.new_name.as_str());
                self.status_message = String::from_str("rename: '").concat(plan.old_name.as_str()).concat("' -> '").concat(plan.new_name.as_str()).concat("'");
            },
            RenameOutcome::Failed(e) => {
                self.status_message = String::from_str("rename: ").concat(plan.source.as_str()).concat(" -> ").concat(plan.destination.as_str()).concat(": ").concat(e.as_str());
            },
        }
    }

    /// Whether `$EDITOR` names an editor; when it does not, that is reported.
    pub fn editor_available(&mut self, editor: &Option<String>) -> (r: bool)
        ensures
            r == editor_set(opt_view(*editor)),
            r ==> final(self)@ == old(self)@,
            !r ==> final(self)@ == with_status(old(self)@, "editor: $EDITOR is not set"@),
    {
        let set = match editor {
            Some(v) => trim_str(v.as_str()).unicode_len() > 0,
            None => false,
        };
        if !set {
            self.status_message = owned("editor: $EDITOR is not set");
        }
        set
    }

    /// What the editor opens (see [`editor_plan`]); `editor` is `$EDITOR`.
    pub fn plan_editor(&mut self, editor: &Option<String>) -> (r: Option<String>)
        ensures
            planned(old(self)@, final(self)@, opt_str(r), editor_plan(old(self)@, opt_view(*editor))),
    {
        let target = match self.selected_entry() {
            None => {
                self.status_message = owned("editor: no selection");
                return None;
            },
            Some(e) => e.path.clone(),
        };
        if self.editor_available(editor) {
            Some(target)
        } else {
            None
        }
    }

    fn report_program(&mut self, what: &str, result: Result<Option<i32>, String>)
        ensures
            final(self)@ == program_reported(old(self)@, what@, run_view(result)),
    {
        let m = match result {
            Ok(Some(c)) => {
                let code = i64_to_decimal(c as i64);
                String::from_str(what).concat(" exited with code ").concat(code.as_str())
            },
            Ok(None) => String::from_str(what).concat(" terminated by signal"),
            Err(e) => String::from_str(what).concat(" failed: ").concat(e.as_str()),
        };
        self.status_message = m;
        self.request_full_redraw();
    }

    /// Reports the editor's run.
    pub fn finish_editor(&mut self, result: Result<Option<i32>, String>)
        ensures
            final(self)@ == program_reported(old(self)@, "editor"@, run_view(result)),
    {
        self.report_program("editor", result);
    }

    /// What the markdown viewer opens (see [`markdown_plan`]): the path and
    /// the viewer command.
    pub fn plan_markdown(&mut self) -> (r: Option<(String, String)>)
        ensures
            planned(old(self)@, final(self)@, match r { Some((p, v)) => Some((p@, v@)), None => None }, markdown_plan(old(self)@)),
    {
        let plan = match self.selected_entry() {
            None => Err(owned("markdown: no selection")),
            Some(e) => if e.is_dir {
                Err(owned("Please select the file you want to display"))
            } else if trim_str(self.config.markdown_viewer.as_str()).unicode_len() == 0 {
                Err(owned("markdown: viewer is not configured"))
            } else {
                Ok((e.path.clone(), self.config.markdown_viewer.clone()))
            },
        };
        refuse(self, plan)
    }

    /// Reports the markdown viewer's run.
    pub fn finish_markdown(&mut self, result: Result<Option<i32>, String>)
        ensures
            final(self)@ == program_reported(old(self)@, "markdown viewer"@, run_view(result)),
    {
        self.report_program("markdown viewer", result);
    }

    /// Whether `reload` may run: it takes no arguments, and says so.
    pub fn reload_args_accepted(&mut self, args: &[String]) -> (r: bool)
        ensures
            r == (args@.len() == 0),
            r ==> final(self)@ == old(self)@,
            !r ==> final(self)@ == with_status(old(self)@, "reload: unexpected arguments"@),
    {
        if args.len() > 0 {
            self.status_message = owned("reload: unexpected arguments");
            return false;
        }
        true
    }

    /// Takes in a fresh listing of the current directory (see [`refreshed`]).
    pub fn refresh(&mut self, listing: Result<Vec<DirEntry>, String>)
        ensures
            final(self)@ == refreshed(old(self)@, listing_view(listing)),
    {
        let previous_name = match self.selected_entry() {
            Some(e) => Some(e.name.clone()),
            None => None,
        };
        let previous_index = self.selected_index;
        let read_failed = listing.is_err();
        self.reload_entries(listing);
        match previous_name {
            Some(name) => {
                if !self.select_entry_named(name.as_str()) {
                    self.selected_index = crate::app::clamp_index(previous_index, self.entries.len());
                }
            },
            None => {},
        }
        if read_failed {
            return;
        }
        let count = count_children(&self.entries);
        let text = u64_to_decimal(count);
        self.status_message = String::from_str("reload: refreshed ").concat(text.as_str()).concat(" entries");
    }

    /// The shell command to run (see [`shell_plan`]); shell mode closes.
    pub fn take_shell_command(&mut self) -> (r: Option<String>)
        ensures
            planned(AppModel { mode: Mode::Browse, ..old(self)@ }, final(self)@, opt_str(r), shell_plan(old(self)@)),
    {
        let input = trim_str(self.shell_input.as_str());
        self.exit_shell_mode();
        if input.unicode_len() == 0 {
            self.status_message = owned("shell: empty command");
            return None;
        }
        Some(input)
    }

    /// The run of `command` from shell mode (see [`build_shell_command`]),
    /// started in the current directory.
    pub fn shell_invocation(&self, shell: Option<String>, command: &str) -> (r: Invocation)
        ensures
            r.program@ == shell_program(opt_view(shell)),
            views(r.args@) == seq!["-lc"@, command@],
            r.envs@.len() == 0,
            opt_view(r.dir) == Some(self@.current_dir),
    {
        build_shell_command(shell, command, self.current_dir.as_str())
    }

    /// Reports a shell run (see [`shell_reported`]); `shell` is the shell
    /// program that ran it.
    pub fn finish_shell(&mut self, shell: String, result: Result<(Option<i32>, String, String), String>)
        ensures
            final(self)@ == shell_reported(old(self)@, shell@, shell_run_view(result)),
    {
        match result {
            Ok((code, out, err)) => {
                self.status_message = match code {
                    Some(c) => {
                        let t = i64_to_decimal(c as i64);
                        String::from_str("shell exited with code ").concat(t.as_str())
                    },
                    None => owned("shell terminated by signal"),
                };
                self.shell_last_output = Some(ShellResult { exit_code: code, stdout: out, stderr: err, ran_shell: shell });
                self.show_shell_popup = true;
            },
            Err(e) => {
                self.status_message = String::from_str("shell execution failed: ").concat(e.as_str());
                self.shell_last_output = Some(ShellResult { exit_code: None, stdout: String::new(), stderr: e, ran_shell: shell });
                self.show_shell_popup = true;
            },
        }
    }

    /// What create mode creates (see [`create_plan`]); a refusal leaves
    /// create mode with the reason as status message.
    pub fn take_create_request(&mut self) -> (r: Option<CreateRequest>)
        ensures
            match create_plan(old(self)@) {
                Ok(req) => r matches Some(q) && q@ == req && final(self)@ == old(self)@,
                Err(m) => r is None && final(self)@ == with_status(create_closed(old(self)@), m),
            },
    {
        let input = trim_str(self.create_input.as_str());
        let n = input.unicode_len();
        if n == 0 {
            self.exit_create_mode();
            self.status_message = owned("create: missing name");
            return None;
        }
        let is_dir = input.get_char(0) == '/' || input.get_char(n - 1) == '/';
        let name = if is_dir {
            let front = strip_char_start(input.as_str(), '/');
            let both = strip_char_end(front.as_str(), '/');
            trim_str(both.as_str())
        } else {
            input
        };
        if name.unicode_len() == 0 {
            self.exit_create_mode();
            self.status_message = owned("create: missing name");
            return None;
        }
        let target = join_path(self.current_dir.as_str(), name.as_str());
        Some(CreateRequest { name, is_dir, target })
    }

    /// Reports that something named `name` already exists; create mode stays.
    pub fn create_blocked(&mut self, name: &str)
        ensures
            final(self)@ == with_status(old(self)@, "create: '"@ + name@ + "' already exists"@),
    {
        self.status_message = String::from_str("create: '").concat(name).concat("' already exists");
    }

    /// Reports a creation (see [`create_done`]).
    pub fn finish_create(&mut self, req: &CreateRequest, outcome: FsOutcome)
        ensures
            final(self)@ == create_done(old(self)@, req@, outcome@),
    {
        self.exit_create_mode();
        match outcome {
            FsOutcome::Done(l) => {
                self.reload_entries(l);
                let _ = self.select_entry_named(req.name.as_str());
                self.status_message = if req.is_dir {
                    String::from_str("create: created directory '").concat(req.name.as_str()).concat("'")
                } else {
                    String::from_str("create: created file '").concat(req.name.as_str()).concat("'")
                };
            },
            FsOutcome::Failed(e) => {
                self.status_message = String::from_str("create: ").concat(req.name.as_str()).concat(": ").concat(e.as_str());
            },
        }
    }

    /// What `cp` copies (see [`cp_plan`]).
    pub fn plan_cp(&mut self, args: &[String], home: Option<String>) -> (r: Option<CpPlan>)
        ensures
            planned(old(self)@, final(self)@, match r { Some(p) => Some(p@), None => None }, cp_plan(old(self)@, views(args@), opt_view(home))),
    {
        let mut parts: Vec<String> = Vec::new();
        let mut i: usize = 0;
        let ghost av = views(args@);
        assert(av.take(0) =~= Seq::<Seq<char>>::empty());
        while i < args.len()
            invariant
                av == views(args@),
                i <= args@.len(),
                views(parts@) == flat_words(av.take(i as int)),
            decreases args@.len() - i,
        {
            let mut ws = split_words(args[i].as_str());
            assert(av.take(i + 1).drop_last() =~= av.take(i as int));
            assert(av[i as int] == args@[i as int]@);
            let ghost before = views(parts@);
            let ghost wv = views(ws@);
            parts.append(&mut ws);
            assert(views(parts@) =~= before + wv);
            i = i + 1;
        }
        assert(av.take(args@.len() as int) =~= av);
        let plan = if parts.len() > 2 {
            Err(owned("cp: too many arguments"))
        } else if parts.len() == 0 {
            match self.selected_entry() {
                None => Err(owned("cp: no selection")),
                Some(e) => if e.is_parent_entry() {
                    Err(owned("cp: cannot copy parent entry"))
                } else {
                    Ok(CpPlan::Selected(e.path.clone()))
                },
            }
        } else if parts.len() == 1 {
            assert(views(parts@)[0] == parts@[0]@);
            match resolve_path(self.current_dir.as_str(), parts[0].as_str(), home) {
                Err(e) => Err(String::from_str("cp: ").concat(e.as_str())),
                Ok(src) => match file_name_of(src.as_str()) {
                    None => Err(owned("cp: cannot determine file name")),
                    Some(f) => {
                        let candidate = join_path(self.current_dir.as_str(), f.as_str());
                        Ok(CpPlan::Named { src, candidate })
                    },
                },
            }
        } else {
            assert(views(parts@)[0] == parts@[0]@);
            assert(views(parts@)[1] == parts@[1]@);
            match resolve_path(self.current_dir.as_str(), parts[0].as_str(), copy_home(&home)) {
                Err(e) => Err(String::from_str("cp: ").concat(e.as_str())),
                Ok(src) => match resolve_path(self.current_dir.as_str(), parts[1].as_str(), home) {
                    Err(e) => Err(String::from_str("cp: ").concat(e.as_str())),
                    Ok(dest) => Ok(CpPlan::Explicit { src, dest }),
                },
            }
        };
        refuse(self, plan)
    }

    /// Where a planned copy goes once the paths were looked at (see
    /// [`cp_target`]); a copy that cannot go on is reported.
    pub fn cp_checked(&mut self, plan: CpPlan, taken: bool, src_exists: bool) -> (r: Option<(String, CopyDest)>)
        ensures
            planned(old(self)@, final(self)@, match r { Some((s, d)) => Some((s@, d@)), None => None }, cp_target(plan@, taken, src_exists)),
    {
        let (src, dest) = match plan {
            CpPlan::Selected(p) => {
                let d = CopyDest::Fresh(p.clone());
                (p, d)
            },
            CpPlan::Named { src, candidate } => {
                let d = choose_named_destination(src.as_str(), candidate.as_str(), taken);
                (src, d)
            },
            CpPlan::Explicit { src, dest } => {
                if taken {
                    self.status_message = String::from_str("cp: '").concat(dest.as_str()).concat("' already exists");
                    return None;
                }
                (src, CopyDest::Use(dest))
            },
        };
        if !src_exists {
            self.status_message = String::from_str("cp: '").concat(src.as_str()).concat("': No such file or directory");
            return None;
        }
        Some((src, dest))
    }

    /// Reports a copy (see [`cp_done`]).
    pub fn finish_cp(&mut self, src: &str, dest: &str, outcome: FsOutcome)
        ensures
            final(self)@ == cp_done(old(self)@, src@, dest@, outcome@),
    {
        match outcome {
            FsOutcome::Done(l) => {
                self.reload_entries(l);
                match file_name_of(dest) {
                    Some(n) => {
                        let _ = self.select_entry_named(n.as_str());
                    },
                    None => {},
                }
                self.status_message = String::from_str("cp: '").concat(src).concat("' -> '").concat(dest).concat("'");
            },
            FsOutcome::Failed(e) => {
                self.status_message = String::from_str("cp: ").concat(e.as_str());
            },
        }
    }

    /// The ids of the selected entry's owner and group whose names are
    /// needed from outside (see [`pending_lookup`]).
    pub fn owner_group_lookups(&self) -> (r: (Option<u32>, Option<u32>))
        ensures
            match selected_of(self@) {
                None => r == (None::<u32>, None::<u32>),
                Some(e) => r == (
                    pending_lookup(e, e.owner is Some, e.uid, self@.user_name_cache),
                    pending_lookup(e, e.group is Some, e.gid, self@.group_name_cache),
                ),
            },
    {
        broadcast use vstd::std_specs::hash::group_hash_axioms;
        match self.selected_entry() {
            None => (None, None),
            Some(e) => {
                if e.is_parent_entry() {
                    return (None, None);
                }
                let u = if e.owner.is_none() {
                    match e.uid {
                        Some(id) => if self.user_name_cache.contains_key(&id) { None } else { Some(id) },
                        None => None,
                    }
                } else {
                    None
                };
                let g = if e.group.is_none() {
                    match e.gid {
                        Some(id) => if self.group_name_cache.contains_key(&id) { None } else { Some(id) },
                        None => None,
                    }
                } else {
                    None
                };
                (u, g)
            },
        }
    }

    /// Fills in the owner and group names of the selected entry (see
    /// [`owner_group_resolved`]); `user_lookup` and `group_lookup` are the
    /// names the system gave for the ids that [`App::owner_group_lookups`]
    /// asked for.
    pub fn ensure_selected_owner_group_resolved(&mut self, user_lookup: Option<String>, group_lookup: Option<String>)
        ensures
            final(self)@ == owner_group_resolved(old(self)@, opt_view(user_lookup), opt_view(group_lookup)),
    {
        let idx = self.selected_index;
        if idx >= self.entries.len() {
            return;
        }
        if self.entries[idx].is_parent_entry() {
            return;
        }
        let uid = self.entries[idx].uid;
        let gid = self.entries[idx].gid;
        let owner_missing = self.entries[idx].owner.is_none();
        let group_missing = self.entries[idx].group.is_none();
        let owner = if owner_missing {
            match uid {
                Some(u) => Some(resolve_name_cached(&mut self.user_name_cache, u, user_lookup)),
                None => None,
            }
        } else {
            None
        };
        let group = if group_missing {
            match gid {
                Some(g) => Some(resolve_name_cached(&mut self.group_name_cache, g, group_lookup)),
                None => None,
            }
        } else {
            None
        };
        if owner.is_none() && group.is_none() {
            return;
        }
        let mut entry = self.entries[idx].duplicate();
        if let Some(o) = owner {
            entry.owner = Some(o);
        }
        if let Some(g) = group {
            entry.group = Some(g);
        }
        let ghost before = self.entries@;
        self.entries.set(idx, entry);
        assert(crate::app::entry_views(self.entries@) =~= crate::app::entry_views(before).update(idx as int, entry@));
    }
}

/// A copy of an optional home directory.
fn copy_home(home: &Option<String>) -> (r: Option<String>)
    ensures
        r == *home,
{
    crate::app::copy_opt(home)
}

/// Where a copy of a named source goes: a fresh numbered name when the
/// candidate is the source itself or is taken, else the candidate.
pub fn choose_named_destination(src: &str, candidate: &str, candidate_exists: bool) -> (r: CopyDest)
    ensures
        same_path(candidate@, src@) ==> (r matches CopyDest::Fresh(p) && p@ == src@),
        !same_path(candidate@, src@) && candidate_exists ==> (r matches CopyDest::Fresh(p) && p@ == candidate@),
        !same_path(candidate@, src@) && !candidate_exists ==> (r matches CopyDest::Use(p) && p@ == candidate@),
{
    if paths_equal(candidate, src) {
        CopyDest::Fresh(owned(src))
    } else if candidate_exists {
        CopyDest::Fresh(owned(candidate))
    } else {
        CopyDest::Use(owned(candidate))
    }
}

fn copy_name(path: &str, middle: &str) -> (r: String)
    ensures
        r@ == named_copy(path@, middle@),
{
    let parent = match parent_of(path) {
        Some(q) => q,
        None => owned("."),
    };
    let stem = match file_stem_of(path) {
        Some(s) => s,
        None => String::new(),
    };
    let name = match extension_of(path) {
        Some(e) => stem.concat(middle).concat(".").concat(e.as_str()),
        None => stem.concat(middle),
    };
    join_path(parent.as_str(), name.as_str())
}

/// The `n`th numbered name for a copy of `path` (see [`copy_candidate`]).
pub fn copy_name_candidate(path: &str, n: u64) -> (r: String)
    ensures
        r@ == copy_candidate(path@, n as nat),
{
    let digits = u64_to_decimal(n);
    let middle = String::from_str("(").concat(digits.as_str()).concat(")");
    copy_name(path, middle.as_str())
}

/// The name for a copy of `path` when the numbered names run out.
pub fn copy_name_fallback(path: &str) -> (r: String)
    ensures
        r@ == copy_fallback(path@),
{
    copy_name(path, "(copy)")
}

/// The cached name of `id`, else the looked-up one, else `id` in decimal;
/// a name not cached before is cached now.
fn resolve_name_cached(cache: &mut HashMap<u32, String>, id: u32, lookup: Option<String>) -> (r: String)
    ensures
        r@ == name_for(crate::app::cache_view(old(cache)@), id, opt_view(lookup)),
        crate::app::cache_view(final(cache)@) == cache_after(crate::app::cache_view(old(cache)@), id, opt_view(lookup)),
{
    broadcast use vstd::std_specs::hash::group_hash_axioms;
    match cache.get(&id) {
        Some(name) => {
            return name.clone();
        },
        None => {},
    }
    let resolved = match lookup {
        Some(n) => n,
        None => u64_to_decimal(id as u64),
    };
    let ghost before = cache@;
    cache.insert(id, resolved.clone());
    assert(crate::app::cache_view(cache@) =~= crate::app::cache_view(before).insert(id, resolved@));
    resolved
}

/// A child program to run: the program, its arguments, the variables
/// added to its environment, and the directory it starts in (`None`: the
/// viewer's own).
pub struct Invocation {
    pub program: String,
    pub args: Vec<String>,
    pub envs: Vec<(String, String)>,
    pub dir: Option<String>,
}

/// The views of environment pairs.
pub open spec fn env_views(v: Seq<(String, String)>) -> Seq<(Seq<char>, Seq<char>)> {
    v.map_values(|p: (String, String)| (p.0@, p.1@))
}

/// The shell that runs a command line: `$SHELL`, else `/bin/sh`.
pub open spec fn shell_program(shell: Option<Seq<char>>) -> Seq<char> {
    match shell {
        Some(s) => s,
        None => "/bin/sh"@,
    }
}

/// The command line that opens `$TARGET_PATH` in `$EDITOR`.
pub open spec fn editor_snippet() -> Seq<char> {
    "${EDITOR} \"$TARGET_PATH\""@
}

/// The command line that opens `${TARGET_PATH}` in `${MARKDOWN_VIEWER}`.
pub open spec fn viewer_snippet() -> Seq<char> {
    "${MARKDOWN_VIEWER} \"${TARGET_PATH}\""@
}

fn shell_or_default(shell: Option<String>) -> (r: String)
    ensures
        r@ == shell_program(opt_view(shell)),
{
    match shell {
        Some(s) => s,
        None => owned("/bin/sh"),
    }
}

/// The editor run: a login shell (`$SHELL`, given as `shell`, else
/// `/bin/sh`) runs `${EDITOR} "$TARGET_PATH"` with `TARGET_PATH` set to
/// `target`.
pub fn build_editor_command(shell: Option<String>, target: &str) -> (r: Invocation)
    ensures
        r.program@ == shell_program(opt_view(shell)),
        views(r.args@) == seq!["-lc"@, editor_snippet()],
        env_views(r.envs@) == seq![("TARGET_PATH"@, target@)],
        r.dir is None,
{
    let program = shell_or_default(shell);
    let args = vec![owned("-lc"), owned("${EDITOR} \"$TARGET_PATH\"")];
    let envs = vec![(owned("TARGET_PATH"), owned(target))];
    assert(views(args@) =~= seq!["-lc"@, editor_snippet()]);
    assert(env_views(envs@) =~= seq![("TARGET_PATH"@, target@)]);
    Invocation { program, args, envs, dir: None }
}

/// The markdown viewer run: a login shell runs
/// `${MARKDOWN_VIEWER} "${TARGET_PATH}"` with `MARKDOWN_VIEWER` set to
/// `viewer` and `TARGET_PATH` to `target`.
pub fn build_viewer_command(shell: Option<String>, viewer: &str, target: &str) -> (r: Invocation)
    ensures
        r.program@ == shell_program(opt_view(shell)),
        views(r.args@) == seq!["-lc"@, viewer_snippet()],
        env_views(r.envs@) == seq![("MARKDOWN_VIEWER"@, viewer@), ("TARGET_PATH"@, target@)],
        r.dir is None,
{
    let program = shell_or_default(shell);
    let args = vec![owned("-lc"), owned("${MARKDOWN_VIEWER} \"${TARGET_PATH}\"")];
    let envs = vec![(owned("MARKDOWN_VIEWER"), owned(viewer)), (owned("TARGET_PATH"), owned(target))];
    assert(views(args@) =~= seq!["-lc"@, viewer_snippet()]);
    assert(env_views(envs@) =~= seq![("MARKDOWN_VIEWER"@, viewer@), ("TARGET_PATH"@, target@)]);
    Invocation { program, args, envs, dir: None }
}

/// The run of a shell command line: a login shell (`$SHELL`, given as
/// `shell`, else `/bin/sh`) runs `command`, started in `dir`.
pub fn build_shell_command(shell: Option<String>, command: &str, dir: &str) -> (r: Invocation)
    ensures
        r.program@ == shell_program(opt_view(shell)),
        views(r.args@) == seq!["-lc"@, command@],
        r.envs@.len() == 0,
        opt_view(r.dir) == Some(dir@),
{
    let program = shell_or_default(shell);
    let args = vec![owned("-lc"), owned(command)];
    assert(views(args@) =~= seq!["-lc"@, command@]);
    Invocation { program, args, envs: Vec::new(), dir: Some(owned(dir)) }
}

/// The highest number tried for the name of a copy.
pub open spec fn last_copy_number() -> nat {
    999
}

/// A step of the search for a free name for a copy.
pub enum CopyNameStep {
    /// Look whether something has this name, the candidate with this number.
    Probe(u64, String),
    /// The copy takes this name.
    Found(String),
}

/// The next step of the search for a free name for a copy of `path`, once
/// the candidate numbered `n` was looked at (`taken` tells whether
/// something has that name): a free candidate is taken, else the next
/// number is tried, up to 999, after which the copy is named `(copy)`.
pub open spec fn copy_name_next(path: Seq<char>, n: nat, taken: bool) -> (bool, nat, Seq<char>) {
    if !taken {
        (true, n, copy_candidate(path, n))
    } else if n < last_copy_number() {
        (false, n + 1, copy_candidate(path, n + 1))
    } else {
        (true, n, copy_fallback(path))
    }
}

/// The first candidate of the search for a free name for a copy of `path`.
pub fn first_copy_name(path: &str) -> (r: CopyNameStep)
    ensures
        r matches CopyNameStep::Probe(n, c) && n == 1 && c@ == copy_candidate(path@, 1),
{
    CopyNameStep::Probe(1, copy_name_candidate(path, 1))
}

/// The step after the candidate numbered `n` was looked at (see
/// [`copy_name_next`]); the numbers only grow and stop at 999.
pub fn next_copy_name(path: &str, n: u64, taken: bool) -> (r: CopyNameStep)
    requires
        1 <= n <= 999,
    ensures
        match r {
            CopyNameStep::Found(c) => copy_name_next(path@, n as nat, taken) == (true, n as nat, c@),
            CopyNameStep::Probe(m, c) => copy_name_next(path@, n as nat, taken) == (false, m as nat, c@) && n < m <= 999,
        },
{
    if !taken {
        CopyNameStep::Found(copy_name_candidate(path, n))
    } else if n < 999 {
        CopyNameStep::Probe(n + 1, copy_name_candidate(path, n + 1))
    } else {
        CopyNameStep::Found(copy_name_fallback(path))
    }
}

/// Whether `p` starts with the components of `base`, as `Path::starts_with`
/// compares them.
pub uninterp spec fn path_starts_with(p: Seq<char>, base: Seq<char>) -> bool;

/// Calls `Path::starts_with`; the answer is named `path_starts_with`.
#[verifier::external_body]
fn starts_with_path(p: &str, base: &str) -> (r: bool)
    ensures
        r == path_starts_with(p@, base@),
{
    std::path::Path::new(p).starts_with(base)
}

/// Where a copy to the absolute path `dest_abs` lands, as the check against
/// copying a directory into itself sees it: the canonical form of the
/// parent of `dest_abs` (`canonical_parent`, found on disk; `None` where
/// `dest_abs` has no parent) joined with the last component of `dest_abs`
/// (empty where it has none); `dest_abs` itself where it has no parent.
pub open spec fn landing(dest_abs: Seq<char>, canonical_parent: Option<Seq<char>>) -> Seq<char> {
    match canonical_parent {
        None => dest_abs,
        Some(c) => path_join(
            c,
            match path_file_name(dest_abs) {
                Some(n) => n,
                None => Seq::empty(),
            },
        ),
    }
}

/// Where a copy to `dest_abs` lands (see [`landing`]).
pub fn landing_path(dest_abs: &str, canonical_parent: Option<String>) -> (r: String)
    ensures
        r@ == landing(dest_abs@, opt_view(canonical_parent)),
{
    match canonical_parent {
        None => owned(dest_abs),
        Some(c) => {
            let name = match file_name_of(dest_abs) {
                Some(n) => n,
                None => String::new(),
            };
            join_path(c.as_str(), name.as_str())
        },
    }
}

/// The refusal to copy the directory `src` into itself: where the copy
/// would land (`dest`, with its parent made canonical) lies under the
/// canonical form of `src` (`src_canonical`).
pub fn copy_into_itself(src: &str, dest: &str, src_canonical: &str) -> (r: Option<String>)
    ensures
        path_starts_with(dest@, src_canonical@) ==> (r matches Some(m) && m@ == "cannot copy '"@ + src@ + "' into itself"@),
        !path_starts_with(dest@, src_canonical@) ==> r is None,
{
    if starts_with_path(dest, src_canonical) {
        Some(String::from_str("cannot copy '").concat(src).concat("' into itself"))
    } else {
        None
    }
}

} // verus!
