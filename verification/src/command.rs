//! The command table of the `:` palette, its key bindings, the help listing,
//! candidate filtering and command resolution.
use vstd::prelude::*;
use vstd::string::*;
use crate::seqs::lemma_filter_map_take_step;
use crate::text::{
    is_ws, lowercase, ascii_lowered, is_ascii_text, lemma_trim_lowered, to_lowercase, trim, trim_str, starts_with, str_eq, views, owned,
};

verus! {

/// Every command the viewer knows.
#[derive(Clone, Copy, Debug, PartialEq, Eq, Structural)]
pub enum CommandId {
    Quit,
    Cd,
    Mkdir,
    Delete,
    Rename,
    Help,
    Create,
    Command,
    Shell,
    Filter,
    Editor,
    Status,
    Parent,
    SelectUp,
    SelectDown,
    Yank,
    Cp,
}

/// One row of the command table.
#[derive(Clone, Copy)]
pub struct CommandSpec {
    pub id: CommandId,
    pub name: &'static str,
    pub aliases: &'static [&'static str],
    pub description: &'static str,
    pub requires_args: bool,
}

/// A Browse-mode key binding: which keys run which command.
#[derive(Clone, Copy)]
pub struct KeyBinding {
    pub command_id: CommandId,
    pub keys: &'static str,
}

/// One line of the help screen.
#[derive(Clone, Copy)]
pub struct HelpItem {
    pub command_id: CommandId,
    pub keys_display: Option<&'static str>,
    pub command_name: &'static str,
    pub description: &'static str,
    pub requires_args: bool,
}

/// The mathematical content of a command-table row.
pub struct CommandModel {
    pub id: CommandId,
    pub name: Seq<char>,
    pub aliases: Seq<Seq<char>>,
    pub description: Seq<char>,
    pub requires_args: bool,
}

/// The mathematical content of a key binding.
pub struct BindingModel {
    pub command_id: CommandId,
    pub keys: Seq<char>,
}

/// The mathematical content of a help line.
pub struct HelpModel {
    pub command_id: CommandId,
    pub keys_display: Option<Seq<char>>,
    pub command_name: Seq<char>,
    pub description: Seq<char>,
    pub requires_args: bool,
}

impl View for CommandSpec {
    type V = CommandModel;

    open spec fn view(&self) -> CommandModel {
        CommandModel {
            id: self.id,
            name: self.name@,
            aliases: self.aliases@.map_values(|a: &str| a@),
            description: self.description@,
            requires_args: self.requires_args,
        }
    }
}

impl View for KeyBinding {
    type V = BindingModel;

    open spec fn view(&self) -> BindingModel {
        BindingModel { command_id: self.command_id, keys: self.keys@ }
    }
}

impl View for HelpItem {
    type V = HelpModel;

    open spec fn view(&self) -> HelpModel {
        HelpModel {
            command_id: self.command_id,
            keys_display: match self.keys_display {
                Some(k) => Some(k@),
                None => None,
            },
            command_name: self.command_name@,
            description: self.description@,
            requires_args: self.requires_args,
        }
    }
}

pub open spec fn cmd(id: CommandId, name: &str, aliases: Seq<Seq<char>>, description: &str, requires_args: bool) -> CommandModel {
    CommandModel { id, name: name@, aliases, description: description@, requires_args }
}

/// The command table, in the order the palette lists it.
pub open spec fn command_table() -> Seq<CommandModel> {
    seq![
        cmd(CommandId::Quit, "quit", seq!["q"@], "Quit minimum-viewer.", false),
        cmd(CommandId::Cd, "cd", seq![], "Change directory: cd [path].", true),
        cmd(CommandId::Mkdir, "mkdir", seq![], "Create directory: mkdir <name>.", true),
        cmd(CommandId::Delete, "delete", seq![], "Delete file/dir: delete [path].", false),
        cmd(CommandId::Rename, "rename", seq![], "Rename selected entry: rename <new_name>.", true),
        cmd(CommandId::Help, "help", seq!["?"@], "Show command help.", false),
        cmd(CommandId::Create, "create", seq![], "Create new file/directory.", false),
        cmd(CommandId::Command, "command", seq![], "Enter command mode.", false),
        cmd(CommandId::Shell, "shell", seq![], "Enter shell mode.", false),
        cmd(CommandId::Filter, "filter", seq![], "Enter filter mode.", false),
        cmd(CommandId::Editor, "editor", seq![], "Open file in $EDITOR.", false),
        cmd(CommandId::Status, "status", seq![], "Toggle status bar.", false),
        cmd(CommandId::Parent, "parent", seq![], "Go to parent directory.", false),
        cmd(CommandId::SelectUp, "up", seq![], "Move cursor up.", false),
        cmd(CommandId::SelectDown, "down", seq![], "Move cursor down.", false),
        cmd(CommandId::Yank, "yank", seq!["y"@], "Copy selected entry path to clipboard: yank [path].", false),
        cmd(CommandId::Cp, "cp", seq![], "Copy file/dir: cp [src] [dest].", false),
    ]
}

pub open spec fn bind(id: CommandId, keys: &str) -> BindingModel {
    BindingModel { command_id: id, keys: keys@ }
}

/// The Browse-mode key bindings, in the order the help screen shows them.
pub open spec fn binding_table() -> Seq<BindingModel> {
    seq![
        bind(CommandId::SelectUp, "Up, k"),
        bind(CommandId::SelectDown, "Down, j"),
        bind(CommandId::Parent, "Backspace, Delete"),
        bind(CommandId::Filter, "/"),
        bind(CommandId::Editor, "e"),
        bind(CommandId::Status, "m"),
        bind(CommandId::Create, "n"),
        bind(CommandId::Shell, "!"),
        bind(CommandId::Command, ":"),
        bind(CommandId::Help, "?"),
        bind(CommandId::Quit, "q"),
        bind(CommandId::Delete, "Ctrl + d"),
        bind(CommandId::Rename, "Ctrl + r"),
        bind(CommandId::Yank, "y"),
        bind(CommandId::Cp, "Ctrl + c"),
    ]
}

/// Commands that only move around the interface and are not offered as
/// palette candidates.
pub open spec fn nav_only(id: CommandId) -> bool {
    ||| id == CommandId::SelectUp
    ||| id == CommandId::SelectDown
    ||| id == CommandId::Parent
    ||| id == CommandId::Create
    ||| id == CommandId::Command
    ||| id == CommandId::Shell
    ||| id == CommandId::Filter
    ||| id == CommandId::Editor
    ||| id == CommandId::Status
}

/// The first row of `t` with the given id.
pub open spec fn first_with_id(t: Seq<CommandModel>, id: CommandId) -> Option<CommandModel>
    decreases t.len(),
{
    if t.len() == 0 {
        None
    } else if t[0].id == id {
        Some(t[0])
    } else {
        first_with_id(t.drop_first(), id)
    }
}

/// The first row of `t` whose name or one of whose aliases is `n`.
pub open spec fn first_named(t: Seq<CommandModel>, n: Seq<char>) -> Option<CommandId>
    decreases t.len(),
{
    if t.len() == 0 {
        None
    } else if t[0].name == n || t[0].aliases.contains(n) {
        Some(t[0].id)
    } else {
        first_named(t.drop_first(), n)
    }
}

/// The command named (or aliased) by `name` once it is trimmed and lower-cased.
pub open spec fn command_named(name: Seq<char>) -> Option<CommandId> {
    first_named(command_table(), lowercase(trim(name)))
}

/// Whether a row is offered as a candidate for the normalized input `n`.
pub open spec fn offered(c: CommandModel, n: Seq<char>) -> bool {
    !nav_only(c.id) && (n.len() == 0 || n.is_prefix_of(c.name))
}

/// The candidate names offered for the normalized input `n`.
pub open spec fn candidates_for(n: Seq<char>) -> Seq<Seq<char>> {
    command_table().filter(|c: CommandModel| offered(c, n)).map_values(|c: CommandModel| c.name)
}

/// The candidate names offered for the palette input `input`.
pub open spec fn candidate_names(input: Seq<char>) -> Seq<Seq<char>> {
    candidates_for(lowercase(trim(input)))
}

/// What `:input` resolves to: an exact name or alias first, else the
/// selected candidate.
pub open spec fn resolved(input: Seq<char>, selected: Option<usize>, candidates: Seq<Seq<char>>) -> Option<CommandId> {
    let n = lowercase(trim(input));
    if n.len() > 0 && command_named(n) is Some {
        command_named(n)
    } else {
        match selected {
            None => None,
            Some(i) => if i < candidates.len() {
                command_named(candidates[i as int])
            } else {
                None
            },
        }
    }
}

/// A help line for a table row.
pub open spec fn help_line(c: CommandModel, keys: Option<Seq<char>>) -> HelpModel {
    HelpModel {
        command_id: c.id,
        keys_display: keys,
        command_name: c.name,
        description: c.description,
        requires_args: c.requires_args,
    }
}

/// Whether a binding names a command of the table.
pub open spec fn binding_known(b: BindingModel) -> bool {
    first_with_id(command_table(), b.command_id) is Some
}

/// The help lines of the bound commands, in binding order.
pub open spec fn bound_help() -> Seq<HelpModel> {
    binding_table().filter(|b: BindingModel| binding_known(b)).map_values(
        |b: BindingModel| help_line(first_with_id(command_table(), b.command_id).unwrap(), Some(b.keys)),
    )
}

/// Whether some help line already lists the command `id`.
pub open spec fn listed(lines: Seq<HelpModel>, id: CommandId) -> bool {
    exists|i: int| 0 <= i < lines.len() && #[trigger] lines[i].command_id == id
}

/// The whole help listing: bound commands first, then the rest of the table.
pub open spec fn help_listing() -> Seq<HelpModel> {
    let bound = bound_help();
    bound + command_table().filter(|c: CommandModel| !listed(bound, c.id)).map_values(
        |c: CommandModel| help_line(c, None),
    )
}

/// The command table.
pub fn command_specs() -> (r: Vec<CommandSpec>)
    ensures
        r@.map_values(|c: CommandSpec| c@) == command_table(),
{
    let v = vec![
        CommandSpec { id: CommandId::Quit, name: "quit", aliases: &["q"], description: "Quit minimum-viewer.", requires_args: false },
        CommandSpec { id: CommandId::Cd, name: "cd", aliases: &[], description: "Change directory: cd [path].", requires_args: true },
        CommandSpec { id: CommandId::Mkdir, name: "mkdir", aliases: &[], description: "Create directory: mkdir <name>.", requires_args: true },
        CommandSpec { id: CommandId::Delete, name: "delete", aliases: &[], description: "Delete file/dir: delete [path].", requires_args: false },
        CommandSpec { id: CommandId::Rename, name: "rename", aliases: &[], description: "Rename selected entry: rename <new_name>.", requires_args: true },
        CommandSpec { id: CommandId::Help, name: "help", aliases: &["?"], description: "Show command help.", requires_args: false },
        CommandSpec { id: CommandId::Create, name: "create", aliases: &[], description: "Create new file/directory.", requires_args: false },
        CommandSpec { id: CommandId::Command, name: "command", aliases: &[], description: "Enter command mode.", requires_args: false },
        CommandSpec { id: CommandId::Shell, name: "shell", aliases: &[], description: "Enter shell mode.", requires_args: false },
        CommandSpec { id: CommandId::Filter, name: "filter", aliases: &[], description: "Enter filter mode.", requires_args: false },
        CommandSpec { id: CommandId::Editor, name: "editor", aliases: &[], description: "Open file in $EDITOR.", requires_args: false },
        CommandSpec { id: CommandId::Status, name: "status", aliases: &[], description: "Toggle status bar.", requires_args: false },
        CommandSpec { id: CommandId::Parent, name: "parent", aliases: &[], description: "Go to parent directory.", requires_args: false },
        CommandSpec { id: CommandId::SelectUp, name: "up", aliases: &[], description: "Move cursor up.", requires_args: false },
        CommandSpec { id: CommandId::SelectDown, name: "down", aliases: &[], description: "Move cursor down.", requires_args: false },
        CommandSpec { id: CommandId::Yank, name: "yank", aliases: &["y"], description: "Copy selected entry path to clipboard: yank [path].", requires_args: false },
        CommandSpec { id: CommandId::Cp, name: "cp", aliases: &[], description: "Copy file/dir: cp [src] [dest].", requires_args: false },
    ];
    assert(v@.len() == 17);
    assert(v@[0].aliases@.map_values(|a: &str| a@) =~= command_table()[0].aliases);
    assert(v@[1].aliases@.map_values(|a: &str| a@) =~= command_table()[1].aliases);
    assert(v@[2].aliases@.map_values(|a: &str| a@) =~= command_table()[2].aliases);
    assert(v@[3].aliases@.map_values(|a: &str| a@) =~= command_table()[3].aliases);
    assert(v@[4].aliases@.map_values(|a: &str| a@) =~= command_table()[4].aliases);
    assert(v@[5].aliases@.map_values(|a: &str| a@) =~= command_table()[5].aliases);
    assert(v@[6].aliases@.map_values(|a: &str| a@) =~= command_table()[6].aliases);
    assert(v@[7].aliases@.map_values(|a: &str| a@) =~= command_table()[7].aliases);
    assert(v@[8].aliases@.map_values(|a: &str| a@) =~= command_table()[8].aliases);
    assert(v@[9].aliases@.map_values(|a: &str| a@) =~= command_table()[9].aliases);
    assert(v@[10].aliases@.map_values(|a: &str| a@) =~= command_table()[10].aliases);
    assert(v@[11].aliases@.map_values(|a: &str| a@) =~= command_table()[11].aliases);
    assert(v@[12].aliases@.map_values(|a: &str| a@) =~= command_table()[12].aliases);
    assert(v@[13].aliases@.map_values(|a: &str| a@) =~= command_table()[13].aliases);
    assert(v@[14].aliases@.map_values(|a: &str| a@) =~= command_table()[14].aliases);
    assert(v@[15].aliases@.map_values(|a: &str| a@) =~= command_table()[15].aliases);
    assert(v@[16].aliases@.map_values(|a: &str| a@) =~= command_table()[16].aliases);
    assert(v@.map_values(|c: CommandSpec| c@) =~~= command_table());
    v
}

/// The Browse-mode key bindings.
pub fn browse_keybindings() -> (r: Vec<KeyBinding>)
    ensures
        r@.map_values(|b: KeyBinding| b@) == binding_table(),
{
    let v = vec![
        KeyBinding { command_id: CommandId::SelectUp, keys: "Up, k" },
        KeyBinding { command_id: CommandId::SelectDown, keys: "Down, j" },
        KeyBinding { command_id: CommandId::Parent, keys: "Backspace, Delete" },
        KeyBinding { command_id: CommandId::Filter, keys: "/" },
        KeyBinding { command_id: CommandId::Editor, keys: "e" },
        KeyBinding { command_id: CommandId::Status, keys: "m" },
        KeyBinding { command_id: CommandId::Create, keys: "n" },
        KeyBinding { command_id: CommandId::Shell, keys: "!" },
        KeyBinding { command_id: CommandId::Command, keys: ":" },
        KeyBinding { command_id: CommandId::Help, keys: "?" },
        KeyBinding { command_id: CommandId::Quit, keys: "q" },
        KeyBinding { command_id: CommandId::Delete, keys: "Ctrl + d" },
        KeyBinding { command_id: CommandId::Rename, keys: "Ctrl + r" },
        KeyBinding { command_id: CommandId::Yank, keys: "y" },
        KeyBinding { command_id: CommandId::Cp, keys: "Ctrl + c" },
    ];
    assert(v@.map_values(|b: KeyBinding| b@) =~= binding_table());
    v
}

/// Whether `id` only moves around the interface.
pub fn is_nav_only(id: CommandId) -> (r: bool)
    ensures
        r == nav_only(id),
{
    match id {
        CommandId::SelectUp | CommandId::SelectDown | CommandId::Parent | CommandId::Create
        | CommandId::Command | CommandId::Shell | CommandId::Filter | CommandId::Editor
        | CommandId::Status => true,
        _ => false,
    }
}

/// The table row of the command `id`.
pub fn find_spec(id: CommandId) -> (r: Option<CommandSpec>)
    ensures
        r is None <==> first_with_id(command_table(), id) is None,
        r matches Some(c) ==> first_with_id(command_table(), id) == Some(c@) && c.id == id,
{
    let specs = command_specs();
    let ghost t = command_table();
    let mut i: usize = 0;
    assert(t.skip(0) =~= t);
    while i < specs.len()
        invariant
            specs@.map_values(|c: CommandSpec| c@) == t,
            t == command_table(),
            i <= specs@.len(),
            first_with_id(t, id) == first_with_id(t.skip(i as int), id),
        decreases specs@.len() - i,
    {
        let spec = specs[i];
        assert(t.skip(i as int)[0] == spec@);
        assert(t.skip(i as int).drop_first() =~= t.skip(i + 1));
        if spec.id == id {
            return Some(spec);
        }
        i = i + 1;
    }
    None
}

/// Whether one of `aliases` is character-wise equal to `n`.
fn alias_matches(aliases: &[&'static str], n: &str) -> (r: bool)
    ensures
        r == aliases@.map_values(|a: &str| a@).contains(n@),
{
    let ghost m = aliases@.map_values(|a: &str| a@);
    let mut j: usize = 0;
    while j < aliases.len()
        invariant
            m == aliases@.map_values(|a: &str| a@),
            j <= aliases@.len(),
            forall|k: int| 0 <= k < j ==> m[k] != n@,
        decreases aliases@.len() - j,
    {
        if str_eq(aliases[j], n) {
            assert(m[j as int] == n@);
            return true;
        }
        j = j + 1;
    }
    false
}

/// The command whose name or alias is `name` after trimming and
/// lower-casing. A name typed in ASCII is matched without regard to the
/// case of its letters: only its ASCII lower-case form counts.
pub fn find_by_name_or_alias(name: &str) -> (r: Option<CommandId>)
    ensures
        r == command_named(name@),
        is_ascii_text(name@) ==> r == first_named(command_table(), trim(ascii_lowered(name@))),
{
    let trimmed = trim_str(name);
    let n = to_lowercase(trimmed.as_str());
    proof {
        if is_ascii_text(name@) {
            lemma_trim_lowered(name@);
        }
    }
    let specs = command_specs();
    let ghost t = command_table();
    let mut i: usize = 0;
    assert(t.skip(0) =~= t);
    while i < specs.len()
        invariant
            specs@.map_values(|c: CommandSpec| c@) == t,
            t == command_table(),
            i <= specs@.len(),
            n@ == lowercase(trim(name@)),
            is_ascii_text(name@) ==> n@ == trim(ascii_lowered(name@)),
            first_named(t, n@) == first_named(t.skip(i as int), n@),
        decreases specs@.len() - i,
    {
        let spec = specs[i];
        assert(t.skip(i as int)[0] == spec@);
        assert(t.skip(i as int).drop_first() =~= t.skip(i + 1));
        if str_eq(spec.name, n.as_str()) || alias_matches(spec.aliases, n.as_str()) {
            return Some(spec.id);
        }
        i = i + 1;
    }
    None
}

/// The palette candidates for `input`: the names of the commands that are
/// not navigation-only and whose name starts with the trimmed, lower-cased
/// input (all of them when it is empty), in table order. Input typed in
/// ASCII is matched without regard to the case of its letters.
pub fn filter_candidates(input: &str) -> (r: Vec<String>)
    ensures
        views(r@) == candidate_names(input@),
        is_ascii_text(input@) ==> views(r@) == candidates_for(trim(ascii_lowered(input@))),
{
    let trimmed = trim_str(input);
    let n = to_lowercase(trimmed.as_str());
    proof {
        if is_ascii_text(input@) {
            lemma_trim_lowered(input@);
        }
    }
    let empty = n.unicode_len() == 0;
    let specs = command_specs();
    let ghost t = command_table();
    let ghost p = |c: CommandModel| offered(c, n@);
    let ghost f = |c: CommandModel| c.name;
    let mut out: Vec<String> = Vec::new();
    let mut i: usize = 0;
    assert(t.take(0).filter(p) =~= Seq::empty()) by {
        reveal_with_fuel(Seq::<_>::filter, 1);
    }
    assert(views(out@) =~= t.take(0).filter(p).map_values(f));
    while i < specs.len()
        invariant
            specs@.map_values(|c: CommandSpec| c@) == t,
            t == command_table(),
            i <= specs@.len(),
            empty == (n@.len() == 0),
            p == (|c: CommandModel| offered(c, n@)),
            f == (|c: CommandModel| c.name),
            views(out@) == t.take(i as int).filter(p).map_values(f),
        decreases specs@.len() - i,
    {
        let spec = specs[i];
        assert(t[i as int] == spec@);
        proof {
            lemma_filter_map_take_step(t, i as int, p, f);
        }
        if !is_nav_only(spec.id) && (empty || starts_with(spec.name, n.as_str())) {
            let name = owned(spec.name);
            out.push(name);
            assert(views(out@) =~= t.take(i as int).filter(p).map_values(f).push(f(t[i as int])));
        }
        i = i + 1;
    }
    assert(t.take(specs@.len() as int) =~= t);
    out
}

/// Resolves the palette input to a command: an exact name or alias of the
/// trimmed, lower-cased input wins; otherwise the selected candidate, if any.
pub fn resolve_command(input: &str, selected: Option<usize>, candidates: &[String]) -> (r: Option<CommandId>)
    ensures
        r == resolved(input@, selected, views(candidates@)),
{
    let trimmed = trim_str(input);
    let n = to_lowercase(trimmed.as_str());
    if n.unicode_len() > 0 {
        let found = find_by_name_or_alias(n.as_str());
        if found.is_some() {
            return found;
        }
    }
    match selected {
        None => None,
        Some(i) => {
            if i < candidates.len() {
                find_by_name_or_alias(candidates[i].as_str())
            } else {
                None
            }
        },
    }
}

/// The views of a sequence of help lines.
pub open spec fn help_views(v: Seq<HelpItem>) -> Seq<HelpModel> {
    v.map_values(|h: HelpItem| h@)
}

/// Whether `ids` holds `id`.
fn holds_id(ids: &Vec<CommandId>, id: CommandId) -> (r: bool)
    ensures
        r == ids@.contains(id),
{
    let mut k: usize = 0;
    while k < ids.len()
        invariant
            k <= ids@.len(),
            forall|j: int| 0 <= j < k ==> ids@[j] != id,
        decreases ids@.len() - k,
    {
        if ids[k] == id {
            assert(ids@[k as int] == id);
            return true;
        }
        k = k + 1;
    }
    false
}

/// The help listing: one line per Browse key binding (with its keys), then
/// one line for each remaining command of the table (without keys).
pub fn help_items() -> (r: Vec<HelpItem>)
    ensures
        help_views(r@) == help_listing(),
{
    let bindings = browse_keybindings();
    let specs = command_specs();
    let ghost bt = binding_table();
    let ghost t = command_table();
    let ghost pb = |b: BindingModel| binding_known(b);
    let ghost fb = |b: BindingModel| help_line(first_with_id(command_table(), b.command_id).unwrap(), Some(b.keys));
    let mut items: Vec<HelpItem> = Vec::new();
    let mut seen: Vec<CommandId> = Vec::new();
    let mut i: usize = 0;
    assert(bt.take(0).filter(pb) =~= Seq::empty()) by {
        reveal_with_fuel(Seq::<_>::filter, 1);
    }
    assert(help_views(items@) =~= bt.take(0).filter(pb).map_values(fb));
    while i < bindings.len()
        invariant
            bindings@.map_values(|b: KeyBinding| b@) == bt,
            bt == binding_table(),
            i <= bindings@.len(),
            pb == (|b: BindingModel| binding_known(b)),
            fb == (|b: BindingModel| help_line(first_with_id(command_table(), b.command_id).unwrap(), Some(b.keys))),
            help_views(items@) == bt.take(i as int).filter(pb).map_values(fb),
            seen@.len() == items@.len(),
            forall|k: int| 0 <= k < seen@.len() ==> seen@[k] == #[trigger] items@[k].command_id,
        decreases bindings@.len() - i,
    {
        let kb = bindings[i];
        assert(bt[i as int] == kb@);
        proof {
            lemma_filter_map_take_step(bt, i as int, pb, fb);
        }
        match find_spec(kb.command_id) {
            Some(spec) => {
                let item = HelpItem {
                    command_id: kb.command_id,
                    keys_display: Some(kb.keys),
                    command_name: spec.name,
                    description: spec.description,
                    requires_args: spec.requires_args,
                };
                assert(item@.keys_display == Some(kb@.keys));
                assert(item@ == fb(bt[i as int]));
                let ghost prev = items@;
                items.push(item);
                seen.push(kb.command_id);
                assert(help_views(items@) =~= help_views(prev).push(item@));
                assert(help_views(items@) =~= bt.take(i as int).filter(pb).map_values(fb).push(fb(bt[i as int])));
            },
            None => {},
        }
        i = i + 1;
    }
    assert(bt.take(bindings@.len() as int) =~= bt);
    let ghost bound = help_views(items@);
    assert(bound == bound_help());
    let ghost pc = |c: CommandModel| !listed(bound, c.id);
    let ghost fc = |c: CommandModel| help_line(c, None);
    let mut j: usize = 0;
    assert(t.take(0).filter(pc) =~= Seq::empty()) by {
        reveal_with_fuel(Seq::<_>::filter, 1);
    }
    assert(help_views(items@) =~= bound + t.take(0).filter(pc).map_values(fc));
    while j < specs.len()
        invariant
            specs@.map_values(|c: CommandSpec| c@) == t,
            t == command_table(),
            j <= specs@.len(),
            pc == (|c: CommandModel| !listed(bound, c.id)),
            fc == (|c: CommandModel| help_line(c, None)),
            help_views(items@) == bound + t.take(j as int).filter(pc).map_values(fc),
            seen@.len() == bound.len(),
            forall|k: int| 0 <= k < seen@.len() ==> seen@[k] == #[trigger] bound[k].command_id,
        decreases specs@.len() - j,
    {
        let spec = specs[j];
        assert(t[j as int] == spec@);
        proof {
            lemma_filter_map_take_step(t, j as int, pc, fc);
        }
        let already = holds_id(&seen, spec.id);
        assert(already == listed(bound, spec.id)) by {
            if already {
                let k = choose|k: int| 0 <= k < seen@.len() && seen@[k] == spec.id;
                assert(bound[k].command_id == spec.id);
            }
            if listed(bound, spec.id) {
                let k = choose|k: int| 0 <= k < bound.len() && #[trigger] bound[k].command_id == spec.id;
                assert(seen@[k] == spec.id);
            }
        }
        if !already {
            let item = HelpItem {
                command_id: spec.id,
                keys_display: None,
                command_name: spec.name,
                description: spec.description,
                requires_args: spec.requires_args,
            };
            assert(item@ == fc(t[j as int]));
            let ghost prev = items@;
            items.push(item);
            assert(help_views(items@) =~= help_views(prev).push(item@));
            assert(help_views(items@) =~= bound + t.take(j as int).filter(pc).map_values(fc).push(fc(t[j as int])));
        }
        j = j + 1;
    }
    assert(t.take(specs@.len() as int) =~= t);
    items
}

} // verus!
