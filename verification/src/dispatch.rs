//! What running a palette command, picking a help line or opening the
//! selection does to the state, and which outside work it leaves to do.
use vstd::prelude::*;
use vstd::string::*;
use crate::app::{
    App, AppModel, Mode, command_mode_entered, moved_down, moved_up, parsed_command,
};
use crate::command::{CommandId, resolve_command, resolved, help_items, help_listing, HelpModel};
use crate::text::{join2, owned};

verus! {

/// What is left to do after a command has changed the state.
pub enum Action {
    /// Nothing more.
    Continue,
    /// Leave the viewer.
    Quit,
    /// Run the command with these arguments; it needs the file system, the
    /// environment, a child process or the clipboard.
    Run(CommandId, Vec<String>),
}

/// The mathematical content of an [`Action`].
pub enum ActionModel {
    Continue,
    Quit,
    Run(CommandId, Seq<Seq<char>>),
}

impl View for Action {
    type V = ActionModel;

    open spec fn view(&self) -> ActionModel {
        match self {
            Action::Continue => ActionModel::Continue,
            Action::Quit => ActionModel::Quit,
            Action::Run(id, args) => ActionModel::Run(*id, crate::text::views(args@)),
        }
    }
}

/// Whether a command does outside work when it runs.
pub open spec fn runs_outside(id: CommandId) -> bool {
    ||| id == CommandId::Cd
    ||| id == CommandId::Mkdir
    ||| id == CommandId::Delete
    ||| id == CommandId::Rename
    ||| id == CommandId::Yank
    ||| id == CommandId::Cp
    ||| id == CommandId::Editor
    ||| id == CommandId::Parent
}

/// Running the command `id` with `args` once the palette is closed.
pub open spec fn dispatched(b: AppModel, id: CommandId, args: Seq<Seq<char>>) -> (AppModel, ActionModel) {
    if runs_outside(id) {
        (b, ActionModel::Run(id, args))
    } else {
        match id {
            CommandId::Quit => if args.len() > 0 {
                (AppModel { status_message: "quit: unexpected arguments"@, ..b }, ActionModel::Continue)
            } else {
                (b, ActionModel::Quit)
            },
            CommandId::Help => if args.len() > 0 {
                (AppModel { status_message: "help: unexpected arguments"@, ..b }, ActionModel::Continue)
            } else {
                (AppModel { mode: Mode::Help, help_selected: Some(0), ..b }, ActionModel::Continue)
            },
            CommandId::Create => (AppModel { mode: Mode::Create, create_input: Seq::empty(), ..b }, ActionModel::Continue),
            CommandId::Command => (command_mode_entered(b), ActionModel::Continue),
            CommandId::Shell => (AppModel { mode: Mode::Shell, shell_input: Seq::empty(), ..b }, ActionModel::Continue),
            CommandId::Filter => (AppModel { mode: Mode::Filter, ..b }, ActionModel::Continue),
            CommandId::Status => (AppModel { status_bar_expanded: !b.status_bar_expanded, ..b }, ActionModel::Continue),
            CommandId::SelectUp => (moved_up(b), ActionModel::Continue),
            _ => (moved_down(b), ActionModel::Continue),
        }
    }
}

/// Running the palette: an empty input with no candidate selected just
/// closes it; otherwise the input's command word (or the selected
/// candidate) is resolved, the palette is closed, and the command runs with
/// the remaining words as arguments.
pub open spec fn palette_run(a: AppModel) -> (AppModel, ActionModel) {
    let (name, args) = parsed_command(a.command_input);
    let b = AppModel { mode: Mode::Browse, ..a };
    if name.len() == 0 && a.command_selected is None {
        (b, ActionModel::Continue)
    } else {
        match resolved(name, a.command_selected, a.command_candidates) {
            None => (AppModel { status_message: "no matching command"@, ..b }, ActionModel::Continue),
            Some(id) => dispatched(b, id, args),
        }
    }
}

/// Picking a help line: a command that needs arguments opens the palette
/// with its name typed; the others run as from the palette, except `yank`,
/// `cp`, `cd`, `mkdir` and `rename`, which do nothing from here.
pub open spec fn help_pick(a: AppModel, items: Seq<HelpModel>) -> (AppModel, ActionModel) {
    let b = AppModel { mode: Mode::Browse, ..a };
    match a.help_selected {
        None => (b, ActionModel::Continue),
        Some(i) => if i >= items.len() {
            (b, ActionModel::Continue)
        } else if items[i as int].requires_args {
            let c = command_mode_entered(b);
            (crate::app::candidates_refreshed(AppModel {
                command_input: items[i as int].command_name + " "@,
                ..c
            }), ActionModel::Continue)
        } else {
            let id = items[i as int].command_id;
            if id == CommandId::Delete || id == CommandId::Editor || id == CommandId::Parent {
                (b, ActionModel::Run(id, Seq::empty()))
            } else if id == CommandId::Quit || id == CommandId::Help || id == CommandId::Create
                || id == CommandId::Command || id == CommandId::Shell || id == CommandId::Filter
                || id == CommandId::Status || id == CommandId::SelectUp || id == CommandId::SelectDown {
                dispatched(b, id, Seq::empty())
            } else {
                (b, ActionModel::Continue)
            }
        },
    }
}

/// What opening the selection leaves to do.
pub enum Open {
    /// The palette ran, with this outcome.
    Palette(Action),
    /// Open the entry at this path: a directory is entered, a file goes to
    /// the editor.
    Entry(String),
    /// There is no selected entry.
    Nothing,
}

impl App {
    /// Runs the palette input (see [`palette_run`]).
    pub fn execute_selected_command(&mut self) -> (r: Action)
        ensures
            (final(self)@, r@) == palette_run(old(self)@),
    {
        let (command_name, args) = self.parse_command_input();
        if command_name.unicode_len() == 0 && self.command_selected.is_none() {
            self.exit_command_mode();
            return Action::Continue;
        }
        let cmd = resolve_command(command_name.as_str(), self.command_selected, self.command_candidates.as_slice());
        self.exit_command_mode();
        match cmd {
            None => {
                self.status_message = owned("no matching command");
                Action::Continue
            },
            Some(id) => self.dispatch(id, args),
        }
    }

    fn dispatch(&mut self, id: CommandId, args: Vec<String>) -> (r: Action)
        ensures
            (final(self)@, r@) == dispatched(old(self)@, id, crate::text::views(args@)),
    {
        match id {
            CommandId::Cd | CommandId::Mkdir | CommandId::Delete | CommandId::Rename
            | CommandId::Yank | CommandId::Cp | CommandId::Editor | CommandId::Parent => {
                Action::Run(id, args)
            },
            CommandId::Quit => {
                if args.len() > 0 {
                    self.status_message = owned("quit: unexpected arguments");
                    Action::Continue
                } else {
                    Action::Quit
                }
            },
            CommandId::Help => {
                if args.len() > 0 {
                    self.status_message = owned("help: unexpected arguments");
                } else {
                    self.enter_help_mode();
                }
                Action::Continue
            },
            CommandId::Create => {
                self.enter_create_mode();
                Action::Continue
            },
            CommandId::Command => {
                self.enter_command_mode();
                Action::Continue
            },
            CommandId::Shell => {
                self.enter_shell_mode();
                Action::Continue
            },
            CommandId::Filter => {
                self.enter_filter_mode();
                Action::Continue
            },
            CommandId::Status => {
                self.toggle_status_bar_expanded();
                Action::Continue
            },
            CommandId::SelectUp => {
                self.move_selection_up();
                Action::Continue
            },
            CommandId::SelectDown => {
                self.move_selection_down();
                Action::Continue
            },
        }
    }

    /// Runs the selected help line (see [`help_pick`]).
    pub fn execute_help_selection(&mut self) -> (r: Action)
        ensures
            (final(self)@, r@) == help_pick(old(self)@, help_listing()),
    {
        let items = help_items();
        let ghost hv = crate::command::help_views(items@);
        let selected = match self.help_selected {
            None => {
                self.exit_help_mode();
                return Action::Continue;
            },
            Some(i) => i,
        };
        if selected >= items.len() {
            self.exit_help_mode();
            return Action::Continue;
        }
        let item = items[selected];
        assert(hv[selected as int] == item@);
        if item.requires_args {
            self.exit_help_mode();
            self.enter_command_mode();
            self.command_input = join2(item.command_name, " ");
            self.filter_command_candidates();
            return Action::Continue;
        }
        let id = item.command_id;
        self.exit_help_mode();
        match id {
            CommandId::Delete | CommandId::Editor | CommandId::Parent => {
                let none: Vec<String> = Vec::new();
                assert(crate::text::views(none@) =~= Seq::<Seq<char>>::empty());
                Action::Run(id, none)
            },
            CommandId::Quit | CommandId::Help | CommandId::Create | CommandId::Command
            | CommandId::Shell | CommandId::Filter | CommandId::Status | CommandId::SelectUp
            | CommandId::SelectDown => {
                let none: Vec<String> = Vec::new();
                assert(crate::text::views(none@) =~= Seq::<Seq<char>>::empty());
                self.dispatch(id, none)
            },
            _ => Action::Continue,
        }
    }

    /// Opens the selection: in command mode this runs the palette;
    /// otherwise it hands back the path of the selected entry, if any.
    pub fn open_selected(&mut self) -> (r: Open)
        ensures
            old(self).mode == Mode::Command ==> (r matches Open::Palette(act) && (final(self)@, act@) == palette_run(old(self)@)),
            old(self).mode != Mode::Command ==> final(self)@ == old(self)@ && match r {
                Open::Entry(p) => old(self).selected_index < old(self).entries@.len()
                    && p@ == old(self).entries@[old(self).selected_index as int].path@,
                Open::Nothing => old(self).selected_index >= old(self).entries@.len(),
                Open::Palette(_) => false,
            },
    {
        if self.mode == Mode::Command {
            return Open::Palette(self.execute_selected_command());
        }
        match self.selected_entry() {
            Some(e) => Open::Entry(e.path.clone()),
            None => Open::Nothing,
        }
    }
}

} // verus!
