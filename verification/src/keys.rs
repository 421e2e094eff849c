//! What a key press does: the change of state in each mode and pop-up, and
//! the outside work it leaves to the caller.
use vstd::prelude::*;
use vstd::string::*;
use crate::app::{
    candidate_after, candidate_before, candidates_refreshed, command_mode_entered,
    delete_declined, filter_cleared, help_above, help_below, input_synced, moved_down, moved_up,
    refiltered, shell_popup_closed, App, AppModel, Mode, PendingDelete,
};
use crate::command::{help_listing, CommandId};
use crate::commands::{create_closed, create_plan, shell_plan, with_status, CreateRequest};
use crate::dispatch::{help_pick, palette_run, Action, ActionModel, Open};
use crate::text::owned;

verus! {

/// A key as the viewer reads it.
#[derive(Clone, Copy, Debug, PartialEq, Eq, Structural)]
pub enum Key {
    Char(char),
    Esc,
    Enter,
    Backspace,
    Delete,
    Up,
    Down,
    Tab,
    BackTab,
    /// Any other key.
    Other,
}

/// The outside work a key press leaves to do.
pub enum KeyEffect {
    /// Nothing.
    Stay,
    /// Leave the viewer.
    Quit,
    /// Run the command with these arguments.
    Run(CommandId, Vec<String>),
    /// Open the selection in the markdown viewer.
    Markdown,
    /// Remove the confirmed path.
    Delete(PendingDelete),
    /// Run this shell command.
    Shell(String),
    /// Create what the request names.
    Create(CreateRequest),
    /// Open the entry at this path.
    Open(String),
    /// Move to the parent directory.
    ToParent,
}

/// The mathematical content of a [`KeyEffect`].
pub enum KeyEffectModel {
    Stay,
    Quit,
    Run(CommandId, Seq<Seq<char>>),
    Markdown,
    Delete((Seq<char>, bool)),
    Shell(Seq<char>),
    Create((Seq<char>, bool, Seq<char>)),
    Open(Seq<char>),
    ToParent,
}

impl View for KeyEffect {
    type V = KeyEffectModel;

    open spec fn view(&self) -> KeyEffectModel {
        match self {
            KeyEffect::Stay => KeyEffectModel::Stay,
            KeyEffect::Quit => KeyEffectModel::Quit,
            KeyEffect::Run(id, args) => KeyEffectModel::Run(*id, crate::text::views(args@)),
            KeyEffect::Markdown => KeyEffectModel::Markdown,
            KeyEffect::Delete(p) => KeyEffectModel::Delete(p@),
            KeyEffect::Shell(c) => KeyEffectModel::Shell(c@),
            KeyEffect::Create(r) => KeyEffectModel::Create(r@),
            KeyEffect::Open(p) => KeyEffectModel::Open(p@),
            KeyEffect::ToParent => KeyEffectModel::ToParent,
        }
    }
}

/// The outside work that a command's outcome leaves.
pub open spec fn effect_of(act: ActionModel) -> KeyEffectModel {
    match act {
        ActionModel::Continue => KeyEffectModel::Stay,
        ActionModel::Quit => KeyEffectModel::Quit,
        ActionModel::Run(id, args) => KeyEffectModel::Run(id, args),
    }
}

/// `s` without its last character, if it has one.
pub open spec fn popped(s: Seq<char>) -> Seq<char> {
    if s.len() > 0 {
        s.drop_last()
    } else {
        s
    }
}

/// The palette after a character is typed: the candidates follow the input
/// and none is selected.
pub open spec fn command_typed(a: AppModel, input: Seq<char>) -> AppModel {
    AppModel { command_selected: None, ..candidates_refreshed(AppModel { command_input: input, ..a }) }
}

/// The palette after Tab: the next candidate is selected and shown.
pub open spec fn next_candidate(a: AppModel) -> AppModel {
    if a.command_candidates.len() == 0 {
        a
    } else {
        input_synced(AppModel {
            command_selected: Some(candidate_after(a.command_selected, a.command_candidates.len())),
            ..a
        })
    }
}

/// The palette after Shift+Tab: the previous candidate is selected and shown.
pub open spec fn prev_candidate(a: AppModel) -> AppModel {
    if a.command_candidates.len() == 0 {
        a
    } else {
        input_synced(AppModel {
            command_selected: Some(candidate_before(a.command_selected, a.command_candidates.len())),
            ..a
        })
    }
}

/// The help selection moved one line, up or down, wrapping around.
pub open spec fn help_stepped(a: AppModel, up: bool) -> AppModel {
    let n = help_listing().len();
    let cur = match a.help_selected {
        Some(c) => c,
        None => 0,
    };
    if n == 0 {
        a
    } else {
        AppModel { help_selected: Some(if up { help_above(cur, n) } else { help_below(cur, n) }), ..a }
    }
}

/// The state in `mode` with everything else as in `a`.
pub open spec fn in_mode(a: AppModel, mode: Mode) -> AppModel {
    AppModel { mode: mode, ..a }
}

/// What a key press does while the delete confirmation is open: `y`
/// confirms, `n`, Esc and Enter turn the deletion down.
pub open spec fn confirm_step(a: AppModel, key: Key) -> (AppModel, KeyEffectModel) {
    match key {
        Key::Char(c) => if c == 'y' || c == 'Y' {
            match a.pending_delete {
                None => (AppModel { show_delete_confirm: false, ..a }, KeyEffectModel::Stay),
                Some(p) => (
                    AppModel { show_delete_confirm: false, pending_delete: None, ..a },
                    KeyEffectModel::Delete(p),
                ),
            }
        } else if c == 'n' || c == 'N' {
            (delete_declined(a), KeyEffectModel::Stay)
        } else {
            (a, KeyEffectModel::Stay)
        },
        Key::Esc | Key::Enter => (delete_declined(a), KeyEffectModel::Stay),
        _ => (a, KeyEffectModel::Stay),
    }
}

/// What a key press does in filter mode.
pub open spec fn filter_step(a: AppModel, key: Key) -> (AppModel, KeyEffectModel) {
    match key {
        Key::Esc => (in_mode(filter_cleared(a), Mode::Browse), KeyEffectModel::Stay),
        Key::Enter => (in_mode(a, Mode::Browse), KeyEffectModel::Stay),
        Key::Backspace => (refiltered(AppModel { filter_input: popped(a.filter_input), ..a }), KeyEffectModel::Stay),
        Key::Delete => (a, KeyEffectModel::ToParent),
        Key::Up => (moved_up(a), KeyEffectModel::Stay),
        Key::Down => (moved_down(a), KeyEffectModel::Stay),
        Key::Char(c) => (refiltered(AppModel { filter_input: a.filter_input.push(c), ..a }), KeyEffectModel::Stay),
        _ => (a, KeyEffectModel::Stay),
    }
}

/// What a key press does in command mode.
pub open spec fn command_step(a: AppModel, key: Key) -> (AppModel, KeyEffectModel) {
    match key {
        Key::Esc => (in_mode(a, Mode::Browse), KeyEffectModel::Stay),
        Key::Enter => {
            let (b, act) = palette_run(a);
            (b, effect_of(act))
        },
        Key::Backspace => (command_typed(a, popped(a.command_input)), KeyEffectModel::Stay),
        Key::Tab => (next_candidate(a), KeyEffectModel::Stay),
        Key::BackTab => (prev_candidate(a), KeyEffectModel::Stay),
        Key::Char(c) => (command_typed(a, a.command_input.push(c)), KeyEffectModel::Stay),
        _ => (a, KeyEffectModel::Stay),
    }
}

/// What a key press does in shell mode.
pub open spec fn shell_step(a: AppModel, key: Key) -> (AppModel, KeyEffectModel) {
    match key {
        Key::Esc => (in_mode(a, Mode::Browse), KeyEffectModel::Stay),
        Key::Enter => match shell_plan(a) {
            Ok(c) => (in_mode(a, Mode::Browse), KeyEffectModel::Shell(c)),
            Err(m) => (with_status(in_mode(a, Mode::Browse), m), KeyEffectModel::Stay),
        },
        Key::Backspace => (AppModel { shell_input: popped(a.shell_input), ..a }, KeyEffectModel::Stay),
        Key::Char(c) => (AppModel { shell_input: a.shell_input.push(c), ..a }, KeyEffectModel::Stay),
        _ => (a, KeyEffectModel::Stay),
    }
}

/// What a key press does in create mode.
pub open spec fn create_step(a: AppModel, key: Key) -> (AppModel, KeyEffectModel) {
    match key {
        Key::Esc => (create_closed(a), KeyEffectModel::Stay),
        Key::Enter => match create_plan(a) {
            Ok(req) => (a, KeyEffectModel::Create(req)),
            Err(m) => (with_status(create_closed(a), m), KeyEffectModel::Stay),
        },
        Key::Backspace => (AppModel { create_input: popped(a.create_input), ..a }, KeyEffectModel::Stay),
        Key::Char(c) => (AppModel { create_input: a.create_input.push(c), ..a }, KeyEffectModel::Stay),
        _ => (a, KeyEffectModel::Stay),
    }
}

/// What a key press does on the help screen.
pub open spec fn help_step(a: AppModel, key: Key) -> (AppModel, KeyEffectModel) {
    match key {
        Key::Esc => (in_mode(a, Mode::Browse), KeyEffectModel::Stay),
        Key::Up => (help_stepped(a, true), KeyEffectModel::Stay),
        Key::Down => (help_stepped(a, false), KeyEffectModel::Stay),
        Key::Enter => {
            let (b, act) = help_pick(a, help_listing());
            (b, effect_of(act))
        },
        Key::Char(c) => if c == 'q' {
            (in_mode(a, Mode::Browse), KeyEffectModel::Stay)
        } else if c == 'k' {
            (help_stepped(a, true), KeyEffectModel::Stay)
        } else if c == 'j' {
            (help_stepped(a, false), KeyEffectModel::Stay)
        } else {
            (a, KeyEffectModel::Stay)
        },
        _ => (a, KeyEffectModel::Stay),
    }
}

/// What a character key does while browsing; Control only matters for
/// `d` (delete), `r` (rename) and `c` (copy).
pub open spec fn browse_char_step(a: AppModel, c: char, ctrl: bool) -> (AppModel, KeyEffectModel) {
    if c == 'q' {
        (a, KeyEffectModel::Quit)
    } else if c == 'n' {
        (AppModel { mode: Mode::Create, create_input: Seq::empty(), ..a }, KeyEffectModel::Stay)
    } else if c == ':' {
        (command_mode_entered(a), KeyEffectModel::Stay)
    } else if c == '!' {
        (AppModel { mode: Mode::Shell, shell_input: Seq::empty(), ..a }, KeyEffectModel::Stay)
    } else if c == '/' {
        (in_mode(a, Mode::Filter), KeyEffectModel::Stay)
    } else if c == '?' {
        (AppModel { mode: Mode::Help, help_selected: Some(0), ..a }, KeyEffectModel::Stay)
    } else if c == 'e' {
        (a, KeyEffectModel::Run(CommandId::Editor, Seq::empty()))
    } else if c == 'M' {
        (a, KeyEffectModel::Markdown)
    } else if c == 'm' {
        (AppModel { status_bar_expanded: !a.status_bar_expanded, ..a }, KeyEffectModel::Stay)
    } else if c == 'y' {
        (a, KeyEffectModel::Run(CommandId::Yank, Seq::empty()))
    } else if c == 'd' && ctrl {
        (a, KeyEffectModel::Run(CommandId::Delete, Seq::empty()))
    } else if c == 'r' && ctrl {
        (
            candidates_refreshed(AppModel { command_input: "rename "@, ..command_mode_entered(a) }),
            KeyEffectModel::Stay,
        )
    } else if c == 'c' && ctrl {
        (a, KeyEffectModel::Run(CommandId::Cp, Seq::empty()))
    } else if c == 'k' {
        (moved_up(a), KeyEffectModel::Stay)
    } else if c == 'j' {
        (moved_down(a), KeyEffectModel::Stay)
    } else {
        (a, KeyEffectModel::Stay)
    }
}

/// What a key press does while browsing.
pub open spec fn browse_step(a: AppModel, key: Key, ctrl: bool) -> (AppModel, KeyEffectModel) {
    match key {
        Key::Char(c) => browse_char_step(a, c, ctrl),
        Key::Delete | Key::Backspace => (a, KeyEffectModel::ToParent),
        Key::Enter => if a.selected_index < a.entries.len() {
            (a, KeyEffectModel::Open(a.entries[a.selected_index as int].path))
        } else {
            (a, KeyEffectModel::Stay)
        },
        Key::Up => (moved_up(a), KeyEffectModel::Stay),
        Key::Down => (moved_down(a), KeyEffectModel::Stay),
        _ => (a, KeyEffectModel::Stay),
    }
}

/// What a key press does: the delete confirmation takes every key while it
/// is open, then the shell output pop-up (closed by Esc or Enter), then the
/// current mode.
pub open spec fn key_step(a: AppModel, key: Key, ctrl: bool) -> (AppModel, KeyEffectModel) {
    if a.show_delete_confirm {
        confirm_step(a, key)
    } else if a.show_shell_popup {
        match key {
            Key::Esc | Key::Enter => (shell_popup_closed(a), KeyEffectModel::Stay),
            _ => (a, KeyEffectModel::Stay),
        }
    } else {
        match a.mode {
            Mode::Filter => filter_step(a, key),
            Mode::Command => command_step(a, key),
            Mode::Shell => shell_step(a, key),
            Mode::Create => create_step(a, key),
            Mode::Help => help_step(a, key),
            Mode::Browse => browse_step(a, key, ctrl),
        }
    }
}

fn effect_from(act: Action) -> (r: KeyEffect)
    ensures
        r@ == effect_of(act@),
{
    match act {
        Action::Continue => KeyEffect::Stay,
        Action::Quit => KeyEffect::Quit,
        Action::Run(id, args) => KeyEffect::Run(id, args),
    }
}

fn no_args() -> (r: Vec<String>)
    ensures
        crate::text::views(r@) == Seq::<Seq<char>>::empty(),
{
    let r: Vec<String> = Vec::new();
    assert(crate::text::views(r@) =~= Seq::<Seq<char>>::empty());
    r
}

impl App {
    fn confirm_key(&mut self, key: Key) -> (r: KeyEffect)
        ensures
            (final(self)@, r@) == confirm_step(old(self)@, key),
    {
        match key {
            Key::Char(c) => {
                if c == 'y' || c == 'Y' {
                    match self.take_pending_delete() {
                        Some(p) => KeyEffect::Delete(p),
                        None => KeyEffect::Stay,
                    }
                } else if c == 'n' || c == 'N' {
                    self.confirm_delete_no();
                    KeyEffect::Stay
                } else {
                    KeyEffect::Stay
                }
            },
            Key::Esc | Key::Enter => {
                self.confirm_delete_no();
                KeyEffect::Stay
            },
            _ => KeyEffect::Stay,
        }
    }

    fn filter_key(&mut self, key: Key) -> (r: KeyEffect)
        requires
            old(self).mode == Mode::Filter,
        ensures
            (final(self)@, r@) == filter_step(old(self)@, key),
    {
        match key {
            Key::Esc => self.exit_filter_mode(true),
            Key::Enter => self.exit_filter_mode(false),
            Key::Backspace => self.filter_pop_char(),
            Key::Delete => return KeyEffect::ToParent,
            Key::Up => self.move_selection_up(),
            Key::Down => self.move_selection_down(),
            Key::Char(c) => self.filter_push_char(c),
            _ => {},
        }
        KeyEffect::Stay
    }

    fn command_key(&mut self, key: Key) -> (r: KeyEffect)
        requires
            old(self).mode == Mode::Command,
        ensures
            (final(self)@, r@) == command_step(old(self)@, key),
    {
        match key {
            Key::Esc => self.exit_command_mode(),
            Key::Enter => {
                let act = self.execute_selected_command();
                return effect_from(act);
            },
            Key::Backspace => self.command_pop_char(),
            Key::Tab => self.command_select_next(),
            Key::BackTab => self.command_select_prev(),
            Key::Char(c) => self.command_push_char(c),
            _ => {},
        }
        KeyEffect::Stay
    }

    fn shell_key(&mut self, key: Key) -> (r: KeyEffect)
        requires
            old(self).mode == Mode::Shell,
        ensures
            (final(self)@, r@) == shell_step(old(self)@, key),
    {
        match key {
            Key::Esc => self.exit_shell_mode(),
            Key::Enter => {
                return match self.take_shell_command() {
                    Some(c) => KeyEffect::Shell(c),
                    None => KeyEffect::Stay,
                };
            },
            Key::Backspace => self.shell_pop_char(),
            Key::Char(c) => self.shell_push_char(c),
            _ => {},
        }
        KeyEffect::Stay
    }

    fn create_key(&mut self, key: Key) -> (r: KeyEffect)
        requires
            old(self).mode == Mode::Create,
        ensures
            (final(self)@, r@) == create_step(old(self)@, key),
    {
        match key {
            Key::Esc => self.exit_create_mode(),
            Key::Enter => {
                return match self.take_create_request() {
                    Some(req) => KeyEffect::Create(req),
                    None => KeyEffect::Stay,
                };
            },
            Key::Backspace => self.create_pop_char(),
            Key::Char(c) => self.create_push_char(c),
            _ => {},
        }
        KeyEffect::Stay
    }

    fn help_key(&mut self, key: Key) -> (r: KeyEffect)
        requires
            old(self).mode == Mode::Help,
        ensures
            (final(self)@, r@) == help_step(old(self)@, key),
    {
        match key {
            Key::Esc => self.exit_help_mode(),
            Key::Up => self.help_move_up(),
            Key::Down => self.help_move_down(),
            Key::Enter => {
                let act = self.execute_help_selection();
                return effect_from(act);
            },
            Key::Char(c) => {
                if c == 'q' {
                    self.exit_help_mode();
                } else if c == 'k' {
                    self.help_move_up();
                } else if c == 'j' {
                    self.help_move_down();
                }
            },
            _ => {},
        }
        KeyEffect::Stay
    }

    fn browse_char(&mut self, c: char, ctrl: bool) -> (r: KeyEffect)
        requires
            old(self).mode == Mode::Browse,
        ensures
            (final(self)@, r@) == browse_char_step(old(self)@, c, ctrl),
    {
        if c == 'q' {
            KeyEffect::Quit
        } else if c == 'n' {
            self.enter_create_mode();
            KeyEffect::Stay
        } else if c == ':' {
            self.enter_command_mode();
            KeyEffect::Stay
        } else if c == '!' {
            self.enter_shell_mode();
            KeyEffect::Stay
        } else if c == '/' {
            self.enter_filter_mode();
            KeyEffect::Stay
        } else if c == '?' {
            self.enter_help_mode();
            KeyEffect::Stay
        } else if c == 'e' {
            KeyEffect::Run(CommandId::Editor, no_args())
        } else if c == 'M' {
            KeyEffect::Markdown
        } else if c == 'm' {
            self.toggle_status_bar_expanded();
            KeyEffect::Stay
        } else if c == 'y' {
            KeyEffect::Run(CommandId::Yank, no_args())
        } else if c == 'd' && ctrl {
            KeyEffect::Run(CommandId::Delete, no_args())
        } else if c == 'r' && ctrl {
            self.enter_command_mode();
            self.command_input = owned("rename ");
            self.filter_command_candidates();
            KeyEffect::Stay
        } else if c == 'c' && ctrl {
            KeyEffect::Run(CommandId::Cp, no_args())
        } else if c == 'k' {
            self.move_selection_up();
            KeyEffect::Stay
        } else if c == 'j' {
            self.move_selection_down();
            KeyEffect::Stay
        } else {
            KeyEffect::Stay
        }
    }

    fn browse_key(&mut self, key: Key, ctrl: bool) -> (r: KeyEffect)
        requires
            old(self).mode == Mode::Browse,
        ensures
            (final(self)@, r@) == browse_step(old(self)@, key, ctrl),
    {
        match key {
            Key::Char(c) => self.browse_char(c, ctrl),
            Key::Delete | Key::Backspace => KeyEffect::ToParent,
            Key::Enter => match self.open_selected() {
                Open::Entry(p) => KeyEffect::Open(p),
                _ => KeyEffect::Stay,
            },
            Key::Up => {
                self.move_selection_up();
                KeyEffect::Stay
            },
            Key::Down => {
                self.move_selection_down();
                KeyEffect::Stay
            },
            _ => KeyEffect::Stay,
        }
    }

    /// Takes one key press (see [`key_step`]) and returns the outside work
    /// it leaves to do; `ctrl` tells whether Control was held.
    pub fn handle_key(&mut self, key: Key, ctrl: bool) -> (r: KeyEffect)
        ensures
            (final(self)@, r@) == key_step(old(self)@, key, ctrl),
    {
        if self.show_delete_confirm {
            return self.confirm_key(key);
        }
        if self.show_shell_popup {
            match key {
                Key::Esc | Key::Enter => self.close_active_popup(),
                _ => {},
            }
            return KeyEffect::Stay;
        }
        match self.mode {
            Mode::Filter => self.filter_key(key),
            Mode::Command => self.command_key(key),
            Mode::Shell => self.shell_key(key),
            Mode::Create => self.create_key(key),
            Mode::Help => self.help_key(key),
            Mode::Browse => self.browse_key(key, ctrl),
        }
    }
}

} // verus!
