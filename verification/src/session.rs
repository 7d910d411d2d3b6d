//! The application's session state: whether it runs, the input mode, the
//! help overlay, the command palette, the status message and the screen
//! areas the mouse is read against, with the step from a palette key to the
//! next state and to what the rest of the application carries out.

use vstd::prelude::*;
use crate::command::{CommandPalette, PaletteView};
use crate::commands::{
    autocomplete_command, command_status, opt_text, spec_arg, spec_command_status, spec_kind,
    spec_submit, spec_suggestions, submit_command, CommandKind, ParsedCommand,
};
use crate::keys::{command_action, spec_command_action, CommandAction, Key};
use crate::text::{lowercase, trim, words};
use crate::types::InputMode;

verus! {

/// A message in the status bar.
pub struct StatusMessage {
    pub text: String,
    pub is_error: bool,
}

/// A rectangle of the screen: x, y, width, height.
pub type Area = (u16, u16, u16, u16);

/// Plain view of the session.
pub struct SessionView {
    pub running: bool,
    pub mode: InputMode,
    pub show_help: bool,
    pub palette: PaletteView,
    pub status: Option<(Seq<char>, bool)>,
    pub list_area: Option<Area>,
    pub tab_area: Option<Area>,
}

/// The session state of the application.
pub struct Session {
    pub running: bool,
    pub input_mode: InputMode,
    pub show_help: bool,
    pub command: CommandPalette,
    pub status_message: Option<StatusMessage>,
    /// Where the tool list was last drawn.
    pub last_list_area: Option<Area>,
    /// Where the tab bar was last drawn.
    pub last_tab_area: Option<Area>,
}

/// What the application carries out after a step, beyond the session.
pub enum AppAction {
    Nothing,
    /// An entered command whose work lies outside the session (refresh,
    /// themes, sorting, tabs, installs, undo, labels, ...).
    Run(ParsedCommand),
}

/// The palette closed: normal mode, empty input, navigation left.
pub open spec fn spec_exit(v: SessionView) -> SessionView {
    SessionView {
        mode: InputMode::Normal,
        palette: PaletteView { input: seq![], index: None, temp: seq![], ..v.palette },
        ..v
    }
}

/// Commands the session carries out itself.
pub open spec fn handled_here(kind: CommandKind) -> bool {
    kind == CommandKind::Quit || kind == CommandKind::Help || kind == CommandKind::LabelUsage
        || kind == CommandKind::Unknown
}

/// The session after the palette's line is entered: the palette takes it
/// (`spec_submit`); a quit command stops the application and leaves the
/// palette open; help shows the help overlay; an unknown command or label
/// action shows its error status; every other line closes the palette.
pub open spec fn spec_execute(v: SessionView) -> SessionView {
    let parts = words(lowercase(trim(v.palette.input)));
    let submitted = SessionView { palette: spec_submit(v.palette), ..v };
    if parts.len() == 0 {
        SessionView { mode: InputMode::Normal, ..submitted }
    } else {
        let kind = spec_kind(parts);
        if kind == CommandKind::Quit {
            SessionView { running: false, ..submitted }
        } else if kind == CommandKind::Help {
            SessionView { show_help: true, mode: InputMode::Normal, ..submitted }
        } else if kind == CommandKind::LabelUsage || kind == CommandKind::Unknown {
            SessionView {
                status: Some((spec_command_status(kind, spec_arg(parts))->0, true)),
                mode: InputMode::Normal,
                ..submitted
            }
        } else {
            SessionView { mode: InputMode::Normal, ..submitted }
        }
    }
}

/// The session after a key in the command palette: Esc (or Backspace on
/// empty input) closes it, Enter runs the line, Tab completes it to the
/// first suggestion, Up and Down walk the history, Backspace deletes a
/// character and a character is typed.
pub open spec fn spec_command_key(v: SessionView, key: Key) -> SessionView {
    match spec_command_action(key, v.palette.input.len() == 0) {
        CommandAction::Exit => spec_exit(v),
        CommandAction::Execute => spec_execute(v),
        CommandAction::Autocomplete => {
            let s = spec_suggestions(v.palette.input);
            if s.len() > 0 {
                SessionView { palette: PaletteView { input: s[0].0, ..v.palette }, ..v }
            } else {
                v
            }
        },
        CommandAction::HistoryPrev => SessionView { palette: v.palette.prev(), ..v },
        CommandAction::HistoryNext => SessionView { palette: v.palette.next(), ..v },
        CommandAction::DeleteChar => SessionView {
            palette: PaletteView { input: v.palette.input.drop_last(), ..v.palette },
            ..v
        },
        CommandAction::Type(c) => SessionView {
            palette: PaletteView { input: v.palette.input.push(c), ..v.palette },
            ..v
        },
        CommandAction::Ignore => v,
    }
}

impl Session {
    pub open spec fn view(&self) -> SessionView {
        SessionView {
            running: self.running,
            mode: self.input_mode,
            show_help: self.show_help,
            palette: self.command.view(),
            status: match self.status_message {
                Some(m) => Some((m.text@, m.is_error)),
                None => None,
            },
            list_area: self.last_list_area,
            tab_area: self.last_tab_area,
        }
    }

    /// The palette's history is well formed.
    pub open spec fn wf(&self) -> bool {
        self.command.view().wf()
    }

    /// A running session in normal mode, with an empty palette and no
    /// status message or screen areas yet.
    pub fn new() -> (r: Session)
        ensures
            r.wf(),
            r.view().running,
            r.view().mode == InputMode::Normal,
            !r.view().show_help,
            r.view().palette.input.len() == 0,
            r.view().palette.history.len() == 0,
            r.view().palette.index is None,
            r.view().status is None,
            r.view().list_area is None,
            r.view().tab_area is None,
    {
        Session {
            running: true,
            input_mode: InputMode::Normal,
            show_help: false,
            command: CommandPalette::new(),
            status_message: None,
            last_list_area: None,
            last_tab_area: None,
        }
    }

    /// Stop the application.
    pub fn quit(&mut self)
        ensures
            final(self).view() == (SessionView { running: false, ..old(self).view() }),
    {
        self.running = false;
    }

    /// Show or hide the help overlay.
    pub fn toggle_help(&mut self)
        ensures
            final(self).view() == (SessionView { show_help: !old(self).view().show_help, ..old(self).view() }),
    {
        self.show_help = !self.show_help;
    }

    /// Show a status message.
    pub fn set_status(&mut self, text: String, is_error: bool)
        ensures
            final(self).view() == (SessionView { status: Some((text@, is_error)), ..old(self).view() }),
    {
        self.status_message = Some(StatusMessage { text, is_error });
    }

    /// Open the command palette, empty.
    pub fn enter_command(&mut self)
        ensures
            final(self).view() == (SessionView {
                mode: InputMode::Command,
                palette: PaletteView {
                    input: seq![],
                    index: None,
                    temp: seq![],
                    ..old(self).view().palette
                },
                ..old(self).view()
            }),
    {
        self.input_mode = InputMode::Command;
        self.command.clear();
    }

    /// Close the command palette (see `spec_exit`).
    pub fn exit_command(&mut self)
        ensures
            final(self).view() == spec_exit(old(self).view()),
    {
        self.input_mode = InputMode::Normal;
        self.command.clear();
    }

    /// Type a character into the palette.
    pub fn command_push(&mut self, c: char)
        ensures
            final(self).view() == (SessionView {
                palette: PaletteView { input: old(self).view().palette.input.push(c), ..old(self).view().palette },
                ..old(self).view()
            }),
    {
        self.command.push_char(c);
    }

    /// Delete the palette's last character, if any.
    pub fn command_pop(&mut self)
        ensures
            final(self).view() == (SessionView {
                palette: PaletteView {
                    input: if old(self).view().palette.input.len() > 0 {
                        old(self).view().palette.input.drop_last()
                    } else {
                        old(self).view().palette.input
                    },
                    ..old(self).view().palette
                },
                ..old(self).view()
            }),
    {
        self.command.pop_char();
    }

    /// Remember where the tool list was drawn.
    pub fn set_list_area(&mut self, x: u16, y: u16, width: u16, height: u16)
        ensures
            final(self).view() == (SessionView { list_area: Some((x, y, width, height)), ..old(self).view() }),
    {
        self.last_list_area = Some((x, y, width, height));
    }

    /// Remember where the tab bar was drawn.
    pub fn set_tab_area(&mut self, x: u16, y: u16, width: u16, height: u16)
        ensures
            final(self).view() == (SessionView { tab_area: Some((x, y, width, height)), ..old(self).view() }),
    {
        self.last_tab_area = Some((x, y, width, height));
    }

    /// Runs the palette's line (see `spec_execute`); a command whose work
    /// lies outside the session is handed back to be carried out.
    pub fn execute_command(&mut self) -> (r: AppAction)
        requires
            old(self).wf(),
        ensures
            final(self).wf(),
            final(self).view() == spec_execute(old(self).view()),
            ({
                let parts = words(lowercase(trim(old(self).view().palette.input)));
                match r {
                    AppAction::Nothing => parts.len() == 0 || handled_here(spec_kind(parts)),
                    AppAction::Run(c) => {
                        &&& parts.len() > 0
                        &&& !handled_here(spec_kind(parts))
                        &&& c.text@ == lowercase(trim(old(self).view().palette.input))
                        &&& c.kind == spec_kind(parts)
                        &&& opt_text(c.arg) == spec_arg(parts)
                    },
                }
            }),
    {
        let ghost parts = words(lowercase(trim(self.command.view().input)));
        match submit_command(&mut self.command) {
            None => {
                self.input_mode = InputMode::Normal;
                AppAction::Nothing
            },
            Some(c) => {
                match c.kind {
                    CommandKind::Quit => {
                        self.running = false;
                        AppAction::Nothing
                    },
                    CommandKind::Help => {
                        self.show_help = true;
                        self.input_mode = InputMode::Normal;
                        AppAction::Nothing
                    },
                    CommandKind::LabelUsage | CommandKind::Unknown => {
                        let msg = command_status(&c);
                        match msg {
                            Some(text) => {
                                self.status_message = Some(StatusMessage { text, is_error: true });
                            },
                            None => {},
                        }
                        self.input_mode = InputMode::Normal;
                        AppAction::Nothing
                    },
                    _ => {
                        self.input_mode = InputMode::Normal;
                        AppAction::Run(c)
                    },
                }
            },
        }
    }

    /// A key in the command palette (see `spec_command_key`), and what the
    /// application carries out next.
    pub fn command_key(&mut self, key: Key) -> (r: AppAction)
        requires
            old(self).wf(),
        ensures
            final(self).wf(),
            final(self).view() == spec_command_key(old(self).view(), key),
            spec_command_action(key, old(self).view().palette.input.len() == 0)
                != CommandAction::Execute ==> r is Nothing,
    {
        let empty = self.command.input().is_empty();
        match command_action(key, empty) {
            CommandAction::Exit => {
                self.exit_command();
                AppAction::Nothing
            },
            CommandAction::Execute => self.execute_command(),
            CommandAction::Autocomplete => {
                match autocomplete_command(self.command.input()) {
                    Some(cmd) => self.command.set_input(cmd.to_string()),
                    None => {},
                }
                AppAction::Nothing
            },
            CommandAction::HistoryPrev => {
                self.command.history_prev();
                AppAction::Nothing
            },
            CommandAction::HistoryNext => {
                self.command.history_next();
                AppAction::Nothing
            },
            CommandAction::DeleteChar => {
                self.command.pop_char();
                AppAction::Nothing
            },
            CommandAction::Type(c) => {
                self.command.push_char(c);
                AppAction::Nothing
            },
            CommandAction::Ignore => AppAction::Nothing,
        }
    }
}

} // verus!
