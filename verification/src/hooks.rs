//! How the session reacts to what the user does: commands, inserted characters and mode
//! switches.

use vstd::prelude::*;
use vstd::string::*;
use crate::editor::{Editor, Mode};
use crate::event::CompletionEvent;
use crate::item::CompletionItem;
use crate::session::is_matcher;
use crate::ui::{emit, retrigger, update_completion_filter, Reaction, Ui, UiView};

verus! {

/// The commands that completion handling tells apart. Every other command is `Other`.
#[derive(Clone, Copy, Debug, PartialEq, Eq, Structural)]
pub enum Command {
    DeleteWordForward,
    DeleteCharForward,
    DeleteCharBackward,
    Completion,
    InsertMode,
    AppendMode,
    Other,
}

/// The command that goes by `name`.
pub open spec fn command_named(name: Seq<char>) -> Command {
    if name == "delete_word_forward"@ {
        Command::DeleteWordForward
    } else if name == "delete_char_forward"@ {
        Command::DeleteCharForward
    } else if name == "delete_char_backward"@ {
        Command::DeleteCharBackward
    } else if name == "completion"@ {
        Command::Completion
    } else if name == "insert_mode"@ {
        Command::InsertMode
    } else if name == "append_mode"@ {
        Command::AppendMode
    } else {
        Command::Other
    }
}

/// Whether two strings hold the same characters.
fn same_text(a: &str, b: &str) -> (same: bool)
    ensures
        same == (a@ == b@),
{
    let n: usize = a.unicode_len();
    if n != b.unicode_len() {
        return false;
    }
    let mut i: usize = 0;
    while i < n
        invariant
            i <= n,
            n == a@.len(),
            n == b@.len(),
            forall|j: int| 0 <= j < i ==> a@[j] == b@[j],
        decreases n - i,
    {
        if a.get_char(i) != b.get_char(i) {
            return false;
        }
        i += 1;
    }
    assert(a@ =~= b@);
    true
}

impl Command {
    /// The command that goes by `name`, as far as completion handling tells commands
    /// apart.
    pub fn from_name(name: &str) -> (command: Command)
        ensures
            command == command_named(name@),
    {
        if same_text(name, "delete_word_forward") {
            Command::DeleteWordForward
        } else if same_text(name, "delete_char_forward") {
            Command::DeleteCharForward
        } else if same_text(name, "delete_char_backward") {
            Command::DeleteCharBackward
        } else if same_text(name, "completion") {
            Command::Completion
        } else if same_text(name, "insert_mode") {
            Command::InsertMode
        } else if same_text(name, "append_mode") {
            Command::AppendMode
        } else {
            Command::Other
        }
    }

    /// The command behind an invocation. Only a static command is known by its name;
    /// whatever else was invoked, a typed command or a macro, is `Other`.
    pub fn from_invocation(is_static: bool, name: &str) -> (command: Command)
        ensures
            command == (if is_static {
                command_named(name@)
            } else {
                Command::Other
            }),
    {
        if is_static {
            Command::from_name(name)
        } else {
            Command::Other
        }
    }

    /// The command deletes text next to the cursor.
    pub open spec fn deletes_text(self) -> bool {
        self == Command::DeleteCharBackward || self == Command::DeleteWordForward || self
            == Command::DeleteCharForward
    }

    /// With a session open, the command is left to whoever handles its keystroke.
    pub open spec fn keeps_session(self) -> bool {
        self == Command::DeleteWordForward || self == Command::DeleteCharForward || self
            == Command::Completion
    }

    /// With no session open, the command is dealt with elsewhere and cancels nothing.
    pub open spec fn is_handled_elsewhere(self) -> bool {
        self == Command::Completion || self == Command::InsertMode || self == Command::AppendMode
    }
}

impl UiView {
    /// The state after `command` was executed.
    pub open spec fn after_command<F: Fn(&CompletionItem, &Vec<char>) -> bool>(
        self,
        editor: Editor,
        command: Command,
        matcher: F,
    ) -> UiView {
        if editor.mode != Mode::Insert || self.completion is None || command.keeps_session() {
            self
        } else if command == Command::DeleteCharBackward {
            self.filter_updated(None, matcher)
        } else {
            self.closed()
        }
    }

    /// What the caller is to do after `command` was executed.
    pub open spec fn command_reaction<F: Fn(&CompletionItem, &Vec<char>) -> bool>(
        self,
        editor: Editor,
        command: Command,
        matcher: F,
    ) -> Reaction {
        if editor.mode != Mode::Insert {
            Reaction::Nothing
        } else if self.completion is Some {
            if command == Command::DeleteCharBackward {
                self.filter_reaction(editor, None, matcher)
            } else {
                Reaction::Nothing
            }
        } else if command.deletes_text() {
            Reaction::Emit(CompletionEvent::DeleteText { cursor: editor.cursor })
        } else if command.is_handled_elsewhere() {
            Reaction::Nothing
        } else {
            Reaction::Emit(CompletionEvent::Cancel)
        }
    }

    /// The state after the editor switched from `old_mode` to `new_mode`.
    pub open spec fn after_mode_switch(self, old_mode: Mode, new_mode: Mode) -> UiView {
        if old_mode == Mode::Insert {
            self.closed()
        } else {
            self
        }
    }

    /// What the caller is to do after the editor switched from `old_mode` to `new_mode`.
    pub open spec fn mode_switch_reaction(
        self,
        editor: Editor,
        old_mode: Mode,
        new_mode: Mode,
    ) -> Reaction {
        if old_mode == Mode::Insert {
            Reaction::Emit(CompletionEvent::Cancel)
        } else if new_mode == Mode::Insert {
            emit(editor.trigger_decision(false))
        } else {
            Reaction::Nothing
        }
    }

    /// The state after the character `c` was inserted.
    pub open spec fn after_insert_char<F: Fn(&CompletionItem, &Vec<char>) -> bool>(
        self,
        editor: Editor,
        c: char,
        matcher: F,
    ) -> UiView {
        if editor.mode != Mode::Insert {
            self
        } else {
            self.filter_updated(Some(c), matcher)
        }
    }

    /// What the caller is to do after the character `c` was inserted.
    pub open spec fn insert_char_reaction<F: Fn(&CompletionItem, &Vec<char>) -> bool>(
        self,
        editor: Editor,
        c: char,
        matcher: F,
    ) -> Reaction {
        if editor.mode != Mode::Insert {
            Reaction::Nothing
        } else if self.completion is Some {
            self.filter_reaction(editor, Some(c), matcher)
        } else {
            emit(editor.trigger_decision(false))
        }
    }
}

/// Reacts to a command that was just executed.
///
/// Outside insert mode nothing happens. With a session open, deleting the character
/// before the cursor narrows the filter by one character, deleting forwards and invoking
/// completion leave the session to the handler of the keystroke, and any other command
/// closes the session. With no session open, a deletion is reported by `DeleteText`,
/// invoking completion and entering insert mode are passed by, and any other command
/// raises `Cancel`.
pub fn completion_post_command_hook<F: Fn(&CompletionItem, &Vec<char>) -> bool>(
    editor: &Editor,
    ui: &mut Ui,
    command: Command,
    matcher: &F,
) -> (reaction: Reaction)
    requires
        editor.well_formed(),
        is_matcher(*matcher),
    ensures
        final(ui)@ == old(ui)@.after_command(*editor, command, *matcher),
        reaction == old(ui)@.command_reaction(*editor, command, *matcher),
        editor.mode != Mode::Insert ==> reaction == Reaction::Nothing && *final(ui) == *old(ui),
{
    if editor.mode != Mode::Insert {
        return Reaction::Nothing;
    }
    if ui.is_active() {
        match command {
            Command::DeleteWordForward | Command::DeleteCharForward | Command::Completion => {
                Reaction::Nothing
            },
            Command::DeleteCharBackward => update_completion_filter(editor, ui, None, matcher),
            _ => {
                ui.clear_completion();
                Reaction::Nothing
            },
        }
    } else {
        match command {
            Command::DeleteCharBackward | Command::DeleteWordForward | Command::DeleteCharForward => {
                Reaction::Emit(CompletionEvent::DeleteText { cursor: editor.cursor })
            },
            Command::Completion | Command::InsertMode | Command::AppendMode => Reaction::Nothing,
            _ => Reaction::Emit(CompletionEvent::Cancel),
        }
    }
}

/// Reacts to a switch of the editing mode.
///
/// Leaving insert mode closes the session and raises `Cancel`. Entering it asks the
/// trigger evaluator. A switch between other modes does nothing.
pub fn mode_switch_hook(editor: &Editor, ui: &mut Ui, old_mode: Mode, new_mode: Mode) -> (reaction:
    Reaction)
    requires
        editor.well_formed(),
    ensures
        final(ui)@ == old(ui)@.after_mode_switch(old_mode, new_mode),
        reaction == old(ui)@.mode_switch_reaction(*editor, old_mode, new_mode),
        old_mode != Mode::Insert ==> *final(ui) == *old(ui),
{
    if old_mode == Mode::Insert {
        ui.clear_completion();
        Reaction::Emit(CompletionEvent::Cancel)
    } else if new_mode == Mode::Insert {
        retrigger(editor)
    } else {
        Reaction::Nothing
    }
}

/// Reacts to a character that was just inserted.
///
/// With a session open the character joins the filter. With none, the trigger evaluator
/// is asked. Characters are inserted in insert mode only; in any other mode nothing
/// happens.
pub fn post_insert_char_hook<F: Fn(&CompletionItem, &Vec<char>) -> bool>(
    editor: &Editor,
    ui: &mut Ui,
    c: char,
    matcher: &F,
) -> (reaction: Reaction)
    requires
        editor.well_formed(),
        is_matcher(*matcher),
    ensures
        final(ui)@ == old(ui)@.after_insert_char(*editor, c, *matcher),
        reaction == old(ui)@.insert_char_reaction(*editor, c, *matcher),
        editor.mode != Mode::Insert ==> reaction == Reaction::Nothing && *final(ui) == *old(ui),
{
    if editor.mode != Mode::Insert {
        return Reaction::Nothing;
    }
    if ui.is_active() {
        update_completion_filter(editor, ui, Some(c), matcher)
    } else {
        retrigger(editor)
    }
}

} // verus!
