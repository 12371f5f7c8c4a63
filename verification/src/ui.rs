//! The owner of the popup: opening a session from a first batch of results, merging later
//! replies into it, narrowing it as the user types, and closing it.

use std::collections::HashMap;
use vstd::prelude::*;
use crate::chars::{char_is_word, is_word};
use crate::editor::Editor;
use crate::event::{CompletionEvent, Trigger};
use crate::item::{CompletionItem, CompletionProviderId, CompletionResponse};
use crate::session::{is_matcher, SavePoint, Session, SessionView};
use crate::task::{TaskController, TaskHandle};
use crate::trigger::trigger_auto_completion;

verus! {

/// A rectangle of screen cells.
#[derive(Clone, Copy, Debug, PartialEq, Eq, Structural)]
pub struct Rect {
    pub x: u16,
    pub y: u16,
    pub width: u16,
    pub height: u16,
}

impl Rect {
    /// The cell in column `column` and row `row` lies in the rectangle.
    pub open spec fn contains(self, column: int, row: int) -> bool {
        &&& self.x <= column < self.x + self.width
        &&& self.y <= row < self.y + self.height
    }

    /// The two rectangles share a cell.
    pub open spec fn overlaps(self, other: Rect) -> bool {
        exists|column: int, row: int|
            #[trigger] self.contains(column, row) && #[trigger] other.contains(column, row)
    }

    /// Whether the two rectangles share a cell.
    pub fn intersects(self, other: Rect) -> (b: bool)
        ensures
            b == self.overlaps(other),
    {
        let right: u32 = self.x as u32 + self.width as u32;
        let bottom: u32 = self.y as u32 + self.height as u32;
        let other_right: u32 = other.x as u32 + other.width as u32;
        let other_bottom: u32 = other.y as u32 + other.height as u32;
        let column: u32 = if self.x > other.x { self.x as u32 } else { other.x as u32 };
        let row: u32 = if self.y > other.y { self.y as u32 } else { other.y as u32 };
        let b: bool = column < right && column < other_right && row < bottom && row < other_bottom;
        proof {
            if b {
                assert(self.contains(column as int, row as int));
                assert(other.contains(column as int, row as int));
            }
        }
        b
    }
}

/// What the caller is to do after a step.
#[derive(Clone, Copy, Debug, PartialEq, Eq, Structural)]
pub enum Reaction {
    /// Nothing.
    Nothing,
    /// A reply was dropped because its wave had been canceled; worth a diagnostic.
    Outdated,
    /// Hand the event to the request side.
    Emit(CompletionEvent),
    /// Ask the providers with incomplete lists again, under this handle.
    Requery(TaskHandle),
}

/// The reaction that passes on what the trigger evaluator found.
pub open spec fn emit(event: Option<CompletionEvent>) -> Reaction {
    match event {
        Some(e) => Reaction::Emit(e),
        None => Reaction::Nothing,
    }
}

/// The popup state. At most one session is open at a time.
#[derive(Debug)]
pub struct Ui {
    /// The open session, if any.
    pub completion: Option<Session>,
    /// Numbers the waves that re-query incomplete lists.
    pub incomplete_list_controller: TaskController,
    /// Where signature help is shown, if it is.
    pub signature_help: Option<Rect>,
}

/// What the popup state is, as mathematical values.
pub struct UiView {
    pub completion: Option<SessionView>,
    pub incomplete_list_controller: TaskController,
    pub signature_help: Option<Rect>,
}

impl View for Ui {
    type V = UiView;

    open spec fn view(&self) -> UiView {
        UiView {
            completion: match self.completion {
                Some(session) => Some(session@),
                None => None,
            },
            incomplete_list_controller: self.incomplete_list_controller,
            signature_help: self.signature_help,
        }
    }
}

impl UiView {
    /// The state after the session was closed: the popup is gone and what was asked on
    /// its behalf is canceled. Closing where nothing is open changes nothing.
    pub open spec fn closed(self) -> UiView {
        match self.completion {
            Some(_) => UiView {
                completion: None,
                incomplete_list_controller: TaskController {
                    generation: TaskController::next_generation(
                        self.incomplete_list_controller.generation,
                    ),
                },
                ..self
            },
            None => self,
        }
    }

    /// Whether a first batch of results for `trigger` may open a session: the editor
    /// still inserts into the view and document of the trigger, and no session is open.
    pub open spec fn admits(self, editor: Editor, trigger: Trigger) -> bool {
        editor.is_current(trigger.view, trigger.doc) && self.completion is None
    }

    /// The state after a session was opened on `session` in the screen area `area`.
    /// Signature help gives way where the popup would cover part of it.
    pub open spec fn opened(self, session: SessionView, area: Rect) -> UiView {
        UiView {
            completion: Some(session),
            signature_help: match self.signature_help {
                Some(help) => if area.overlaps(help) {
                    None
                } else {
                    Some(help)
                },
                None => None,
            },
            ..self
        }
    }

    /// The state after a first batch of results was offered.
    pub open spec fn shown(self, editor: Editor, session: SessionView, area: Rect) -> UiView {
        if self.admits(editor, session.trigger) {
            self.opened(session, area)
        } else {
            self
        }
    }

    /// The state after a reply of `provider` arrived under `handle`. Without a session, or
    /// with a canceled handle, the reply is dropped. Otherwise it is merged, and a popup
    /// left with nothing to show is closed.
    pub open spec fn applied<F: Fn(&CompletionItem, &Vec<char>) -> bool>(
        self,
        provider: CompletionProviderId,
        items: Seq<CompletionItem>,
        incomplete: bool,
        handle: TaskHandle,
        matcher: F,
    ) -> UiView {
        match self.completion {
            Some(session) => {
                let merged = session.merged(provider, items, incomplete);
                if self.incomplete_list_controller.cancels(handle) {
                    self
                } else if merged.shows_nothing(matcher) {
                    self.closed()
                } else {
                    UiView { completion: Some(merged), ..self }
                }
            },
            None => self,
        }
    }

    /// What the caller is to do after that reply.
    pub open spec fn apply_reaction<F: Fn(&CompletionItem, &Vec<char>) -> bool>(
        self,
        editor: Editor,
        provider: CompletionProviderId,
        items: Seq<CompletionItem>,
        incomplete: bool,
        handle: TaskHandle,
        matcher: F,
    ) -> Reaction {
        match self.completion {
            Some(session) => {
                if self.incomplete_list_controller.cancels(handle) {
                    Reaction::Outdated
                } else if session.merged(provider, items, incomplete).shows_nothing(matcher) {
                    emit(editor.trigger_decision(false))
                } else {
                    Reaction::Nothing
                }
            },
            None => Reaction::Nothing,
        }
    }

    /// Whether updating the filter of `session` by `c` ends the session: nothing is left
    /// to show, a character that is no word character was typed, or a deletion has emptied
    /// the filter.
    pub open spec fn filter_ends_session<F: Fn(&CompletionItem, &Vec<char>) -> bool>(
        session: SessionView,
        c: Option<char>,
        matcher: F,
    ) -> bool {
        let updated = session.filtered(c);
        ||| updated.shows_nothing(matcher)
        ||| match c {
            Some(ch) => !is_word(ch),
            None => updated.filter.len() == 0,
        }
    }

    /// The state after the filter was updated by `c`.
    pub open spec fn filter_updated<F: Fn(&CompletionItem, &Vec<char>) -> bool>(
        self,
        c: Option<char>,
        matcher: F,
    ) -> UiView {
        match self.completion {
            Some(session) => if Self::filter_ends_session(session, c, matcher) {
                self.closed()
            } else {
                UiView {
                    completion: Some(session.filtered(c)),
                    incomplete_list_controller: TaskController {
                        generation: TaskController::next_generation(
                            self.incomplete_list_controller.generation,
                        ),
                    },
                    ..self
                }
            },
            None => self,
        }
    }

    /// What the caller is to do after that update.
    pub open spec fn filter_reaction<F: Fn(&CompletionItem, &Vec<char>) -> bool>(
        self,
        editor: Editor,
        c: Option<char>,
        matcher: F,
    ) -> Reaction {
        match self.completion {
            Some(session) => if Self::filter_ends_session(session, c, matcher) {
                emit(editor.trigger_decision(false))
            } else {
                Reaction::Requery(
                    TaskHandle {
                        generation: TaskController::next_generation(
                            self.incomplete_list_controller.generation,
                        ),
                    },
                )
            },
            None => Reaction::Nothing,
        }
    }
}

/// Passes on what the trigger evaluator finds at the editor's position.
pub fn retrigger(editor: &Editor) -> (reaction: Reaction)
    requires
        editor.well_formed(),
    ensures
        reaction == emit(editor.trigger_decision(false)),
{
    match trigger_auto_completion(editor, false) {
        Some(event) => Reaction::Emit(event),
        None => Reaction::Nothing,
    }
}

impl Ui {
    /// A popup state with no session and no signature help.
    pub fn new() -> (ui: Ui)
        ensures
            ui@ == (UiView {
                completion: None,
                incomplete_list_controller: TaskController { generation: 0 },
                signature_help: None,
            }),
    {
        Ui { completion: None, incomplete_list_controller: TaskController::new(), signature_help: None }
    }

    /// Whether a session is open.
    pub fn is_active(&self) -> (b: bool)
        ensures
            b == (self@.completion is Some),
    {
        self.completion.is_some()
    }

    /// Closes the session, if one is open, and cancels what was asked on its behalf.
    pub fn clear_completion(&mut self)
        ensures
            final(self)@ == old(self)@.closed(),
            final(self)@.completion is None,
    {
        if self.completion.is_some() {
            self.completion = None;
            self.incomplete_list_controller.cancel();
        }
    }
}

/// Closes the completion session, if one is open.
pub fn clear_completions(ui: &mut Ui)
    ensures
        final(ui)@ == old(ui)@.closed(),
        final(ui)@.completion is None,
{
    ui.clear_completion();
}

/// Opens a session from a first batch of results, unless the results are stale or a
/// session is already open; returns whether it did.
///
/// The results are stale once the editor has left insert mode or shows another view or
/// document than the one the requests were issued for. The cursor may have moved on.
/// `area` is where the popup is placed; signature help is removed where the two would
/// share a cell. A batch that is turned away leaves the state as it was.
pub fn show_completion(
    editor: &Editor,
    ui: &mut Ui,
    items: Vec<CompletionItem>,
    incomplete_completion_lists: HashMap<u64, i8>,
    trigger: Trigger,
    savepoint: SavePoint,
    area: Rect,
) -> (opened: bool)
    ensures
        opened == old(ui)@.admits(*editor, trigger),
        opened ==> final(ui)@ == old(ui)@.opened(
            SessionView {
                items: items@,
                filter: Seq::<char>::empty(),
                incomplete_completion_lists: incomplete_completion_lists@,
                trigger,
                savepoint,
            },
            area,
        ),
        !opened ==> *final(ui) == *old(ui),
{
    if !editor.check_current(trigger.view, trigger.doc) {
        return false;
    }
    if ui.completion.is_some() {
        return false;
    }
    ui.completion = Some(Session::new(items, incomplete_completion_lists, trigger, savepoint));
    let overlap: bool = match ui.signature_help {
        Some(help) => area.intersects(help),
        None => false,
    };
    if overlap {
        ui.signature_help = None;
    }
    true
}

/// Applies the reply of a provider that arrived under `handle`.
///
/// Without an open session nothing happens. A reply whose wave was canceled is dropped
/// unseen, whatever it holds. Otherwise the reply replaces what its provider contributed
/// before; where that leaves the popup with nothing to show, the session is closed and
/// the trigger evaluator is asked anew.
pub fn apply<F: Fn(&CompletionItem, &Vec<char>) -> bool>(
    editor: &Editor,
    ui: &mut Ui,
    response: CompletionResponse,
    handle: TaskHandle,
    matcher: &F,
) -> (reaction: Reaction)
    requires
        editor.well_formed(),
        is_matcher(*matcher),
    ensures
        final(ui)@ == old(ui)@.applied(
            response.provider,
            response.items@,
            response.incomplete,
            handle,
            *matcher,
        ),
        reaction == old(ui)@.apply_reaction(
            *editor,
            response.provider,
            response.items@,
            response.incomplete,
            handle,
            *matcher,
        ),
        old(ui).incomplete_list_controller.cancels(handle) ==> *final(ui) == *old(ui),
{
    if ui.completion.is_none() {
        return Reaction::Nothing;
    }
    if ui.incomplete_list_controller.is_canceled(&handle) {
        return Reaction::Outdated;
    }
    let mut session: Session = ui.completion.take().unwrap();
    session.replace_provider_completions(response);
    if session.is_empty(matcher) {
        ui.incomplete_list_controller.cancel();
        retrigger(editor)
    } else {
        ui.completion = Some(session);
        Reaction::Nothing
    }
}

/// Updates the filter of the open session after a character was typed (`Some`) or the
/// one before the cursor deleted (`None`).
///
/// The session ends where the popup is left with nothing to show, where the typed
/// character is no word character, and where a deletion empties the filter; the trigger
/// evaluator is then asked anew, so that a trigger character typed right after a
/// completion opens the next session. A session that goes on has its incomplete lists
/// asked again under a fresh handle, which cancels the wave before.
pub fn update_completion_filter<F: Fn(&CompletionItem, &Vec<char>) -> bool>(
    editor: &Editor,
    ui: &mut Ui,
    c: Option<char>,
    matcher: &F,
) -> (reaction: Reaction)
    requires
        editor.well_formed(),
        is_matcher(*matcher),
    ensures
        final(ui)@ == old(ui)@.filter_updated(c, *matcher),
        reaction == old(ui)@.filter_reaction(*editor, c, *matcher),
{
    if ui.completion.is_none() {
        return Reaction::Nothing;
    }
    let mut session: Session = ui.completion.take().unwrap();
    session.update_filter(c);
    let ends: bool = session.is_empty(matcher) || match c {
        Some(ch) => !char_is_word(ch),
        None => session.filter.len() == 0,
    };
    if ends {
        ui.incomplete_list_controller.cancel();
        retrigger(editor)
    } else {
        ui.completion = Some(session);
        Reaction::Requery(ui.incomplete_list_controller.restart())
    }
}

} // verus!
