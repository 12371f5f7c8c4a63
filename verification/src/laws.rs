//! Laws of completion handling: what holds of every run, whatever the user types and in
//! whatever order the providers answer.

use vstd::prelude::*;
use crate::collector::wave_applied;
use crate::editor::{Editor, Mode};
use crate::hooks::Command;
use crate::item::{CompletionItem, CompletionResponse};
use crate::session::{accepts, visible_items, SessionView};
use crate::task::{TaskController, TaskHandle};
use crate::ui::{Reaction, Rect, UiView};

verus! {

/// What a key press amounts to: a command, or a character that is inserted.
pub enum Keystroke {
    Command(Command),
    Char(char),
}

/// A key press together with the editor as it stands once the key was handled.
pub struct KeyPress {
    pub editor: Editor,
    pub key: Keystroke,
}

/// The popup state after one key press.
pub open spec fn after_key_press<F: Fn(&CompletionItem, &Vec<char>) -> bool>(
    ui: UiView,
    press: KeyPress,
    matcher: F,
) -> UiView {
    match press.key {
        Keystroke::Command(command) => ui.after_command(press.editor, command, matcher),
        Keystroke::Char(c) => ui.after_insert_char(press.editor, c, matcher),
    }
}

/// What one key press makes the caller do.
pub open spec fn key_press_reaction<F: Fn(&CompletionItem, &Vec<char>) -> bool>(
    ui: UiView,
    press: KeyPress,
    matcher: F,
) -> Reaction {
    match press.key {
        Keystroke::Command(command) => ui.command_reaction(press.editor, command, matcher),
        Keystroke::Char(c) => ui.insert_char_reaction(press.editor, c, matcher),
    }
}

/// The popup state after a sequence of key presses.
pub open spec fn after_key_presses<F: Fn(&CompletionItem, &Vec<char>) -> bool>(
    ui: UiView,
    presses: Seq<KeyPress>,
    matcher: F,
) -> UiView
    decreases presses.len(),
{
    if presses.len() == 0 {
        ui
    } else {
        after_key_press(after_key_presses(ui, presses.drop_last(), matcher), presses.last(), matcher)
    }
}

/// What the key press at position `i` of a sequence makes the caller do.
pub open spec fn reaction_at<F: Fn(&CompletionItem, &Vec<char>) -> bool>(
    ui: UiView,
    presses: Seq<KeyPress>,
    i: int,
    matcher: F,
) -> Reaction {
    key_press_reaction(after_key_presses(ui, presses.take(i), matcher), presses[i], matcher)
}

/// Outside insert mode key presses are none of completion's business: whatever is typed,
/// no event is raised, nothing is asked of the caller, and the popup state stays as it is.
pub proof fn lemma_quiet_outside_insert_mode<F: Fn(&CompletionItem, &Vec<char>) -> bool>(
    ui: UiView,
    presses: Seq<KeyPress>,
    matcher: F,
)
    requires
        forall|i: int| 0 <= i < presses.len() ==> (#[trigger] presses[i]).editor.mode != Mode::Insert,
    ensures
        after_key_presses(ui, presses, matcher) == ui,
        forall|i: int|
            0 <= i < presses.len() ==> #[trigger] reaction_at(ui, presses, i, matcher)
                == Reaction::Nothing,
    decreases presses.len(),
{
    if presses.len() > 0 {
        lemma_quiet_outside_insert_mode(ui, presses.drop_last(), matcher);
        assert(presses.last() == presses[presses.len() - 1]);
        assert forall|i: int| 0 <= i < presses.len() implies #[trigger] reaction_at(
            ui,
            presses,
            i,
            matcher,
        ) == Reaction::Nothing by {
            lemma_quiet_outside_insert_mode(ui, presses.take(i), matcher);
        }
    }
}

/// A first batch of results that asks to open a session, with the editor as it stands
/// when the batch arrives and the screen area the popup would take.
pub struct Offer {
    pub editor: Editor,
    pub session: SessionView,
    pub area: Rect,
}

/// The popup state after a sequence of batches was offered, one after the other.
pub open spec fn after_offers(ui: UiView, offers: Seq<Offer>) -> UiView
    decreases offers.len(),
{
    if offers.len() == 0 {
        ui
    } else {
        after_offers(ui, offers.drop_last()).shown(
            offers.last().editor,
            offers.last().session,
            offers.last().area,
        )
    }
}

/// An open session is never displaced: however many batches are offered while it is open,
/// the popup state stays as it is.
pub proof fn lemma_open_session_stays(ui: UiView, offers: Seq<Offer>)
    requires
        ui.completion is Some,
    ensures
        after_offers(ui, offers) == ui,
    decreases offers.len(),
{
    if offers.len() > 0 {
        lemma_open_session_stays(ui, offers.drop_last());
    }
}

/// The first batch that is not stale wins: of a sequence of batches offered while no
/// session is open, it alone opens the session, and the later ones change nothing.
pub proof fn lemma_first_offer_wins(ui: UiView, offers: Seq<Offer>, k: int)
    requires
        ui.completion is None,
        0 <= k < offers.len(),
        offers[k].editor.is_current(offers[k].session.trigger.view, offers[k].session.trigger.doc),
        forall|j: int|
            0 <= j < k ==> !(#[trigger] offers[j]).editor.is_current(
                offers[j].session.trigger.view,
                offers[j].session.trigger.doc,
            ),
    ensures
        after_offers(ui, offers) == ui.opened(offers[k].session, offers[k].area),
    decreases offers.len(),
{
    let front = offers.drop_last();
    if k == offers.len() - 1 {
        lemma_stale_offers_change_nothing(ui, front);
    } else {
        assert(front[k] == offers[k]);
        lemma_first_offer_wins(ui, front, k);
    }
}

/// Stale batches open nothing.
pub proof fn lemma_stale_offers_change_nothing(ui: UiView, offers: Seq<Offer>)
    requires
        forall|j: int|
            0 <= j < offers.len() ==> !(#[trigger] offers[j]).editor.is_current(
                offers[j].session.trigger.view,
                offers[j].session.trigger.doc,
            ),
    ensures
        after_offers(ui, offers) == ui,
    decreases offers.len(),
{
    if offers.len() > 0 {
        lemma_stale_offers_change_nothing(ui, offers.drop_last());
        assert(offers.last() == offers[offers.len() - 1]);
    }
}

/// A wave that was canceled leaves no trace: whatever its replies hold and however many
/// arrive, the popup state stays as it is.
pub proof fn lemma_canceled_wave_changes_nothing<F: Fn(&CompletionItem, &Vec<char>) -> bool>(
    ui: UiView,
    arrivals: Seq<CompletionResponse>,
    handle: TaskHandle,
    matcher: F,
)
    requires
        ui.incomplete_list_controller.cancels(handle),
    ensures
        wave_applied(ui, arrivals, handle, matcher) == ui,
    decreases arrivals.len(),
{
    if arrivals.len() > 0 {
        lemma_canceled_wave_changes_nothing(ui, arrivals.drop_first(), handle, matcher);
    }
}

/// The controller after `n` more waves were started or canceled.
pub open spec fn advanced(controller: TaskController, n: nat) -> TaskController
    decreases n,
{
    if n == 0 {
        controller
    } else {
        advanced(
            TaskController { generation: TaskController::next_generation(controller.generation) },
            (n - 1) as nat,
        )
    }
}

/// Cancellation is for good. A handle of a wave that the controller has started, once
/// another wave was started or the controller canceled, is canceled and stays so, however
/// many waves follow.
pub proof fn lemma_superseded_handle_stays_canceled(
    controller: TaskController,
    handle: TaskHandle,
    n: nat,
)
    requires
        handle.generation <= controller.generation,
        n > 0,
    ensures
        advanced(controller, n).cancels(handle),
        advanced(controller, n).generation >= controller.generation,
    decreases n,
{
    if n > 1 {
        let next = TaskController {
            generation: TaskController::next_generation(controller.generation),
        };
        lemma_superseded_handle_stays_canceled(next, handle, (n - 1) as nat);
    } else {
        assert(advanced(controller, 1) == advanced(
            TaskController { generation: TaskController::next_generation(controller.generation) },
            0,
        ));
    }
}

/// The session after the characters of `typed` were typed, one after the other.
pub open spec fn after_typing(session: SessionView, typed: Seq<char>) -> SessionView
    decreases typed.len(),
{
    if typed.len() == 0 {
        session
    } else {
        after_typing(session, typed.drop_last()).filtered(Some(typed.last()))
    }
}

/// The session after `n` characters were deleted, one after the other.
pub open spec fn after_deleting(session: SessionView, n: nat) -> SessionView
    decreases n,
{
    if n == 0 {
        session
    } else {
        after_deleting(session.filtered(None), (n - 1) as nat)
    }
}

/// Typing touches the filter alone: the candidates, the counters, the trigger and the
/// save point of the session stay as they were, and the typed characters follow what the
/// filter held before.
pub proof fn lemma_typing_extends_filter(session: SessionView, typed: Seq<char>)
    ensures
        after_typing(session, typed) == (SessionView { filter: session.filter + typed, ..session }),
    decreases typed.len(),
{
    if typed.len() > 0 {
        lemma_typing_extends_filter(session, typed.drop_last());
        assert((session.filter + typed.drop_last()).push(typed.last()) =~= session.filter + typed);
    } else {
        assert(session.filter + typed =~= session.filter);
    }
}

/// Deleting touches the filter alone, and leaves a beginning of it: as many characters
/// as were deleted are gone from its end, or all of them where it held fewer.
pub proof fn lemma_deleting_shortens_filter(session: SessionView, n: nat)
    ensures
        after_deleting(session, n) == (SessionView {
            filter: session.filter.take(
                if n <= session.filter.len() {
                    session.filter.len() - n
                } else {
                    0
                },
            ),
            ..session
        }),
    decreases n,
{
    if n > 0 {
        let shorter = session.filtered(None);
        lemma_deleting_shortens_filter(shorter, (n - 1) as nat);
        assert(after_deleting(session, n).filter =~= session.filter.take(
            if n <= session.filter.len() {
                session.filter.len() - n
            } else {
                0
            },
        ));
    } else {
        assert(session.filter.take(session.filter.len() as int) =~= session.filter);
    }
}

/// Deleting what was typed gives back the session as it was: the same candidates under
/// the same filter, and so the same items to show.
pub proof fn lemma_filter_round_trip<F: Fn(&CompletionItem, &Vec<char>) -> bool>(
    session: SessionView,
    typed: Seq<char>,
    matcher: F,
)
    ensures
        after_deleting(after_typing(session, typed), typed.len()) == session,
        after_deleting(after_typing(session, typed), typed.len()).visible(matcher)
            == session.visible(matcher),
    decreases typed.len(),
{
    if typed.len() > 0 {
        let front = typed.drop_last();
        lemma_filter_round_trip(session, front, matcher);
        let longer = after_typing(session, typed);
        assert(longer.filter.drop_last() =~= after_typing(session, front).filter);
        assert(longer.filtered(None) == after_typing(session, front));
    }
}

/// The filter only narrows what the candidates offer: every item that shows is a
/// candidate, and no more items show than there are candidates.
pub proof fn lemma_visible_narrows_candidates<F: Fn(&CompletionItem, &Vec<char>) -> bool>(
    session: SessionView,
    matcher: F,
)
    ensures
        session.visible(matcher).len() <= session.items.len(),
        forall|i: int|
            0 <= i < session.visible(matcher).len() ==> session.items.contains(
                #[trigger] session.visible(matcher)[i],
            ),
{
    lemma_picked_from(session.items, session.filter, matcher);
}

/// A matcher narrows if a longer filter never lets pass what a shorter one held back: an
/// item that passes a filter passes the filter without its last character too.
pub open spec fn narrows<F: Fn(&CompletionItem, &Vec<char>) -> bool>(matcher: F) -> bool {
    forall|item: CompletionItem, filter: Seq<char>, c: char| #[trigger]
        accepts(matcher, item, filter.push(c)) ==> accepts(matcher, item, filter)
}

/// Of the items that pass a filter, a filter that lets pass no others picks its own.
proof fn lemma_filter_of_filter<F: Fn(&CompletionItem, &Vec<char>) -> bool>(
    items: Seq<CompletionItem>,
    wide: Seq<char>,
    narrow: Seq<char>,
    matcher: F,
)
    requires
        forall|item: CompletionItem|
            accepts(matcher, item, narrow) ==> accepts(matcher, item, wide),
    ensures
        visible_items(items, narrow, matcher) == visible_items(
            visible_items(items, wide, matcher),
            narrow,
            matcher,
        ),
    decreases items.len(),
{
    let passes_wide = |item: CompletionItem| accepts(matcher, item, wide);
    let passes_narrow = |item: CompletionItem| accepts(matcher, item, narrow);
    reveal(Seq::filter);
    if items.len() > 0 {
        let front = items.drop_last();
        let last = items.last();
        lemma_filter_of_filter(front, wide, narrow, matcher);
        assert(front.push(last) =~= items);
        front.lemma_filter_push(last, passes_wide);
        front.lemma_filter_push(last, passes_narrow);
        if passes_wide(last) {
            front.filter(passes_wide).lemma_filter_push(last, passes_narrow);
        }
    }
}

/// With a matcher that narrows, typing narrows and deleting widens. What shows after a
/// character was typed is picked from what showed before, in the same order; what showed
/// before a deletion is picked from what shows after it. Either way the items that show
/// are candidates, and the candidates are the same before and after.
pub proof fn lemma_typing_narrows_and_deleting_widens<F: Fn(&CompletionItem, &Vec<char>) -> bool>(
    session: SessionView,
    c: char,
    matcher: F,
)
    requires
        narrows(matcher),
    ensures
        session.filtered(Some(c)).items == session.items,
        session.filtered(None).items == session.items,
        session.filtered(Some(c)).visible(matcher) == visible_items(
            session.visible(matcher),
            session.filter.push(c),
            matcher,
        ),
        session.filtered(Some(c)).visible(matcher).len() <= session.visible(matcher).len(),
        forall|i: int|
            0 <= i < session.filtered(Some(c)).visible(matcher).len() ==> session.visible(
                matcher,
            ).contains(#[trigger] session.filtered(Some(c)).visible(matcher)[i]),
        session.visible(matcher) == visible_items(
            session.filtered(None).visible(matcher),
            session.filter,
            matcher,
        ),
        session.visible(matcher).len() <= session.filtered(None).visible(matcher).len(),
        forall|i: int|
            0 <= i < session.visible(matcher).len() ==> session.filtered(None).visible(
                matcher,
            ).contains(#[trigger] session.visible(matcher)[i]),
{
    let longer = session.filter.push(c);
    assert forall|item: CompletionItem| accepts(matcher, item, longer) implies accepts(
        matcher,
        item,
        session.filter,
    ) by {}
    lemma_filter_of_filter(session.items, session.filter, longer, matcher);
    lemma_picked_from(session.visible(matcher), longer, matcher);

    let shorter = session.filtered(None).filter;
    if session.filter.len() > 0 {
        assert(shorter.push(session.filter.last()) =~= session.filter);
        assert forall|item: CompletionItem| accepts(matcher, item, session.filter) implies accepts(
            matcher,
            item,
            shorter,
        ) by {
            assert(accepts(matcher, item, shorter.push(session.filter.last())));
        }
    }
    lemma_filter_of_filter(session.items, shorter, session.filter, matcher);
    lemma_picked_from(session.filtered(None).visible(matcher), session.filter, matcher);
}

/// What a filter picks from a sequence of items is no longer than the sequence, and each
/// picked item is one of the sequence.
proof fn lemma_picked_from<F: Fn(&CompletionItem, &Vec<char>) -> bool>(
    items: Seq<CompletionItem>,
    filter: Seq<char>,
    matcher: F,
)
    ensures
        visible_items(items, filter, matcher).len() <= items.len(),
        forall|i: int|
            0 <= i < visible_items(items, filter, matcher).len() ==> items.contains(
                #[trigger] visible_items(items, filter, matcher)[i],
            ),
{
    let shows = |item: CompletionItem| accepts(matcher, item, filter);
    items.lemma_filter_len(shows);
    assert forall|i: int| 0 <= i < visible_items(items, filter, matcher).len() implies items.contains(
        #[trigger] visible_items(items, filter, matcher)[i],
    ) by {
        let item = visible_items(items, filter, matcher)[i];
        assert(items.filter(shows).contains(item));
        items.lemma_filter_contains_rev(shows, item);
    }
}

/// A session that lives through a typed character and its deletion is as it was before.
pub proof fn lemma_typed_then_deleted<F: Fn(&CompletionItem, &Vec<char>) -> bool>(
    ui: UiView,
    c: char,
    matcher: F,
)
    requires
        ui.filter_updated(Some(c), matcher).completion is Some,
        ui.filter_updated(Some(c), matcher).filter_updated(None, matcher).completion is Some,
    ensures
        ui.filter_updated(Some(c), matcher).filter_updated(None, matcher).completion
            == ui.completion,
{
    let session = ui.completion->0;
    assert(session.filter.push(c).drop_last() =~= session.filter);
}

} // verus!
