use std::collections::HashMap;

use completion_handler::editor::{DocumentId, Editor, Mode, ProviderCapabilities, ViewId};
use completion_handler::event::{CompletionEvent, Trigger};
use completion_handler::item::{CompletionItem, CompletionProviderId, CompletionResponse};
use completion_handler::session::SavePoint;
use completion_handler::task::TaskHandle;
use completion_handler::ui::{
    apply, clear_completions, retrigger, show_completion, update_completion_filter, Reaction, Rect,
    Ui,
};

fn entry(provider: u64, label: &str) -> CompletionItem {
    CompletionItem { provider: CompletionProviderId(provider), label: label.to_string() }
}

fn entries(provider: u64, names: &[&str]) -> Vec<CompletionItem> {
    names.iter().map(|n| entry(provider, n)).collect()
}

fn answer(provider: u64, names: &[&str], incomplete: bool) -> CompletionResponse {
    CompletionResponse {
        provider: CompletionProviderId(provider),
        items: entries(provider, names),
        incomplete,
    }
}

fn inserting(text: &str) -> Editor {
    let text: Vec<char> = text.chars().collect();
    let cursor = text.len();
    Editor {
        mode: Mode::Insert,
        view: ViewId(1),
        doc: DocumentId(2),
        text,
        cursor,
        auto_completion: true,
        completion_trigger_len: 3,
        providers: vec![ProviderCapabilities { trigger_characters: vec![vec!['.'], vec![':', ':']] }],
        path_completion_enabled: true,
        backslash_separates_paths: false,
    }
}

fn here() -> Trigger {
    Trigger { pos: 0, view: ViewId(1), doc: DocumentId(2) }
}

fn corner() -> Rect {
    Rect { x: 0, y: 0, width: 20, height: 5 }
}

fn starts_with_filter(item: &CompletionItem, filter: &Vec<char>) -> bool {
    let prefix: String = filter.iter().collect();
    item.label.starts_with(&prefix)
}

fn items_shown(ui: &Ui) -> Vec<String> {
    match &ui.completion {
        Some(session) => session.items.iter().map(|i| i.label.clone()).collect(),
        None => vec![],
    }
}

fn popup_with(editor: &Editor, items: Vec<CompletionItem>) -> Ui {
    let mut ui = Ui::new();
    assert!(show_completion(editor, &mut ui, items, HashMap::new(), here(), SavePoint(1), corner()));
    ui
}

#[test]
fn new_popup_state_is_closed() {
    let ui = Ui::new();
    assert!(!ui.is_active());
    assert!(ui.completion.is_none());
    assert!(ui.signature_help.is_none());
    assert_eq!(ui.incomplete_list_controller.generation, 0);
}

#[test]
fn first_batch_opens_a_session() {
    let editor = inserting("foo.");
    let mut ui = Ui::new();
    let mut counters = HashMap::new();
    counters.insert(1u64, 0i8);
    let opened = show_completion(
        &editor,
        &mut ui,
        entries(1, &["a", "b", "c"]),
        counters,
        Trigger { pos: 4, view: ViewId(1), doc: DocumentId(2) },
        SavePoint(77),
        corner(),
    );
    assert!(opened);
    assert!(ui.is_active());
    let session = ui.completion.as_ref().unwrap();
    assert_eq!(items_shown(&ui), vec!["a", "b", "c"]);
    assert!(session.filter.is_empty());
    assert_eq!(session.incomplete_completion_lists.get(&1), Some(&0));
    assert_eq!(session.trigger.pos, 4);
    assert_eq!(session.savepoint, SavePoint(77));
    assert_eq!(ui.incomplete_list_controller.generation, 0);
}

#[test]
fn batch_is_turned_away_outside_insert_mode() {
    let mut editor = inserting("foo.");
    editor.mode = Mode::Normal;
    let mut ui = Ui::new();
    ui.signature_help = Some(corner());
    assert!(!show_completion(&editor, &mut ui, entries(1, &["a"]), HashMap::new(), here(), SavePoint(1), corner()));
    assert!(ui.completion.is_none());
    assert_eq!(ui.signature_help, Some(corner()));
    editor.mode = Mode::Select;
    assert!(!show_completion(&editor, &mut ui, entries(1, &["a"]), HashMap::new(), here(), SavePoint(1), corner()));
    assert!(ui.completion.is_none());
}

#[test]
fn batch_is_turned_away_for_another_view_or_document() {
    let editor = inserting("foo.");
    let mut ui = Ui::new();
    let other_view = Trigger { pos: 0, view: ViewId(9), doc: DocumentId(2) };
    assert!(!show_completion(&editor, &mut ui, entries(1, &["a"]), HashMap::new(), other_view, SavePoint(1), corner()));
    let other_doc = Trigger { pos: 0, view: ViewId(1), doc: DocumentId(9) };
    assert!(!show_completion(&editor, &mut ui, entries(1, &["a"]), HashMap::new(), other_doc, SavePoint(1), corner()));
    assert!(ui.completion.is_none());
}

#[test]
fn batch_is_accepted_though_the_cursor_moved_on() {
    let editor = inserting("foo.bar");
    let mut ui = Ui::new();
    let earlier = Trigger { pos: 4, view: ViewId(1), doc: DocumentId(2) };
    assert!(show_completion(&editor, &mut ui, entries(1, &["bar"]), HashMap::new(), earlier, SavePoint(1), corner()));
}

#[test]
fn second_batch_does_not_displace_the_open_session() {
    let editor = inserting("foo.");
    let mut ui = popup_with(&editor, entries(1, &["a", "b"]));
    ui.signature_help = Some(Rect { x: 50, y: 50, width: 2, height: 2 });
    let again = show_completion(
        &editor,
        &mut ui,
        entries(2, &["x", "y", "z"]),
        HashMap::new(),
        here(),
        SavePoint(2),
        Rect { x: 50, y: 50, width: 2, height: 2 },
    );
    assert!(!again);
    assert_eq!(items_shown(&ui), vec!["a", "b"]);
    assert_eq!(ui.completion.as_ref().unwrap().savepoint, SavePoint(1));
    assert_eq!(ui.signature_help, Some(Rect { x: 50, y: 50, width: 2, height: 2 }));
}

#[test]
fn signature_help_gives_way_where_the_popup_covers_it() {
    let editor = inserting("foo.");
    let mut ui = Ui::new();
    ui.signature_help = Some(Rect { x: 10, y: 3, width: 30, height: 4 });
    assert!(show_completion(&editor, &mut ui, entries(1, &["a"]), HashMap::new(), here(), SavePoint(1), corner()));
    assert_eq!(ui.signature_help, None);
}

#[test]
fn signature_help_stays_where_the_popup_leaves_it_alone() {
    let editor = inserting("foo.");
    let mut ui = Ui::new();
    let below = Rect { x: 0, y: 5, width: 20, height: 4 };
    ui.signature_help = Some(below);
    assert!(show_completion(&editor, &mut ui, entries(1, &["a"]), HashMap::new(), here(), SavePoint(1), corner()));
    assert_eq!(ui.signature_help, Some(below));
}

#[test]
fn rectangles_intersect_when_they_share_a_cell() {
    let a = Rect { x: 2, y: 2, width: 4, height: 4 };
    assert!(a.intersects(a));
    assert!(a.intersects(Rect { x: 5, y: 5, width: 1, height: 1 }));
    assert!(a.intersects(Rect { x: 0, y: 0, width: 3, height: 3 }));
    assert!(a.intersects(Rect { x: 3, y: 0, width: 1, height: 10 }));
    assert!(!a.intersects(Rect { x: 6, y: 2, width: 4, height: 4 }));
    assert!(!a.intersects(Rect { x: 2, y: 6, width: 4, height: 4 }));
    assert!(!a.intersects(Rect { x: 0, y: 0, width: 2, height: 2 }));
    assert!(!Rect { x: 6, y: 2, width: 4, height: 4 }.intersects(a));
}

#[test]
fn rectangle_without_cells_intersects_nothing() {
    let a = Rect { x: 0, y: 0, width: 10, height: 10 };
    assert!(!a.intersects(Rect { x: 5, y: 5, width: 0, height: 3 }));
    assert!(!a.intersects(Rect { x: 5, y: 5, width: 3, height: 0 }));
    assert!(!Rect { x: 5, y: 5, width: 0, height: 0 }.intersects(a));
}

#[test]
fn rectangles_at_the_far_corner_do_not_overflow() {
    let far = Rect { x: u16::MAX, y: u16::MAX, width: u16::MAX, height: u16::MAX };
    assert!(far.intersects(far));
    assert!(far.intersects(Rect { x: 0, y: 0, width: u16::MAX, height: u16::MAX }) == false);
    assert!(far.intersects(Rect { x: 1, y: 1, width: u16::MAX, height: u16::MAX }));
}

#[test]
fn reply_of_another_provider_joins_the_popup() {
    let editor = inserting("foo.");
    let mut ui = popup_with(&editor, entries(1, &["a1", "a2"]));
    ui.completion.as_mut().unwrap().incomplete_completion_lists.insert(1, 3);
    let handle = ui.incomplete_list_controller.restart();
    let reaction = apply(&editor, &mut ui, answer(2, &["b1", "b2", "b3"], true), handle, &starts_with_filter);
    assert_eq!(reaction, Reaction::Nothing);
    assert_eq!(items_shown(&ui), vec!["a1", "a2", "b1", "b2", "b3"]);
    let session = ui.completion.as_ref().unwrap();
    assert_eq!(session.items.len(), 5);
    assert_eq!(session.incomplete_completion_lists.get(&1), Some(&3));
    assert_eq!(session.incomplete_completion_lists.get(&2), Some(&0));
    assert_eq!(session.incomplete_completion_lists.len(), 2);
}

#[test]
fn late_reply_of_a_canceled_wave_is_dropped_though_it_brings_items() {
    let editor = inserting("foo.");
    let mut ui = popup_with(&editor, entries(1, &["a1"]));
    let first_wave = ui.incomplete_list_controller.restart();
    let second_wave = ui.incomplete_list_controller.restart();
    let reaction = apply(&editor, &mut ui, answer(2, &["late1", "late2"], true), first_wave, &starts_with_filter);
    assert_eq!(reaction, Reaction::Outdated);
    assert_eq!(items_shown(&ui), vec!["a1"]);
    assert!(ui.completion.as_ref().unwrap().incomplete_completion_lists.is_empty());
    assert_eq!(ui.incomplete_list_controller.generation, 2);
    let reaction = apply(&editor, &mut ui, answer(2, &["b1"], false), second_wave, &starts_with_filter);
    assert_eq!(reaction, Reaction::Nothing);
    assert_eq!(items_shown(&ui), vec!["a1", "b1"]);
}

#[test]
fn dropping_a_canceled_reply_twice_is_the_same_as_once() {
    let editor = inserting("foo.");
    let mut ui = popup_with(&editor, entries(1, &["a1"]));
    ui.signature_help = Some(Rect { x: 40, y: 0, width: 5, height: 5 });
    let stale = TaskHandle { generation: 5 };
    for _ in 0..2 {
        let reaction = apply(&editor, &mut ui, answer(1, &[], false), stale, &starts_with_filter);
        assert_eq!(reaction, Reaction::Outdated);
        assert_eq!(items_shown(&ui), vec!["a1"]);
        assert_eq!(ui.incomplete_list_controller.generation, 0);
        assert_eq!(ui.signature_help, Some(Rect { x: 40, y: 0, width: 5, height: 5 }));
    }
}

#[test]
fn reply_without_a_session_is_ignored() {
    let editor = inserting("foo.");
    let mut ui = Ui::new();
    let reaction = apply(&editor, &mut ui, answer(1, &["a"], false), TaskHandle { generation: 0 }, &starts_with_filter);
    assert_eq!(reaction, Reaction::Nothing);
    assert!(ui.completion.is_none());
    assert_eq!(ui.incomplete_list_controller.generation, 0);
}

#[test]
fn reply_that_empties_the_popup_closes_it_and_asks_the_evaluator() {
    let editor = inserting("foo.");
    let mut ui = popup_with(&editor, entries(1, &["a1"]));
    let handle = ui.incomplete_list_controller.restart();
    let reaction = apply(&editor, &mut ui, answer(1, &[], false), handle, &starts_with_filter);
    assert_eq!(
        reaction,
        Reaction::Emit(CompletionEvent::TriggerChar { cursor: 4, doc: DocumentId(2), view: ViewId(1) })
    );
    assert!(ui.completion.is_none());
    assert!(ui.incomplete_list_controller.is_canceled(&handle));
}

#[test]
fn reply_whose_items_all_fail_the_filter_closes_the_popup() {
    let editor = inserting("a b");
    let mut ui = popup_with(&editor, entries(1, &["xa"]));
    let live = TaskHandle { generation: 0 };
    assert!(matches!(
        update_completion_filter(&editor, &mut ui, Some('x'), &starts_with_filter),
        Reaction::Requery(_)
    ));
    let handle = TaskHandle { generation: 1 };
    assert!(ui.incomplete_list_controller.is_canceled(&live));
    let reaction = apply(&editor, &mut ui, answer(1, &["ya", "yb"], false), handle, &starts_with_filter);
    assert_eq!(reaction, Reaction::Nothing);
    assert!(ui.completion.is_none());
}

#[test]
fn typing_a_word_character_narrows_the_session_and_requeries() {
    let editor = inserting("foo.a");
    let mut ui = popup_with(&editor, entries(1, &["alpha", "beta"]));
    let before = ui.incomplete_list_controller.restart();
    let reaction = update_completion_filter(&editor, &mut ui, Some('a'), &starts_with_filter);
    assert_eq!(reaction, Reaction::Requery(TaskHandle { generation: 2 }));
    assert_eq!(ui.incomplete_list_controller.generation, 2);
    assert!(ui.incomplete_list_controller.is_canceled(&before));
    assert!(!ui.incomplete_list_controller.is_canceled(&TaskHandle { generation: 2 }));
    assert_eq!(ui.completion.as_ref().unwrap().filter, vec!['a']);
    assert_eq!(items_shown(&ui), vec!["alpha", "beta"]);
}

#[test]
fn typing_a_character_that_is_no_word_character_closes_the_session() {
    let editor = inserting("foo.alpha.");
    let mut ui = popup_with(&editor, entries(1, &["alpha.x"]));
    let handle = ui.incomplete_list_controller.restart();
    for c in "alpha".chars() {
        assert!(matches!(
            update_completion_filter(&editor, &mut ui, Some(c), &starts_with_filter),
            Reaction::Requery(_)
        ));
    }
    let reaction = update_completion_filter(&editor, &mut ui, Some('.'), &starts_with_filter);
    assert_eq!(
        reaction,
        Reaction::Emit(CompletionEvent::TriggerChar { cursor: 10, doc: DocumentId(2), view: ViewId(1) })
    );
    assert!(ui.completion.is_none());
    assert!(ui.incomplete_list_controller.is_canceled(&handle));
}

#[test]
fn typing_past_every_candidate_closes_the_session() {
    let editor = inserting("x y");
    let mut ui = popup_with(&editor, entries(1, &["alpha", "beta"]));
    let reaction = update_completion_filter(&editor, &mut ui, Some('z'), &starts_with_filter);
    assert_eq!(reaction, Reaction::Nothing);
    assert!(ui.completion.is_none());
}

#[test]
fn closing_by_typing_can_raise_auto_trigger() {
    let editor = inserting("xyz");
    let mut ui = popup_with(&editor, entries(1, &["alpha"]));
    let reaction = update_completion_filter(&editor, &mut ui, Some('z'), &starts_with_filter);
    assert_eq!(
        reaction,
        Reaction::Emit(CompletionEvent::AutoTrigger { cursor: 3, doc: DocumentId(2), view: ViewId(1) })
    );
    assert!(ui.completion.is_none());
}

#[test]
fn deleting_back_to_where_the_session_opened_gives_back_its_candidates() {
    let editor = inserting("foo.");
    let mut ui = popup_with(&editor, entries(1, &["a", "b", "c"]));
    ui.completion.as_mut().unwrap().filter = vec!['o'];
    for c in ['a', 'b'] {
        let _ = update_completion_filter(&editor, &mut ui, Some(c), &|_: &CompletionItem, _: &Vec<char>| true);
    }
    assert_eq!(ui.completion.as_ref().unwrap().filter, vec!['o', 'a', 'b']);
    for _ in 0..2 {
        let reaction = update_completion_filter(&editor, &mut ui, None, &|_: &CompletionItem, _: &Vec<char>| true);
        assert!(matches!(reaction, Reaction::Requery(_)));
    }
    assert_eq!(items_shown(&ui), vec!["a", "b", "c"]);
    assert_eq!(ui.completion.as_ref().unwrap().filter, vec!['o']);
    assert_eq!(ui.completion.as_ref().unwrap().savepoint, SavePoint(1));
}

#[test]
fn typing_narrows_and_deleting_widens_what_passes_the_filter() {
    let mut ui = popup_with(&inserting("foo"), entries(1, &["ab", "ac", "b"]));
    let passing = |ui: &Ui| -> Vec<String> {
        let session = ui.completion.as_ref().unwrap();
        session
            .items
            .iter()
            .filter(|item| starts_with_filter(item, &session.filter))
            .map(|item| item.label.clone())
            .collect()
    };
    assert_eq!(passing(&ui), vec!["ab", "ac", "b"]);
    let editor = inserting("fooa");
    let _ = update_completion_filter(&editor, &mut ui, Some('a'), &starts_with_filter);
    assert_eq!(passing(&ui), vec!["ab", "ac"]);
    let _ = update_completion_filter(&editor, &mut ui, Some('c'), &starts_with_filter);
    assert_eq!(passing(&ui), vec!["ac"]);
    let _ = update_completion_filter(&editor, &mut ui, None, &starts_with_filter);
    assert_eq!(passing(&ui), vec!["ab", "ac"]);
    assert_eq!(items_shown(&ui), vec!["ab", "ac", "b"]);
}

#[test]
fn deleting_the_last_filter_character_closes_the_session() {
    let editor = inserting("foo");
    let mut ui = popup_with(&editor, entries(1, &["a", "b", "c"]));
    assert!(matches!(
        update_completion_filter(&editor, &mut ui, Some('a'), &starts_with_filter),
        Reaction::Requery(_)
    ));
    let reaction = update_completion_filter(&editor, &mut ui, None, &starts_with_filter);
    assert_eq!(
        reaction,
        Reaction::Emit(CompletionEvent::AutoTrigger { cursor: 3, doc: DocumentId(2), view: ViewId(1) })
    );
    assert!(ui.completion.is_none());
}

#[test]
fn deleting_with_an_empty_filter_closes_the_session() {
    let editor = inserting("a b");
    let mut ui = popup_with(&editor, entries(1, &["a"]));
    let reaction = update_completion_filter(&editor, &mut ui, None, &starts_with_filter);
    assert_eq!(reaction, Reaction::Nothing);
    assert!(ui.completion.is_none());
    assert_eq!(ui.incomplete_list_controller.generation, 1);
}

#[test]
fn filter_update_without_a_session_does_nothing() {
    let editor = inserting("hello");
    let mut ui = Ui::new();
    assert_eq!(update_completion_filter(&editor, &mut ui, Some('o'), &starts_with_filter), Reaction::Nothing);
    assert_eq!(update_completion_filter(&editor, &mut ui, None, &starts_with_filter), Reaction::Nothing);
    assert!(ui.completion.is_none());
    assert_eq!(ui.incomplete_list_controller.generation, 0);
}

#[test]
fn clearing_closes_the_session_and_cancels_its_requests() {
    let editor = inserting("foo.");
    let mut ui = popup_with(&editor, entries(1, &["a"]));
    let handle = ui.incomplete_list_controller.restart();
    ui.signature_help = Some(corner());
    clear_completions(&mut ui);
    assert!(ui.completion.is_none());
    assert!(ui.incomplete_list_controller.is_canceled(&handle));
    assert_eq!(ui.incomplete_list_controller.generation, 2);
    assert_eq!(ui.signature_help, Some(corner()));
    clear_completions(&mut ui);
    assert!(ui.completion.is_none());
    assert_eq!(ui.incomplete_list_controller.generation, 2);
}

#[test]
fn session_can_be_opened_again_after_it_closed() {
    let editor = inserting("foo.");
    let mut ui = popup_with(&editor, entries(1, &["a"]));
    let old = ui.incomplete_list_controller.restart();
    clear_completions(&mut ui);
    assert!(show_completion(&editor, &mut ui, entries(2, &["b"]), HashMap::new(), here(), SavePoint(5), corner()));
    assert_eq!(items_shown(&ui), vec!["b"]);
    assert_eq!(apply(&editor, &mut ui, answer(1, &["late"], false), old, &starts_with_filter), Reaction::Outdated);
    assert_eq!(items_shown(&ui), vec!["b"]);
}

#[test]
fn retrigger_passes_on_what_the_evaluator_finds() {
    assert_eq!(
        retrigger(&inserting("std::")),
        Reaction::Emit(CompletionEvent::TriggerChar { cursor: 5, doc: DocumentId(2), view: ViewId(1) })
    );
    assert_eq!(
        retrigger(&inserting("dir/")),
        Reaction::Emit(CompletionEvent::TriggerChar { cursor: 4, doc: DocumentId(2), view: ViewId(1) })
    );
    assert_eq!(
        retrigger(&inserting("abc")),
        Reaction::Emit(CompletionEvent::AutoTrigger { cursor: 3, doc: DocumentId(2), view: ViewId(1) })
    );
    assert_eq!(retrigger(&inserting("a b")), Reaction::Nothing);
}
