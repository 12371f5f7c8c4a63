//! Draining the replies of one wave of requests in the order in which they arrive.

use vstd::prelude::*;
use crate::editor::Editor;
use crate::item::{CompletionItem, CompletionResponse};
use crate::session::is_matcher;
use crate::task::TaskHandle;
use crate::ui::{apply, Reaction, Ui, UiView};

verus! {

/// How many replies at the front of `arrivals` say nothing and are passed over.
pub open spec fn passed_over(arrivals: Seq<CompletionResponse>) -> nat
    decreases arrivals.len(),
{
    if arrivals.len() == 0 || arrivals[0].is_informative() {
        0
    } else {
        1 + passed_over(arrivals.drop_first())
    }
}

/// `passed_over` stops at the first informative reply, or at the end where there is none.
pub proof fn lemma_passed_over(arrivals: Seq<CompletionResponse>)
    ensures
        passed_over(arrivals) <= arrivals.len(),
        forall|j: int|
            0 <= j < passed_over(arrivals) ==> !(#[trigger] arrivals[j]).is_informative(),
        passed_over(arrivals) < arrivals.len() ==> arrivals[passed_over(arrivals) as int].is_informative(),
    decreases arrivals.len(),
{
    if arrivals.len() == 0 || arrivals[0].is_informative() {
    } else {
        let rest = arrivals.drop_first();
        lemma_passed_over(rest);
        assert forall|j: int| 0 <= j < passed_over(arrivals) implies !(
        #[trigger] arrivals[j]).is_informative() by {
            if j > 0 {
                assert(arrivals[j] == rest[j - 1]);
            }
        }
    }
}

/// Takes the next reply worth forwarding off `requests`, which holds the replies of a wave
/// in the order in which they arrive.
///
/// Replies that bring no item and are not marked incomplete are discarded. The first
/// other reply is returned and the replies behind it stay queued. Once nothing is queued
/// any more the result is `None`. `incomplete` tells whether the wave re-queries
/// incomplete lists; which replies are discarded is the same either way.
pub fn handle_response(requests: &mut Vec<CompletionResponse>, incomplete: bool) -> (response:
    Option<CompletionResponse>)
    ensures
        match response {
            Some(r) => {
                &&& passed_over(old(requests)@) < old(requests)@.len()
                &&& r == old(requests)@[passed_over(old(requests)@) as int]
                &&& final(requests)@ == old(requests)@.skip(
                    passed_over(old(requests)@) as int + 1,
                )
            },
            None => {
                &&& passed_over(old(requests)@) == old(requests)@.len()
                &&& final(requests)@.len() == 0
            },
        },
{
    let ghost all = requests@;
    let ghost mut k: nat = 0;
    while requests.len() > 0
        invariant
            k <= all.len(),
            all == old(requests)@,
            requests@ == all.skip(k as int),
            passed_over(all) == k + passed_over(requests@),
        decreases requests.len(),
    {
        let ghost queued = requests@;
        let response: CompletionResponse = requests.remove(0);
        assert(requests@ =~= queued.drop_first());
        assert(requests@ =~= all.skip(k as int + 1));
        assert(response == all[k as int]);
        assert(response == queued[0]);
        if response.informative() {
            assert(passed_over(queued) == 0);
            return Some(response);
        }
        assert(passed_over(queued) == 1 + passed_over(requests@));
        proof {
            k = k + 1;
        }
    }
    None
}

/// The popup state after the replies of a wave were applied in the order of their arrival,
/// each under `handle`. Replies that say nothing are passed over.
pub open spec fn wave_applied<F: Fn(&CompletionItem, &Vec<char>) -> bool>(
    ui: UiView,
    arrivals: Seq<CompletionResponse>,
    handle: TaskHandle,
    matcher: F,
) -> UiView
    decreases arrivals.len(),
{
    if arrivals.len() == 0 {
        ui
    } else {
        let r = arrivals[0];
        let next = if r.is_informative() {
            ui.applied(r.provider, r.items@, r.incomplete, handle, matcher)
        } else {
            ui
        };
        wave_applied(next, arrivals.drop_first(), handle, matcher)
    }
}

/// What the caller is to do for each forwarded reply of the wave, in order.
pub open spec fn wave_reactions<F: Fn(&CompletionItem, &Vec<char>) -> bool>(
    ui: UiView,
    editor: Editor,
    arrivals: Seq<CompletionResponse>,
    handle: TaskHandle,
    matcher: F,
) -> Seq<Reaction>
    decreases arrivals.len(),
{
    if arrivals.len() == 0 {
        Seq::empty()
    } else {
        let r = arrivals[0];
        let rest = arrivals.drop_first();
        if r.is_informative() {
            seq![
                ui.apply_reaction(editor, r.provider, r.items@, r.incomplete, handle, matcher),
            ] + wave_reactions(
                ui.applied(r.provider, r.items@, r.incomplete, handle, matcher),
                editor,
                rest,
                handle,
                matcher,
            )
        } else {
            wave_reactions(ui, editor, rest, handle, matcher)
        }
    }
}

/// Replies that are passed over leave no trace in the outcome of a wave.
proof fn lemma_wave_skips<F: Fn(&CompletionItem, &Vec<char>) -> bool>(
    ui: UiView,
    editor: Editor,
    arrivals: Seq<CompletionResponse>,
    handle: TaskHandle,
    matcher: F,
    k: nat,
)
    requires
        k <= passed_over(arrivals),
    ensures
        k <= arrivals.len(),
        wave_applied(ui, arrivals, handle, matcher) == wave_applied(
            ui,
            arrivals.skip(k as int),
            handle,
            matcher,
        ),
        wave_reactions(ui, editor, arrivals, handle, matcher) == wave_reactions(
            ui,
            editor,
            arrivals.skip(k as int),
            handle,
            matcher,
        ),
    decreases k,
{
    lemma_passed_over(arrivals);
    if k == 0 {
        assert(arrivals.skip(0) =~= arrivals);
    } else {
        let rest = arrivals.drop_first();
        lemma_wave_skips(ui, editor, rest, handle, matcher, (k - 1) as nat);
        assert(rest.skip(k - 1) =~= arrivals.skip(k as int));
    }
}

/// Applies the replies of one wave to the popup, in the order of their arrival, and
/// returns what is to be done after each reply that was forwarded.
///
/// `requests` holds the replies as they arrive, `handle` is the handle of the wave and
/// `incomplete` tells whether the wave re-queries incomplete lists; the editor is taken
/// not to change while the wave drains.
pub fn replace_completions<F: Fn(&CompletionItem, &Vec<char>) -> bool>(
    editor: &Editor,
    ui: &mut Ui,
    handle: TaskHandle,
    requests: Vec<CompletionResponse>,
    incomplete: bool,
    matcher: &F,
) -> (reactions: Vec<Reaction>)
    requires
        editor.well_formed(),
        is_matcher(*matcher),
    ensures
        final(ui)@ == wave_applied(old(ui)@, requests@, handle, *matcher),
        reactions@ == wave_reactions(old(ui)@, *editor, requests@, handle, *matcher),
{
    let mut requests: Vec<CompletionResponse> = requests;
    let mut reactions: Vec<Reaction> = Vec::new();
    let ghost all = requests@;
    loop
        invariant
            editor.well_formed(),
            is_matcher(*matcher),
            wave_applied(old(ui)@, all, handle, *matcher) == wave_applied(
                ui@,
                requests@,
                handle,
                *matcher,
            ),
            wave_reactions(old(ui)@, *editor, all, handle, *matcher) == reactions@
                + wave_reactions(ui@, *editor, requests@, handle, *matcher),
        ensures
            ui@ == wave_applied(old(ui)@, all, handle, *matcher),
            reactions@ == wave_reactions(old(ui)@, *editor, all, handle, *matcher),
        decreases requests.len(),
    {
        let ghost queued = requests@;
        let ghost before = ui@;
        let ghost done = reactions@;
        let ghost k = passed_over(queued);
        proof {
            lemma_passed_over(queued);
            lemma_wave_skips(before, *editor, queued, handle, *matcher, k);
        }
        match handle_response(&mut requests, incomplete) {
            Some(response) => {
                let ghost tail = queued.skip(k as int);
                assert(tail[0] == response);
                assert(tail.drop_first() =~= requests@);
                let reaction: Reaction = apply(editor, ui, response, handle, matcher);
                reactions.push(reaction);
                assert(reactions@ + wave_reactions(
                    ui@,
                    *editor,
                    requests@,
                    handle,
                    *matcher,
                ) =~= done + wave_reactions(before, *editor, tail, handle, *matcher));
            },
            None => {
                assert(queued.skip(k as int).len() == 0);
                assert(done + Seq::<Reaction>::empty() =~= done);
                break;
            },
        }
    }
    reactions
}

} // verus!
