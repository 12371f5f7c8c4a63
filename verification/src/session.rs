//! The state of an open completion popup: its candidates, the filter typed so far, and the
//! standing of the providers whose lists are incomplete.

use std::collections::HashMap;
use vstd::prelude::*;
use vstd::std_specs::hash::*;
use crate::event::Trigger;
use crate::item::{CompletionItem, CompletionProviderId, CompletionResponse};

verus! {

broadcast use group_hash_axioms;

/// A snapshot of the document taken before a preview edits it, by which the edit can be
/// taken back. The session that previews owns it and gives it up when it closes.
#[derive(Clone, Copy, Debug, PartialEq, Eq, Structural)]
pub struct SavePoint(pub u64);

/// A matcher decides whether an item passes a filter. It must answer for every item and
/// filter, and its answer may depend on nothing but the item and the filter's characters.
pub open spec fn is_matcher<F: Fn(&CompletionItem, &Vec<char>) -> bool>(matcher: F) -> bool {
    &&& forall|item: &CompletionItem, filter: &Vec<char>| call_requires(matcher, (item, filter))
    &&& forall|item: &CompletionItem, f1: &Vec<char>, f2: &Vec<char>|
        f1@ == f2@ ==> !(call_ensures(matcher, (item, f1), true) && call_ensures(
            matcher,
            (item, f2),
            false,
        ))
}

/// `matcher` lets `item` pass `filter`.
pub open spec fn accepts<F: Fn(&CompletionItem, &Vec<char>) -> bool>(
    matcher: F,
    item: CompletionItem,
    filter: Seq<char>,
) -> bool {
    exists|f: Vec<char>| f@ == filter && #[trigger] call_ensures(matcher, (&item, &f), true)
}

/// The items that `matcher` lets pass `filter`, in their order.
pub open spec fn visible_items<F: Fn(&CompletionItem, &Vec<char>) -> bool>(
    items: Seq<CompletionItem>,
    filter: Seq<char>,
    matcher: F,
) -> Seq<CompletionItem> {
    items.filter(|item: CompletionItem| accepts(matcher, item, filter))
}

/// The predicate that holds of the items of every provider but `provider`.
pub open spec fn from_other_provider(provider: CompletionProviderId) -> spec_fn(
    CompletionItem,
) -> bool {
    |item: CompletionItem| item.provider != provider
}

/// The candidates after `provider` has replied with `items`: its earlier contribution is
/// gone, the other providers' items keep their order, and the new items follow them.
pub open spec fn merged_items(
    candidates: Seq<CompletionItem>,
    provider: CompletionProviderId,
    items: Seq<CompletionItem>,
) -> Seq<CompletionItem> {
    candidates.filter(from_other_provider(provider)) + items
}

/// The counter of a provider whose incomplete list was extended once more. A provider
/// that was not listed starts at zero, and the counter stops at its largest value.
pub open spec fn extended(counters: Map<u64, i8>, provider: u64) -> i8 {
    if !counters.contains_key(provider) {
        0
    } else if counters[provider] < i8::MAX {
        (counters[provider] + 1) as i8
    } else {
        i8::MAX
    }
}

/// The counters after `provider` has replied. An incomplete reply extends the provider's
/// list once more; a complete one ends its listing. No other provider's entry changes.
pub open spec fn merged_counters(
    counters: Map<u64, i8>,
    provider: CompletionProviderId,
    incomplete: bool,
) -> Map<u64, i8> {
    if incomplete {
        counters.insert(provider.0, extended(counters, provider.0))
    } else {
        counters.remove(provider.0)
    }
}

/// The filter after a character was typed (`Some`) or the last one deleted (`None`).
pub open spec fn filter_after(filter: Seq<char>, c: Option<char>) -> Seq<char> {
    match c {
        Some(ch) => filter.push(ch),
        None => if filter.len() > 0 {
            filter.drop_last()
        } else {
            filter
        },
    }
}

/// An open completion session.
#[derive(Debug)]
pub struct Session {
    /// All candidates, whether the filter lets them pass or not.
    pub items: Vec<CompletionItem>,
    /// The characters typed since the session opened.
    pub filter: Vec<char>,
    /// For each provider whose list is incomplete, how often the list was extended.
    pub incomplete_completion_lists: HashMap<u64, i8>,
    /// Where the requests that opened the session were issued.
    pub trigger: Trigger,
    pub savepoint: SavePoint,
}

/// What a session is, as mathematical values.
pub struct SessionView {
    pub items: Seq<CompletionItem>,
    pub filter: Seq<char>,
    pub incomplete_completion_lists: Map<u64, i8>,
    pub trigger: Trigger,
    pub savepoint: SavePoint,
}

impl View for Session {
    type V = SessionView;

    open spec fn view(&self) -> SessionView {
        SessionView {
            items: self.items@,
            filter: self.filter@,
            incomplete_completion_lists: self.incomplete_completion_lists@,
            trigger: self.trigger,
            savepoint: self.savepoint,
        }
    }
}

impl SessionView {
    /// The session after its filter was updated. Candidates and counters stay.
    pub open spec fn filtered(self, c: Option<char>) -> SessionView {
        SessionView { filter: filter_after(self.filter, c), ..self }
    }

    /// The session after a provider's reply was merged into it.
    pub open spec fn merged(
        self,
        provider: CompletionProviderId,
        items: Seq<CompletionItem>,
        incomplete: bool,
    ) -> SessionView {
        SessionView {
            items: merged_items(self.items, provider, items),
            incomplete_completion_lists: merged_counters(
                self.incomplete_completion_lists,
                provider,
                incomplete,
            ),
            ..self
        }
    }

    /// What the popup shows: the candidates that pass the filter.
    pub open spec fn visible<F: Fn(&CompletionItem, &Vec<char>) -> bool>(
        self,
        matcher: F,
    ) -> Seq<CompletionItem> {
        visible_items(self.items, self.filter, matcher)
    }

    /// The popup has nothing to show.
    pub open spec fn shows_nothing<F: Fn(&CompletionItem, &Vec<char>) -> bool>(
        self,
        matcher: F,
    ) -> bool {
        forall|i: int| 0 <= i < self.items.len() ==> !accepts(matcher, #[trigger] self.items[i], self.filter)
    }
}

impl Session {
    /// A session over a first batch of items, with nothing typed yet.
    pub fn new(
        items: Vec<CompletionItem>,
        incomplete_completion_lists: HashMap<u64, i8>,
        trigger: Trigger,
        savepoint: SavePoint,
    ) -> (session: Session)
        ensures
            session@ == (SessionView {
                items: items@,
                filter: Seq::<char>::empty(),
                incomplete_completion_lists: incomplete_completion_lists@,
                trigger,
                savepoint,
            }),
    {
        Session { items, filter: Vec::new(), incomplete_completion_lists, trigger, savepoint }
    }

    /// Appends a typed character to the filter, or drops its last character after a
    /// deletion. The candidates are untouched: the filter only decides which of them show.
    pub fn update_filter(&mut self, c: Option<char>)
        ensures
            final(self)@ == old(self)@.filtered(c),
    {
        match c {
            Some(ch) => {
                self.filter.push(ch);
            },
            None => {
                self.filter.pop();
            },
        }
    }

    /// Replaces what `response.provider` has contributed so far by the items of
    /// `response`, and updates that provider's counter.
    pub fn replace_provider_completions(&mut self, response: CompletionResponse)
        ensures
            final(self)@ == old(self)@.merged(response.provider, response.items@, response.incomplete),
    {
        let provider: CompletionProviderId = response.provider;
        let ghost before = self.items@;
        let ghost keep = from_other_provider(provider);
        let mut i: usize = 0;
        let ghost mut k: int = 0;
        while i < self.items.len()
            invariant
                0 <= k <= before.len(),
                i <= self.items.len(),
                keep == from_other_provider(provider),
                self.items@.len() - i == before.len() - k,
                self.items@.take(i as int) == before.take(k).filter(keep),
                self.items@.skip(i as int) == before.skip(k),
                self.filter == old(self).filter,
                self.incomplete_completion_lists == old(self).incomplete_completion_lists,
                self.trigger == old(self).trigger,
                self.savepoint == old(self).savepoint,
            decreases self.items.len() - i,
        {
            let ghost current = self.items@;
            assert(current[i as int] == current.skip(i as int)[0]);
            assert(before.take(k + 1) =~= before.take(k).push(before[k]));
            proof {
                before.take(k).lemma_filter_push(before[k], keep);
            }
            if self.items[i].provider == provider {
                self.items.remove(i);
                assert(self.items@.take(i as int) =~= current.take(i as int));
                assert forall|j: int| 0 <= j < self.items@.len() - i implies self.items@.skip(
                    i as int,
                )[j] == before.skip(k + 1)[j] by {
                    assert(current.skip(i as int)[j + 1] == before.skip(k)[j + 1]);
                }
                assert(self.items@.skip(i as int) =~= before.skip(k + 1));
            } else {
                i += 1;
                assert(self.items@.take(i as int) =~= current.take(i - 1).push(current[i - 1]));
                assert forall|j: int| 0 <= j < self.items@.len() - i implies self.items@.skip(
                    i as int,
                )[j] == before.skip(k + 1)[j] by {
                    assert(current.skip(i - 1)[j + 1] == before.skip(k)[j + 1]);
                }
                assert(self.items@.skip(i as int) =~= before.skip(k + 1));
            }
            proof {
                k = k + 1;
            }
        }
        assert(self.items@ =~= self.items@.take(i as int));
        assert(before.take(k) =~= before);
        let mut items: Vec<CompletionItem> = response.items;
        self.items.append(&mut items);
        let ghost counters = self.incomplete_completion_lists@;
        if response.incomplete {
            let count: i8 = match self.incomplete_completion_lists.get(&provider.0) {
                Some(n) => if *n < i8::MAX {
                    *n + 1
                } else {
                    i8::MAX
                },
                None => 0,
            };
            assert(count == extended(counters, provider.0));
            self.incomplete_completion_lists.insert(provider.0, count);
        } else {
            self.incomplete_completion_lists.remove(&provider.0);
            assert(self.incomplete_completion_lists@ =~= counters.remove(provider.0));
        }
    }

    /// Whether the popup has nothing to show: no candidate passes the filter.
    pub fn is_empty<F: Fn(&CompletionItem, &Vec<char>) -> bool>(&self, matcher: &F) -> (b: bool)
        requires
            is_matcher(*matcher),
        ensures
            b == self@.shows_nothing(*matcher),
    {
        let mut i: usize = 0;
        while i < self.items.len()
            invariant
                i <= self.items.len(),
                is_matcher(*matcher),
                forall|j: int| 0 <= j < i ==> !accepts(*matcher, #[trigger] self.items[j], self.filter@),
            decreases self.items.len() - i,
        {
            if matcher(&self.items[i], &self.filter) {
                assert(accepts(*matcher, self@.items[i as int], self@.filter));
                return false;
            }
            i += 1;
        }
        true
    }
}

} // verus!
