//! The trigger evaluator: whether the text before the cursor calls for a completion
//! request, and of which kind.

use vstd::prelude::*;
use crate::chars::{char_is_word, is_word};
use crate::editor::{Editor, ProviderCapabilities};
use crate::event::CompletionEvent;

verus! {

/// `text` ends with `suffix`. Every text ends with the empty string.
pub open spec fn ends_with(text: Seq<char>, suffix: Seq<char>) -> bool {
    suffix.len() <= text.len() && text.skip(text.len() - suffix.len()) == suffix
}

/// Some trigger string of `provider` ends `text`.
pub open spec fn provider_triggers(provider: ProviderCapabilities, text: Seq<char>) -> bool {
    exists|t: int|
        0 <= t < provider.trigger_characters.len() && ends_with(
            text,
            #[trigger] provider.trigger_characters[t]@,
        )
}

/// `c` separates the components of a path.
pub open spec fn is_path_separator(c: char, backslash_separates_paths: bool) -> bool {
    c == '/' || (backslash_separates_paths && c == '\\')
}

/// `text` has at least `n` characters, and its last `n` are word characters.
pub open spec fn word_suffix(text: Seq<char>, n: nat) -> bool {
    n <= text.len() && forall|i: int|
        text.len() - n <= i < text.len() ==> is_word(#[trigger] text[i])
}

/// Whether each character of `text` is a word character.
pub open spec fn word_flags(text: Seq<char>) -> Seq<bool> {
    Seq::new(text.len(), |i: int| is_word(text[i]))
}

impl Editor {
    /// A trigger string of one of the document's providers ends right at the cursor.
    pub open spec fn at_trigger_char(&self) -> bool {
        exists|p: int|
            0 <= p < self.providers.len() && provider_triggers(
                #[trigger] self.providers[p],
                self.before_cursor(),
            )
    }

    /// The character before the cursor separates path components, in a document whose
    /// paths are completed.
    pub open spec fn at_path_trigger(&self) -> bool {
        &&& self.path_completion_enabled
        &&& self.cursor > 0
        &&& is_path_separator(self.text[self.cursor - 1], self.backslash_separates_paths)
    }

    /// The cursor follows a run of word characters of the configured length.
    pub open spec fn at_auto_trigger(&self) -> bool {
        word_suffix(self.before_cursor(), self.completion_trigger_len as nat)
    }

    /// The event that the text before the cursor calls for. A trigger string or a path
    /// separator takes precedence over a run of word characters, and with automatic
    /// completion switched off nothing is raised.
    pub open spec fn trigger_decision(&self, trigger_char_only: bool) -> Option<CompletionEvent> {
        if !self.auto_completion {
            None
        } else if self.at_trigger_char() || self.at_path_trigger() {
            Some(CompletionEvent::TriggerChar { cursor: self.cursor, doc: self.doc, view: self.view })
        } else if !trigger_char_only && self.at_auto_trigger() {
            Some(CompletionEvent::AutoTrigger { cursor: self.cursor, doc: self.doc, view: self.view })
        } else {
            None
        }
    }
}

/// Whether the first `end` characters of `text` end with `suffix`.
pub fn text_ends_with(text: &Vec<char>, end: usize, suffix: &Vec<char>) -> (b: bool)
    requires
        end <= text.len(),
    ensures
        b == ends_with(text@.take(end as int), suffix@),
{
    let n: usize = suffix.len();
    if n > end {
        return false;
    }
    let start: usize = end - n;
    let ghost head = text@.take(end as int);
    let mut k: usize = 0;
    while k < n
        invariant
            k <= n,
            n == suffix.len(),
            start + n == end,
            end <= text.len(),
            head == text@.take(end as int),
            forall|j: int| 0 <= j < k ==> text[start + j] == suffix[j],
        decreases n - k,
    {
        if text[start + k] != suffix[k] {
            assert(head.skip(head.len() - n)[k as int] != suffix@[k as int]);
            return false;
        }
        k += 1;
    }
    assert(head.skip(head.len() - n) =~= suffix@);
    true
}

/// Whether one of the provider's trigger strings ends the first `end` characters of `text`.
fn provider_triggers_at(provider: &ProviderCapabilities, text: &Vec<char>, end: usize) -> (b: bool)
    requires
        end <= text.len(),
    ensures
        b == provider_triggers(*provider, text@.take(end as int)),
{
    let mut t: usize = 0;
    while t < provider.trigger_characters.len()
        invariant
            t <= provider.trigger_characters.len(),
            end <= text.len(),
            forall|j: int|
                0 <= j < t ==> !ends_with(
                    text@.take(end as int),
                    #[trigger] provider.trigger_characters[j]@,
                ),
        decreases provider.trigger_characters.len() - t,
    {
        if text_ends_with(text, end, &provider.trigger_characters[t]) {
            return true;
        }
        t += 1;
    }
    false
}

impl Editor {
    /// Executable form of [`Editor::at_trigger_char`].
    pub fn is_trigger_char(&self) -> (b: bool)
        requires
            self.well_formed(),
        ensures
            b == self.at_trigger_char(),
    {
        let mut p: usize = 0;
        while p < self.providers.len()
            invariant
                p <= self.providers.len(),
                self.well_formed(),
                forall|j: int|
                    0 <= j < p ==> !provider_triggers(
                        #[trigger] self.providers[j],
                        self.before_cursor(),
                    ),
            decreases self.providers.len() - p,
        {
            if provider_triggers_at(&self.providers[p], &self.text, self.cursor) {
                return true;
            }
            p += 1;
        }
        false
    }

    /// Executable form of [`Editor::at_path_trigger`].
    pub fn is_path_completion_trigger(&self) -> (b: bool)
        requires
            self.well_formed(),
        ensures
            b == self.at_path_trigger(),
    {
        if !self.path_completion_enabled || self.cursor == 0 {
            return false;
        }
        let c: char = self.text[self.cursor - 1];
        c == '/' || (self.backslash_separates_paths && c == '\\')
    }

    /// Executable form of [`Editor::at_auto_trigger`].
    pub fn is_auto_trigger(&self) -> (b: bool)
        requires
            self.well_formed(),
        ensures
            b == self.at_auto_trigger(),
    {
        let n: usize = self.completion_trigger_len as usize;
        let start: usize = if n > self.cursor { 0 } else { self.cursor - n };
        let ghost head = self.before_cursor();
        let mut flags: Vec<bool> = Vec::new();
        let mut i: usize = start;
        while i < self.cursor
            invariant
                start <= i <= self.cursor,
                self.cursor <= self.text.len(),
                head == self.before_cursor(),
                flags@ == word_flags(head.subrange(start as int, i as int)),
            decreases self.cursor - i,
        {
            flags.push(char_is_word(self.text[i]));
            assert(flags@ =~= word_flags(head.subrange(start as int, i + 1)));
            i += 1;
        }
        let b: bool = word_run(&flags, n);
        proof {
            let tail = head.subrange(start as int, self.cursor as int);
            assert(forall|j: int| 0 <= j < tail.len() ==> flags@[j] == is_word(#[trigger] tail[j]));
            if n <= self.cursor {
                assert forall|j: int| head.len() - n <= j < head.len() implies is_word(
                    #[trigger] head[j],
                ) == flags@[j - start] by {
                    assert(tail[j - start] == head[j]);
                }
            }
        }
        b
    }
}

/// Whether the last `n` entries of `flags` are all set; false where it has fewer than
/// `n`.
pub fn word_run(flags: &Vec<bool>, n: usize) -> (b: bool)
    ensures
        b == (n <= flags.len() && forall|i: int| flags.len() - n <= i < flags.len() ==> flags[i]),
{
    if n > flags.len() {
        return false;
    }
    let start: usize = flags.len() - n;
    let mut i: usize = start;
    while i < flags.len()
        invariant
            start <= i <= flags.len(),
            start == flags.len() - n,
            forall|j: int| start <= j < i ==> flags[j],
        decreases flags.len() - i,
    {
        if !flags[i] {
            return false;
        }
        i += 1;
    }
    true
}

/// Decides whether the editor's current position calls for a completion request.
///
/// Nothing is raised unless automatic completion is switched on. A trigger string of a
/// provider, or a path separator where paths are completed, raises `TriggerChar`.
/// Otherwise, unless `trigger_char_only` is set, a long enough run of word characters
/// raises `AutoTrigger`.
pub fn trigger_auto_completion(editor: &Editor, trigger_char_only: bool) -> (event: Option<
    CompletionEvent,
>)
    requires
        editor.well_formed(),
    ensures
        event == editor.trigger_decision(trigger_char_only),
{
    if !editor.auto_completion {
        return None;
    }
    if editor.is_trigger_char() || editor.is_path_completion_trigger() {
        return Some(
            CompletionEvent::TriggerChar { cursor: editor.cursor, doc: editor.doc, view: editor.view },
        );
    }
    if !trigger_char_only && editor.is_auto_trigger() {
        return Some(
            CompletionEvent::AutoTrigger { cursor: editor.cursor, doc: editor.doc, view: editor.view },
        );
    }
    None
}

} // verus!
