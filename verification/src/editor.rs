//! The part of the editor's state that completion handling reads.

use vstd::prelude::*;

verus! {

/// Editing mode of the editor.
#[derive(Clone, Copy, Debug, PartialEq, Eq, Structural)]
pub enum Mode {
    Normal,
    Select,
    Insert,
}

/// Identity of a view (a window onto a document).
#[derive(Clone, Copy, Debug, PartialEq, Eq, Structural)]
pub struct ViewId(pub u64);

/// Identity of a document.
#[derive(Clone, Copy, Debug, PartialEq, Eq, Structural)]
pub struct DocumentId(pub u64);

/// What one completion provider of the focused document has declared about itself.
#[derive(Clone, Debug)]
pub struct ProviderCapabilities {
    /// Strings that, once typed, justify a completion request by themselves.
    pub trigger_characters: Vec<Vec<char>>,
}

/// A snapshot of the focused view and document, together with the configuration that
/// governs automatic completion.
#[derive(Clone, Debug)]
pub struct Editor {
    pub mode: Mode,
    pub view: ViewId,
    pub doc: DocumentId,
    /// Text of the document.
    pub text: Vec<char>,
    /// Position of the primary cursor, counted in characters from the start of `text`.
    pub cursor: usize,
    /// Whether completion may be requested without the user asking for it.
    pub auto_completion: bool,
    /// How many word characters in a row make a request worthwhile.
    pub completion_trigger_len: u8,
    /// The document's completion providers.
    pub providers: Vec<ProviderCapabilities>,
    /// Whether file paths are completed in this document.
    pub path_completion_enabled: bool,
    /// Whether `\` separates path components on this platform, in addition to `/`.
    pub backslash_separates_paths: bool,
}

impl Editor {
    /// The cursor lies inside the text or at its end.
    pub open spec fn well_formed(&self) -> bool {
        self.cursor <= self.text.len()
    }

    /// The text from the start of the document up to the cursor.
    pub open spec fn before_cursor(&self) -> Seq<char> {
        self.text@.take(self.cursor as int)
    }

    /// Whether completion results computed for `view` and `doc` still belong to what the
    /// user is editing: the editor is inserting text into that very view and document.
    pub open spec fn is_current(&self, view: ViewId, doc: DocumentId) -> bool {
        self.mode == Mode::Insert && self.view == view && self.doc == doc
    }

    /// Executable form of [`Editor::is_current`].
    pub fn check_current(&self, view: ViewId, doc: DocumentId) -> (b: bool)
        ensures
            b == self.is_current(view, doc),
    {
        self.mode == Mode::Insert && self.view == view && self.doc == doc
    }
}

} // verus!
