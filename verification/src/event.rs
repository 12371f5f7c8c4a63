//! Events raised towards whoever issues the completion requests.

use vstd::prelude::*;
use crate::editor::{DocumentId, ViewId};

verus! {

/// What the request side is told about the user's editing.
#[derive(Clone, Copy, Debug, PartialEq, Eq, Structural)]
pub enum CompletionEvent {
    /// A trigger character of some provider was just typed.
    TriggerChar { cursor: usize, doc: DocumentId, view: ViewId },
    /// Enough word characters were typed in a row.
    AutoTrigger { cursor: usize, doc: DocumentId, view: ViewId },
    /// Text was deleted while no completion session was open.
    DeleteText { cursor: usize },
    /// Whatever is in flight or open is to be abandoned.
    Cancel,
}

/// Where a request was issued. A reply is applied only while the editor still shows the
/// same view and document in insert mode; the position may have moved on.
#[derive(Clone, Copy, Debug, PartialEq, Eq, Structural)]
pub struct Trigger {
    pub pos: usize,
    pub view: ViewId,
    pub doc: DocumentId,
}

} // verus!
