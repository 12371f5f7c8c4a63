//! Completion items and the replies that carry them.

use vstd::prelude::*;

verus! {

/// Identity of a completion provider.
#[derive(Clone, Copy, Debug, PartialEq, Eq, Hash, Structural)]
pub struct CompletionProviderId(pub u64);

/// One candidate offered by a provider. The label is what the popup shows and what the
/// filter is matched against; this crate carries it along without reading it.
#[derive(Clone, Debug)]
pub struct CompletionItem {
    pub provider: CompletionProviderId,
    pub label: String,
}

/// The reply of one provider to one wave of requests.
#[derive(Clone, Debug)]
pub struct CompletionResponse {
    pub provider: CompletionProviderId,
    pub items: Vec<CompletionItem>,
    /// The provider may hold more items than it returned, and can be asked again as the
    /// user narrows the filter.
    pub incomplete: bool,
}

impl CompletionResponse {
    /// Whether the reply is worth forwarding: it brings an item, or it is marked
    /// incomplete. A reply that is empty and not marked incomplete says nothing.
    pub open spec fn is_informative(&self) -> bool {
        self.incomplete || self.items.len() > 0
    }

    /// Executable form of [`CompletionResponse::is_informative`].
    pub fn informative(&self) -> (b: bool)
        ensures
            b == self.is_informative(),
    {
        self.incomplete || self.items.len() > 0
    }
}

} // verus!
