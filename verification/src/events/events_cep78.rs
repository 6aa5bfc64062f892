//! The events of the structured standard: typed events, each tagged with
//! the token that it is about.

use vstd::prelude::*;

use crate::identifier::{TokenId, TokenIdentifier};
use crate::identity::Identity;

verus! {

/// An event in the vocabulary of the structured standard.
#[derive(Clone, Copy, Debug, PartialEq, Eq)]
pub enum CEP78Event {
    /// The token was minted for `recipient`.
    Mint { recipient: Identity },
    /// `owner` burnt the token.
    Burn { owner: Identity },
    /// `owner` allowed `spender` to transfer the token.
    ApprovalGranted { owner: Identity, spender: Identity },
    /// The token passed from `owner` to `recipient`.
    Transfer { owner: Identity, recipient: Identity },
    /// The token got other metadata.
    MetadataUpdate,
}

/// A structured event with the token that it is about.
#[derive(Clone, Debug, PartialEq, Eq)]
pub struct TaggedEvent {
    /// The token.
    pub token_identifier: TokenIdentifier,
    /// What happened to it.
    pub event: CEP78Event,
}

impl View for TaggedEvent {
    type V = (TokenId, CEP78Event);

    open spec fn view(&self) -> (TokenId, CEP78Event) {
        (self.token_identifier@, self.event)
    }
}

/// What a list of tagged events stands for.
pub open spec fn tagged_view(events: Seq<TaggedEvent>) -> Seq<(TokenId, CEP78Event)> {
    events.map_values(|e: TaggedEvent| e@)
}

/// Appends `event`, tagged with `token_identifier`, to the event log.
pub fn record_event(log: &mut Vec<TaggedEvent>, token_identifier: TokenIdentifier, event: CEP78Event)
    ensures
        tagged_view(final(log)@) == tagged_view(old(log)@).push((token_identifier@, event)),
{
    let tagged = TaggedEvent { token_identifier, event };
    assert(tagged_view(log@.push(tagged)) =~= tagged_view(log@).push((token_identifier@, event)));
    log.push(tagged);
}

} // verus!
