//! The ownership registry as a mathematical object: its state, the
//! conditions under which an operation is refused, what an operation makes
//! of the state, and the laws that hold of every state that can be reached.

use vstd::prelude::*;

use crate::error::NftError;
use crate::identifier::{IdentifierMode, TokenId};
use crate::identity::Identity;
use crate::metadata::MetadataView;

verus! {

/// Who may come to own a token of the collection, and how.
#[derive(Clone, Copy, Debug, PartialEq, Eq, Structural)]
pub enum OwnershipMode {
    /// A token belongs to its minter and stays there.
    Minter,
    /// A token is assigned to an owner when it is minted and stays there.
    Assigned,
    /// A token can be transferred by its owner.
    Transferable,
}

/// The metadata that is kept for a token.
pub struct MetadataEntry {
    /// The structured form that validation gave.
    pub data: MetadataView,
    /// Whether the token was burnt: the metadata is then kept for the
    /// record only.
    pub inert: bool,
}

/// The state of the registry.
pub struct RegistryView {
    /// How many tokens may ever be minted.
    pub total_token_supply: nat,
    /// Whether tokens can change hands.
    pub ownership_mode: OwnershipMode,
    /// The variant that every identifier of the collection has.
    pub identifier_mode: IdentifierMode,
    /// How many tokens were minted so far.
    pub number_of_minted_tokens: nat,
    /// The owner of every token that exists.
    pub token_owners: Map<TokenId, Identity>,
    /// For every identity that ever held a token, the tokens that it holds.
    pub owned_tokens: Map<Identity, Set<TokenId>>,
    /// The tokens that were burnt.
    pub burnt_tokens: Set<TokenId>,
    /// The metadata of every token that was ever minted.
    pub metadata: Map<TokenId, MetadataEntry>,
}

/// Where a token is in its life.
#[derive(Clone, Copy, Debug, PartialEq, Eq)]
pub enum TokenState {
    /// The token was never minted.
    Unminted,
    /// The token exists and has this owner.
    Owned(Identity),
    /// The token was burnt.
    Burnt,
}

/// An operation that changes the registry.
pub enum Operation {
    /// A new token `id` comes to exist, owned by `owner`.
    Register { id: TokenId, owner: Identity, metadata: MetadataView },
    /// Token `id` passes from `from` to `to`.
    Transfer { id: TokenId, from: Identity, to: Identity },
    /// Token `id`, owned by `owner`, ceases to exist.
    Burn { id: TokenId, owner: Identity },
    /// Token `id`, owned by `owner`, gets other metadata.
    Annotate { id: TokenId, owner: Identity, metadata: MetadataView },
}

impl RegistryView {
    /// The registry of a collection in which nothing was minted yet.
    pub open spec fn empty(
        total_token_supply: nat,
        ownership_mode: OwnershipMode,
        identifier_mode: IdentifierMode,
    ) -> RegistryView {
        RegistryView {
            total_token_supply,
            ownership_mode,
            identifier_mode,
            number_of_minted_tokens: 0,
            token_owners: Map::empty(),
            owned_tokens: Map::empty(),
            burnt_tokens: Set::empty(),
            metadata: Map::empty(),
        }
    }

    /// Whether `who` currently owns token `id`.
    pub open spec fn owns(self, who: Identity, id: TokenId) -> bool {
        self.token_owners.dom().contains(id) && self.token_owners[id] == who
    }

    /// The tokens that `who` holds.
    pub open spec fn tokens_of(self, who: Identity) -> Set<TokenId> {
        if self.owned_tokens.dom().contains(who) {
            self.owned_tokens[who]
        } else {
            Set::empty()
        }
    }

    /// The owner of token `id`, if it has one.
    pub open spec fn owner_of(self, id: TokenId) -> Option<Identity> {
        if self.token_owners.dom().contains(id) {
            Some(self.token_owners[id])
        } else {
            None
        }
    }

    /// Where token `id` is in its life.
    pub open spec fn state_of(self, id: TokenId) -> TokenState {
        if self.burnt_tokens.contains(id) {
            TokenState::Burnt
        } else if self.token_owners.dom().contains(id) {
            TokenState::Owned(self.token_owners[id])
        } else {
            TokenState::Unminted
        }
    }

    /// What holds of every state that the operations lead to.
    ///
    /// No more tokens were minted than the supply allows, and every one of
    /// them either has an owner or was burnt, never both. The two ownership
    /// tables say the same. Every identifier is of the collection's
    /// variant. Metadata is kept for exactly the minted tokens, and is
    /// inert exactly for the burnt ones.
    pub open spec fn valid(self) -> bool {
        &&& self.number_of_minted_tokens <= self.total_token_supply
        &&& self.token_owners.dom().finite()
        &&& self.burnt_tokens.finite()
        &&& self.owned_tokens.dom().finite()
        &&& self.token_owners.dom().len() + self.burnt_tokens.len()
            == self.number_of_minted_tokens
        &&& self.token_owners.dom().disjoint(self.burnt_tokens)
        &&& forall|who: Identity, id: TokenId|
            self.owns(who, id) <==> #[trigger] self.tokens_of(who).contains(id)
        &&& forall|who: Identity| #[trigger] self.tokens_of(who).finite()
        &&& forall|id: TokenId| #[trigger]
            self.metadata.dom().contains(id) <==> (self.token_owners.dom().contains(id)
                || self.burnt_tokens.contains(id))
        &&& forall|id: TokenId| #[trigger]
            self.metadata.dom().contains(id) ==> (id.mode() == self.identifier_mode
                && (self.metadata[id].inert <==> self.burnt_tokens.contains(id)))
    }

    /// Why token `id` cannot be registered, if it cannot: the supply is
    /// used up, the identifier is of the other variant, or it was used
    /// before, in this order.
    pub open spec fn register_error(self, id: TokenId) -> Option<NftError> {
        if self.number_of_minted_tokens >= self.total_token_supply {
            Some(NftError::SupplyExceeded)
        } else if id.mode() != self.identifier_mode {
            Some(NftError::InvalidIdentifierMode)
        } else if self.token_owners.dom().contains(id) || self.burnt_tokens.contains(id) {
            Some(NftError::DuplicateIdentifier)
        } else {
            None
        }
    }

    /// The state after token `id` was registered for `owner`.
    pub open spec fn registered(
        self,
        id: TokenId,
        owner: Identity,
        metadata: MetadataView,
    ) -> RegistryView {
        RegistryView {
            number_of_minted_tokens: self.number_of_minted_tokens + 1,
            token_owners: self.token_owners.insert(id, owner),
            owned_tokens: self.owned_tokens.insert(owner, self.tokens_of(owner).insert(id)),
            metadata: self.metadata.insert(id, MetadataEntry { data: metadata, inert: false }),
            ..self
        }
    }

    /// Why `from` cannot transfer token `id`, if it cannot: it does not own
    /// the token, or the collection's tokens stay where they are.
    pub open spec fn transfer_error(self, id: TokenId, from: Identity) -> Option<NftError> {
        if !self.owns(from, id) {
            Some(NftError::NotOwner)
        } else if self.ownership_mode != OwnershipMode::Transferable {
            Some(NftError::TransferDisabled)
        } else {
            None
        }
    }

    /// The state after `owner` gave up token `id`, with the token still in
    /// the table of owners.
    pub open spec fn released(self, id: TokenId, owner: Identity) -> RegistryView {
        RegistryView {
            owned_tokens: self.owned_tokens.insert(owner, self.tokens_of(owner).remove(id)),
            ..self
        }
    }

    /// The state after token `id` passed from `from` to `to`.
    pub open spec fn transferred(self, id: TokenId, from: Identity, to: Identity) -> RegistryView {
        let released = self.released(id, from);
        RegistryView {
            token_owners: self.token_owners.insert(id, to),
            owned_tokens: released.owned_tokens.insert(to, released.tokens_of(to).insert(id)),
            ..self
        }
    }

    /// Why `owner` cannot burn token `id` or give it other metadata, if it
    /// cannot: it does not own the token.
    pub open spec fn owner_error(self, id: TokenId, owner: Identity) -> Option<NftError> {
        if !self.owns(owner, id) {
            Some(NftError::NotOwner)
        } else {
            None
        }
    }

    /// The state after `owner` burnt token `id`.
    pub open spec fn burnt(self, id: TokenId, owner: Identity) -> RegistryView {
        RegistryView {
            token_owners: self.token_owners.remove(id),
            owned_tokens: self.released(id, owner).owned_tokens,
            burnt_tokens: self.burnt_tokens.insert(id),
            metadata: self.metadata.insert(
                id,
                MetadataEntry { data: self.metadata[id].data, inert: true },
            ),
            ..self
        }
    }

    /// The state after token `id` got the metadata `metadata`.
    pub open spec fn annotated(self, id: TokenId, metadata: MetadataView) -> RegistryView {
        RegistryView {
            metadata: self.metadata.insert(id, MetadataEntry { data: metadata, inert: false }),
            ..self
        }
    }

    /// Why `op` is refused, if it is.
    pub open spec fn refusal(self, op: Operation) -> Option<NftError> {
        match op {
            Operation::Register { id, owner, metadata } => self.register_error(id),
            Operation::Transfer { id, from, to } => self.transfer_error(id, from),
            Operation::Burn { id, owner } => self.owner_error(id, owner),
            Operation::Annotate { id, owner, metadata } => self.owner_error(id, owner),
        }
    }

    /// The state after `op`: the state as it was if `op` is refused.
    pub open spec fn step(self, op: Operation) -> RegistryView {
        if self.refusal(op) is Some {
            self
        } else {
            match op {
                Operation::Register { id, owner, metadata } => self.registered(
                    id,
                    owner,
                    metadata,
                ),
                Operation::Transfer { id, from, to } => self.transferred(id, from, to),
                Operation::Burn { id, owner } => self.burnt(id, owner),
                Operation::Annotate { id, owner, metadata } => self.annotated(id, metadata),
            }
        }
    }

    /// The state after the operations `ops`, one after the other.
    pub open spec fn run(self, ops: Seq<Operation>) -> RegistryView
        decreases ops.len(),
    {
        if ops.len() == 0 {
            self
        } else {
            self.run(ops.drop_last()).step(ops.last())
        }
    }
}

} // verus!
