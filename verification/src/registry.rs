//! The ownership registry: which identity owns which token.
//!
//! The registry keeps the table of owners, the table of holdings that is
//! its inverse, the burnt tokens and every token's metadata, and changes
//! all of them in one step or not at all.

use vstd::prelude::*;

use crate::error::NftError;
use crate::identifier::{IdentifierMode, TokenId, TokenIdentifier};
use crate::identity::Identity;
use crate::keyed::{Key, KeyedMap};
use crate::laws::{
    lemma_annotated_is_valid, lemma_burnt_is_valid, lemma_empty_is_valid,
    lemma_registered_is_valid, lemma_transferred_is_valid,
};
use crate::ledger::{MetadataEntry, Operation, OwnershipMode, RegistryView, TokenState};
use crate::metadata::StructuredMetadata;

verus! {

/// The metadata that is kept for a token.
#[derive(Clone, Debug, PartialEq, Eq)]
pub struct MetadataRecord {
    /// The structured form that validation gave.
    pub data: StructuredMetadata,
    /// Whether the token was burnt.
    pub inert: bool,
}

impl View for MetadataRecord {
    type V = MetadataEntry;

    open spec fn view(&self) -> MetadataEntry {
        MetadataEntry { data: self.data@, inert: self.inert }
    }
}

/// The outcome of an operation that is refused for the reason `refusal`,
/// if for any.
pub open spec fn outcome(refusal: Option<NftError>) -> Result<(), NftError> {
    match refusal {
        Some(e) => Err(e),
        None => Ok(()),
    }
}

/// The ownership registry of one collection.
pub struct OwnershipRegistry {
    total_token_supply: u64,
    ownership_mode: OwnershipMode,
    identifier_mode: IdentifierMode,
    number_of_minted_tokens: u64,
    token_owners: KeyedMap<TokenIdentifier, Identity>,
    owned_tokens: KeyedMap<Identity, KeyedMap<TokenIdentifier, ()>>,
    burnt_tokens: KeyedMap<TokenIdentifier, ()>,
    metadata: KeyedMap<TokenIdentifier, MetadataRecord>,
}

impl View for OwnershipRegistry {
    type V = RegistryView;

    closed spec fn view(&self) -> RegistryView {
        RegistryView {
            total_token_supply: self.total_token_supply as nat,
            ownership_mode: self.ownership_mode,
            identifier_mode: self.identifier_mode,
            number_of_minted_tokens: self.number_of_minted_tokens as nat,
            token_owners: self.token_owners@,
            owned_tokens: Map::new(
                |who: Identity| self.owned_tokens@.dom().contains(who),
                |who: Identity| self.owned_tokens@[who]@.dom(),
            ),
            burnt_tokens: self.burnt_tokens@.dom(),
            metadata: Map::new(
                |id: TokenId| self.metadata@.dom().contains(id),
                |id: TokenId| self.metadata@[id]@,
            ),
        }
    }
}

impl OwnershipRegistry {
    /// The tables are in order and the state that they stand for is valid.
    pub closed spec fn wf(&self) -> bool {
        &&& self.token_owners.wf()
        &&& self.owned_tokens.wf()
        &&& self.burnt_tokens.wf()
        &&& self.metadata.wf()
        &&& forall|who: Identity|
            self.owned_tokens@.dom().contains(who) ==> (#[trigger] self.owned_tokens@[who]).wf()
        &&& self@.valid()
    }

    /// The state of a registry that is in order is valid.
    pub proof fn lemma_wf_is_valid(&self)
        requires
            self.wf(),
        ensures
            self@.valid(),
    {
    }

    /// The registry of a collection in which nothing was minted yet.
    pub fn new(
        total_token_supply: u64,
        ownership_mode: OwnershipMode,
        identifier_mode: IdentifierMode,
    ) -> (r: OwnershipRegistry)
        ensures
            r.wf(),
            r@ == RegistryView::empty(total_token_supply as nat, ownership_mode, identifier_mode),
    {
        let r = OwnershipRegistry {
            total_token_supply,
            ownership_mode,
            identifier_mode,
            number_of_minted_tokens: 0,
            token_owners: KeyedMap::new(),
            owned_tokens: KeyedMap::new(),
            burnt_tokens: KeyedMap::new(),
            metadata: KeyedMap::new(),
        };
        proof {
            let e = RegistryView::empty(total_token_supply as nat, ownership_mode, identifier_mode);
            lemma_empty_is_valid(total_token_supply as nat, ownership_mode, identifier_mode);
            assert(r@.owned_tokens =~= e.owned_tokens);
            assert(r@.metadata =~= e.metadata);
            assert(r@.burnt_tokens =~= e.burnt_tokens);
        }
        r
    }

    /// How many tokens may ever be minted.
    pub fn total_token_supply(&self) -> (n: u64)
        ensures
            n == self@.total_token_supply,
    {
        self.total_token_supply
    }

    /// How many tokens were minted so far.
    pub fn number_of_minted_tokens(&self) -> (n: u64)
        ensures
            n == self@.number_of_minted_tokens,
    {
        self.number_of_minted_tokens
    }

    /// Whether tokens can change hands.
    pub fn ownership_mode(&self) -> (m: OwnershipMode)
        ensures
            m == self@.ownership_mode,
    {
        self.ownership_mode
    }

    /// The variant that every identifier of the collection has.
    pub fn identifier_mode(&self) -> (m: IdentifierMode)
        ensures
            m == self@.identifier_mode,
    {
        self.identifier_mode
    }

    /// The owner of token `identifier`, if it has one.
    pub fn owner_of(&self, identifier: &TokenIdentifier) -> (r: Option<Identity>)
        requires
            self.wf(),
        ensures
            r == self@.owner_of(identifier@),
    {
        match self.token_owners.get(identifier) {
            Some(owner) => Some(*owner),
            None => None,
        }
    }

    /// Where token `identifier` is in its life.
    pub fn state_of(&self, identifier: &TokenIdentifier) -> (r: TokenState)
        requires
            self.wf(),
        ensures
            r == self@.state_of(identifier@),
    {
        if self.burnt_tokens.contains_key(identifier) {
            TokenState::Burnt
        } else {
            match self.token_owners.get(identifier) {
                Some(owner) => TokenState::Owned(*owner),
                None => TokenState::Unminted,
            }
        }
    }

    /// Whether token `identifier` was burnt.
    pub fn is_burnt(&self, identifier: &TokenIdentifier) -> (r: bool)
        requires
            self.wf(),
        ensures
            r == self@.burnt_tokens.contains(identifier@),
    {
        self.burnt_tokens.contains_key(identifier)
    }

    /// The metadata that is kept for token `identifier`, if it was ever
    /// minted.
    pub fn metadata_of(&self, identifier: &TokenIdentifier) -> (r: Option<&MetadataRecord>)
        requires
            self.wf(),
        ensures
            match r {
                Some(record) => self@.metadata.dom().contains(identifier@) && record@
                    == self@.metadata[identifier@],
                None => !self@.metadata.dom().contains(identifier@),
            },
    {
        self.metadata.get(identifier)
    }

    /// The tokens that `who` holds, each once.
    pub fn tokens_of(&self, who: &Identity) -> (r: Vec<TokenIdentifier>)
        requires
            self.wf(),
        ensures
            r@.map_values(|t: TokenIdentifier| t@).no_duplicates(),
            r@.map_values(|t: TokenIdentifier| t@).to_set() == self@.tokens_of(*who),
    {
        match self.owned_tokens.get(who) {
            Some(held) => held.keys(),
            None => {
                let r: Vec<TokenIdentifier> = Vec::new();
                assert(r@.map_values(|t: TokenIdentifier| t@).to_set() =~= Set::<TokenId>::empty());
                r
            },
        }
    }

    /// How many tokens `who` holds.
    pub fn balance_of(&self, who: &Identity) -> (n: usize)
        requires
            self.wf(),
        ensures
            n == self@.tokens_of(*who).len(),
    {
        match self.owned_tokens.get(who) {
            Some(held) => held.len(),
            None => 0,
        }
    }

    /// Takes the holdings of `who` out of the table, for them to be changed
    /// and put back.
    fn take_holdings(&mut self, who: &Identity) -> (held: KeyedMap<TokenIdentifier, ()>)
        requires
            old(self).owned_tokens.wf(),
            forall|w: Identity|
                old(self).owned_tokens@.dom().contains(w) ==> (#[trigger] old(
                    self,
                ).owned_tokens@[w]).wf(),
        ensures
            held.wf(),
            held@.dom() == old(self)@.tokens_of(*who),
            final(self).owned_tokens.wf(),
            final(self).owned_tokens@ == old(self).owned_tokens@.remove(*who),
            final(self).total_token_supply == old(self).total_token_supply,
            final(self).ownership_mode == old(self).ownership_mode,
            final(self).identifier_mode == old(self).identifier_mode,
            final(self).number_of_minted_tokens == old(self).number_of_minted_tokens,
            final(self).token_owners == old(self).token_owners,
            final(self).burnt_tokens == old(self).burnt_tokens,
            final(self).metadata == old(self).metadata,
    {
        match self.owned_tokens.remove(who) {
            Some(held) => held,
            None => KeyedMap::new(),
        }
    }

    /// Registers the new token `identifier` for `owner`, with its metadata.
    ///
    /// The registration is refused when the supply is used up, when the
    /// identifier is of the other variant than the collection's, and when
    /// the identifier has an owner or was burnt. A refused registration
    /// changes nothing.
    pub fn register(
        &mut self,
        identifier: TokenIdentifier,
        owner: Identity,
        metadata: StructuredMetadata,
    ) -> (r: Result<(), NftError>)
        requires
            old(self).wf(),
        ensures
            final(self).wf(),
            r == outcome(old(self)@.register_error(identifier@)),
            final(self)@ == old(self)@.step(
                Operation::Register { id: identifier@, owner, metadata: metadata@ },
            ),
            r is Err ==> *final(self) == *old(self),
    {
        if self.number_of_minted_tokens >= self.total_token_supply {
            return Err(NftError::SupplyExceeded);
        }
        if identifier.check_mode(self.identifier_mode).is_err() {
            return Err(NftError::InvalidIdentifierMode);
        }
        if self.token_owners.contains_key(&identifier) || self.burnt_tokens.contains_key(
            &identifier,
        ) {
            return Err(NftError::DuplicateIdentifier);
        }
        let ghost pre = self@;
        let ghost post = pre.registered(identifier@, owner, metadata@);
        let mut held = self.take_holdings(&owner);
        held.insert(identifier.duplicate(), ());
        self.owned_tokens.insert(owner, held);
        self.token_owners.insert(identifier.duplicate(), owner);
        self.metadata.insert(identifier, MetadataRecord { data: metadata, inert: false });
        self.number_of_minted_tokens = self.number_of_minted_tokens + 1;
        proof {
            lemma_registered_is_valid(pre, identifier@, owner, metadata@);
            assert(held@.dom() =~= pre.tokens_of(owner).insert(identifier@));
            assert(self@.owned_tokens =~= post.owned_tokens);
            assert(self@.metadata =~= post.metadata);
            assert(self@ == post);
        }
        Ok(())
    }

    /// Passes token `identifier` from `from` to `to`.
    ///
    /// The transfer is refused when `from` does not own the token, and when
    /// the collection's tokens cannot change hands. A refused transfer
    /// changes nothing.
    pub fn transfer(&mut self, identifier: TokenIdentifier, from: Identity, to: Identity) -> (r:
        Result<(), NftError>)
        requires
            old(self).wf(),
        ensures
            final(self).wf(),
            r == outcome(old(self)@.transfer_error(identifier@, from)),
            final(self)@ == old(self)@.step(Operation::Transfer { id: identifier@, from, to }),
            r is Err ==> *final(self) == *old(self),
    {
        let owned = match self.token_owners.get(&identifier) {
            Some(owner) => owner.same(&from),
            None => false,
        };
        if !owned {
            return Err(NftError::NotOwner);
        }
        match self.ownership_mode {
            OwnershipMode::Transferable => {},
            _ => {
                return Err(NftError::TransferDisabled);
            },
        }
        let ghost pre = self@;
        let ghost mid = pre.released(identifier@, from);
        let ghost post = pre.transferred(identifier@, from, to);
        let mut given = self.take_holdings(&from);
        let _ = given.remove(&identifier);
        self.owned_tokens.insert(from, given);
        proof {
            assert(given@.dom() =~= pre.tokens_of(from).remove(identifier@));
            assert(self@.owned_tokens =~= mid.owned_tokens);
        }
        let mut taken = self.take_holdings(&to);
        taken.insert(identifier.duplicate(), ());
        self.owned_tokens.insert(to, taken);
        self.token_owners.insert(identifier, to);
        proof {
            lemma_transferred_is_valid(pre, identifier@, from, to);
            assert(taken@.dom() =~= mid.tokens_of(to).insert(identifier@));
            assert(self@.owned_tokens =~= post.owned_tokens);
            assert(self@.metadata =~= post.metadata);
            assert(self@ == post);
        }
        Ok(())
    }

    /// Burns token `identifier`, which `owner` owns.
    ///
    /// The burn is refused when `owner` does not own the token, and then
    /// changes nothing. The token's metadata is kept, and marked inert.
    pub fn burn(&mut self, identifier: TokenIdentifier, owner: Identity) -> (r: Result<
        (),
        NftError,
    >)
        requires
            old(self).wf(),
        ensures
            final(self).wf(),
            r == outcome(old(self)@.owner_error(identifier@, owner)),
            final(self)@ == old(self)@.step(Operation::Burn { id: identifier@, owner }),
            r is Err ==> *final(self) == *old(self),
    {
        let owned = match self.token_owners.get(&identifier) {
            Some(o) => o.same(&owner),
            None => false,
        };
        if !owned {
            return Err(NftError::NotOwner);
        }
        let ghost pre = self@;
        let ghost post = pre.burnt(identifier@, owner);
        proof {
            assert(pre.metadata.dom().contains(identifier@));
        }
        let mut given = self.take_holdings(&owner);
        let _ = given.remove(&identifier);
        self.owned_tokens.insert(owner, given);
        let _ = self.token_owners.remove(&identifier);
        self.burnt_tokens.insert(identifier.duplicate(), ());
        match self.metadata.remove(&identifier) {
            Some(record) => {
                self.metadata.insert(identifier, MetadataRecord { data: record.data, inert: true });
            },
            None => {},
        }
        proof {
            lemma_burnt_is_valid(pre, identifier@, owner);
            assert(given@.dom() =~= pre.tokens_of(owner).remove(identifier@));
            assert(self@.owned_tokens =~= post.owned_tokens);
            assert(self@.metadata =~= post.metadata);
            assert(self@.burnt_tokens =~= post.burnt_tokens);
            assert(self@ == post);
        }
        Ok(())
    }

    /// Gives token `identifier`, which `owner` owns, the metadata
    /// `metadata`.
    ///
    /// This is refused when `owner` does not own the token, and then
    /// changes nothing.
    pub fn annotate(
        &mut self,
        identifier: TokenIdentifier,
        owner: Identity,
        metadata: StructuredMetadata,
    ) -> (r: Result<(), NftError>)
        requires
            old(self).wf(),
        ensures
            final(self).wf(),
            r == outcome(old(self)@.owner_error(identifier@, owner)),
            final(self)@ == old(self)@.step(
                Operation::Annotate { id: identifier@, owner, metadata: metadata@ },
            ),
            r is Err ==> *final(self) == *old(self),
    {
        let owned = match self.token_owners.get(&identifier) {
            Some(o) => o.same(&owner),
            None => false,
        };
        if !owned {
            return Err(NftError::NotOwner);
        }
        let ghost pre = self@;
        let ghost post = pre.annotated(identifier@, metadata@);
        self.metadata.insert(identifier, MetadataRecord { data: metadata, inert: false });
        proof {
            lemma_annotated_is_valid(pre, identifier@, owner, metadata@);
            assert(self@.owned_tokens =~= post.owned_tokens);
            assert(self@.metadata =~= post.metadata);
            assert(self@ == post);
        }
        Ok(())
    }
}

} // verus!
