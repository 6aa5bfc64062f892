//! The life of a token as the contract sees it: not minted, then owned,
//! then, after any number of transfers, burnt for good.
//!
//! This file states, over the mathematical state of a collection, on which
//! inputs an entry point is refused and for which reason, and what it makes
//! of the state when it is not.

use vstd::prelude::*;

use crate::config::{ConfigView, VariableArgsView};
use crate::error::NftError;
use crate::events::{EventLogView, TokenEventView};
use crate::identifier::{next_identifier_spec, IdentifierMode, TokenId};
use crate::identity::Identity;
use crate::laws::{
    lemma_annotated_is_valid, lemma_burnt_is_valid, lemma_burnt_token_is_gone,
    lemma_empty_is_valid, lemma_registered_is_valid, lemma_transferred_is_valid,
};
use crate::ledger::{Operation, OwnershipMode, RegistryView};
use crate::metadata::{update_allowed_spec, validate_spec, MetadataView};

verus! {

/// The state of a collection.
pub struct ContractView {
    /// What was fixed at installation.
    pub config: ConfigView,
    /// Whether tokens may be minted.
    pub allow_minting: bool,
    /// Who owns what.
    pub registry: RegistryView,
    /// The events that were recorded.
    pub events: EventLogView,
}

/// A call of an entry point that may change the collection.
pub enum Call {
    /// `caller` mints a token for `owner`.
    Mint { caller: Identity, owner: Identity, raw: Seq<u8>, name: Option<Seq<char>> },
    /// `source` transfers token `id` to `target`.
    Transfer { source: Identity, target: Identity, id: TokenId },
    /// `caller` burns token `id`.
    Burn { caller: Identity, id: TokenId },
    /// `caller` gives token `id` other metadata.
    SetTokenMetadata { caller: Identity, id: TokenId, raw: Seq<u8> },
    /// `caller` changes the variables.
    SetVariables { caller: Identity, args: VariableArgsView },
}

/// The unit outcome of a plan: success where the plan is one, the plan's
/// reason for refusal where it is none.
pub open spec fn plan_outcome<T>(plan: Result<T, NftError>) -> Result<(), NftError> {
    match plan {
        Ok(_) => Ok(()),
        Err(e) => Err(e),
    }
}

impl ContractView {
    /// The state of a collection right after its installation: nothing is
    /// minted, nobody owns anything, no event was recorded.
    pub open spec fn installed(config: ConfigView, allow_minting: bool) -> ContractView {
        ContractView {
            config,
            allow_minting,
            registry: RegistryView::empty(
                config.total_token_supply as nat,
                config.ownership_mode,
                config.identifier_mode,
            ),
            events: EventLogView::empty(),
        }
    }

    /// What holds of every state of a collection.
    ///
    /// The registry is valid and goes by the collection's configuration.
    /// The event logs hold events of the collection's standard only. In a
    /// collection with ordinal identifiers, the tokens that were ever
    /// minted are exactly those with an ordinal below the number of minted
    /// tokens.
    pub open spec fn valid(self) -> bool {
        &&& self.config.valid()
        &&& self.registry.valid()
        &&& self.registry.total_token_supply == self.config.total_token_supply
        &&& self.registry.ownership_mode == self.config.ownership_mode
        &&& self.registry.identifier_mode == self.config.identifier_mode
        &&& self.events.speaks_only(self.config.events_mode)
        &&& (self.config.identifier_mode == IdentifierMode::Ordinal ==> forall|id: TokenId| #[trigger]
            self.registry.metadata.dom().contains(id) <==> (id is Ordinal && id->Ordinal_0
                < self.registry.number_of_minted_tokens))
    }

    /// The state after `change` was recorded in the collection's standard.
    pub open spec fn with_event(self, change: TokenEventView) -> ContractView {
        ContractView {
            events: self.events.recorded(change.dispatched(self.config.events_mode)),
            ..self
        }
    }

    /// What a mint by `caller` for `owner` comes to: the identifier and the
    /// structured metadata of the new token, or the reason for refusing
    /// the mint.
    ///
    /// The checks are made in this order: the supply is not used up;
    /// minting is switched on; where tokens stay with their minter, the
    /// owner is the caller; the metadata is valid; an identifier can be
    /// formed; the registry accepts it.
    pub open spec fn mint_plan(
        self,
        caller: Identity,
        owner: Identity,
        raw: Seq<u8>,
        name: Option<Seq<char>>,
    ) -> Result<(TokenId, MetadataView), NftError> {
        if self.registry.number_of_minted_tokens >= self.registry.total_token_supply {
            Err(NftError::SupplyExceeded)
        } else if !self.allow_minting {
            Err(NftError::MintingDisabled)
        } else if self.config.ownership_mode == OwnershipMode::Minter && owner != caller {
            Err(NftError::OwnerNotMinter)
        } else {
            match validate_spec(self.config.metadata_kind, raw) {
                Err(e) => Err(NftError::Metadata(e)),
                Ok(metadata) => match next_identifier_spec(
                    self.config.identifier_mode,
                    self.registry.number_of_minted_tokens as u64,
                    raw,
                    name,
                    self.config.metadata_kind.allows_names(),
                ) {
                    Err(e) => Err(e),
                    Ok(id) => match self.registry.register_error(id) {
                        Some(e) => Err(e),
                        None => Ok((id, metadata)),
                    },
                },
            }
        }
    }

    /// The state after a mint by `caller` for `owner`: with the new token
    /// registered and one mint event recorded, or as it was if the mint is
    /// refused.
    pub open spec fn after_mint(
        self,
        caller: Identity,
        owner: Identity,
        raw: Seq<u8>,
        name: Option<Seq<char>>,
    ) -> ContractView {
        match self.mint_plan(caller, owner, raw, name) {
            Err(_) => self,
            Ok((id, metadata)) => ContractView {
                registry: self.registry.registered(id, owner, metadata),
                ..self
            }.with_event(TokenEventView::Mint { token_id: id, recipient: owner }),
        }
    }

    /// The state after `source` asked to transfer token `id` to `target`.
    pub open spec fn after_transfer(
        self,
        source: Identity,
        target: Identity,
        id: TokenId,
    ) -> ContractView {
        if self.registry.transfer_error(id, source) is Some {
            self
        } else {
            ContractView {
                registry: self.registry.transferred(id, source, target),
                ..self
            }.with_event(
                TokenEventView::Transfer { token_id: id, sender: source, recipient: target },
            )
        }
    }

    /// The state after `caller` asked to burn token `id`.
    pub open spec fn after_burn(self, caller: Identity, id: TokenId) -> ContractView {
        if self.registry.owner_error(id, caller) is Some {
            self
        } else {
            ContractView { registry: self.registry.burnt(id, caller), ..self }.with_event(
                TokenEventView::Burn { token_id: id, owner: caller },
            )
        }
    }

    /// What a change of the metadata of token `id` by `caller` comes to:
    /// the new structured metadata, or the reason for refusing the change.
    ///
    /// The caller must own the token, the new metadata must be valid, and
    /// it must leave every immutable property as it is.
    pub open spec fn metadata_plan(self, caller: Identity, id: TokenId, raw: Seq<u8>) -> Result<
        MetadataView,
        NftError,
    > {
        if self.registry.owner_error(id, caller) is Some {
            Err(NftError::NotOwner)
        } else {
            match validate_spec(self.config.metadata_kind, raw) {
                Err(e) => Err(NftError::Metadata(e)),
                Ok(metadata) => if update_allowed_spec(
                    self.config.metadata_kind,
                    self.registry.metadata[id].data,
                    metadata,
                ) {
                    Ok(metadata)
                } else {
                    Err(NftError::ForbiddenMetadataUpdate)
                },
            }
        }
    }

    /// The state after `caller` asked to change the metadata of token `id`.
    pub open spec fn after_metadata(self, caller: Identity, id: TokenId, raw: Seq<u8>) -> ContractView {
        match self.metadata_plan(caller, id, raw) {
            Err(_) => self,
            Ok(metadata) => ContractView {
                registry: self.registry.annotated(id, metadata),
                ..self
            }.with_event(TokenEventView::MetadataUpdate { token_id: id }),
        }
    }

    /// The state after `caller` asked to change the variables.
    pub open spec fn after_variables(self, caller: Identity, args: VariableArgsView) -> ContractView {
        match self.config.set_variables_spec(self.allow_minting, caller, args) {
            Err(_) => self,
            Ok(switch) => ContractView { allow_minting: switch, ..self },
        }
    }

    /// A freshly installed collection is in a valid state.
    pub proof fn lemma_installed_is_valid(config: ConfigView, allow_minting: bool)
        requires
            config.valid(),
        ensures
            ContractView::installed(config, allow_minting).valid(),
    {
        lemma_empty_is_valid(
            config.total_token_supply as nat,
            config.ownership_mode,
            config.identifier_mode,
        );
    }

    /// A mint, refused or not, leads from a valid state to a valid state.
    pub proof fn lemma_mint_is_valid(
        self,
        caller: Identity,
        owner: Identity,
        raw: Seq<u8>,
        name: Option<Seq<char>>,
    )
        requires
            self.valid(),
        ensures
            self.after_mint(caller, owner, raw, name).valid(),
    {
        match self.mint_plan(caller, owner, raw, name) {
            Err(_) => {},
            Ok((id, metadata)) => {
                lemma_registered_is_valid(self.registry, id, owner, metadata);
                let change = TokenEventView::Mint { token_id: id, recipient: owner };
                self.events.lemma_one_vocabulary(self.config.events_mode, change);
            },
        }
    }

    /// A transfer, refused or not, leads from a valid state to a valid
    /// state.
    pub proof fn lemma_transfer_is_valid(self, source: Identity, target: Identity, id: TokenId)
        requires
            self.valid(),
        ensures
            self.after_transfer(source, target, id).valid(),
    {
        if self.registry.transfer_error(id, source) is None {
            lemma_transferred_is_valid(self.registry, id, source, target);
            let change = TokenEventView::Transfer {
                token_id: id,
                sender: source,
                recipient: target,
            };
            self.events.lemma_one_vocabulary(self.config.events_mode, change);
        }
    }

    /// A burn, refused or not, leads from a valid state to a valid state.
    pub proof fn lemma_burn_is_valid(self, caller: Identity, id: TokenId)
        requires
            self.valid(),
        ensures
            self.after_burn(caller, id).valid(),
    {
        if self.registry.owner_error(id, caller) is None {
            lemma_burnt_is_valid(self.registry, id, caller);
            let change = TokenEventView::Burn { token_id: id, owner: caller };
            self.events.lemma_one_vocabulary(self.config.events_mode, change);
            let t = self.after_burn(caller, id);
            assert(self.registry.metadata.dom().contains(id));
            assert(t.registry.metadata.dom() =~= self.registry.metadata.dom());
        }
    }

    /// A change of metadata, refused or not, leads from a valid state to a
    /// valid state.
    pub proof fn lemma_metadata_is_valid(self, caller: Identity, id: TokenId, raw: Seq<u8>)
        requires
            self.valid(),
        ensures
            self.after_metadata(caller, id, raw).valid(),
    {
        match self.metadata_plan(caller, id, raw) {
            Err(_) => {},
            Ok(metadata) => {
                lemma_annotated_is_valid(self.registry, id, caller, metadata);
                let change = TokenEventView::MetadataUpdate { token_id: id };
                self.events.lemma_one_vocabulary(self.config.events_mode, change);
                let t = self.after_metadata(caller, id, raw);
                assert(self.registry.metadata.dom().contains(id));
                assert(t.registry.metadata.dom() =~= self.registry.metadata.dom());
            },
        }
    }

    /// In a collection with ordinal identifiers, a mint without a name is
    /// never refused for its identifier, and the token that it makes has
    /// the number of tokens minted before it as its ordinal.
    pub proof fn lemma_ordinals_are_sequential(
        self,
        caller: Identity,
        owner: Identity,
        raw: Seq<u8>,
    )
        requires
            self.valid(),
            self.config.identifier_mode == IdentifierMode::Ordinal,
        ensures
            self.mint_plan(caller, owner, raw, None) != Err::<(TokenId, MetadataView), NftError>(
                NftError::DuplicateIdentifier,
            ),
            self.mint_plan(caller, owner, raw, None) != Err::<(TokenId, MetadataView), NftError>(
                NftError::InvalidIdentifierMode,
            ),
            self.mint_plan(caller, owner, raw, None) is Ok ==> self.mint_plan(
                caller,
                owner,
                raw,
                None,
            )->Ok_0.0 == TokenId::Ordinal(self.registry.number_of_minted_tokens as u64),
    {
        let id = TokenId::Ordinal(self.registry.number_of_minted_tokens as u64);
        assert(!self.registry.metadata.dom().contains(id));
    }

    /// An entry point changes the registry by one operation of the
    /// registry, or not at all: what holds of every sequence of operations
    /// of the registry holds of every sequence of calls.
    pub proof fn lemma_calls_are_operations(
        self,
        caller: Identity,
        owner: Identity,
        id: TokenId,
        raw: Seq<u8>,
        name: Option<Seq<char>>,
        args: VariableArgsView,
    )
        ensures
            match self.mint_plan(caller, owner, raw, name) {
                Ok((minted, metadata)) => self.after_mint(caller, owner, raw, name).registry
                    == self.registry.step(Operation::Register { id: minted, owner, metadata }),
                Err(_) => self.after_mint(caller, owner, raw, name).registry == self.registry,
            },
            self.after_transfer(caller, owner, id).registry == self.registry.step(
                Operation::Transfer { id, from: caller, to: owner },
            ),
            self.after_burn(caller, id).registry == self.registry.step(
                Operation::Burn { id, owner: caller },
            ),
            match self.metadata_plan(caller, id, raw) {
                Ok(metadata) => self.after_metadata(caller, id, raw).registry
                    == self.registry.step(Operation::Annotate { id, owner: caller, metadata }),
                Err(_) => self.after_metadata(caller, id, raw).registry == self.registry,
            },
            self.after_variables(caller, args).registry == self.registry,
    {
    }

    /// Every successful transition records exactly one event, in the
    /// collection's vocabulary; a refused one records none.
    pub proof fn lemma_one_event_per_transition(
        self,
        caller: Identity,
        owner: Identity,
        id: TokenId,
        raw: Seq<u8>,
        name: Option<Seq<char>>,
    )
        requires
            self.valid(),
        ensures
            self.after_mint(caller, owner, raw, name).events.count() == self.events.count() + (
            if self.mint_plan(caller, owner, raw, name) is Ok {
                1nat
            } else {
                0nat
            }),
            self.after_transfer(caller, owner, id).events.count() == self.events.count() + (
            if self.registry.transfer_error(id, caller) is None {
                1nat
            } else {
                0nat
            }),
            self.after_burn(caller, id).events.count() == self.events.count() + (
            if self.registry.owner_error(id, caller) is None {
                1nat
            } else {
                0nat
            }),
            self.after_metadata(caller, id, raw).events.count() == self.events.count() + (
            if self.metadata_plan(caller, id, raw) is Ok {
                1nat
            } else {
                0nat
            }),
    {
    }
}

impl ContractView {
    /// The state after `call`.
    pub open spec fn after(self, call: Call) -> ContractView {
        match call {
            Call::Mint { caller, owner, raw, name } => self.after_mint(caller, owner, raw, name),
            Call::Transfer { source, target, id } => self.after_transfer(source, target, id),
            Call::Burn { caller, id } => self.after_burn(caller, id),
            Call::SetTokenMetadata { caller, id, raw } => self.after_metadata(caller, id, raw),
            Call::SetVariables { caller, args } => self.after_variables(caller, args),
        }
    }

    /// The state after the calls `calls`, one after the other.
    pub open spec fn after_all(self, calls: Seq<Call>) -> ContractView
        decreases calls.len(),
    {
        if calls.len() == 0 {
            self
        } else {
            self.after_all(calls.drop_last()).after(calls.last())
        }
    }

    /// Every call, refused or not, leads from a valid state to a valid
    /// state, and leaves what was fixed at installation as it is.
    pub proof fn lemma_after_is_valid(self, call: Call)
        requires
            self.valid(),
        ensures
            self.after(call).valid(),
            self.after(call).config == self.config,
    {
        match call {
            Call::Mint { caller, owner, raw, name } => {
                self.lemma_mint_is_valid(caller, owner, raw, name);
            },
            Call::Transfer { source, target, id } => {
                self.lemma_transfer_is_valid(source, target, id);
            },
            Call::Burn { caller, id } => {
                self.lemma_burn_is_valid(caller, id);
            },
            Call::SetTokenMetadata { caller, id, raw } => {
                self.lemma_metadata_is_valid(caller, id, raw);
            },
            Call::SetVariables { caller, args } => {},
        }
    }

    /// In every state that calls lead to from a valid state: the state is
    /// valid; what was fixed at installation is as it was, and so the
    /// events are all in the one vocabulary; the number of minted tokens
    /// has not gone down and is within the supply; and a token has an
    /// owner in the table of owners if and only if the table of holdings
    /// lists it under that owner.
    pub proof fn lemma_every_state(self, calls: Seq<Call>, who: Identity, id: TokenId)
        requires
            self.valid(),
        ensures
            self.after_all(calls).valid(),
            self.after_all(calls).config == self.config,
            self.after_all(calls).events.speaks_only(self.config.events_mode),
            self.registry.number_of_minted_tokens <= self.after_all(
                calls,
            ).registry.number_of_minted_tokens,
            self.after_all(calls).registry.number_of_minted_tokens
                <= self.config.total_token_supply,
            (self.after_all(calls).registry.token_owners.dom().contains(id) && self.after_all(
                calls,
            ).registry.token_owners[id] == who) <==> (self.after_all(
                calls,
            ).registry.owned_tokens.dom().contains(who) && self.after_all(
                calls,
            ).registry.owned_tokens[who].contains(id)),
        decreases calls.len(),
    {
        if calls.len() > 0 {
            let before = self.after_all(calls.drop_last());
            self.lemma_every_state(calls.drop_last(), who, id);
            before.lemma_after_is_valid(calls.last());
        }
        let s = self.after_all(calls).registry;
        assert(s.owns(who, id) <==> s.tokens_of(who).contains(id));
    }

    /// Once a token is burnt it stays burnt, whatever calls follow: it never
    /// has an owner again and is never in anybody's holdings again.
    pub proof fn lemma_burnt_for_good(self, calls: Seq<Call>, id: TokenId)
        requires
            self.valid(),
            self.registry.burnt_tokens.contains(id),
        ensures
            self.after_all(calls).registry.burnt_tokens.contains(id),
            !self.after_all(calls).registry.token_owners.dom().contains(id),
            forall|who: Identity|
                !(self.after_all(calls).registry.owned_tokens.dom().contains(who) && (
                #[trigger] self.after_all(calls).registry.owned_tokens[who]).contains(id)),
        decreases calls.len(),
    {
        if calls.len() > 0 {
            self.lemma_burnt_for_good(calls.drop_last(), id);
        }
        self.lemma_every_state(calls, self.config.installer, id);
        lemma_burnt_token_is_gone(self.after_all(calls).registry, id);
    }
}

} // verus!
