//! The contract of one collection and its entry points.
//!
//! Every entry point runs to its end before the next one starts. It checks
//! everything that could make it fail before it changes anything, so that a
//! call either does all of its work, and records exactly one event, or
//! leaves the collection as it was.

use vstd::prelude::*;

use crate::config::{
    install_spec, CollectionConfig, ConfigView, InstallArgs, VariableArgs, Variables,
};
use crate::error::NftError;
use crate::events::{record, EventLog, TokenEvent};
use crate::identifier::{name_view, next_identifier, TokenIdentifier};
use crate::identity::Identity;
use crate::keyed::Key;
use crate::ledger::{OwnershipMode, TokenState};
use crate::lifecycle::{plan_outcome, ContractView};
use crate::registry::{outcome, MetadataRecord, OwnershipRegistry};
use crate::validator::{update_allowed, validate};

verus! {

/// The contract of one collection.
pub struct Contract {
    config: CollectionConfig,
    variables: Variables,
    registry: OwnershipRegistry,
    events: EventLog,
}

impl View for Contract {
    type V = ContractView;

    closed spec fn view(&self) -> ContractView {
        ContractView {
            config: self.config@,
            allow_minting: self.variables@,
            registry: self.registry@,
            events: self.events@,
        }
    }
}

impl Contract {
    /// The contract's tables are in order and its state is valid.
    pub closed spec fn wf(&self) -> bool {
        &&& self.registry.wf()
        &&& self@.valid()
    }

    /// The state of a contract that is in order is valid.
    pub proof fn lemma_wf_is_valid(&self)
        requires
            self.wf(),
        ensures
            self@.valid(),
    {
    }

    /// Installs a collection for `installer` with the arguments `args`.
    ///
    /// The collection starts with no token minted, nothing owned and no
    /// event recorded. An installation with a missing or ill-typed
    /// argument is refused with that argument's condition.
    pub fn init(installer: Identity, args: InstallArgs) -> (r: Result<Contract, NftError>)
        ensures
            match r {
                Ok(contract) => contract.wf() && install_spec(installer, args) == Ok::<
                    (ConfigView, bool),
                    NftError,
                >((contract@.config, contract@.allow_minting)) && contract@
                    == ContractView::installed(contract@.config, contract@.allow_minting),
                Err(e) => install_spec(installer, args) == Err::<(ConfigView, bool), NftError>(e),
            },
    {
        match CollectionConfig::install(installer, args) {
            Err(e) => Err(e),
            Ok((config, variables)) => {
                let registry = OwnershipRegistry::new(
                    config.total_token_supply(),
                    config.ownership_mode(),
                    config.identifier_mode(),
                );
                let events = EventLog::new();
                let contract = Contract { config, variables, registry, events };
                proof {
                    ContractView::lemma_installed_is_valid(contract@.config, contract@.allow_minting);
                }
                Ok(contract)
            },
        }
    }

    /// Changes the variables of the collection as `caller` asks.
    ///
    /// Only the installer may do so. Minting can be switched on and off;
    /// what was fixed at installation is accepted only with the value that
    /// it has. A change that is refused changes nothing.
    pub fn set_variables(&mut self, caller: Identity, args: &VariableArgs) -> (r: Result<
        (),
        NftError,
    >)
        requires
            old(self).wf(),
        ensures
            final(self).wf(),
            r == plan_outcome(
                old(self)@.config.set_variables_spec(old(self)@.allow_minting, caller, args@),
            ),
            final(self)@ == old(self)@.after_variables(caller, args@),
            r is Err ==> *final(self) == *old(self),
    {
        self.config.set_variables(&mut self.variables, caller, args)
    }

    /// Mints a token for `owner`, with the metadata `metadata`, and under
    /// the name `name` if one is given.
    ///
    /// On success the number of minted tokens has grown by exactly one and
    /// is within the supply, the token is registered for `owner` with the
    /// structured form of its metadata, and one mint event is recorded. A
    /// mint that is refused changes nothing; when the supply is used up it
    /// is refused for that reason, whatever else is wrong.
    pub fn mint(&mut self, caller: Identity, owner: Identity, metadata: &[u8], name: Option<String>) -> (r:
        Result<(), NftError>)
        requires
            old(self).wf(),
        ensures
            final(self).wf(),
            r == plan_outcome(old(self)@.mint_plan(caller, owner, metadata@, name_view(name))),
            final(self)@ == old(self)@.after_mint(caller, owner, metadata@, name_view(name)),
            r is Err ==> *final(self) == *old(self),
            r is Ok ==> final(self)@.registry.number_of_minted_tokens == old(self)@.registry.number_of_minted_tokens + 1,
            final(self)@.registry.number_of_minted_tokens <= final(self)@.registry.total_token_supply,
            old(self)@.registry.number_of_minted_tokens == old(self)@.registry.total_token_supply
                ==> r == Err::<(), NftError>(NftError::SupplyExceeded),
    {
        proof {
            self@.lemma_mint_is_valid(caller, owner, metadata@, name_view(name));
            self.registry.lemma_wf_is_valid();
        }
        let minted = self.registry.number_of_minted_tokens();
        if minted >= self.registry.total_token_supply() {
            return Err(NftError::SupplyExceeded);
        }
        if !self.variables.allow_minting() {
            return Err(NftError::MintingDisabled);
        }
        match self.config.ownership_mode() {
            OwnershipMode::Minter => {
                if !owner.same(&caller) {
                    return Err(NftError::OwnerNotMinter);
                }
            },
            _ => {},
        }
        let structured = match validate(self.config.metadata_kind(), metadata) {
            Ok(structured) => structured,
            Err(e) => {
                return Err(NftError::Metadata(e));
            },
        };
        let identifier = match next_identifier(
            self.config.identifier_mode(),
            minted,
            metadata,
            name,
            self.config.allows_names(),
        ) {
            Ok(identifier) => identifier,
            Err(e) => {
                return Err(e);
            },
        };
        match self.registry.register(identifier.duplicate(), owner, structured) {
            Ok(()) => {},
            Err(e) => {
                return Err(e);
            },
        }
        record(
            &mut self.events,
            self.config.events_mode(),
            TokenEvent::Mint { token_id: identifier, recipient: owner },
        );
        Ok(())
    }

    /// Transfers token `identifier` from `source`, the caller, to `target`.
    ///
    /// A transfer by an identity that does not own the token is refused
    /// for that reason; in a collection whose tokens stay where they are,
    /// a transfer by the owner is refused for that reason. A transfer that
    /// is refused changes nothing. On success the token belongs to `target`
    /// in both ownership tables, and one transfer event is recorded.
    pub fn transfer(&mut self, source: Identity, target: Identity, identifier: TokenIdentifier) -> (r:
        Result<(), NftError>)
        requires
            old(self).wf(),
        ensures
            final(self).wf(),
            r == outcome(old(self)@.registry.transfer_error(identifier@, source)),
            final(self)@ == old(self)@.after_transfer(source, target, identifier@),
            r is Err ==> *final(self) == *old(self),
            !old(self)@.registry.owns(source, identifier@) ==> r == Err::<(), NftError>(
                NftError::NotOwner,
            ),
    {
        proof {
            self@.lemma_transfer_is_valid(source, target, identifier@);
        }
        match self.registry.transfer(identifier.duplicate(), source, target) {
            Ok(()) => {},
            Err(e) => {
                return Err(e);
            },
        }
        record(
            &mut self.events,
            self.config.events_mode(),
            TokenEvent::Transfer { token_id: identifier, sender: source, recipient: target },
        );
        Ok(())
    }

    /// Burns token `identifier` for `caller`.
    ///
    /// A burn by an identity that does not own the token is refused for
    /// that reason and changes nothing. On success the token has no owner,
    /// is in nobody's holdings, is among the burnt tokens for good, and one
    /// burn event is recorded.
    pub fn burn(&mut self, caller: Identity, identifier: TokenIdentifier) -> (r: Result<
        (),
        NftError,
    >)
        requires
            old(self).wf(),
        ensures
            final(self).wf(),
            r == outcome(old(self)@.registry.owner_error(identifier@, caller)),
            final(self)@ == old(self)@.after_burn(caller, identifier@),
            r is Err ==> *final(self) == *old(self),
    {
        proof {
            self@.lemma_burn_is_valid(caller, identifier@);
        }
        match self.registry.burn(identifier.duplicate(), caller) {
            Ok(()) => {},
            Err(e) => {
                return Err(e);
            },
        }
        record(
            &mut self.events,
            self.config.events_mode(),
            TokenEvent::Burn { token_id: identifier, owner: caller },
        );
        Ok(())
    }

    /// Gives token `identifier` the metadata `metadata`, for `caller`.
    ///
    /// The change is refused when `caller` does not own the token, when
    /// the metadata is not valid, and when it would change a property that
    /// the schema declares immutable. A change that is refused changes
    /// nothing. On success one event is recorded.
    pub fn set_token_metadata(
        &mut self,
        caller: Identity,
        identifier: TokenIdentifier,
        metadata: &[u8],
    ) -> (r: Result<(), NftError>)
        requires
            old(self).wf(),
        ensures
            final(self).wf(),
            r == plan_outcome(old(self)@.metadata_plan(caller, identifier@, metadata@)),
            final(self)@ == old(self)@.after_metadata(caller, identifier@, metadata@),
            r is Err ==> *final(self) == *old(self),
    {
        proof {
            self@.lemma_metadata_is_valid(caller, identifier@, metadata@);
            self.registry.lemma_wf_is_valid();
        }
        let owned = match self.registry.owner_of(&identifier) {
            Some(owner) => owner.same(&caller),
            None => false,
        };
        if !owned {
            return Err(NftError::NotOwner);
        }
        let structured = match validate(self.config.metadata_kind(), metadata) {
            Ok(structured) => structured,
            Err(e) => {
                return Err(NftError::Metadata(e));
            },
        };
        let allowed = match self.registry.metadata_of(&identifier) {
            Some(record) => update_allowed(self.config.metadata_kind(), &record.data, &structured),
            None => false,
        };
        if !allowed {
            return Err(NftError::ForbiddenMetadataUpdate);
        }
        match self.registry.annotate(identifier.duplicate(), caller, structured) {
            Ok(()) => {},
            Err(e) => {
                return Err(e);
            },
        }
        record(
            &mut self.events,
            self.config.events_mode(),
            TokenEvent::MetadataUpdate { token_id: identifier },
        );
        Ok(())
    }

    /// What was fixed at installation.
    pub fn config(&self) -> (config: &CollectionConfig)
        ensures
            config@ == self@.config,
    {
        &self.config
    }

    /// Whether tokens may be minted.
    pub fn allow_minting(&self) -> (b: bool)
        ensures
            b == self@.allow_minting,
    {
        self.variables.allow_minting()
    }

    /// How many tokens were minted so far.
    pub fn number_of_minted_tokens(&self) -> (n: u64)
        ensures
            n == self@.registry.number_of_minted_tokens,
    {
        self.registry.number_of_minted_tokens()
    }

    /// The owner of token `identifier`, if it has one.
    pub fn owner_of(&self, identifier: &TokenIdentifier) -> (r: Option<Identity>)
        requires
            self.wf(),
        ensures
            r == self@.registry.owner_of(identifier@),
    {
        self.registry.owner_of(identifier)
    }

    /// The tokens that `who` holds, each once.
    pub fn tokens_of(&self, who: &Identity) -> (r: Vec<TokenIdentifier>)
        requires
            self.wf(),
        ensures
            r@.map_values(|t: TokenIdentifier| t@).no_duplicates(),
            r@.map_values(|t: TokenIdentifier| t@).to_set() == self@.registry.tokens_of(*who),
    {
        self.registry.tokens_of(who)
    }

    /// How many tokens `who` holds.
    pub fn balance_of(&self, who: &Identity) -> (n: usize)
        requires
            self.wf(),
        ensures
            n == self@.registry.tokens_of(*who).len(),
    {
        self.registry.balance_of(who)
    }

    /// Where token `identifier` is in its life.
    pub fn state_of(&self, identifier: &TokenIdentifier) -> (r: TokenState)
        requires
            self.wf(),
        ensures
            r == self@.registry.state_of(identifier@),
    {
        self.registry.state_of(identifier)
    }

    /// Whether token `identifier` was burnt.
    pub fn is_burnt(&self, identifier: &TokenIdentifier) -> (r: bool)
        requires
            self.wf(),
        ensures
            r == self@.registry.burnt_tokens.contains(identifier@),
    {
        self.registry.is_burnt(identifier)
    }

    /// The metadata that is kept for token `identifier`, if it was ever
    /// minted.
    pub fn metadata_of(&self, identifier: &TokenIdentifier) -> (r: Option<&MetadataRecord>)
        requires
            self.wf(),
        ensures
            match r {
                Some(record) => self@.registry.metadata.dom().contains(identifier@) && record@
                    == self@.registry.metadata[identifier@],
                None => !self@.registry.metadata.dom().contains(identifier@),
            },
    {
        self.registry.metadata_of(identifier)
    }

    /// The events that were recorded.
    pub fn events(&self) -> (log: &EventLog)
        ensures
            log@ == self@.events,
    {
        &self.events
    }
}

} // verus!
