//! The configuration of a collection.
//!
//! What is fixed when the collection is installed is kept apart from the
//! variables that an authorized caller may change later.

use vstd::prelude::*;

use crate::error::NftError;
use crate::events::EventsMode;
use crate::identifier::IdentifierMode;
use crate::identity::Identity;
use crate::keyed::Key;
use crate::ledger::OwnershipMode;
use crate::metadata::{MetadataKind, MetadataKindView, MetadataSchema, Rule};

verus! {

/// The value of a named argument, with the type under which the host
/// carries it.
#[derive(Clone, Debug, PartialEq, Eq)]
pub enum ArgValue {
    /// A text.
    Text(String),
    /// A number.
    Number(u64),
    /// A flag.
    Flag(bool),
}

/// What the value of a named argument stands for.
pub enum ArgView {
    /// A text.
    Text(Seq<char>),
    /// A number.
    Number(u64),
    /// A flag.
    Flag(bool),
}

impl View for ArgValue {
    type V = ArgView;

    open spec fn view(&self) -> ArgView {
        match self {
            ArgValue::Text(t) => ArgView::Text(t@),
            ArgValue::Number(n) => ArgView::Number(*n),
            ArgValue::Flag(b) => ArgView::Flag(*b),
        }
    }
}

/// What an argument that may be absent stands for.
pub open spec fn arg_view(arg: Option<ArgValue>) -> Option<ArgView> {
    match arg {
        Some(a) => Some(a@),
        None => None,
    }
}

/// The scalar variables of a collection, as named arguments of which any
/// may be absent.
#[derive(Clone, Debug, PartialEq, Eq)]
pub struct VariableArgs {
    /// The name of the collection: a text that is not empty.
    pub collection_name: Option<ArgValue>,
    /// The symbol of the collection: a text that is not empty.
    pub collection_symbol: Option<ArgValue>,
    /// How many tokens may ever be minted: a number of at least one.
    pub total_token_supply: Option<ArgValue>,
    /// Whether tokens may be minted: a flag, set if absent.
    pub allow_minting: Option<ArgValue>,
    /// The ownership mode, by its number: transferable if absent.
    pub ownership_mode: Option<ArgValue>,
    /// The identifier mode, by its number: ordinal if absent.
    pub identifier_mode: Option<ArgValue>,
    /// The metadata kind, by its number: raw if absent.
    pub metadata_kind: Option<ArgValue>,
    /// The event standard, by its number: the legacy log if absent.
    pub events_mode: Option<ArgValue>,
}

/// What the scalar variables stand for.
pub struct VariableArgsView {
    pub collection_name: Option<ArgView>,
    pub collection_symbol: Option<ArgView>,
    pub total_token_supply: Option<ArgView>,
    pub allow_minting: Option<ArgView>,
    pub ownership_mode: Option<ArgView>,
    pub identifier_mode: Option<ArgView>,
    pub metadata_kind: Option<ArgView>,
    pub events_mode: Option<ArgView>,
}

impl View for VariableArgs {
    type V = VariableArgsView;

    open spec fn view(&self) -> VariableArgsView {
        VariableArgsView {
            collection_name: arg_view(self.collection_name),
            collection_symbol: arg_view(self.collection_symbol),
            total_token_supply: arg_view(self.total_token_supply),
            allow_minting: arg_view(self.allow_minting),
            ownership_mode: arg_view(self.ownership_mode),
            identifier_mode: arg_view(self.identifier_mode),
            metadata_kind: arg_view(self.metadata_kind),
            events_mode: arg_view(self.events_mode),
        }
    }
}

/// The arguments of an installation.
#[derive(Clone, Debug, PartialEq, Eq)]
pub struct InstallArgs {
    /// The scalar variables.
    pub variables: VariableArgs,
    /// The schema, for a collection whose metadata follows one.
    pub schema: Option<MetadataSchema>,
    /// The rule set, for a collection that validates by its own rules.
    pub rules: Option<Vec<Rule>>,
}

impl OwnershipMode {
    /// The number that names this mode among the arguments.
    pub open spec fn number(self) -> u64 {
        match self {
            OwnershipMode::Minter => 0,
            OwnershipMode::Assigned => 1,
            OwnershipMode::Transferable => 2,
        }
    }
}

impl IdentifierMode {
    /// The number that names this mode among the arguments.
    pub open spec fn number(self) -> u64 {
        match self {
            IdentifierMode::Ordinal => 0,
            IdentifierMode::Hash => 1,
        }
    }
}

impl EventsMode {
    /// The number that names this standard among the arguments.
    pub open spec fn number(self) -> u64 {
        match self {
            EventsMode::Cep47 => 0,
            EventsMode::Cep47Dict => 1,
            EventsMode::Cep78 => 2,
        }
    }
}

impl MetadataKindView {
    /// The number that names this kind among the arguments.
    pub open spec fn number(self) -> u64 {
        match self {
            MetadataKindView::Cep78(_) => 0,
            MetadataKindView::Cep47 => 1,
            MetadataKindView::Raw => 2,
            MetadataKindView::CustomValidated(_) => 3,
        }
    }

    /// Whether a minter may supply the name under which a token is
    /// identified: only a schema can allow it.
    pub open spec fn allows_names(self) -> bool {
        match self {
            MetadataKindView::Cep78(schema) => schema.allow_names,
            _ => false,
        }
    }
}

/// What is fixed when a collection is installed.
pub struct CollectionConfig {
    collection_name: String,
    collection_symbol: String,
    total_token_supply: u64,
    ownership_mode: OwnershipMode,
    identifier_mode: IdentifierMode,
    metadata_kind: MetadataKind,
    events_mode: EventsMode,
    installer: Identity,
}

/// What the fixed configuration stands for.
pub struct ConfigView {
    /// The name of the collection.
    pub collection_name: Seq<char>,
    /// The symbol of the collection.
    pub collection_symbol: Seq<char>,
    /// How many tokens may ever be minted.
    pub total_token_supply: u64,
    /// Whether tokens can change hands.
    pub ownership_mode: OwnershipMode,
    /// How tokens are identified.
    pub identifier_mode: IdentifierMode,
    /// How metadata is checked.
    pub metadata_kind: MetadataKindView,
    /// In which vocabulary events are recorded.
    pub events_mode: EventsMode,
    /// The account that installed the collection.
    pub installer: Identity,
}

impl ConfigView {
    /// The name and the symbol are not empty and the supply is at least
    /// one.
    pub open spec fn valid(self) -> bool {
        &&& self.collection_name.len() > 0
        &&& self.collection_symbol.len() > 0
        &&& self.total_token_supply >= 1
    }
}

/// The name or the symbol that an argument gives: a text that is not
/// empty.
pub open spec fn text_of(arg: Option<ArgView>, missing: NftError, invalid: NftError) -> Result<
    Seq<char>,
    NftError,
> {
    match arg {
        None => Err(missing),
        Some(ArgView::Text(t)) => if t.len() > 0 {
            Ok(t)
        } else {
            Err(invalid)
        },
        Some(_) => Err(invalid),
    }
}

/// The supply that an argument gives: a number of at least one.
pub open spec fn supply_of(arg: Option<ArgView>) -> Result<u64, NftError> {
    match arg {
        None => Err(NftError::MissingTotalTokenSupply),
        Some(ArgView::Number(n)) => if n >= 1 {
            Ok(n)
        } else {
            Err(NftError::InvalidTotalTokenSupply)
        },
        Some(_) => Err(NftError::InvalidTotalTokenSupply),
    }
}

/// The minting switch that an argument gives: a flag, or `default` if the
/// argument is absent.
pub open spec fn switch_of(arg: Option<ArgView>, default: bool) -> Result<bool, NftError> {
    match arg {
        None => Ok(default),
        Some(ArgView::Flag(b)) => Ok(b),
        Some(_) => Err(NftError::InvalidAllowMinting),
    }
}

/// The ownership mode that an argument gives.
pub open spec fn ownership_mode_of(arg: Option<ArgView>) -> Result<OwnershipMode, NftError> {
    match arg {
        None => Ok(OwnershipMode::Transferable),
        Some(ArgView::Number(n)) => if n == 0 {
            Ok(OwnershipMode::Minter)
        } else if n == 1 {
            Ok(OwnershipMode::Assigned)
        } else if n == 2 {
            Ok(OwnershipMode::Transferable)
        } else {
            Err(NftError::InvalidOwnershipMode)
        },
        Some(_) => Err(NftError::InvalidOwnershipMode),
    }
}

/// The identifier mode that an argument gives.
pub open spec fn identifier_mode_of(arg: Option<ArgView>) -> Result<IdentifierMode, NftError> {
    match arg {
        None => Ok(IdentifierMode::Ordinal),
        Some(ArgView::Number(n)) => if n == 0 {
            Ok(IdentifierMode::Ordinal)
        } else if n == 1 {
            Ok(IdentifierMode::Hash)
        } else {
            Err(NftError::InvalidIdentifierSetting)
        },
        Some(_) => Err(NftError::InvalidIdentifierSetting),
    }
}

/// The event standard that an argument gives.
pub open spec fn events_mode_of(arg: Option<ArgView>) -> Result<EventsMode, NftError> {
    match arg {
        None => Ok(EventsMode::Cep47),
        Some(ArgView::Number(n)) => if n == 0 {
            Ok(EventsMode::Cep47)
        } else if n == 1 {
            Ok(EventsMode::Cep47Dict)
        } else if n == 2 {
            Ok(EventsMode::Cep78)
        } else {
            Err(NftError::InvalidEventsMode)
        },
        Some(_) => Err(NftError::InvalidEventsMode),
    }
}

/// The metadata kind that an argument gives, with the schema or the rule
/// set that came with it. A kind that needs one and came without is
/// refused.
pub open spec fn metadata_kind_of(
    arg: Option<ArgView>,
    schema: Option<MetadataSchema>,
    rules: Option<Vec<Rule>>,
) -> Result<MetadataKindView, NftError> {
    match arg {
        None => Ok(MetadataKindView::Raw),
        Some(ArgView::Number(n)) => if n == 0 {
            match schema {
                Some(s) => Ok(MetadataKindView::Cep78(s@)),
                None => Err(NftError::InvalidMetadataKind),
            }
        } else if n == 1 {
            Ok(MetadataKindView::Cep47)
        } else if n == 2 {
            Ok(MetadataKindView::Raw)
        } else if n == 3 {
            match rules {
                Some(r) => Ok(MetadataKindView::CustomValidated(r@.map_values(|x: Rule| x@))),
                None => Err(NftError::InvalidMetadataKind),
            }
        } else {
            Err(NftError::InvalidMetadataKind)
        },
        Some(_) => Err(NftError::InvalidMetadataKind),
    }
}

/// What an installation by `installer` with the arguments `args` gives:
/// the fixed configuration and the minting switch, or the first fault
/// among the arguments, in the order name, symbol, supply, minting switch,
/// ownership mode, identifier mode, metadata kind, event standard.
pub open spec fn install_spec(installer: Identity, args: InstallArgs) -> Result<
    (ConfigView, bool),
    NftError,
> {
    let v = args.variables@;
    let name = text_of(
        v.collection_name,
        NftError::MissingCollectionName,
        NftError::InvalidCollectionName,
    );
    let symbol = text_of(
        v.collection_symbol,
        NftError::MissingCollectionSymbol,
        NftError::InvalidCollectionSymbol,
    );
    let supply = supply_of(v.total_token_supply);
    let switch = switch_of(v.allow_minting, true);
    let ownership = ownership_mode_of(v.ownership_mode);
    let identifier = identifier_mode_of(v.identifier_mode);
    let kind = metadata_kind_of(v.metadata_kind, args.schema, args.rules);
    let events = events_mode_of(v.events_mode);
    if name is Err {
        Err(name->Err_0)
    } else if symbol is Err {
        Err(symbol->Err_0)
    } else if supply is Err {
        Err(supply->Err_0)
    } else if switch is Err {
        Err(switch->Err_0)
    } else if ownership is Err {
        Err(ownership->Err_0)
    } else if identifier is Err {
        Err(identifier->Err_0)
    } else if kind is Err {
        Err(kind->Err_0)
    } else if events is Err {
        Err(events->Err_0)
    } else {
        Ok(
            (
                ConfigView {
                    collection_name: name->Ok_0,
                    collection_symbol: symbol->Ok_0,
                    total_token_supply: supply->Ok_0,
                    ownership_mode: ownership->Ok_0,
                    identifier_mode: identifier->Ok_0,
                    metadata_kind: kind->Ok_0,
                    events_mode: events->Ok_0,
                    installer,
                },
                switch->Ok_0,
            ),
        )
    }
}

/// Whether an argument is absent or gives the text `current`.
pub open spec fn keeps_text(arg: Option<ArgView>, current: Seq<char>) -> bool {
    arg is None || arg == Some(ArgView::Text(current))
}

/// Whether an argument is absent or gives the number `current`.
pub open spec fn keeps_number(arg: Option<ArgView>, current: u64) -> bool {
    arg is None || arg == Some(ArgView::Number(current))
}

impl ConfigView {
    /// Whether the arguments leave everything as it is that was fixed at
    /// installation: each of them is absent or gives the value that the
    /// collection has.
    pub open spec fn is_kept_by(self, args: VariableArgsView) -> bool {
        &&& keeps_text(args.collection_name, self.collection_name)
        &&& keeps_text(args.collection_symbol, self.collection_symbol)
        &&& keeps_number(args.total_token_supply, self.total_token_supply)
        &&& keeps_number(args.ownership_mode, self.ownership_mode.number())
        &&& keeps_number(args.identifier_mode, self.identifier_mode.number())
        &&& keeps_number(args.metadata_kind, self.metadata_kind.number())
        &&& keeps_number(args.events_mode, self.events_mode.number())
    }

    /// What a change of the variables by `caller` with the arguments
    /// `args` gives: the new minting switch, or the reason for refusing
    /// the change. Only the installer may change variables, nothing that
    /// was fixed at installation may get another value, and the minting
    /// switch must be a flag.
    pub open spec fn set_variables_spec(
        self,
        allow_minting: bool,
        caller: Identity,
        args: VariableArgsView,
    ) -> Result<bool, NftError> {
        if caller != self.installer {
            Err(NftError::InvalidAccount)
        } else if !self.is_kept_by(args) {
            Err(NftError::ImmutableVariable)
        } else {
            switch_of(args.allow_minting, allow_minting)
        }
    }
}

/// What may change after the installation.
#[derive(Clone, Copy, Debug, PartialEq, Eq)]
pub struct Variables {
    allow_minting: bool,
}

impl View for Variables {
    type V = bool;

    closed spec fn view(&self) -> bool {
        self.allow_minting
    }
}

impl Variables {
    /// Whether tokens may be minted.
    pub fn allow_minting(&self) -> (b: bool)
        ensures
            b == self@,
    {
        self.allow_minting
    }
}

impl View for CollectionConfig {
    type V = ConfigView;

    closed spec fn view(&self) -> ConfigView {
        ConfigView {
            collection_name: self.collection_name@,
            collection_symbol: self.collection_symbol@,
            total_token_supply: self.total_token_supply,
            ownership_mode: self.ownership_mode,
            identifier_mode: self.identifier_mode,
            metadata_kind: self.metadata_kind@,
            events_mode: self.events_mode,
            installer: self.installer,
        }
    }
}

/// What the outcome of reading a text stands for.
pub open spec fn text_outcome(r: Result<String, NftError>) -> Result<Seq<char>, NftError> {
    match r {
        Ok(t) => Ok(t@),
        Err(e) => Err(e),
    }
}

/// What the outcome of reading a metadata kind stands for.
pub open spec fn kind_outcome(r: Result<MetadataKind, NftError>) -> Result<
    MetadataKindView,
    NftError,
> {
    match r {
        Ok(k) => Ok(k@),
        Err(e) => Err(e),
    }
}

/// What the outcome of an installation stands for.
pub open spec fn install_outcome(r: Result<(CollectionConfig, Variables), NftError>) -> Result<
    (ConfigView, bool),
    NftError,
> {
    match r {
        Ok((c, v)) => Ok((c@, v@)),
        Err(e) => Err(e),
    }
}

fn read_text(arg: Option<ArgValue>, missing: NftError, invalid: NftError) -> (r: Result<
    String,
    NftError,
>)
    ensures
        text_outcome(r) == text_of(arg_view(arg), missing, invalid),
{
    match arg {
        None => Err(missing),
        Some(ArgValue::Text(t)) => {
            if t.as_str().is_empty() {
                Err(invalid)
            } else {
                Ok(t)
            }
        },
        Some(_) => Err(invalid),
    }
}

fn read_supply(arg: &Option<ArgValue>) -> (r: Result<u64, NftError>)
    ensures
        r == supply_of(arg_view(*arg)),
{
    match arg {
        None => Err(NftError::MissingTotalTokenSupply),
        Some(ArgValue::Number(n)) => {
            if *n >= 1 {
                Ok(*n)
            } else {
                Err(NftError::InvalidTotalTokenSupply)
            }
        },
        Some(_) => Err(NftError::InvalidTotalTokenSupply),
    }
}

fn read_switch(arg: &Option<ArgValue>, default: bool) -> (r: Result<bool, NftError>)
    ensures
        r == switch_of(arg_view(*arg), default),
{
    match arg {
        None => Ok(default),
        Some(ArgValue::Flag(b)) => Ok(*b),
        Some(_) => Err(NftError::InvalidAllowMinting),
    }
}

fn read_ownership_mode(arg: &Option<ArgValue>) -> (r: Result<OwnershipMode, NftError>)
    ensures
        r == ownership_mode_of(arg_view(*arg)),
{
    match arg {
        None => Ok(OwnershipMode::Transferable),
        Some(ArgValue::Number(n)) => {
            if *n == 0 {
                Ok(OwnershipMode::Minter)
            } else if *n == 1 {
                Ok(OwnershipMode::Assigned)
            } else if *n == 2 {
                Ok(OwnershipMode::Transferable)
            } else {
                Err(NftError::InvalidOwnershipMode)
            }
        },
        Some(_) => Err(NftError::InvalidOwnershipMode),
    }
}

fn read_identifier_mode(arg: &Option<ArgValue>) -> (r: Result<IdentifierMode, NftError>)
    ensures
        r == identifier_mode_of(arg_view(*arg)),
{
    match arg {
        None => Ok(IdentifierMode::Ordinal),
        Some(ArgValue::Number(n)) => {
            if *n == 0 {
                Ok(IdentifierMode::Ordinal)
            } else if *n == 1 {
                Ok(IdentifierMode::Hash)
            } else {
                Err(NftError::InvalidIdentifierSetting)
            }
        },
        Some(_) => Err(NftError::InvalidIdentifierSetting),
    }
}

fn read_events_mode(arg: &Option<ArgValue>) -> (r: Result<EventsMode, NftError>)
    ensures
        r == events_mode_of(arg_view(*arg)),
{
    match arg {
        None => Ok(EventsMode::Cep47),
        Some(ArgValue::Number(n)) => {
            if *n == 0 {
                Ok(EventsMode::Cep47)
            } else if *n == 1 {
                Ok(EventsMode::Cep47Dict)
            } else if *n == 2 {
                Ok(EventsMode::Cep78)
            } else {
                Err(NftError::InvalidEventsMode)
            }
        },
        Some(_) => Err(NftError::InvalidEventsMode),
    }
}

fn read_metadata_kind(
    arg: &Option<ArgValue>,
    schema: Option<MetadataSchema>,
    rules: Option<Vec<Rule>>,
) -> (r: Result<MetadataKind, NftError>)
    ensures
        kind_outcome(r) == metadata_kind_of(arg_view(*arg), schema, rules),
{
    match arg {
        None => Ok(MetadataKind::Raw),
        Some(ArgValue::Number(n)) => {
            if *n == 0 {
                match schema {
                    Some(s) => Ok(MetadataKind::Cep78(s)),
                    None => Err(NftError::InvalidMetadataKind),
                }
            } else if *n == 1 {
                Ok(MetadataKind::Cep47)
            } else if *n == 2 {
                Ok(MetadataKind::Raw)
            } else if *n == 3 {
                match rules {
                    Some(r) => Ok(MetadataKind::CustomValidated(r)),
                    None => Err(NftError::InvalidMetadataKind),
                }
            } else {
                Err(NftError::InvalidMetadataKind)
            }
        },
        Some(_) => Err(NftError::InvalidMetadataKind),
    }
}

fn arg_keeps_text(arg: &Option<ArgValue>, current: &String) -> (r: bool)
    ensures
        r == keeps_text(arg_view(*arg), current@),
{
    match arg {
        None => true,
        Some(ArgValue::Text(t)) => *t == *current,
        Some(_) => false,
    }
}

fn arg_keeps_number(arg: &Option<ArgValue>, current: u64) -> (r: bool)
    ensures
        r == keeps_number(arg_view(*arg), current),
{
    match arg {
        None => true,
        Some(ArgValue::Number(n)) => *n == current,
        Some(_) => false,
    }
}

impl CollectionConfig {
    /// Reads the arguments of an installation by `installer`.
    pub fn install(installer: Identity, args: InstallArgs) -> (r: Result<
        (CollectionConfig, Variables),
        NftError,
    >)
        ensures
            install_outcome(r) == install_spec(installer, args),
            r is Ok ==> r->Ok_0.0@.valid(),
    {
        let InstallArgs { variables, schema, rules } = args;
        let VariableArgs {
            collection_name,
            collection_symbol,
            total_token_supply,
            allow_minting,
            ownership_mode,
            identifier_mode,
            metadata_kind,
            events_mode,
        } = variables;
        let name = read_text(
            collection_name,
            NftError::MissingCollectionName,
            NftError::InvalidCollectionName,
        )?;
        let symbol = read_text(
            collection_symbol,
            NftError::MissingCollectionSymbol,
            NftError::InvalidCollectionSymbol,
        )?;
        let supply = read_supply(&total_token_supply)?;
        let switch = read_switch(&allow_minting, true)?;
        let ownership = read_ownership_mode(&ownership_mode)?;
        let identifier = read_identifier_mode(&identifier_mode)?;
        let kind = read_metadata_kind(&metadata_kind, schema, rules)?;
        let events = read_events_mode(&events_mode)?;
        Ok(
            (
                CollectionConfig {
                    collection_name: name,
                    collection_symbol: symbol,
                    total_token_supply: supply,
                    ownership_mode: ownership,
                    identifier_mode: identifier,
                    metadata_kind: kind,
                    events_mode: events,
                    installer,
                },
                Variables { allow_minting: switch },
            ),
        )
    }

    /// The name of the collection.
    pub fn collection_name(&self) -> (name: &String)
        ensures
            name@ == self@.collection_name,
    {
        &self.collection_name
    }

    /// The symbol of the collection.
    pub fn collection_symbol(&self) -> (symbol: &String)
        ensures
            symbol@ == self@.collection_symbol,
    {
        &self.collection_symbol
    }

    /// How many tokens may ever be minted.
    pub fn total_token_supply(&self) -> (n: u64)
        ensures
            n == self@.total_token_supply,
    {
        self.total_token_supply
    }

    /// Whether tokens can change hands.
    pub fn ownership_mode(&self) -> (m: OwnershipMode)
        ensures
            m == self@.ownership_mode,
    {
        self.ownership_mode
    }

    /// How tokens are identified.
    pub fn identifier_mode(&self) -> (m: IdentifierMode)
        ensures
            m == self@.identifier_mode,
    {
        self.identifier_mode
    }

    /// How metadata is checked.
    pub fn metadata_kind(&self) -> (k: &MetadataKind)
        ensures
            k@ == self@.metadata_kind,
    {
        &self.metadata_kind
    }

    /// In which vocabulary events are recorded.
    pub fn events_mode(&self) -> (m: EventsMode)
        ensures
            m == self@.events_mode,
    {
        self.events_mode
    }

    /// The account that installed the collection.
    pub fn installer(&self) -> (who: Identity)
        ensures
            who == self@.installer,
    {
        self.installer
    }

    /// Whether a minter may supply the name under which a token is
    /// identified.
    pub fn allows_names(&self) -> (b: bool)
        ensures
            b == self@.metadata_kind.allows_names(),
    {
        match &self.metadata_kind {
            MetadataKind::Cep78(schema) => schema.allow_names,
            _ => false,
        }
    }

    fn is_kept_by(&self, args: &VariableArgs) -> (r: bool)
        ensures
            r == self@.is_kept_by(args@),
    {
        let ownership: u64 = match self.ownership_mode {
            OwnershipMode::Minter => 0,
            OwnershipMode::Assigned => 1,
            OwnershipMode::Transferable => 2,
        };
        let identifier: u64 = match self.identifier_mode {
            IdentifierMode::Ordinal => 0,
            IdentifierMode::Hash => 1,
        };
        let kind: u64 = match &self.metadata_kind {
            MetadataKind::Cep78(_) => 0,
            MetadataKind::Cep47 => 1,
            MetadataKind::Raw => 2,
            MetadataKind::CustomValidated(_) => 3,
        };
        let events: u64 = match self.events_mode {
            EventsMode::Cep47 => 0,
            EventsMode::Cep47Dict => 1,
            EventsMode::Cep78 => 2,
        };
        arg_keeps_text(&args.collection_name, &self.collection_name) && arg_keeps_text(
            &args.collection_symbol,
            &self.collection_symbol,
        ) && arg_keeps_number(&args.total_token_supply, self.total_token_supply)
            && arg_keeps_number(&args.ownership_mode, ownership) && arg_keeps_number(
            &args.identifier_mode,
            identifier,
        ) && arg_keeps_number(&args.metadata_kind, kind) && arg_keeps_number(
            &args.events_mode,
            events,
        )
    }

    /// Changes the variables of the collection as `caller` asks with the
    /// arguments `args`. A change that is refused changes nothing.
    pub fn set_variables(&self, variables: &mut Variables, caller: Identity, args: &VariableArgs) -> (r:
        Result<(), NftError>)
        ensures
            match self@.set_variables_spec(old(variables)@, caller, args@) {
                Ok(switch) => r == Ok::<(), NftError>(()) && final(variables)@ == switch,
                Err(e) => r == Err::<(), NftError>(e) && *final(variables) == *old(variables),
            },
    {
        if !caller.same(&self.installer) {
            return Err(NftError::InvalidAccount);
        }
        if !self.is_kept_by(args) {
            return Err(NftError::ImmutableVariable);
        }
        let switch = read_switch(&args.allow_minting, variables.allow_minting)?;
        variables.allow_minting = switch;
        Ok(())
    }
}

} // verus!
