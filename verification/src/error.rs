//! The conditions under which an operation of the contract fails, and the
//! number under which the host reports each of them to the caller.

use vstd::prelude::*;

verus! {

/// Why a token's metadata was not accepted.
#[derive(Clone, Copy, Debug, PartialEq, Eq, Structural)]
pub enum MetadataError {
    /// The bytes are not a well-formed record.
    InvalidFormat,
    /// A field that must be present is absent.
    MissingRequiredField,
    /// A field holds a value of another primitive type than was declared.
    TypeMismatch,
    /// A field is present that was not declared.
    UnknownField,
}

/// Why an operation of the contract was refused.
#[derive(Clone, Copy, Debug, PartialEq, Eq, Structural)]
pub enum NftError {
    /// The caller may not change the collection's variables.
    InvalidAccount,
    /// The identity does not currently own the token.
    NotOwner,
    /// The identifier has an owner already, or was burnt.
    DuplicateIdentifier,
    /// No collection name was given at installation.
    MissingCollectionName,
    /// The collection name is not a non-empty text.
    InvalidCollectionName,
    /// No collection symbol was given at installation.
    MissingCollectionSymbol,
    /// The collection symbol is not a non-empty text.
    InvalidCollectionSymbol,
    /// No total token supply was given at installation.
    MissingTotalTokenSupply,
    /// The total token supply is not a number of at least one.
    InvalidTotalTokenSupply,
    /// A name was supplied as identifier where none may be, or an empty one.
    InvalidTokenIdentifier,
    /// As many tokens were minted as the collection may ever hold.
    SupplyExceeded,
    /// In a collection whose tokens stay with their minter, a token was to
    /// be minted for somebody else.
    OwnerNotMinter,
    /// The minting switch is not a flag.
    InvalidAllowMinting,
    /// Minting is switched off.
    MintingDisabled,
    /// The ownership mode is not a number that names one.
    InvalidOwnershipMode,
    /// The collection's ownership mode forbids transfers.
    TransferDisabled,
    /// The metadata kind is not a number that names one, or what the kind
    /// needs to go with it (a schema, a rule set) was not given.
    InvalidMetadataKind,
    /// The identifier mode is not a number that names one.
    InvalidIdentifierSetting,
    /// An identifier of one variant was used where the collection's
    /// identifier mode asks for the other.
    InvalidIdentifierMode,
    /// The event standard is not a number that names one.
    InvalidEventsMode,
    /// A variable that is fixed at installation was supplied again with
    /// another value.
    ImmutableVariable,
    /// The new metadata changes a field that was declared immutable.
    ForbiddenMetadataUpdate,
    /// The metadata was not accepted.
    Metadata(MetadataError),
}

impl MetadataError {
    /// The number under which the host reports this condition.
    pub open spec fn spec_code(self) -> u16 {
        match self {
            MetadataError::InvalidFormat => 86,
            MetadataError::MissingRequiredField => 87,
            MetadataError::TypeMismatch => 88,
            MetadataError::UnknownField => 89,
        }
    }

    /// The number under which the host reports this condition.
    #[verifier::when_used_as_spec(spec_code)]
    pub fn code(self) -> (c: u16)
        ensures
            c == self.spec_code(),
    {
        match self {
            MetadataError::InvalidFormat => 86,
            MetadataError::MissingRequiredField => 87,
            MetadataError::TypeMismatch => 88,
            MetadataError::UnknownField => 89,
        }
    }
}

impl NftError {
    /// The number under which the host reports this condition.
    pub open spec fn spec_code(self) -> u16 {
        match self {
            NftError::InvalidAccount => 1,
            NftError::NotOwner => 6,
            NftError::DuplicateIdentifier => 15,
            NftError::MissingCollectionName => 17,
            NftError::InvalidCollectionName => 18,
            NftError::MissingCollectionSymbol => 23,
            NftError::InvalidCollectionSymbol => 24,
            NftError::MissingTotalTokenSupply => 25,
            NftError::InvalidTotalTokenSupply => 26,
            NftError::InvalidTokenIdentifier => 28,
            NftError::SupplyExceeded => 32,
            NftError::OwnerNotMinter => 36,
            NftError::InvalidAllowMinting => 43,
            NftError::MintingDisabled => 58,
            NftError::InvalidOwnershipMode => 62,
            NftError::TransferDisabled => 63,
            NftError::InvalidMetadataKind => 96,
            NftError::InvalidIdentifierSetting => 97,
            NftError::InvalidIdentifierMode => 98,
            NftError::InvalidEventsMode => 99,
            NftError::ImmutableVariable => 100,
            NftError::ForbiddenMetadataUpdate => 104,
            NftError::Metadata(e) => e.spec_code(),
        }
    }

    /// The number under which the host reports this condition.
    #[verifier::when_used_as_spec(spec_code)]
    pub fn code(self) -> (c: u16)
        ensures
            c == self.spec_code(),
    {
        match self {
            NftError::InvalidAccount => 1,
            NftError::NotOwner => 6,
            NftError::DuplicateIdentifier => 15,
            NftError::MissingCollectionName => 17,
            NftError::InvalidCollectionName => 18,
            NftError::MissingCollectionSymbol => 23,
            NftError::InvalidCollectionSymbol => 24,
            NftError::MissingTotalTokenSupply => 25,
            NftError::InvalidTotalTokenSupply => 26,
            NftError::InvalidTokenIdentifier => 28,
            NftError::SupplyExceeded => 32,
            NftError::OwnerNotMinter => 36,
            NftError::InvalidAllowMinting => 43,
            NftError::MintingDisabled => 58,
            NftError::InvalidOwnershipMode => 62,
            NftError::TransferDisabled => 63,
            NftError::InvalidMetadataKind => 96,
            NftError::InvalidIdentifierSetting => 97,
            NftError::InvalidIdentifierMode => 98,
            NftError::InvalidEventsMode => 99,
            NftError::ImmutableVariable => 100,
            NftError::ForbiddenMetadataUpdate => 104,
            NftError::Metadata(e) => e.code(),
        }
    }

    /// No two conditions are reported under the same number.
    pub proof fn lemma_codes_distinct(a: NftError, b: NftError)
        requires
            a.spec_code() == b.spec_code(),
        ensures
            a == b,
    {
    }
}

} // verus!
