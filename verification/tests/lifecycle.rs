use nft_registry::config::{ArgValue, InstallArgs, VariableArgs};
use nft_registry::contract::Contract;
use nft_registry::error::{MetadataError, NftError};
use nft_registry::identifier::TokenIdentifier;
use nft_registry::identity::Identity;
use nft_registry::metadata::{MetadataSchema, PrimitiveType, Property, StructuredMetadata};
use nft_registry::notation::{Field, FieldValue};

fn variables(supply: u64) -> VariableArgs {
    VariableArgs {
        collection_name: Some(ArgValue::Text("nft_test".to_string())),
        collection_symbol: Some(ArgValue::Text("TEST".to_string())),
        total_token_supply: Some(ArgValue::Number(supply)),
        allow_minting: None,
        ownership_mode: None,
        identifier_mode: None,
        metadata_kind: None,
        events_mode: None,
    }
}

fn sorted(mut ids: Vec<TokenIdentifier>) -> Vec<String> {
    let mut keys: Vec<String> = ids.drain(..).map(|id| id.to_key()).collect();
    keys.sort();
    keys
}

#[test]
fn two_mints_a_transfer_a_burn_and_a_mint_too_many() {
    let minter = Identity::new([7u8; 32]);
    let second = Identity::new([9u8; 32]);
    let mut v = variables(2);
    v.ownership_mode = Some(ArgValue::Number(2));
    v.identifier_mode = Some(ArgValue::Number(0));
    let mut contract = Contract::init(minter, InstallArgs { variables: v, schema: None, rules: None })
        .expect("the installation should succeed");

    assert_eq!(contract.mint(minter, minter, b"first", None), Ok(()));
    assert_eq!(contract.mint(minter, minter, b"second", None), Ok(()));
    let zero = TokenIdentifier::Ordinal(0);
    let one = TokenIdentifier::Ordinal(1);
    assert_eq!(contract.owner_of(&zero), Some(minter));
    assert_eq!(contract.owner_of(&one), Some(minter));
    assert_eq!(sorted(contract.tokens_of(&minter)), vec!["0".to_string(), "1".to_string()]);
    assert_eq!(contract.number_of_minted_tokens(), 2);

    assert_eq!(contract.transfer(minter, second, zero.clone()), Ok(()));
    assert_eq!(contract.tokens_of(&minter), vec![one.clone()]);
    assert_eq!(contract.tokens_of(&second), vec![zero.clone()]);
    assert_eq!(contract.owner_of(&zero), Some(second));

    assert_eq!(contract.burn(minter, one.clone()), Ok(()));
    assert_eq!(contract.tokens_of(&minter), vec![]);
    assert!(contract.is_burnt(&one));
    assert!(!contract.is_burnt(&zero));
    assert_eq!(contract.owner_of(&one), None);

    assert_eq!(contract.mint(minter, minter, b"third", None), Err(NftError::SupplyExceeded));
    assert_eq!(contract.number_of_minted_tokens(), 2);
    assert_eq!(contract.tokens_of(&minter), vec![]);
    assert_eq!(contract.tokens_of(&second), vec![zero.clone()]);
    assert_eq!(contract.events().cep47().len(), 4);
}

fn name_schema() -> MetadataSchema {
    MetadataSchema {
        properties: vec![
            Property {
                name: b"name".to_vec(),
                kind: PrimitiveType::Text,
                required: true,
                mutable: false,
            },
            Property {
                name: b"level".to_vec(),
                kind: PrimitiveType::Number,
                required: false,
                mutable: true,
            },
        ],
        allow_extensions: false,
        allow_names: false,
    }
}

#[test]
fn a_required_immutable_name() {
    let minter = Identity::new([7u8; 32]);
    let mut v = variables(5);
    v.metadata_kind = Some(ArgValue::Number(0));
    let args = InstallArgs { variables: v, schema: Some(name_schema()), rules: None };
    let mut contract = Contract::init(minter, args).expect("the installation should succeed");

    // Without the name the mint fails and nothing is registered.
    assert_eq!(
        contract.mint(minter, minter, br#"{"level": 3}"#, None),
        Err(NftError::Metadata(MetadataError::MissingRequiredField))
    );
    assert_eq!(contract.number_of_minted_tokens(), 0);
    assert_eq!(contract.owner_of(&TokenIdentifier::Ordinal(0)), None);
    assert_eq!(contract.tokens_of(&minter), vec![]);
    assert!(contract.metadata_of(&TokenIdentifier::Ordinal(0)).is_none());
    assert_eq!(contract.events().cep47().len(), 0);

    // With the name it succeeds.
    assert_eq!(contract.mint(minter, minter, br#"{"name": "Ada", "level": 3}"#, None), Ok(()));
    let token = TokenIdentifier::Ordinal(0);
    assert_eq!(contract.owner_of(&token), Some(minter));
    let kept = contract.metadata_of(&token).expect("metadata should be kept");
    assert!(!kept.inert);
    assert_eq!(
        kept.data,
        StructuredMetadata::Record(vec![
            Field { name: b"name".to_vec(), value: FieldValue::Text(b"Ada".to_vec()) },
            Field { name: b"level".to_vec(), value: FieldValue::Number(3) },
        ])
    );

    // The name cannot be edited later, nor dropped.
    assert_eq!(
        contract.set_token_metadata(minter, token.clone(), br#"{"name": "Eve", "level": 3}"#),
        Err(NftError::ForbiddenMetadataUpdate)
    );
    assert_eq!(
        contract.set_token_metadata(minter, token.clone(), br#"{"level": 4}"#),
        Err(NftError::Metadata(MetadataError::MissingRequiredField))
    );
    let kept = contract.metadata_of(&token).expect("metadata should be kept");
    assert_eq!(
        kept.data,
        StructuredMetadata::Record(vec![
            Field { name: b"name".to_vec(), value: FieldValue::Text(b"Ada".to_vec()) },
            Field { name: b"level".to_vec(), value: FieldValue::Number(3) },
        ])
    );

    // A mutable property can change while the name stays.
    assert_eq!(
        contract.set_token_metadata(minter, token.clone(), br#"{"level": 4, "name": "Ada"}"#),
        Ok(())
    );
    let kept = contract.metadata_of(&token).expect("metadata should be kept");
    assert_eq!(
        kept.data,
        StructuredMetadata::Record(vec![
            Field { name: b"level".to_vec(), value: FieldValue::Number(4) },
            Field { name: b"name".to_vec(), value: FieldValue::Text(b"Ada".to_vec()) },
        ])
    );

    // Only the owner may edit.
    let stranger = Identity::new([8u8; 32]);
    assert_eq!(
        contract.set_token_metadata(stranger, token.clone(), br#"{"name": "Ada"}"#),
        Err(NftError::NotOwner)
    );
    assert_eq!(contract.events().cep47().len(), 2);
}

#[test]
fn metadata_is_kept_for_a_burnt_token_and_marked_inert() {
    let minter = Identity::new([7u8; 32]);
    let mut contract =
        Contract::init(minter, InstallArgs { variables: variables(3), schema: None, rules: None })
            .expect("the installation should succeed");
    assert_eq!(contract.mint(minter, minter, b"blob", None), Ok(()));
    let token = TokenIdentifier::Ordinal(0);
    assert_eq!(contract.burn(minter, token.clone()), Ok(()));
    let kept = contract.metadata_of(&token).expect("metadata should be kept");
    assert!(kept.inert);
    assert_eq!(kept.data, StructuredMetadata::Raw(b"blob".to_vec()));

    // A burnt token is gone for good.
    assert_eq!(contract.burn(minter, token.clone()), Err(NftError::NotOwner));
    assert_eq!(contract.transfer(minter, minter, token.clone()), Err(NftError::NotOwner));
    assert_eq!(contract.set_token_metadata(minter, token.clone(), b"x"), Err(NftError::NotOwner));
    assert_eq!(contract.mint(minter, minter, b"next", None), Ok(()));
    assert!(contract.is_burnt(&token));
    assert_eq!(contract.owner_of(&token), None);
    assert_eq!(contract.tokens_of(&minter), vec![TokenIdentifier::Ordinal(1)]);
    assert_eq!(contract.number_of_minted_tokens(), 2);
}

#[test]
fn transfer_by_a_stranger_changes_nothing() {
    let minter = Identity::new([7u8; 32]);
    let stranger = Identity::new([8u8; 32]);
    let mut contract =
        Contract::init(minter, InstallArgs { variables: variables(3), schema: None, rules: None })
            .expect("the installation should succeed");
    assert_eq!(contract.mint(minter, minter, b"", None), Ok(()));
    let token = TokenIdentifier::Ordinal(0);
    assert_eq!(contract.transfer(stranger, stranger, token.clone()), Err(NftError::NotOwner));
    assert_eq!(contract.owner_of(&token), Some(minter));
    assert_eq!(contract.tokens_of(&minter), vec![token.clone()]);
    assert_eq!(contract.tokens_of(&stranger), vec![]);
    // Nor does a transfer of a token that was never minted.
    assert_eq!(
        contract.transfer(minter, stranger, TokenIdentifier::Ordinal(1)),
        Err(NftError::NotOwner)
    );
    assert_eq!(
        contract.transfer(minter, stranger, TokenIdentifier::Hash("0".to_string())),
        Err(NftError::NotOwner)
    );
    assert_eq!(contract.events().cep47().len(), 1);
}

#[test]
fn tokens_stay_put_unless_transferable() {
    let minter = Identity::new([7u8; 32]);
    let other = Identity::new([8u8; 32]);
    for mode in [0u64, 1u64] {
        let mut v = variables(3);
        v.ownership_mode = Some(ArgValue::Number(mode));
        let mut contract =
            Contract::init(minter, InstallArgs { variables: v, schema: None, rules: None })
                .expect("the installation should succeed");
        assert_eq!(contract.mint(minter, minter, b"", None), Ok(()));
        let token = TokenIdentifier::Ordinal(0);
        assert_eq!(contract.transfer(minter, other, token.clone()), Err(NftError::TransferDisabled));
        assert_eq!(contract.transfer(other, minter, token.clone()), Err(NftError::NotOwner));
        assert_eq!(contract.owner_of(&token), Some(minter));
    }
}

#[test]
fn a_minter_mints_for_itself_only() {
    let minter = Identity::new([7u8; 32]);
    let other = Identity::new([8u8; 32]);
    let mut v = variables(3);
    v.ownership_mode = Some(ArgValue::Number(0));
    let mut contract = Contract::init(minter, InstallArgs { variables: v, schema: None, rules: None })
        .expect("the installation should succeed");
    assert_eq!(contract.mint(minter, other, b"", None), Err(NftError::OwnerNotMinter));
    assert_eq!(contract.mint(other, other, b"", None), Ok(()));
    assert_eq!(contract.owner_of(&TokenIdentifier::Ordinal(0)), Some(other));

    // Where tokens are assigned, the minter picks the owner.
    let mut v = variables(3);
    v.ownership_mode = Some(ArgValue::Number(1));
    let mut contract = Contract::init(minter, InstallArgs { variables: v, schema: None, rules: None })
        .expect("the installation should succeed");
    assert_eq!(contract.mint(minter, other, b"", None), Ok(()));
    assert_eq!(contract.owner_of(&TokenIdentifier::Ordinal(0)), Some(other));
}

#[test]
fn a_transfer_to_oneself_keeps_the_token() {
    let minter = Identity::new([7u8; 32]);
    let mut contract =
        Contract::init(minter, InstallArgs { variables: variables(3), schema: None, rules: None })
            .expect("the installation should succeed");
    assert_eq!(contract.mint(minter, minter, b"", None), Ok(()));
    let token = TokenIdentifier::Ordinal(0);
    assert_eq!(contract.transfer(minter, minter, token.clone()), Ok(()));
    assert_eq!(contract.owner_of(&token), Some(minter));
    assert_eq!(contract.tokens_of(&minter), vec![token.clone()]);
    assert_eq!(contract.balance_of(&minter), 1);
}

#[test]
fn hash_identifiers_come_from_the_metadata() {
    let minter = Identity::new([7u8; 32]);
    let mut v = variables(5);
    v.identifier_mode = Some(ArgValue::Number(1));
    let mut contract = Contract::init(minter, InstallArgs { variables: v, schema: None, rules: None })
        .expect("the installation should succeed");
    assert_eq!(contract.mint(minter, minter, b"foobar", None), Ok(()));
    let token = TokenIdentifier::Hash("85944171f73967e8".to_string());
    assert_eq!(contract.owner_of(&token), Some(minter));
    assert_eq!(contract.tokens_of(&minter), vec![token.clone()]);

    // The same content gives the same identifier, which is taken.
    assert_eq!(contract.mint(minter, minter, b"foobar", None), Err(NftError::DuplicateIdentifier));
    assert_eq!(contract.number_of_minted_tokens(), 1);
    // Even after a burn.
    assert_eq!(contract.burn(minter, token.clone()), Ok(()));
    assert_eq!(contract.mint(minter, minter, b"foobar", None), Err(NftError::DuplicateIdentifier));
    // Raw metadata has no schema that could allow a name.
    assert_eq!(
        contract.mint(minter, minter, b"other", Some("mine".to_string())),
        Err(NftError::InvalidTokenIdentifier)
    );
    assert_eq!(contract.mint(minter, minter, b"", None), Ok(()));
    assert_eq!(
        contract.owner_of(&TokenIdentifier::Hash("cbf29ce484222325".to_string())),
        Some(minter)
    );
}

#[test]
fn a_schema_may_allow_names() {
    let minter = Identity::new([7u8; 32]);
    let mut schema = name_schema();
    schema.allow_names = true;
    let mut v = variables(5);
    v.identifier_mode = Some(ArgValue::Number(1));
    v.metadata_kind = Some(ArgValue::Number(0));
    let args = InstallArgs { variables: v, schema: Some(schema.clone()), rules: None };
    let mut contract = Contract::init(minter, args).expect("the installation should succeed");
    let raw = br#"{"name": "Ada"}"#;
    assert_eq!(contract.mint(minter, minter, raw, Some("first".to_string())), Ok(()));
    assert_eq!(contract.owner_of(&TokenIdentifier::Hash("first".to_string())), Some(minter));
    assert_eq!(
        contract.mint(minter, minter, raw, Some("first".to_string())),
        Err(NftError::DuplicateIdentifier)
    );
    assert_eq!(
        contract.mint(minter, minter, raw, Some("".to_string())),
        Err(NftError::InvalidTokenIdentifier)
    );
    assert_eq!(contract.mint(minter, minter, raw, Some("second".to_string())), Ok(()));

    // In ordinal mode a name is an identifier of the wrong variant.
    let mut v = variables(5);
    v.metadata_kind = Some(ArgValue::Number(0));
    let args = InstallArgs { variables: v, schema: Some(schema), rules: None };
    let mut contract = Contract::init(minter, args).expect("the installation should succeed");
    assert_eq!(
        contract.mint(minter, minter, raw, Some("first".to_string())),
        Err(NftError::InvalidIdentifierMode)
    );
    assert_eq!(contract.number_of_minted_tokens(), 0);
}

#[test]
fn supply_is_checked_before_anything_else() {
    let minter = Identity::new([7u8; 32]);
    let other = Identity::new([8u8; 32]);
    let mut v = variables(1);
    v.ownership_mode = Some(ArgValue::Number(0));
    v.metadata_kind = Some(ArgValue::Number(1));
    let mut contract = Contract::init(minter, InstallArgs { variables: v, schema: None, rules: None })
        .expect("the installation should succeed");
    assert_eq!(contract.mint(minter, minter, b"{}", None), Ok(()));
    let mut off = VariableArgs {
        collection_name: None,
        collection_symbol: None,
        total_token_supply: None,
        allow_minting: Some(ArgValue::Flag(false)),
        ownership_mode: None,
        identifier_mode: None,
        metadata_kind: None,
        events_mode: None,
    };
    assert_eq!(contract.set_variables(minter, &off), Ok(()));
    // Everything is wrong with this mint; the supply is reported.
    assert_eq!(
        contract.mint(minter, other, b"not a record", Some("x".to_string())),
        Err(NftError::SupplyExceeded)
    );
    off.allow_minting = Some(ArgValue::Flag(true));
    assert_eq!(contract.set_variables(minter, &off), Ok(()));
    assert_eq!(contract.mint(minter, minter, b"{}", None), Err(NftError::SupplyExceeded));
    assert_eq!(contract.number_of_minted_tokens(), 1);
}
