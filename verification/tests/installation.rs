use nft_registry::config::{ArgValue, InstallArgs, VariableArgs};
use nft_registry::contract::Contract;
use nft_registry::error::NftError;
use nft_registry::events::EventsMode;
use nft_registry::identifier::{IdentifierMode, TokenIdentifier};
use nft_registry::identity::Identity;
use nft_registry::ledger::OwnershipMode;
use nft_registry::metadata::MetadataKind;

const NFT_TEST_COLLECTION: &str = "nft_test";
const NFT_TEST_SYMBOL: &str = "TEST";

const DEFAULT_ACCOUNT: [u8; 32] = [199u8; 32];
const PUBLICKEY1: [u8; 32] = [1u8; 32];
const PUBLICKEY2: [u8; 32] = [2u8; 32];

struct InstallerRequestBuilder {
    account: Identity,
    collection_name: ArgValue,
    collection_symbol: ArgValue,
    total_token_supply: ArgValue,
}

impl InstallerRequestBuilder {
    fn new(account: Identity) -> Self {
        InstallerRequestBuilder {
            account,
            collection_name: ArgValue::Text("name".to_string()),
            collection_symbol: ArgValue::Text("SYM".to_string()),
            total_token_supply: ArgValue::Number(0),
        }
    }

    fn with_collection_name(mut self, collection_name: String) -> Self {
        self.collection_name = ArgValue::Text(collection_name);
        self
    }

    fn with_invalid_collection_name(mut self, collection_name: ArgValue) -> Self {
        self.collection_name = collection_name;
        self
    }

    fn with_collection_symbol(mut self, collection_symbol: String) -> Self {
        self.collection_symbol = ArgValue::Text(collection_symbol);
        self
    }

    fn with_invalid_collection_symbol(mut self, collection_symbol: ArgValue) -> Self {
        self.collection_symbol = collection_symbol;
        self
    }

    fn with_total_token_supply(mut self, total_token_supply: u64) -> Self {
        self.total_token_supply = ArgValue::Number(total_token_supply);
        self
    }

    fn with_invalid_total_token_supply(mut self, total_token_supply: ArgValue) -> Self {
        self.total_token_supply = total_token_supply;
        self
    }

    fn build(self) -> (Identity, InstallArgs) {
        let variables = VariableArgs {
            collection_name: Some(self.collection_name),
            collection_symbol: Some(self.collection_symbol),
            total_token_supply: Some(self.total_token_supply),
            allow_minting: None,
            ownership_mode: None,
            identifier_mode: None,
            metadata_kind: None,
            events_mode: None,
        };
        (self.account, InstallArgs { variables, schema: None, rules: None })
    }
}

fn install(builder: InstallerRequestBuilder) -> Result<Contract, NftError> {
    let (account, args) = builder.build();
    Contract::init(account, args)
}

fn assert_expected_invalid_installer_request(
    install_request_builder: InstallerRequestBuilder,
    expected_error_code: u16,
) {
    match install(install_request_builder) {
        Ok(_) => panic!("the installation should fail"),
        Err(error) => assert_eq!(error.code(), expected_error_code),
    }
}

fn no_variables() -> VariableArgs {
    VariableArgs {
        collection_name: None,
        collection_symbol: None,
        total_token_supply: None,
        allow_minting: None,
        ownership_mode: None,
        identifier_mode: None,
        metadata_kind: None,
        events_mode: None,
    }
}

#[test]
fn should_install_contract() {
    let install_request_builder = InstallerRequestBuilder::new(Identity::new(DEFAULT_ACCOUNT))
        .with_collection_name(NFT_TEST_COLLECTION.to_string())
        .with_collection_symbol(NFT_TEST_SYMBOL.to_string())
        .with_total_token_supply(1);
    let contract = install(install_request_builder).expect("the installation should succeed");

    assert_eq!(
        *contract.config().collection_name(),
        NFT_TEST_COLLECTION.to_string(),
        "collection_name initialized at installation should exist"
    );
    assert_eq!(
        *contract.config().collection_symbol(),
        NFT_TEST_SYMBOL.to_string(),
        "collection_symbol initialized at installation should exist"
    );
    assert_eq!(
        contract.config().total_token_supply(),
        1,
        "total_token_supply initialized at installation should exist"
    );
    assert!(contract.allow_minting());
    assert_eq!(
        contract.number_of_minted_tokens(),
        0,
        "number_of_minted_tokens initialized at installation should exist"
    );
}

#[test]
fn should_default_allow_minting() {
    // The allow_minting arg is defaulted to true if user does not provide value.
    let install_builder =
        InstallerRequestBuilder::new(Identity::new(DEFAULT_ACCOUNT)).with_total_token_supply(1);
    let contract = install(install_builder).expect("the installation should succeed");
    assert!(contract.allow_minting());
}

#[test]
fn should_reject_invalid_typed_name() {
    let install_request_builder = InstallerRequestBuilder::new(Identity::new(DEFAULT_ACCOUNT))
        .with_invalid_collection_name(ArgValue::Number(0));

    assert_expected_invalid_installer_request(install_request_builder, 18);
}

#[test]
fn should_reject_invalid_typed_symbol() {
    let install_request_builder = InstallerRequestBuilder::new(Identity::new(DEFAULT_ACCOUNT))
        .with_invalid_collection_symbol(ArgValue::Number(0));

    assert_expected_invalid_installer_request(install_request_builder, 24);
}

#[test]
fn should_reject_invalid_typed_total_token_supply() {
    let install_request_builder = InstallerRequestBuilder::new(Identity::new(DEFAULT_ACCOUNT))
        .with_invalid_total_token_supply(ArgValue::Text("".to_string()));
    assert_expected_invalid_installer_request(install_request_builder, 26);
}

#[test]
fn mint_should_increment_number_of_minted_tokens_by_one_and_add_public_key_to_token_owners() {
    let install_request_builder =
        InstallerRequestBuilder::new(Identity::new(DEFAULT_ACCOUNT)).with_total_token_supply(2);
    let mut contract = install(install_request_builder).expect("the installation should succeed");

    let minter = Identity::new(PUBLICKEY1);
    contract
        .mint(Identity::new(DEFAULT_ACCOUNT), minter, b"", None)
        .expect("the mint should succeed");

    // mint should have incremented number_of_minted_tokens by one
    assert_eq!(
        contract.number_of_minted_tokens(),
        1,
        "number_of_minted_tokens initialized at installation should have incremented by one"
    );

    // mint should add correct minter_public_key to the owners, under the key "0"
    let minter = Identity::new(PUBLICKEY1);
    let first = TokenIdentifier::Ordinal(0);
    assert_eq!(first.to_key(), 0u64.to_string());
    let minter_public_key = contract.owner_of(&first).expect("should have an owner");
    assert_eq!(minter, minter_public_key);
    assert_ne!(Identity::new(PUBLICKEY2), minter_public_key);

    // If total_token_supply is initialized to 1 the following would fail.
    contract
        .mint(Identity::new(DEFAULT_ACCOUNT), minter, b"", None)
        .expect("the mint should succeed");
}

#[test]
fn burn_should_remove_public_key_as_owner_and_modify_owned_tokens_correctly() {
    let install_request_builder =
        InstallerRequestBuilder::new(Identity::new(DEFAULT_ACCOUNT)).with_total_token_supply(2);
    let mut contract = install(install_request_builder).expect("the installation should succeed");

    let minter = Identity::new(PUBLICKEY1);
    contract
        .mint(Identity::new(DEFAULT_ACCOUNT), minter, b"", None)
        .expect("the mint should succeed");

    let first = TokenIdentifier::Ordinal(0);
    assert_eq!(contract.tokens_of(&minter), vec![first.clone()]);
    contract.burn(minter, first.clone()).expect("the burn should succeed");
    assert_eq!(contract.owner_of(&first), None);
    assert_eq!(contract.tokens_of(&minter), vec![]);
    assert_eq!(contract.balance_of(&minter), 0);
    assert!(contract.is_burnt(&first));
    assert_eq!(contract.number_of_minted_tokens(), 1);
}

#[test]
fn supply_of_zero_is_refused() {
    let builder = InstallerRequestBuilder::new(Identity::new(DEFAULT_ACCOUNT));
    assert_eq!(install(builder).err(), Some(NftError::InvalidTotalTokenSupply));
}

#[test]
fn missing_arguments_are_named() {
    let account = Identity::new(DEFAULT_ACCOUNT);
    let mut variables = no_variables();
    let args = InstallArgs { variables: variables.clone(), schema: None, rules: None };
    assert_eq!(Contract::init(account, args).err(), Some(NftError::MissingCollectionName));

    variables.collection_name = Some(ArgValue::Text("name".to_string()));
    let args = InstallArgs { variables: variables.clone(), schema: None, rules: None };
    assert_eq!(Contract::init(account, args).err(), Some(NftError::MissingCollectionSymbol));

    variables.collection_symbol = Some(ArgValue::Text("SYM".to_string()));
    let args = InstallArgs { variables: variables.clone(), schema: None, rules: None };
    assert_eq!(Contract::init(account, args).err(), Some(NftError::MissingTotalTokenSupply));

    variables.collection_name = Some(ArgValue::Text("".to_string()));
    let args = InstallArgs { variables, schema: None, rules: None };
    assert_eq!(Contract::init(account, args).err(), Some(NftError::InvalidCollectionName));
}

#[test]
fn ill_typed_modes_are_refused() {
    let account = Identity::new(DEFAULT_ACCOUNT);
    let mut base = no_variables();
    base.collection_name = Some(ArgValue::Text("name".to_string()));
    base.collection_symbol = Some(ArgValue::Text("SYM".to_string()));
    base.total_token_supply = Some(ArgValue::Number(5));

    let mut v = base.clone();
    v.allow_minting = Some(ArgValue::Number(1));
    let args = InstallArgs { variables: v, schema: None, rules: None };
    assert_eq!(Contract::init(account, args).err(), Some(NftError::InvalidAllowMinting));

    let mut v = base.clone();
    v.ownership_mode = Some(ArgValue::Number(3));
    let args = InstallArgs { variables: v, schema: None, rules: None };
    assert_eq!(Contract::init(account, args).err(), Some(NftError::InvalidOwnershipMode));

    let mut v = base.clone();
    v.identifier_mode = Some(ArgValue::Flag(true));
    let args = InstallArgs { variables: v, schema: None, rules: None };
    assert_eq!(Contract::init(account, args).err(), Some(NftError::InvalidIdentifierSetting));

    let mut v = base.clone();
    v.metadata_kind = Some(ArgValue::Number(0));
    let args = InstallArgs { variables: v, schema: None, rules: None };
    assert_eq!(Contract::init(account, args).err(), Some(NftError::InvalidMetadataKind));

    let mut v = base.clone();
    v.metadata_kind = Some(ArgValue::Number(3));
    let args = InstallArgs { variables: v, schema: None, rules: None };
    assert_eq!(Contract::init(account, args).err(), Some(NftError::InvalidMetadataKind));

    let mut v = base.clone();
    v.events_mode = Some(ArgValue::Number(9));
    let args = InstallArgs { variables: v, schema: None, rules: None };
    assert_eq!(Contract::init(account, args).err(), Some(NftError::InvalidEventsMode));
}

#[test]
fn modes_are_read_from_their_numbers() {
    let account = Identity::new(DEFAULT_ACCOUNT);
    let mut v = no_variables();
    v.collection_name = Some(ArgValue::Text("name".to_string()));
    v.collection_symbol = Some(ArgValue::Text("SYM".to_string()));
    v.total_token_supply = Some(ArgValue::Number(5));
    v.allow_minting = Some(ArgValue::Flag(false));
    v.ownership_mode = Some(ArgValue::Number(0));
    v.identifier_mode = Some(ArgValue::Number(1));
    v.metadata_kind = Some(ArgValue::Number(1));
    v.events_mode = Some(ArgValue::Number(2));
    let args = InstallArgs { variables: v, schema: None, rules: None };
    let contract = Contract::init(account, args).expect("the installation should succeed");
    assert!(!contract.allow_minting());
    assert_eq!(contract.config().ownership_mode(), OwnershipMode::Minter);
    assert_eq!(contract.config().identifier_mode(), IdentifierMode::Hash);
    assert_eq!(*contract.config().metadata_kind(), MetadataKind::Cep47);
    assert_eq!(contract.config().events_mode(), EventsMode::Cep78);
    assert_eq!(contract.config().installer(), account);
}

#[test]
fn defaults_are_transferable_ordinal_raw_and_legacy() {
    let builder =
        InstallerRequestBuilder::new(Identity::new(DEFAULT_ACCOUNT)).with_total_token_supply(3);
    let contract = install(builder).expect("the installation should succeed");
    assert_eq!(contract.config().ownership_mode(), OwnershipMode::Transferable);
    assert_eq!(contract.config().identifier_mode(), IdentifierMode::Ordinal);
    assert_eq!(*contract.config().metadata_kind(), MetadataKind::Raw);
    assert_eq!(contract.config().events_mode(), EventsMode::Cep47);
}

#[test]
fn set_variables_toggles_minting_for_the_installer_only() {
    let installer = Identity::new(DEFAULT_ACCOUNT);
    let builder = InstallerRequestBuilder::new(installer).with_total_token_supply(3);
    let mut contract = install(builder).expect("the installation should succeed");

    let mut off = no_variables();
    off.allow_minting = Some(ArgValue::Flag(false));

    let stranger = Identity::new(PUBLICKEY1);
    assert_eq!(contract.set_variables(stranger, &off), Err(NftError::InvalidAccount));
    assert!(contract.allow_minting());

    assert_eq!(contract.set_variables(installer, &off), Ok(()));
    assert!(!contract.allow_minting());
    assert_eq!(
        contract.mint(installer, installer, b"", None),
        Err(NftError::MintingDisabled)
    );
    assert_eq!(contract.number_of_minted_tokens(), 0);

    // No argument leaves the switch where it is.
    assert_eq!(contract.set_variables(installer, &no_variables()), Ok(()));
    assert!(!contract.allow_minting());

    let mut on = no_variables();
    on.allow_minting = Some(ArgValue::Flag(true));
    assert_eq!(contract.set_variables(installer, &on), Ok(()));
    assert!(contract.allow_minting());
    assert_eq!(contract.mint(installer, installer, b"", None), Ok(()));
}

#[test]
fn set_variables_keeps_what_was_fixed() {
    let installer = Identity::new(DEFAULT_ACCOUNT);
    let builder = InstallerRequestBuilder::new(installer).with_total_token_supply(3);
    let mut contract = install(builder).expect("the installation should succeed");

    // The same values are accepted.
    let mut same = no_variables();
    same.collection_name = Some(ArgValue::Text("name".to_string()));
    same.collection_symbol = Some(ArgValue::Text("SYM".to_string()));
    same.total_token_supply = Some(ArgValue::Number(3));
    same.ownership_mode = Some(ArgValue::Number(2));
    same.identifier_mode = Some(ArgValue::Number(0));
    same.metadata_kind = Some(ArgValue::Number(2));
    same.events_mode = Some(ArgValue::Number(0));
    same.allow_minting = Some(ArgValue::Flag(false));
    assert_eq!(contract.set_variables(installer, &same), Ok(()));
    assert!(!contract.allow_minting());

    // Another value for any of them is refused, and nothing changes.
    let mut other = no_variables();
    other.collection_name = Some(ArgValue::Text("Austin".to_string()));
    other.allow_minting = Some(ArgValue::Flag(true));
    assert_eq!(contract.set_variables(installer, &other), Err(NftError::ImmutableVariable));
    assert!(!contract.allow_minting());
    assert_eq!(*contract.config().collection_name(), "name".to_string());

    let mut other = no_variables();
    other.total_token_supply = Some(ArgValue::Number(4));
    assert_eq!(contract.set_variables(installer, &other), Err(NftError::ImmutableVariable));

    let mut other = no_variables();
    other.ownership_mode = Some(ArgValue::Number(0));
    assert_eq!(contract.set_variables(installer, &other), Err(NftError::ImmutableVariable));

    let mut other = no_variables();
    other.events_mode = Some(ArgValue::Text("0".to_string()));
    assert_eq!(contract.set_variables(installer, &other), Err(NftError::ImmutableVariable));

    let mut bad = no_variables();
    bad.allow_minting = Some(ArgValue::Text("yes".to_string()));
    assert_eq!(contract.set_variables(installer, &bad), Err(NftError::InvalidAllowMinting));
    assert!(!contract.allow_minting());
}
