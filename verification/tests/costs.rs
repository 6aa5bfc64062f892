use nft_registry::config::{ArgValue, InstallArgs, VariableArgs};
use nft_registry::contract::Contract;
use nft_registry::identifier::TokenIdentifier;
use nft_registry::identity::Identity;

const NFT_TEST_COLLECTION: &str = "nft-test";
const NFT_TEST_SYMBOL: &str = "TEST";

const DEFAULT_ACCOUNT: [u8; 32] = [199u8; 32];
const DEFAULT_PROPOSER: [u8; 32] = [198u8; 32];

const OWNERSHIP_MINTER: u64 = 0;
const OWNERSHIP_TRANSFERABLE: u64 = 2;
const IDENTIFIER_ORDINAL: u64 = 0;
const METADATA_RAW: u64 = 2;

struct InstallerRequestBuilder {
    account: Identity,
    variables: VariableArgs,
}

impl InstallerRequestBuilder {
    fn new(account: Identity) -> Self {
        InstallerRequestBuilder {
            account,
            variables: VariableArgs {
                collection_name: None,
                collection_symbol: None,
                total_token_supply: None,
                allow_minting: None,
                ownership_mode: None,
                identifier_mode: None,
                metadata_kind: None,
                events_mode: None,
            },
        }
    }

    fn with_collection_name(mut self, collection_name: String) -> Self {
        self.variables.collection_name = Some(ArgValue::Text(collection_name));
        self
    }

    fn with_collection_symbol(mut self, collection_symbol: String) -> Self {
        self.variables.collection_symbol = Some(ArgValue::Text(collection_symbol));
        self
    }

    fn with_total_token_supply(mut self, total_token_supply: u64) -> Self {
        self.variables.total_token_supply = Some(ArgValue::Number(total_token_supply));
        self
    }

    fn with_ownership_mode(mut self, ownership_mode: u64) -> Self {
        self.variables.ownership_mode = Some(ArgValue::Number(ownership_mode));
        self
    }

    fn with_identifier_mode(mut self, identifier_mode: u64) -> Self {
        self.variables.identifier_mode = Some(ArgValue::Number(identifier_mode));
        self
    }

    fn with_nft_metadata_kind(mut self, metadata_kind: u64) -> Self {
        self.variables.metadata_kind = Some(ArgValue::Number(metadata_kind));
        self
    }

    fn build(self) -> Contract {
        let args = InstallArgs { variables: self.variables, schema: None, rules: None };
        Contract::init(self.account, args).expect("the installation should succeed")
    }
}

/// How much a collection holds: the tokens that were minted, the entries of
/// its holdings, and the events that were recorded. What a call costs is
/// what it adds to these.
fn size(contract: &Contract, people: &[Identity]) -> usize {
    let events = contract.events();
    let held: usize = people.iter().map(|who| contract.balance_of(who)).sum();
    contract.number_of_minted_tokens() as usize
        + held
        + events.cep47().len()
        + events.cep47_dictionary().len()
        + events.cep78().len()
}

#[test]
fn mint_cost_should_remain_stable() {
    let account = Identity::new(DEFAULT_ACCOUNT);
    let mut contract = InstallerRequestBuilder::new(account)
        .with_collection_name(NFT_TEST_COLLECTION.to_string())
        .with_collection_symbol(NFT_TEST_SYMBOL.to_string())
        .with_total_token_supply(100u64)
        .with_ownership_mode(OWNERSHIP_MINTER)
        .with_identifier_mode(IDENTIFIER_ORDINAL)
        .with_nft_metadata_kind(METADATA_RAW)
        .build();

    contract.mint(account, account, b"", None).expect("the first mint should succeed");

    let before = size(&contract, &[account]);
    contract.mint(account, account, b"", None).expect("the second mint should succeed");
    let second_mint_costs = size(&contract, &[account]) - before;

    let before = size(&contract, &[account]);
    contract.mint(account, account, b"", None).expect("the third mint should succeed");
    let third_mint_costs = size(&contract, &[account]) - before;

    assert_eq!(second_mint_costs, third_mint_costs);
}

#[test]
fn transfer_costs_should_remain_stable() {
    let account = Identity::new(DEFAULT_ACCOUNT);
    let target = Identity::new([9u8; 32]);
    let mut contract = InstallerRequestBuilder::new(account)
        .with_collection_name(NFT_TEST_COLLECTION.to_string())
        .with_collection_symbol(NFT_TEST_SYMBOL.to_string())
        .with_total_token_supply(100u64)
        .with_ownership_mode(OWNERSHIP_TRANSFERABLE)
        .with_identifier_mode(IDENTIFIER_ORDINAL)
        .with_nft_metadata_kind(METADATA_RAW)
        .build();

    for _ in 0..3 {
        contract.mint(account, account, b"", None).expect("the mint should succeed");
    }

    contract
        .transfer(account, target, TokenIdentifier::Ordinal(0))
        .expect("the first transfer should succeed");

    let before = size(&contract, &[account, target]);
    contract
        .transfer(account, target, TokenIdentifier::Ordinal(1))
        .expect("the second transfer should succeed");
    let second_transfer_cost = size(&contract, &[account, target]) - before;

    let before = size(&contract, &[account, target]);
    contract
        .transfer(account, target, TokenIdentifier::Ordinal(2))
        .expect("the third transfer should succeed");
    let third_transfer_cost = size(&contract, &[account, target]) - before;

    assert_eq!(second_transfer_cost, third_transfer_cost);
    assert_eq!(contract.balance_of(&target), 3);
    assert_eq!(contract.balance_of(&account), 0);
}

#[test]
fn should_have_same_costs_for_mint_with_different_total_supply() {
    let account = Identity::new(DEFAULT_ACCOUNT);
    let proposer = Identity::new(DEFAULT_PROPOSER);
    let mut contract_10000 = InstallerRequestBuilder::new(account)
        .with_collection_name(NFT_TEST_COLLECTION.to_string())
        .with_collection_symbol(NFT_TEST_SYMBOL.to_string())
        .with_total_token_supply(10000u64)
        .with_ownership_mode(OWNERSHIP_TRANSFERABLE)
        .with_identifier_mode(IDENTIFIER_ORDINAL)
        .with_nft_metadata_kind(METADATA_RAW)
        .build();

    let mut contract_100 = InstallerRequestBuilder::new(proposer)
        .with_collection_name(NFT_TEST_COLLECTION.to_string())
        .with_collection_symbol(NFT_TEST_SYMBOL.to_string())
        .with_total_token_supply(100u64)
        .with_ownership_mode(OWNERSHIP_TRANSFERABLE)
        .with_identifier_mode(IDENTIFIER_ORDINAL)
        .with_nft_metadata_kind(METADATA_RAW)
        .build();

    let before = size(&contract_10000, &[account]);
    contract_10000.mint(account, account, b"", None).expect("the mint should succeed");
    let mint_execution_cost = size(&contract_10000, &[account]) - before;

    let before = size(&contract_100, &[proposer]);
    contract_100.mint(proposer, proposer, b"", None).expect("the mint should succeed");
    let other_mint_execution_cost = size(&contract_100, &[proposer]) - before;

    assert_eq!(mint_execution_cost, other_mint_execution_cost);
}
