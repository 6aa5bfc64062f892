//! The events of the legacy standard: flat records of named texts.

use vstd::prelude::*;

use crate::identifier::{TokenId, TokenIdentifier};
use crate::identity::Identity;
use crate::text::{decimal, decimal_text};

verus! {

/// An event in the vocabulary of the legacy standard.
#[derive(Clone, Debug, PartialEq, Eq)]
pub enum CEP47Event {
    /// A token was minted for `recipient`.
    Mint { recipient: Identity, token_id: TokenIdentifier },
    /// `owner` burnt a token.
    Burn { owner: Identity, token_id: TokenIdentifier },
    /// `owner` allowed `spender` to transfer a token.
    ApprovalGranted { owner: Identity, spender: Identity, token_id: TokenIdentifier },
    /// A token passed from `sender` to `recipient`.
    Transfer { sender: Identity, recipient: Identity, token_id: TokenIdentifier },
    /// A token got other metadata.
    MetadataUpdate { token_id: TokenIdentifier },
}

/// What an event of the legacy standard stands for.
pub enum CEP47EventView {
    /// A token was minted for `recipient`.
    Mint { recipient: Identity, token_id: TokenId },
    /// `owner` burnt a token.
    Burn { owner: Identity, token_id: TokenId },
    /// `owner` allowed `spender` to transfer a token.
    ApprovalGranted { owner: Identity, spender: Identity, token_id: TokenId },
    /// A token passed from `sender` to `recipient`.
    Transfer { sender: Identity, recipient: Identity, token_id: TokenId },
    /// A token got other metadata.
    MetadataUpdate { token_id: TokenId },
}

impl View for CEP47Event {
    type V = CEP47EventView;

    open spec fn view(&self) -> CEP47EventView {
        match self {
            CEP47Event::Mint { recipient, token_id } => CEP47EventView::Mint {
                recipient: *recipient,
                token_id: token_id@,
            },
            CEP47Event::Burn { owner, token_id } => CEP47EventView::Burn {
                owner: *owner,
                token_id: token_id@,
            },
            CEP47Event::ApprovalGranted { owner, spender, token_id } => {
                CEP47EventView::ApprovalGranted {
                    owner: *owner,
                    spender: *spender,
                    token_id: token_id@,
                }
            },
            CEP47Event::Transfer { sender, recipient, token_id } => CEP47EventView::Transfer {
                sender: *sender,
                recipient: *recipient,
                token_id: token_id@,
            },
            CEP47Event::MetadataUpdate { token_id } => CEP47EventView::MetadataUpdate {
                token_id: token_id@,
            },
        }
    }
}

/// A named text of a flat record.
#[derive(Clone, Debug, PartialEq, Eq)]
pub struct FlatField {
    /// The name.
    pub name: String,
    /// The text.
    pub value: String,
}

impl View for FlatField {
    type V = (Seq<char>, Seq<char>);

    open spec fn view(&self) -> (Seq<char>, Seq<char>) {
        (self.name@, self.value@)
    }
}

/// A record of the flat schema.
#[derive(Clone, Debug, PartialEq, Eq)]
pub struct FlatRecord {
    /// The named texts, in the order of the schema.
    pub fields: Vec<FlatField>,
}

impl View for FlatRecord {
    type V = Seq<(Seq<char>, Seq<char>)>;

    open spec fn view(&self) -> Seq<(Seq<char>, Seq<char>)> {
        self.fields@.map_values(|f: FlatField| f@)
    }
}

/// A slot of the event dictionary: a record under its key.
#[derive(Clone, Debug, PartialEq, Eq)]
pub struct Slot {
    /// The key of the slot.
    pub key: String,
    /// The record in the slot.
    pub record: FlatRecord,
}

impl View for Slot {
    type V = (Seq<char>, Seq<(Seq<char>, Seq<char>)>);

    open spec fn view(&self) -> (Seq<char>, Seq<(Seq<char>, Seq<char>)>) {
        (self.key@, self.record@)
    }
}

/// What a list of records stands for.
pub open spec fn records_view(records: Seq<FlatRecord>) -> Seq<Seq<(Seq<char>, Seq<char>)>> {
    records.map_values(|r: FlatRecord| r@)
}

/// What a list of slots stands for.
pub open spec fn slots_view(slots: Seq<Slot>) -> Seq<(Seq<char>, Seq<(Seq<char>, Seq<char>)>)> {
    slots.map_values(|s: Slot| s@)
}

impl CEP47EventView {
    /// The record that the flat schema has for this event: the type of the
    /// event first, then the accounts that took part, then the token, each
    /// under its canonical key.
    pub open spec fn flat(self) -> Seq<(Seq<char>, Seq<char>)> {
        match self {
            CEP47EventView::Mint { recipient, token_id } => seq![
                ("event_type"@, "cep47_mint_one"@),
                ("recipient"@, recipient.canonical_key()),
                ("token_id"@, token_id.canonical_key()),
            ],
            CEP47EventView::Burn { owner, token_id } => seq![
                ("event_type"@, "cep47_burn_one"@),
                ("owner"@, owner.canonical_key()),
                ("token_id"@, token_id.canonical_key()),
            ],
            CEP47EventView::ApprovalGranted { owner, spender, token_id } => seq![
                ("event_type"@, "cep47_approve_token"@),
                ("owner"@, owner.canonical_key()),
                ("spender"@, spender.canonical_key()),
                ("token_id"@, token_id.canonical_key()),
            ],
            CEP47EventView::Transfer { sender, recipient, token_id } => seq![
                ("event_type"@, "cep47_transfer_token"@),
                ("sender"@, sender.canonical_key()),
                ("recipient"@, recipient.canonical_key()),
                ("token_id"@, token_id.canonical_key()),
            ],
            CEP47EventView::MetadataUpdate { token_id } => seq![
                ("event_type"@, "cep47_metadata_update"@),
                ("token_id"@, token_id.canonical_key()),
            ],
        }
    }
}

/// A named text.
fn field(name: &str, value: String) -> (f: FlatField)
    ensures
        f@ == (name@, value@),
{
    FlatField { name: name.to_owned(), value }
}

/// Writes `event` as a record of the flat schema.
pub fn serialize(event: &CEP47Event) -> (record: FlatRecord)
    ensures
        record@ == event@.flat(),
{
    let mut fields: Vec<FlatField> = Vec::new();
    match event {
        CEP47Event::Mint { recipient, token_id } => {
            fields.push(field("event_type", "cep47_mint_one".to_owned()));
            fields.push(field("recipient", recipient.to_key()));
            fields.push(field("token_id", token_id.to_key()));
        },
        CEP47Event::Burn { owner, token_id } => {
            fields.push(field("event_type", "cep47_burn_one".to_owned()));
            fields.push(field("owner", owner.to_key()));
            fields.push(field("token_id", token_id.to_key()));
        },
        CEP47Event::ApprovalGranted { owner, spender, token_id } => {
            fields.push(field("event_type", "cep47_approve_token".to_owned()));
            fields.push(field("owner", owner.to_key()));
            fields.push(field("spender", spender.to_key()));
            fields.push(field("token_id", token_id.to_key()));
        },
        CEP47Event::Transfer { sender, recipient, token_id } => {
            fields.push(field("event_type", "cep47_transfer_token".to_owned()));
            fields.push(field("sender", sender.to_key()));
            fields.push(field("recipient", recipient.to_key()));
            fields.push(field("token_id", token_id.to_key()));
        },
        CEP47Event::MetadataUpdate { token_id } => {
            fields.push(field("event_type", "cep47_metadata_update".to_owned()));
            fields.push(field("token_id", token_id.to_key()));
        },
    }
    let record = FlatRecord { fields };
    assert(record@ =~= event@.flat());
    record
}

/// Appends the record of `event` to the event log.
pub fn record_event(log: &mut Vec<FlatRecord>, event: &CEP47Event)
    ensures
        records_view(final(log)@) == records_view(old(log)@).push(event@.flat()),
{
    let record = serialize(event);
    assert(records_view(log@.push(record)) =~= records_view(log@).push(event@.flat()));
    log.push(record);
}

/// Puts the record of `event` into the next free slot of the event
/// dictionary. The key of a slot is its sequence number in decimal: the
/// number of slots that were filled before it.
pub fn record_event_dictionary(dictionary: &mut Vec<Slot>, event: &CEP47Event)
    ensures
        slots_view(final(dictionary)@) == slots_view(old(dictionary)@).push(
            (decimal(old(dictionary)@.len()), event@.flat()),
        ),
{
    let record = serialize(event);
    let sequence_number: u64 = dictionary.len() as u64;
    let slot = Slot { key: decimal_text(sequence_number), record };
    assert(slots_view(dictionary@.push(slot)) =~= slots_view(dictionary@).push(
        (decimal(dictionary@.len()), event@.flat()),
    ));
    dictionary.push(slot);
}

} // verus!
