//! Laws of the ownership registry, proved of its mathematical state.

use vstd::prelude::*;

use crate::error::NftError;
use crate::identifier::{IdentifierMode, TokenId};
use crate::identity::Identity;
use crate::ledger::{Operation, OwnershipMode, RegistryView, TokenState};
use crate::metadata::MetadataView;

verus! {

/// The registry of a fresh collection is a valid state.
pub proof fn lemma_empty_is_valid(
    total_token_supply: nat,
    ownership_mode: OwnershipMode,
    identifier_mode: IdentifierMode,
)
    ensures
        RegistryView::empty(total_token_supply, ownership_mode, identifier_mode).valid(),
{
}

/// Registering a token that is not refused leads from a valid state to a
/// valid state.
pub proof fn lemma_registered_is_valid(
    s: RegistryView,
    id: TokenId,
    owner: Identity,
    metadata: MetadataView,
)
    requires
        s.valid(),
        s.register_error(id) is None,
    ensures
        s.registered(id, owner, metadata).valid(),
{
    let t = s.registered(id, owner, metadata);
    assert(t.token_owners.dom() =~= s.token_owners.dom().insert(id));
    assert(t.owned_tokens.dom() =~= s.owned_tokens.dom().insert(owner));
    assert forall|who: Identity, x: TokenId| t.owns(who, x) <==> #[trigger] t.tokens_of(
        who,
    ).contains(x) by {
        assert(s.owns(who, x) <==> s.tokens_of(who).contains(x));
    }
    assert forall|who: Identity| #[trigger] t.tokens_of(who).finite() by {
        assert(s.tokens_of(who).finite());
    }
}

/// Giving up a token leaves the owner with a finite set of tokens, and
/// everybody else with what they had.
proof fn lemma_released(s: RegistryView, id: TokenId, owner: Identity)
    requires
        s.valid(),
        s.owns(owner, id),
    ensures
        s.released(id, owner).owned_tokens.dom().finite(),
        forall|who: Identity| #[trigger] s.released(id, owner).tokens_of(who).finite(),
        forall|who: Identity, x: TokenId| #[trigger]
            s.released(id, owner).tokens_of(who).contains(x) <==> (x != id && s.owns(who, x)),
{
    let t = s.released(id, owner);
    assert(t.owned_tokens.dom() =~= s.owned_tokens.dom().insert(owner));
    assert forall|who: Identity| #[trigger] t.tokens_of(who).finite() by {
        assert(s.tokens_of(who).finite());
    }
    assert forall|who: Identity, x: TokenId| #[trigger]
        t.tokens_of(who).contains(x) <==> (x != id && s.owns(who, x)) by {
        assert(s.owns(who, x) <==> s.tokens_of(who).contains(x));
    }
}

/// A transfer that is not refused leads from a valid state to a valid
/// state.
pub proof fn lemma_transferred_is_valid(s: RegistryView, id: TokenId, from: Identity, to: Identity)
    requires
        s.valid(),
        s.transfer_error(id, from) is None,
    ensures
        s.transferred(id, from, to).valid(),
{
    let r = s.released(id, from);
    let t = s.transferred(id, from, to);
    lemma_released(s, id, from);
    assert(t.token_owners.dom() =~= s.token_owners.dom());
    assert(t.owned_tokens.dom() =~= r.owned_tokens.dom().insert(to));
    assert forall|who: Identity, x: TokenId| t.owns(who, x) <==> #[trigger] t.tokens_of(
        who,
    ).contains(x) by {
        assert(r.tokens_of(who).contains(x) <==> (x != id && s.owns(who, x)));
    }
    assert forall|who: Identity| #[trigger] t.tokens_of(who).finite() by {
        assert(r.tokens_of(who).finite());
    }
}

/// A burn that is not refused leads from a valid state to a valid state.
pub proof fn lemma_burnt_is_valid(s: RegistryView, id: TokenId, owner: Identity)
    requires
        s.valid(),
        s.owner_error(id, owner) is None,
    ensures
        s.burnt(id, owner).valid(),
{
    let r = s.released(id, owner);
    let t = s.burnt(id, owner);
    lemma_released(s, id, owner);
    assert(t.token_owners.dom() =~= s.token_owners.dom().remove(id));
    assert(s.metadata.dom().contains(id));
    assert forall|who: Identity, x: TokenId| t.owns(who, x) <==> #[trigger] t.tokens_of(
        who,
    ).contains(x) by {
        assert(r.tokens_of(who).contains(x) <==> (x != id && s.owns(who, x)));
    }
    assert forall|who: Identity| #[trigger] t.tokens_of(who).finite() by {
        assert(r.tokens_of(who).finite());
    }
}

/// Other metadata for a token that its owner may annotate leads from a
/// valid state to a valid state.
pub proof fn lemma_annotated_is_valid(
    s: RegistryView,
    id: TokenId,
    owner: Identity,
    metadata: MetadataView,
)
    requires
        s.valid(),
        s.owner_error(id, owner) is None,
    ensures
        s.annotated(id, metadata).valid(),
{
    let t = s.annotated(id, metadata);
    assert(s.metadata.dom().contains(id));
    assert(t.metadata.dom() =~= s.metadata.dom());
    assert forall|who: Identity, x: TokenId| t.owns(who, x) <==> #[trigger] t.tokens_of(
        who,
    ).contains(x) by {
        assert(s.owns(who, x) <==> s.tokens_of(who).contains(x));
    }
    assert forall|who: Identity| #[trigger] t.tokens_of(who).finite() by {
        assert(s.tokens_of(who).finite());
    }
}

/// Every operation, refused or not, leads from a valid state to a valid
/// state.
pub proof fn lemma_step_is_valid(s: RegistryView, op: Operation)
    requires
        s.valid(),
    ensures
        s.step(op).valid(),
{
    if s.refusal(op) is None {
        match op {
            Operation::Register { id, owner, metadata } => {
                lemma_registered_is_valid(s, id, owner, metadata);
            },
            Operation::Transfer { id, from, to } => {
                lemma_transferred_is_valid(s, id, from, to);
            },
            Operation::Burn { id, owner } => {
                lemma_burnt_is_valid(s, id, owner);
            },
            Operation::Annotate { id, owner, metadata } => {
                lemma_annotated_is_valid(s, id, owner, metadata);
            },
        }
    }
}

/// Every sequence of operations leads from a valid state to a valid state.
pub proof fn lemma_run_is_valid(s: RegistryView, ops: Seq<Operation>)
    requires
        s.valid(),
    ensures
        s.run(ops).valid(),
    decreases ops.len(),
{
    if ops.len() > 0 {
        lemma_run_is_valid(s, ops.drop_last());
        lemma_step_is_valid(s.run(ops.drop_last()), ops.last());
    }
}

/// A registration that is not refused raises the number of minted tokens
/// by exactly one, and the number stays within the supply.
pub proof fn lemma_mint_counts_one(
    s: RegistryView,
    id: TokenId,
    owner: Identity,
    metadata: MetadataView,
)
    requires
        s.valid(),
        s.register_error(id) is None,
    ensures
        s.step(Operation::Register { id, owner, metadata }).number_of_minted_tokens
            == s.number_of_minted_tokens + 1,
        s.step(Operation::Register { id, owner, metadata }).number_of_minted_tokens
            <= s.total_token_supply,
{
}

/// No operation lowers the number of minted tokens, changes the supply, or
/// lets the number pass the supply.
pub proof fn lemma_counter_is_monotonic(s: RegistryView, ops: Seq<Operation>)
    requires
        s.valid(),
    ensures
        s.number_of_minted_tokens <= s.run(ops).number_of_minted_tokens,
        s.run(ops).number_of_minted_tokens <= s.run(ops).total_token_supply,
        s.run(ops).total_token_supply == s.total_token_supply,
    decreases ops.len(),
{
    if ops.len() > 0 {
        lemma_counter_is_monotonic(s, ops.drop_last());
        lemma_run_is_valid(s, ops.drop_last());
        lemma_step_is_valid(s.run(ops.drop_last()), ops.last());
    }
}

/// In every state that the operations lead to from a fresh collection, a
/// token has an owner in the table of owners if and only if the table of
/// holdings lists it under that owner.
pub proof fn lemma_tables_agree(
    total_token_supply: nat,
    ownership_mode: OwnershipMode,
    identifier_mode: IdentifierMode,
    ops: Seq<Operation>,
    who: Identity,
    id: TokenId,
)
    ensures
        ({
            let s = RegistryView::empty(total_token_supply, ownership_mode, identifier_mode).run(
                ops,
            );
            (s.token_owners.dom().contains(id) && s.token_owners[id] == who) <==> (
            s.owned_tokens.dom().contains(who) && s.owned_tokens[who].contains(id))
        }),
{
    let e = RegistryView::empty(total_token_supply, ownership_mode, identifier_mode);
    lemma_empty_is_valid(total_token_supply, ownership_mode, identifier_mode);
    lemma_run_is_valid(e, ops);
    let s = e.run(ops);
    assert(s.owns(who, id) <==> s.tokens_of(who).contains(id));
}

/// A burnt token has no owner and is in nobody's holdings.
pub proof fn lemma_burnt_token_is_gone(s: RegistryView, id: TokenId)
    requires
        s.valid(),
        s.burnt_tokens.contains(id),
    ensures
        !s.token_owners.dom().contains(id),
        forall|who: Identity|
            !(s.owned_tokens.dom().contains(who) && (#[trigger] s.owned_tokens[who]).contains(id)),
{
    assert forall|who: Identity|
        !(s.owned_tokens.dom().contains(who) && (#[trigger] s.owned_tokens[who]).contains(
            id,
        )) by {
        assert(s.owns(who, id) <==> s.tokens_of(who).contains(id));
    }
}

/// Once a token is burnt it stays burnt, whatever operations follow: it
/// never has an owner again and is never in anybody's holdings again.
pub proof fn lemma_burnt_is_permanent(s: RegistryView, ops: Seq<Operation>, id: TokenId)
    requires
        s.valid(),
        s.burnt_tokens.contains(id),
    ensures
        s.run(ops).burnt_tokens.contains(id),
        !s.run(ops).token_owners.dom().contains(id),
        forall|who: Identity|
            !(s.run(ops).owned_tokens.dom().contains(who) && (#[trigger] s.run(
                ops,
            ).owned_tokens[who]).contains(id)),
    decreases ops.len(),
{
    if ops.len() > 0 {
        lemma_burnt_is_permanent(s, ops.drop_last(), id);
    }
    lemma_run_is_valid(s, ops);
    lemma_burnt_token_is_gone(s.run(ops), id);
}

/// When as many tokens were minted as the supply allows, a further
/// registration is refused for that reason and changes nothing.
pub proof fn lemma_mint_beyond_supply(
    s: RegistryView,
    id: TokenId,
    owner: Identity,
    metadata: MetadataView,
)
    requires
        s.valid(),
        s.number_of_minted_tokens == s.total_token_supply,
    ensures
        s.refusal(Operation::Register { id, owner, metadata }) == Some(NftError::SupplyExceeded),
        s.step(Operation::Register { id, owner, metadata }) == s,
{
}

/// A transfer by an identity that does not own the token is refused for
/// that reason and changes nothing.
pub proof fn lemma_transfer_by_stranger(s: RegistryView, id: TokenId, from: Identity, to: Identity)
    requires
        !s.owns(from, id),
    ensures
        s.refusal(Operation::Transfer { id, from, to }) == Some(NftError::NotOwner),
        s.step(Operation::Transfer { id, from, to }) == s,
{
}

/// The life of a token has one direction. A token that was never minted
/// stays so unless it is registered, and then it is owned by whom it was
/// registered for. An owned token stays owned, by its owner unless it is
/// transferred, until its owner burns it. A burnt token stays burnt.
pub proof fn lemma_life_of_a_token(s: RegistryView, op: Operation, id: TokenId)
    requires
        s.valid(),
    ensures
        match (s.state_of(id), s.step(op).state_of(id)) {
            (TokenState::Unminted, TokenState::Unminted) => true,
            (TokenState::Unminted, TokenState::Owned(owner)) => op matches Operation::Register {
                id: registered,
                owner: first,
                metadata,
            } && registered == id && first == owner,
            (TokenState::Owned(before), TokenState::Owned(after)) => before == after || (
            op matches Operation::Transfer { id: moved, from, to } && moved == id && from == before
                && to == after),
            (TokenState::Owned(before), TokenState::Burnt) => op matches Operation::Burn {
                id: gone,
                owner,
            } && gone == id && owner == before,
            (TokenState::Burnt, TokenState::Burnt) => true,
            _ => false,
        },
{
}

} // verus!
