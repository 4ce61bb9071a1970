use vstd::prelude::*;
use crate::address::Address;
use crate::state::{BridgeState, Card, Operation};

verus! {

/// How many attempts of a run created a card.
pub open spec fn successes(created: Seq<bool>) -> nat
    decreases created.len(),
{
    if created.len() == 0 {
        0
    } else {
        successes(created.drop_last()) + if created.last() { 1nat } else { 0nat }
    }
}

/// A card as it is created holds nothing, so it is within its limit; where
/// its id and metadata were accepted, it is well formed.
pub proof fn lemma_created_within_limit(
    id: String,
    owner: Address,
    balance_limit: u64,
    metadata: String,
    created_at: i64,
    bump: u8,
)
    ensures
        Card::created(id, owner, balance_limit, metadata, created_at, bump).within_limit(),
        Card::created(id, owner, balance_limit, metadata, created_at, bump).is_active,
        Card::creation_error(id@, metadata@).is_none() ==> Card::created(
            id,
            owner,
            balance_limit,
            metadata,
            created_at,
            bump,
        ).well_formed(),
{
}

/// Whatever operations run on a well-formed card, it stays well formed.
pub proof fn lemma_operations_keep_well_formed(card: Card, operations: Seq<Operation>)
    requires
        card.well_formed(),
    ensures
        card.after_all(operations).well_formed(),
{
    lemma_balance_within_limit(card, operations);
    lemma_identity_is_fixed(card, operations);
}

/// No operation, accepted or refused, takes the balance of a card over its
/// limit.
pub proof fn lemma_operation_keeps_limit(card: Card, operation: Operation)
    requires
        card.within_limit(),
    ensures
        card.after(operation).within_limit(),
{
}

/// Whatever operations run on a card whose balance is within its limit, in
/// whatever order, the balance stays within the limit.
pub proof fn lemma_balance_within_limit(card: Card, operations: Seq<Operation>)
    requires
        card.within_limit(),
    ensures
        0 <= card.after_all(operations).balance <= card.after_all(operations).balance_limit,
    decreases operations.len(),
{
    if operations.len() > 0 {
        lemma_balance_within_limit(card, operations.drop_last());
        lemma_operation_keeps_limit(card.after_all(operations.drop_last()), operations.last());
    }
}

/// What is fixed at creation stays fixed: no run of operations changes the
/// id, the owner, the limit, the metadata, the creation time or the bump
/// seed of a card.
pub proof fn lemma_identity_is_fixed(card: Card, operations: Seq<Operation>)
    ensures
        card.after_all(operations).id == card.id,
        card.after_all(operations).owner == card.owner,
        card.after_all(operations).balance_limit == card.balance_limit,
        card.after_all(operations).metadata == card.metadata,
        card.after_all(operations).created_at == card.created_at,
        card.after_all(operations).bump == card.bump,
    decreases operations.len(),
{
    if operations.len() > 0 {
        lemma_identity_is_fixed(card, operations.drop_last());
    }
}

/// A card only ever goes from active to inactive: one that is active after
/// a run of operations was active before it.
pub proof fn lemma_activity_never_returns(card: Card, operations: Seq<Operation>)
    ensures
        card.after_all(operations).is_active ==> card.is_active,
    decreases operations.len(),
{
    if operations.len() > 0 {
        lemma_activity_never_returns(card, operations.drop_last());
    }
}

/// An inactive card refuses every top-up and every payment, and keeps its
/// state.
pub proof fn lemma_inactive_refuses_funding_and_spending(card: Card, amount: u64, reference: Seq<char>)
    requires
        !card.is_active,
    ensures
        card.refusal(Operation::TopUp(amount)).is_some(),
        card.refusal(Operation::Payment(amount, reference)).is_some(),
        card.after(Operation::TopUp(amount)) == card,
        card.after(Operation::Payment(amount, reference)) == card,
{
}

/// Once a card is inactive, no run of operations lifts its balance.
pub proof fn lemma_inactive_balance_never_grows(card: Card, operations: Seq<Operation>)
    requires
        !card.is_active,
    ensures
        !card.after_all(operations).is_active,
        card.after_all(operations).balance <= card.balance,
    decreases operations.len(),
{
    if operations.len() > 0 {
        lemma_inactive_balance_never_grows(card, operations.drop_last());
    }
}

/// The registry counts the cards created: after a run of attempts its count
/// has grown by the number of those that succeeded.
pub proof fn lemma_total_cards_counts_creations(registry: BridgeState, created: Seq<bool>)
    requires
        registry.total_cards + created.len() <= u64::MAX,
    ensures
        registry.after_creations(created).total_cards == registry.total_cards + successes(created),
        successes(created) <= created.len(),
        registry.after_creations(created).authority == registry.authority,
        registry.after_creations(created).bump == registry.bump,
    decreases created.len(),
{
    if created.len() > 0 {
        lemma_total_cards_counts_creations(registry, created.drop_last());
    }
}

/// From its creation on, the registry's count is the number of cards that
/// were created.
pub proof fn lemma_new_registry_counts_from_zero(authority: Address, bump: u8, created: Seq<bool>)
    requires
        created.len() <= u64::MAX,
    ensures
        BridgeState::created(authority, bump).after_creations(created).total_cards == successes(created),
{
    lemma_total_cards_counts_creations(BridgeState::created(authority, bump), created);
}

/// A top-up of nothing is accepted by every active card whose balance is
/// within its limit, and leaves the card as it was.
pub proof fn lemma_empty_top_up_changes_nothing(card: Card)
    requires
        card.is_active,
        card.within_limit(),
    ensures
        card.refusal(Operation::TopUp(0)).is_none(),
        card.after(Operation::TopUp(0)) == card,
{
}

/// A card that was just created accepts a top-up of nothing and is left as
/// it was created.
pub proof fn lemma_empty_top_up_after_creation(
    id: String,
    owner: Address,
    balance_limit: u64,
    metadata: String,
    created_at: i64,
    bump: u8,
)
    ensures
        Card::created(id, owner, balance_limit, metadata, created_at, bump).refusal(Operation::TopUp(0)).is_none(),
        Card::created(id, owner, balance_limit, metadata, created_at, bump).after(Operation::TopUp(0))
            == Card::created(id, owner, balance_limit, metadata, created_at, bump),
{
}

/// Deactivating a card that is off already changes nothing.
pub proof fn lemma_deactivation_is_idempotent(card: Card)
    ensures
        card.after(Operation::Deactivate).after(Operation::Deactivate) == card.after(Operation::Deactivate),
        !card.after(Operation::Deactivate).is_active,
{
}

} // verus!
