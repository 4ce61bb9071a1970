use vstd::prelude::*;
use crate::address::Address;

verus! {

/// A card was created.
#[derive(Clone, Debug, PartialEq, Eq)]
pub struct CardCreated {
    pub card_pubkey: Address,
    pub owner: Address,
    pub card_id: String,
    pub balance_limit: u64,
}

/// A card was funded.
#[derive(Clone, Copy, Debug, PartialEq, Eq)]
pub struct CardToppedUp {
    pub card_pubkey: Address,
    pub amount: u64,
    pub new_balance: u64,
}

/// A merchant was paid from a card.
#[derive(Clone, Debug, PartialEq, Eq)]
pub struct PaymentProcessed {
    pub card_pubkey: Address,
    pub merchant: Address,
    pub amount: u64,
    pub merchant_reference: String,
    pub remaining_balance: u64,
    pub timestamp: i64,
}

/// A card was switched off.
#[derive(Clone, Copy, Debug, PartialEq, Eq)]
pub struct CardDeactivated {
    pub card_pubkey: Address,
    pub timestamp: i64,
}

/// The balance of a deactivated card went back to its owner.
#[derive(Clone, Copy, Debug, PartialEq, Eq)]
pub struct BalanceWithdrawn {
    pub card_pubkey: Address,
    pub amount: u64,
    pub timestamp: i64,
}

} // verus!
