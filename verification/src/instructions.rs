use vstd::prelude::*;
use crate::address::Address;
use crate::authority::{
    bump_of_address, card_seed_list, card_seeds, derived_bump, derives, derives_to,
    escrow_seed_list, escrow_seeds, is_derived_address, registry_seed_list, registry_seeds,
    signer_seed_list, signer_seeds,
};
use crate::error::{AurexError, TransferError};
use crate::events::{BalanceWithdrawn, CardCreated, CardDeactivated, CardToppedUp, PaymentProcessed};
use crate::state::{BridgeState, Card, Operation};
use crate::transfer::{Capability, DerivedAuthority, Transfer};

verus! {

/// Why an operation fails, if it does: the refusal found before the
/// transfer, else what the transfer service answered.
pub open spec fn failure(rejection: Option<AurexError>, settlement: Result<(), TransferError>) -> Option<AurexError> {
    match rejection {
        Some(error) => Some(error),
        None => match settlement {
            Err(refused) => Some(AurexError::Transfer(refused)),
            Ok(_) => None,
        },
    }
}

/// What the initialization works on: the slot for the registry.
#[derive(Clone, Copy, Debug, PartialEq, Eq)]
pub struct Initialize {
    /// The registry stored at `bridge_state_key`: `None` until it is created.
    pub bridge_state: Option<BridgeState>,
    /// The address offered for the registry.
    pub bridge_state_key: Address,
    /// The program under which addresses are derived.
    pub program_id: Address,
}

impl Initialize {
    /// Why the initialization is refused, if it is.
    pub open spec fn rejection(self) -> Option<AurexError> {
        if !derives_to(registry_seeds(), self.program_id, self.bridge_state_key) {
            Some(AurexError::AddressMismatch)
        } else if self.bridge_state.is_some() {
            Some(AurexError::AlreadyInitialized)
        } else {
            None
        }
    }
}

/// Creates the registry, with no card counted and `authority` in control,
/// at the address that the derivation scheme assigns to it. Where a registry
/// exists already, nothing changes.
pub fn initialize(ctx: &mut Initialize, authority: Address) -> (result: Result<(), AurexError>)
    ensures
        match result {
            Ok(_) => {
                &&& old(ctx).rejection().is_none()
                &&& *final(ctx) == (Initialize {
                    bridge_state: Some(
                        BridgeState::created(authority, derived_bump(registry_seeds(), old(ctx).program_id)),
                    ),
                    ..*old(ctx)
                })
                &&& derives(
                    registry_seeds(),
                    old(ctx).program_id,
                    old(ctx).bridge_state_key,
                    final(ctx).bridge_state.unwrap().bump,
                )
            },
            Err(error) => {
                &&& old(ctx).rejection() == Some(error)
                &&& *final(ctx) == *old(ctx)
            },
        },
{
    let seeds = registry_seed_list();
    let bump = match bump_of_address(&seeds, &ctx.program_id, &ctx.bridge_state_key) {
        Some(bump) => bump,
        None => {
            return Err(AurexError::AddressMismatch);
        },
    };
    if ctx.bridge_state.is_some() {
        return Err(AurexError::AlreadyInitialized);
    }
    ctx.bridge_state = Some(BridgeState { authority, total_cards: 0, bump });
    Ok(())
}

/// What the creation of a card works on: the slot for the new record, the
/// address offered for its escrow account, the registry, and the caller.
#[derive(Clone, Debug, PartialEq, Eq)]
pub struct CreateCard {
    /// The record stored at `card_key`: `None` as long as the owner has no
    /// card of that id.
    pub card: Option<Card>,
    /// The address offered for the card's record.
    pub card_key: Address,
    /// The address offered for the card's escrow account.
    pub card_escrow_account: Address,
    /// The registry.
    pub bridge_state: BridgeState,
    /// The caller, who will own the card.
    pub owner: Address,
    /// The program under which addresses are derived.
    pub program_id: Address,
}

impl CreateCard {
    /// Why the creation is refused, if it is.
    pub open spec fn rejection(self, card_id: Seq<char>, metadata: Seq<char>) -> Option<AurexError> {
        if Card::creation_error(card_id, metadata).is_some() {
            Card::creation_error(card_id, metadata)
        } else if !derives_to(card_seeds(self.owner, card_id), self.program_id, self.card_key) {
            Some(AurexError::AddressMismatch)
        } else if !derives_to(escrow_seeds(self.card_key), self.program_id, self.card_escrow_account) {
            Some(AurexError::AddressMismatch)
        } else if self.card.is_some() {
            Some(AurexError::DuplicateCard)
        } else {
            None
        }
    }
}

/// Creates the card of the caller named `card_id`, empty and active, at the
/// addresses that the derivation scheme assigns to it, and counts it in the
/// registry. Where the creation is refused, nothing changes.
pub fn create_card(
    ctx: &mut CreateCard,
    card_id: String,
    balance_limit: u64,
    metadata: String,
    now: i64,
) -> (result: Result<CardCreated, AurexError>)
    requires
        old(ctx).bridge_state.total_cards < u64::MAX,
    ensures
        final(ctx).bridge_state == old(ctx).bridge_state.after_creation(result.is_ok()),
        match result {
            Ok(event) => {
                &&& old(ctx).rejection(card_id@, metadata@).is_none()
                &&& *final(ctx) == (CreateCard {
                    card: Some(
                        Card::created(
                            card_id,
                            old(ctx).owner,
                            balance_limit,
                            metadata,
                            now,
                            derived_bump(card_seeds(old(ctx).owner, card_id@), old(ctx).program_id),
                        ),
                    ),
                    bridge_state: old(ctx).bridge_state.after_creation(true),
                    ..*old(ctx)
                })
                &&& final(ctx).card.unwrap().well_formed()
                &&& derives(
                    card_seeds(old(ctx).owner, card_id@),
                    old(ctx).program_id,
                    old(ctx).card_key,
                    final(ctx).card.unwrap().bump,
                )
                &&& event == (CardCreated {
                    card_pubkey: old(ctx).card_key,
                    owner: old(ctx).owner,
                    card_id,
                    balance_limit,
                })
            },
            Err(error) => {
                &&& old(ctx).rejection(card_id@, metadata@) == Some(error)
                &&& *final(ctx) == *old(ctx)
            },
        },
{
    match Card::check_creation(card_id.as_str(), metadata.as_str()) {
        Err(error) => {
            return Err(error);
        },
        Ok(_) => {},
    }
    let seeds = card_seed_list(&ctx.owner, card_id.as_str());
    let bump = match bump_of_address(&seeds, &ctx.program_id, &ctx.card_key) {
        Some(bump) => bump,
        None => {
            return Err(AurexError::AddressMismatch);
        },
    };
    let escrow = escrow_seed_list(&ctx.card_key);
    if !is_derived_address(&escrow, &ctx.program_id, &ctx.card_escrow_account) {
        return Err(AurexError::AddressMismatch);
    }
    if ctx.card.is_some() {
        return Err(AurexError::DuplicateCard);
    }
    let event = CardCreated {
        card_pubkey: ctx.card_key,
        owner: ctx.owner,
        card_id: card_id.clone(),
        balance_limit,
    };
    match Card::new(card_id, ctx.owner, balance_limit, metadata, now, bump) {
        Err(error) => Err(error),
        Ok(card) => {
            ctx.card = Some(card);
            ctx.bridge_state.total_cards = ctx.bridge_state.total_cards + 1;
            Ok(event)
        },
    }
}

/// What a top-up works on: the card, its escrow account, the owner's holding
/// account, and the caller.
#[derive(Clone, Debug, PartialEq, Eq)]
pub struct TopUpCard {
    /// The card's record.
    pub card: Card,
    /// The address of the card's record.
    pub card_key: Address,
    /// The holding account offered as the card's escrow account.
    pub card_escrow_account: Address,
    /// The owner's holding account, which gives the funds.
    pub user_token_account: Address,
    /// The caller.
    pub owner: Address,
    /// The program under which addresses are derived.
    pub program_id: Address,
}

impl TopUpCard {
    /// Why the top-up is refused before any transfer, if it is.
    pub open spec fn rejection(self, amount: u64) -> Option<AurexError> {
        if self.owner != self.card.owner {
            Some(AurexError::Unauthorized)
        } else if !derives_to(escrow_seeds(self.card_key), self.program_id, self.card_escrow_account) {
            Some(AurexError::AddressMismatch)
        } else {
            self.card.top_up_error(amount)
        }
    }

    /// `transfer` is the transfer that the top-up asks for: `amount` from
    /// the owner's account to the escrow account, under the owner's own
    /// signature.
    pub open spec fn requests(self, amount: u64, transfer: Transfer) -> bool {
        &&& transfer.from == self.user_token_account
        &&& transfer.to == self.card_escrow_account
        &&& transfer.amount == amount
        &&& transfer.signed_by(self.owner)
    }
}

/// The transfer that a top-up asks of the transfer service, or why the
/// top-up is refused without one.
pub fn top_up_transfer(ctx: &TopUpCard, amount: u64) -> (result: Result<Transfer, AurexError>)
    ensures
        match result {
            Ok(transfer) => ctx.rejection(amount).is_none() && ctx.requests(amount, transfer),
            Err(error) => ctx.rejection(amount) == Some(error),
        },
{
    if !ctx.owner.same(&ctx.card.owner) {
        return Err(AurexError::Unauthorized);
    }
    let seeds = escrow_seed_list(&ctx.card_key);
    if !is_derived_address(&seeds, &ctx.program_id, &ctx.card_escrow_account) {
        return Err(AurexError::AddressMismatch);
    }
    match ctx.card.check_top_up(amount) {
        Err(error) => {
            return Err(error);
        },
        Ok(_) => {},
    }
    Ok(Transfer {
        from: ctx.user_token_account,
        to: ctx.card_escrow_account,
        amount,
        authority: Capability::Owner(ctx.owner),
    })
}

/// Funds the card with `amount`. `settlement` is what the transfer service
/// answered to the transfer of `top_up_transfer`. The top-up succeeds where
/// nothing refuses it and the transfer went through: the card then holds
/// `amount` more, and no more than its limit. In every other case nothing
/// changes.
pub fn top_up_card(
    ctx: &mut TopUpCard,
    amount: u64,
    settlement: Result<(), TransferError>,
) -> (result: Result<CardToppedUp, AurexError>)
    ensures
        match result {
            Ok(event) => {
                &&& failure(old(ctx).rejection(amount), settlement).is_none()
                &&& *final(ctx) == (TopUpCard {
                    card: old(ctx).card.after(Operation::TopUp(amount)),
                    ..*old(ctx)
                })
                &&& final(ctx).card.balance == old(ctx).card.balance + amount
                &&& final(ctx).card.within_limit()
                &&& event == (CardToppedUp {
                    card_pubkey: old(ctx).card_key,
                    amount,
                    new_balance: final(ctx).card.balance,
                })
            },
            Err(error) => {
                &&& failure(old(ctx).rejection(amount), settlement) == Some(error)
                &&& *final(ctx) == *old(ctx)
            },
        },
{
    match top_up_transfer(ctx, amount) {
        Err(error) => Err(error),
        Ok(_) => match settlement {
            Err(refused) => Err(AurexError::Transfer(refused)),
            Ok(_) => match ctx.card.top_up(amount) {
                Err(error) => Err(error),
                Ok(new_balance) => Ok(CardToppedUp { card_pubkey: ctx.card_key, amount, new_balance }),
            },
        },
    }
}

/// What a payment works on: the card, the accounts between which the funds
/// move, and the caller.
#[derive(Clone, Debug, PartialEq, Eq)]
pub struct ProcessPayment {
    /// The card's record.
    pub card: Card,
    /// The address of the card's record.
    pub card_key: Address,
    /// The holding account offered as the card's escrow account.
    pub card_escrow_account: Address,
    /// The merchant's holding account.
    pub merchant_token_account: Address,
    /// The merchant.
    pub merchant: Address,
    /// The caller.
    pub owner: Address,
    /// The program under which addresses are derived.
    pub program_id: Address,
}

impl ProcessPayment {
    /// Why the payment is refused before any transfer, if it is.
    pub open spec fn rejection(self, amount: u64, reference: Seq<char>) -> Option<AurexError> {
        if self.owner != self.card.owner {
            Some(AurexError::Unauthorized)
        } else if !derives_to(escrow_seeds(self.card_key), self.program_id, self.card_escrow_account) {
            Some(AurexError::AddressMismatch)
        } else {
            self.card.payment_error(amount, reference)
        }
    }

    /// `transfer` is the transfer that the payment asks for: `amount` from
    /// the escrow account to the merchant, under the card's derived authority.
    pub open spec fn requests(self, amount: u64, transfer: Transfer) -> bool {
        &&& transfer.from == self.card_escrow_account
        &&& transfer.to == self.merchant_token_account
        &&& transfer.amount == amount
        &&& transfer.derived_from(self.card_key, signer_seeds(self.card.owner, self.card.id@, self.card.bump))
    }
}

/// The transfer that a payment asks of the transfer service, or why the
/// payment is refused without one.
pub fn payment_transfer(ctx: &ProcessPayment, amount: u64, merchant_reference: &str) -> (result: Result<Transfer, AurexError>)
    ensures
        match result {
            Ok(transfer) => ctx.rejection(amount, merchant_reference@).is_none() && ctx.requests(amount, transfer),
            Err(error) => ctx.rejection(amount, merchant_reference@) == Some(error),
        },
{
    if !ctx.owner.same(&ctx.card.owner) {
        return Err(AurexError::Unauthorized);
    }
    let seeds = escrow_seed_list(&ctx.card_key);
    if !is_derived_address(&seeds, &ctx.program_id, &ctx.card_escrow_account) {
        return Err(AurexError::AddressMismatch);
    }
    match ctx.card.check_payment(amount, merchant_reference) {
        Err(error) => {
            return Err(error);
        },
        Ok(_) => {},
    }
    let signer = signer_seed_list(&ctx.card.owner, ctx.card.id.as_str(), ctx.card.bump);
    let authority = DerivedAuthority::new(ctx.card_key, signer);
    Ok(Transfer {
        from: ctx.card_escrow_account,
        to: ctx.merchant_token_account,
        amount,
        authority: Capability::Derived(authority),
    })
}

/// Pays `amount` from the card to the merchant. `settlement` is what the
/// transfer service answered to the transfer of `payment_transfer`. The
/// payment succeeds where nothing refuses it and the transfer went through:
/// the card then holds `amount` less. In every other case nothing changes.
pub fn process_payment(
    ctx: &mut ProcessPayment,
    amount: u64,
    merchant_reference: String,
    now: i64,
    settlement: Result<(), TransferError>,
) -> (result: Result<PaymentProcessed, AurexError>)
    ensures
        match result {
            Ok(event) => {
                &&& failure(old(ctx).rejection(amount, merchant_reference@), settlement).is_none()
                &&& *final(ctx) == (ProcessPayment {
                    card: old(ctx).card.after(Operation::Payment(amount, merchant_reference@)),
                    ..*old(ctx)
                })
                &&& final(ctx).card.balance == old(ctx).card.balance - amount
                &&& event == (PaymentProcessed {
                    card_pubkey: old(ctx).card_key,
                    merchant: old(ctx).merchant,
                    amount,
                    merchant_reference,
                    remaining_balance: final(ctx).card.balance,
                    timestamp: now,
                })
            },
            Err(error) => {
                &&& failure(old(ctx).rejection(amount, merchant_reference@), settlement) == Some(error)
                &&& *final(ctx) == *old(ctx)
            },
        },
{
    match payment_transfer(ctx, amount, merchant_reference.as_str()) {
        Err(error) => Err(error),
        Ok(_) => match settlement {
            Err(refused) => Err(AurexError::Transfer(refused)),
            Ok(_) => match ctx.card.pay(amount, merchant_reference.as_str()) {
                Err(error) => Err(error),
                Ok(remaining_balance) => Ok(
                    PaymentProcessed {
                        card_pubkey: ctx.card_key,
                        merchant: ctx.merchant,
                        amount,
                        merchant_reference,
                        remaining_balance,
                        timestamp: now,
                    },
                ),
            },
        },
    }
}

/// What a deactivation works on: the card and the caller.
#[derive(Clone, Debug, PartialEq, Eq)]
pub struct DeactivateCard {
    /// The card's record.
    pub card: Card,
    /// The address of the card's record.
    pub card_key: Address,
    /// The caller.
    pub owner: Address,
}

impl DeactivateCard {
    /// Why the deactivation is refused, if it is.
    pub open spec fn rejection(self) -> Option<AurexError> {
        if self.owner != self.card.owner {
            Some(AurexError::Unauthorized)
        } else {
            None
        }
    }
}

/// Switches the card off, for good. The owner may do so whatever the card
/// holds, and again on a card that is off already, which changes nothing.
pub fn deactivate_card(ctx: &mut DeactivateCard, now: i64) -> (result: Result<CardDeactivated, AurexError>)
    ensures
        match result {
            Ok(event) => {
                &&& old(ctx).rejection().is_none()
                &&& *final(ctx) == (DeactivateCard {
                    card: old(ctx).card.after(Operation::Deactivate),
                    ..*old(ctx)
                })
                &&& !final(ctx).card.is_active
                &&& event == (CardDeactivated { card_pubkey: old(ctx).card_key, timestamp: now })
            },
            Err(error) => {
                &&& old(ctx).rejection() == Some(error)
                &&& *final(ctx) == *old(ctx)
            },
        },
{
    if !ctx.owner.same(&ctx.card.owner) {
        return Err(AurexError::Unauthorized);
    }
    ctx.card.deactivate();
    Ok(CardDeactivated { card_pubkey: ctx.card_key, timestamp: now })
}

/// What a withdrawal works on: the deactivated card, its escrow account, the
/// owner's holding account, and the caller.
#[derive(Clone, Debug, PartialEq, Eq)]
pub struct WithdrawBalance {
    /// The card's record.
    pub card: Card,
    /// The address of the card's record.
    pub card_key: Address,
    /// The holding account offered as the card's escrow account.
    pub card_escrow_account: Address,
    /// The owner's holding account, which receives the funds.
    pub user_token_account: Address,
    /// The caller.
    pub owner: Address,
    /// The program under which addresses are derived.
    pub program_id: Address,
}

impl WithdrawBalance {
    /// Why the withdrawal is refused before any transfer, if it is.
    pub open spec fn rejection(self) -> Option<AurexError> {
        if self.owner != self.card.owner {
            Some(AurexError::Unauthorized)
        } else if !derives_to(escrow_seeds(self.card_key), self.program_id, self.card_escrow_account) {
            Some(AurexError::AddressMismatch)
        } else {
            self.card.withdrawal_error()
        }
    }

    /// `transfer` is the transfer that the withdrawal asks for: the whole
    /// balance from the escrow account to the owner, under the card's derived
    /// authority.
    pub open spec fn requests(self, transfer: Transfer) -> bool {
        &&& transfer.from == self.card_escrow_account
        &&& transfer.to == self.user_token_account
        &&& transfer.amount == self.card.balance
        &&& transfer.derived_from(self.card_key, signer_seeds(self.card.owner, self.card.id@, self.card.bump))
    }
}

/// The transfer that a withdrawal asks of the transfer service, or why the
/// withdrawal is refused without one.
pub fn withdrawal_transfer(ctx: &WithdrawBalance) -> (result: Result<Transfer, AurexError>)
    ensures
        match result {
            Ok(transfer) => ctx.rejection().is_none() && ctx.requests(transfer),
            Err(error) => ctx.rejection() == Some(error),
        },
{
    if !ctx.owner.same(&ctx.card.owner) {
        return Err(AurexError::Unauthorized);
    }
    let seeds = escrow_seed_list(&ctx.card_key);
    if !is_derived_address(&seeds, &ctx.program_id, &ctx.card_escrow_account) {
        return Err(AurexError::AddressMismatch);
    }
    match ctx.card.check_withdrawal() {
        Err(error) => {
            return Err(error);
        },
        Ok(_) => {},
    }
    let signer = signer_seed_list(&ctx.card.owner, ctx.card.id.as_str(), ctx.card.bump);
    let authority = DerivedAuthority::new(ctx.card_key, signer);
    Ok(Transfer {
        from: ctx.card_escrow_account,
        to: ctx.user_token_account,
        amount: ctx.card.balance,
        authority: Capability::Derived(authority),
    })
}

/// Gives the whole balance of a deactivated card back to its owner.
/// `settlement` is what the transfer service answered to the transfer of
/// `withdrawal_transfer`. The withdrawal succeeds where nothing refuses it
/// and the transfer went through: the card then holds nothing. In every
/// other case nothing changes.
pub fn withdraw_balance(
    ctx: &mut WithdrawBalance,
    now: i64,
    settlement: Result<(), TransferError>,
) -> (result: Result<BalanceWithdrawn, AurexError>)
    ensures
        match result {
            Ok(event) => {
                &&& failure(old(ctx).rejection(), settlement).is_none()
                &&& *final(ctx) == (WithdrawBalance {
                    card: old(ctx).card.after(Operation::Withdraw),
                    ..*old(ctx)
                })
                &&& final(ctx).card.balance == 0
                &&& event == (BalanceWithdrawn {
                    card_pubkey: old(ctx).card_key,
                    amount: old(ctx).card.balance,
                    timestamp: now,
                })
            },
            Err(error) => {
                &&& failure(old(ctx).rejection(), settlement) == Some(error)
                &&& *final(ctx) == *old(ctx)
            },
        },
{
    match withdrawal_transfer(ctx) {
        Err(error) => Err(error),
        Ok(_) => match settlement {
            Err(refused) => Err(AurexError::Transfer(refused)),
            Ok(_) => match ctx.card.withdraw() {
                Err(error) => Err(error),
                Ok(amount) => Ok(BalanceWithdrawn { card_pubkey: ctx.card_key, amount, timestamp: now }),
            },
        },
    }
}

} // verus!
