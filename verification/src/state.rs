use vstd::prelude::*;
use vstd::string::StringSliceAdditionalSpecFns;
use vstd::utf8::encode_utf8;
use crate::address::Address;
use crate::error::AurexError;

verus! {

/// Most bytes that a card id may have.
pub const MAX_CARD_ID_LEN: usize = 32;

/// Most bytes that a card's metadata may have.
pub const MAX_METADATA_LEN: usize = 256;

/// Most bytes that a merchant reference may have.
pub const MAX_MERCHANT_REFERENCE_LEN: usize = 64;

/// The registry: the one record of the whole ledger.
#[derive(Clone, Copy, Debug, PartialEq, Eq)]
pub struct BridgeState {
    /// Who may perform privileged registry operations.
    pub authority: Address,
    /// How many cards were ever created.
    pub total_cards: u64,
    /// The bump seed of the registry's address.
    pub bump: u8,
}

impl BridgeState {
    /// Bytes that a stored registry takes.
    pub const LEN: usize = 32 + 8 + 1;

    /// The registry as it is created: no card yet.
    pub open spec fn created(authority: Address, bump: u8) -> BridgeState {
        BridgeState { authority, total_cards: 0, bump }
    }

    /// The registry after one attempt to create a card.
    pub open spec fn after_creation(self, created: bool) -> BridgeState {
        if created {
            BridgeState { total_cards: (self.total_cards + 1) as u64, ..self }
        } else {
            self
        }
    }

    /// The registry after a run of attempts to create a card, first to last.
    pub open spec fn after_creations(self, created: Seq<bool>) -> BridgeState
        decreases created.len(),
    {
        if created.len() == 0 {
            self
        } else {
            self.after_creations(created.drop_last()).after_creation(created.last())
        }
    }
}

/// A card: a bounded balance held in escrow for its owner.
#[derive(Clone, Debug, PartialEq, Eq)]
pub struct Card {
    /// The card's name, unique per owner; at most 32 bytes.
    pub id: String,
    /// Who controls the card.
    pub owner: Address,
    /// The escrowed funds attributed to the card.
    pub balance: u64,
    /// The ceiling on `balance`.
    pub balance_limit: u64,
    /// Whether the card may still be funded and spent from.
    pub is_active: bool,
    /// Free text; at most 256 bytes.
    pub metadata: String,
    /// When the card was created.
    pub created_at: i64,
    /// The bump seed of the card's address.
    pub bump: u8,
}

/// One of the operations that act on an existing card.
pub enum Operation {
    /// Fund the card with an amount.
    TopUp(u64),
    /// Pay an amount to a merchant under a reference.
    Payment(u64, Seq<char>),
    /// Switch the card off.
    Deactivate,
    /// Take the whole balance back.
    Withdraw,
}

impl Card {
    /// Bytes that a stored card takes.
    pub const LEN: usize = 4 + 32 + 32 + 8 + 8 + 1 + 4 + 256 + 8 + 1;

    /// The card as it is created: empty and active.
    pub open spec fn created(
        id: String,
        owner: Address,
        balance_limit: u64,
        metadata: String,
        created_at: i64,
        bump: u8,
    ) -> Card {
        Card { id, owner, balance: 0, balance_limit, is_active: true, metadata, created_at, bump }
    }

    /// The balance is within the card's limit.
    pub open spec fn within_limit(self) -> bool {
        self.balance <= self.balance_limit
    }

    /// What holds of every card of the ledger: the balance is within the
    /// limit, and the id and the metadata are no longer than they may be.
    pub open spec fn well_formed(self) -> bool {
        &&& self.within_limit()
        &&& encode_utf8(self.id@).len() <= MAX_CARD_ID_LEN
        &&& encode_utf8(self.metadata@).len() <= MAX_METADATA_LEN
    }

    /// Why a top-up of `amount` is refused, if it is.
    pub open spec fn top_up_error(self, amount: u64) -> Option<AurexError> {
        if !self.is_active {
            Some(AurexError::CardInactive)
        } else if self.balance + amount > self.balance_limit {
            Some(AurexError::BalanceLimitExceeded)
        } else {
            None
        }
    }

    /// The card with `amount` more on it.
    pub open spec fn topped_up(self, amount: u64) -> Card {
        Card { balance: (self.balance + amount) as u64, ..self }
    }

    /// Why a payment of `amount` under `reference` is refused, if it is.
    pub open spec fn payment_error(self, amount: u64, reference: Seq<char>) -> Option<AurexError> {
        if !self.is_active {
            Some(AurexError::CardInactive)
        } else if self.balance < amount {
            Some(AurexError::InsufficientBalance)
        } else if encode_utf8(reference).len() > MAX_MERCHANT_REFERENCE_LEN {
            Some(AurexError::MerchantReferenceTooLong)
        } else {
            None
        }
    }

    /// The card with `amount` less on it.
    pub open spec fn charged(self, amount: u64) -> Card {
        Card { balance: (self.balance - amount) as u64, ..self }
    }

    /// The card switched off.
    pub open spec fn deactivated(self) -> Card {
        Card { is_active: false, ..self }
    }

    /// Why a withdrawal is refused, if it is.
    pub open spec fn withdrawal_error(self) -> Option<AurexError> {
        if self.is_active {
            Some(AurexError::CardStillActive)
        } else if self.balance == 0 {
            Some(AurexError::NoBalanceToWithdraw)
        } else {
            None
        }
    }

    /// The card with nothing on it.
    pub open spec fn emptied(self) -> Card {
        Card { balance: 0, ..self }
    }

    /// Why the card refuses an operation, if it does.
    pub open spec fn refusal(self, operation: Operation) -> Option<AurexError> {
        match operation {
            Operation::TopUp(amount) => self.top_up_error(amount),
            Operation::Payment(amount, reference) => self.payment_error(amount, reference),
            Operation::Deactivate => None,
            Operation::Withdraw => self.withdrawal_error(),
        }
    }

    /// The card after an operation: changed where the card accepts it, and
    /// as it was where the card refuses.
    pub open spec fn after(self, operation: Operation) -> Card {
        if self.refusal(operation).is_some() {
            self
        } else {
            match operation {
                Operation::TopUp(amount) => self.topped_up(amount),
                Operation::Payment(amount, _) => self.charged(amount),
                Operation::Deactivate => self.deactivated(),
                Operation::Withdraw => self.emptied(),
            }
        }
    }

    /// The card after a run of operations, first to last.
    pub open spec fn after_all(self, operations: Seq<Operation>) -> Card
        decreases operations.len(),
    {
        if operations.len() == 0 {
            self
        } else {
            self.after_all(operations.drop_last()).after(operations.last())
        }
    }

    /// Why a card of that id and metadata cannot be created, if it cannot.
    pub open spec fn creation_error(id: Seq<char>, metadata: Seq<char>) -> Option<AurexError> {
        if encode_utf8(id).len() > MAX_CARD_ID_LEN {
            Some(AurexError::CardIdTooLong)
        } else if encode_utf8(metadata).len() > MAX_METADATA_LEN {
            Some(AurexError::MetadataTooLong)
        } else {
            None
        }
    }

    /// Tells whether a card of that id and metadata can be created.
    pub fn check_creation(id: &str, metadata: &str) -> (result: Result<(), AurexError>)
        ensures
            match result {
                Ok(_) => Card::creation_error(id@, metadata@).is_none(),
                Err(error) => Card::creation_error(id@, metadata@) == Some(error),
            },
    {
        if id.as_bytes().len() > MAX_CARD_ID_LEN {
            return Err(AurexError::CardIdTooLong);
        }
        if metadata.as_bytes().len() > MAX_METADATA_LEN {
            return Err(AurexError::MetadataTooLong);
        }
        Ok(())
    }

    /// Makes a card, empty and active, unless its id or its metadata is too
    /// long.
    pub fn new(
        id: String,
        owner: Address,
        balance_limit: u64,
        metadata: String,
        created_at: i64,
        bump: u8,
    ) -> (result: Result<Card, AurexError>)
        ensures
            match result {
                Ok(card) => {
                    &&& Card::creation_error(id@, metadata@).is_none()
                    &&& card == Card::created(id, owner, balance_limit, metadata, created_at, bump)
                    &&& card.well_formed()
                },
                Err(error) => Card::creation_error(id@, metadata@) == Some(error),
            },
    {
        match Card::check_creation(id.as_str(), metadata.as_str()) {
            Err(error) => Err(error),
            Ok(_) => Ok(
                Card { id, owner, balance: 0, balance_limit, is_active: true, metadata, created_at, bump },
            ),
        }
    }

    /// Tells whether the card accepts a top-up of `amount`.
    pub fn check_top_up(&self, amount: u64) -> (result: Result<(), AurexError>)
        ensures
            match result {
                Ok(_) => self.top_up_error(amount).is_none(),
                Err(error) => self.top_up_error(amount) == Some(error),
            },
    {
        if !self.is_active {
            return Err(AurexError::CardInactive);
        }
        match self.balance.checked_add(amount) {
            Some(sum) => if sum <= self.balance_limit {
                Ok(())
            } else {
                Err(AurexError::BalanceLimitExceeded)
            },
            None => Err(AurexError::BalanceLimitExceeded),
        }
    }

    /// Tells whether the card accepts a payment of `amount` under
    /// `merchant_reference`.
    pub fn check_payment(&self, amount: u64, merchant_reference: &str) -> (result: Result<(), AurexError>)
        ensures
            match result {
                Ok(_) => self.payment_error(amount, merchant_reference@).is_none(),
                Err(error) => self.payment_error(amount, merchant_reference@) == Some(error),
            },
    {
        if !self.is_active {
            return Err(AurexError::CardInactive);
        }
        if self.balance < amount {
            return Err(AurexError::InsufficientBalance);
        }
        if merchant_reference.as_bytes().len() > MAX_MERCHANT_REFERENCE_LEN {
            return Err(AurexError::MerchantReferenceTooLong);
        }
        Ok(())
    }

    /// Tells whether the card accepts a withdrawal.
    pub fn check_withdrawal(&self) -> (result: Result<(), AurexError>)
        ensures
            match result {
                Ok(_) => self.withdrawal_error().is_none(),
                Err(error) => self.withdrawal_error() == Some(error),
            },
    {
        if self.is_active {
            return Err(AurexError::CardStillActive);
        }
        if self.balance == 0 {
            return Err(AurexError::NoBalanceToWithdraw);
        }
        Ok(())
    }

    /// Puts `amount` on the card and returns the new balance, or refuses and
    /// leaves the card as it was.
    pub fn top_up(&mut self, amount: u64) -> (result: Result<u64, AurexError>)
        ensures
            *final(self) == old(self).after(Operation::TopUp(amount)),
            match result {
                Ok(balance) => {
                    &&& old(self).top_up_error(amount).is_none()
                    &&& balance == old(self).balance + amount
                    &&& final(self).balance == balance
                    &&& final(self).within_limit()
                },
                Err(error) => old(self).top_up_error(amount) == Some(error) && *final(self) == *old(self),
            },
    {
        match self.check_top_up(amount) {
            Err(error) => Err(error),
            Ok(_) => {
                self.balance = self.balance + amount;
                Ok(self.balance)
            },
        }
    }

    /// Takes `amount` off the card and returns what remains, or refuses and
    /// leaves the card as it was.
    pub fn pay(&mut self, amount: u64, merchant_reference: &str) -> (result: Result<u64, AurexError>)
        ensures
            *final(self) == old(self).after(Operation::Payment(amount, merchant_reference@)),
            match result {
                Ok(balance) => {
                    &&& old(self).payment_error(amount, merchant_reference@).is_none()
                    &&& balance == old(self).balance - amount
                    &&& final(self).balance == balance
                },
                Err(error) => {
                    &&& old(self).payment_error(amount, merchant_reference@) == Some(error)
                    &&& *final(self) == *old(self)
                },
            },
    {
        match self.check_payment(amount, merchant_reference) {
            Err(error) => Err(error),
            Ok(_) => {
                self.balance = self.balance - amount;
                Ok(self.balance)
            },
        }
    }

    /// Switches the card off. On a card that is off already this changes
    /// nothing.
    pub fn deactivate(&mut self)
        ensures
            *final(self) == old(self).after(Operation::Deactivate),
            !final(self).is_active,
            final(self).balance == old(self).balance,
    {
        self.is_active = false;
    }

    /// Empties a deactivated card and returns what it held, or refuses and
    /// leaves the card as it was.
    pub fn withdraw(&mut self) -> (result: Result<u64, AurexError>)
        ensures
            *final(self) == old(self).after(Operation::Withdraw),
            match result {
                Ok(amount) => {
                    &&& old(self).withdrawal_error().is_none()
                    &&& amount == old(self).balance
                    &&& final(self).balance == 0
                },
                Err(error) => old(self).withdrawal_error() == Some(error) && *final(self) == *old(self),
            },
    {
        match self.check_withdrawal() {
            Err(error) => Err(error),
            Ok(_) => {
                let amount = self.balance;
                self.balance = 0;
                Ok(amount)
            },
        }
    }
}

} // verus!
