use vstd::prelude::*;

verus! {

/// Why the transfer service refused a transfer.
#[derive(Clone, Copy, Debug, PartialEq, Eq, Structural)]
pub enum TransferError {
    /// The source account holds less than the amount.
    InsufficientFunds,
    /// One of the two accounts is frozen.
    AccountFrozen,
    /// The capability presented does not control the source account.
    AuthorityMismatch,
}

/// Why an operation of the ledger was refused. Every refusal leaves the
/// records as they were.
#[derive(Clone, Copy, Debug, PartialEq, Eq, Structural)]
pub enum AurexError {
    /// The card id has more than 32 bytes.
    CardIdTooLong,
    /// The metadata has more than 256 bytes.
    MetadataTooLong,
    /// The operation needs an active card.
    CardInactive,
    /// The top-up would lift the balance over the card's limit.
    BalanceLimitExceeded,
    /// The card holds less than the payment.
    InsufficientBalance,
    /// The merchant reference has more than 64 bytes.
    MerchantReferenceTooLong,
    /// The operation needs a deactivated card.
    CardStillActive,
    /// The card holds nothing to withdraw.
    NoBalanceToWithdraw,
    /// The registry exists already.
    AlreadyInitialized,
    /// The owner has a card of that id already.
    DuplicateCard,
    /// The caller is not the card's owner.
    Unauthorized,
    /// An account offered is not the one that the derivation scheme assigns.
    AddressMismatch,
    /// The transfer service refused the transfer.
    Transfer(TransferError),
}

impl AurexError {
    /// The text that describes the error.
    pub open spec fn text(self) -> Seq<char> {
        match self {
            AurexError::CardIdTooLong => "Card ID is too long (max 32 characters)"@,
            AurexError::MetadataTooLong => "Metadata is too long (max 256 characters)"@,
            AurexError::CardInactive => "Card is inactive"@,
            AurexError::BalanceLimitExceeded => "Balance limit exceeded"@,
            AurexError::InsufficientBalance => "Insufficient balance"@,
            AurexError::MerchantReferenceTooLong => "Merchant reference is too long (max 64 characters)"@,
            AurexError::CardStillActive => "Card is still active"@,
            AurexError::NoBalanceToWithdraw => "No balance to withdraw"@,
            AurexError::AlreadyInitialized => "Registry is already initialized"@,
            AurexError::DuplicateCard => "Card already exists"@,
            AurexError::Unauthorized => "Caller is not the card owner"@,
            AurexError::AddressMismatch => "Account does not match its derived address"@,
            AurexError::Transfer(TransferError::InsufficientFunds) => "Transfer refused: insufficient funds"@,
            AurexError::Transfer(TransferError::AccountFrozen) => "Transfer refused: account frozen"@,
            AurexError::Transfer(TransferError::AuthorityMismatch) => "Transfer refused: authority mismatch"@,
        }
    }

    /// The message that describes the error.
    pub fn message(&self) -> (message: &'static str)
        ensures
            message@ == self.text(),
    {
        match self {
            AurexError::CardIdTooLong => "Card ID is too long (max 32 characters)",
            AurexError::MetadataTooLong => "Metadata is too long (max 256 characters)",
            AurexError::CardInactive => "Card is inactive",
            AurexError::BalanceLimitExceeded => "Balance limit exceeded",
            AurexError::InsufficientBalance => "Insufficient balance",
            AurexError::MerchantReferenceTooLong => "Merchant reference is too long (max 64 characters)",
            AurexError::CardStillActive => "Card is still active",
            AurexError::NoBalanceToWithdraw => "No balance to withdraw",
            AurexError::AlreadyInitialized => "Registry is already initialized",
            AurexError::DuplicateCard => "Card already exists",
            AurexError::Unauthorized => "Caller is not the card owner",
            AurexError::AddressMismatch => "Account does not match its derived address",
            AurexError::Transfer(TransferError::InsufficientFunds) => "Transfer refused: insufficient funds",
            AurexError::Transfer(TransferError::AccountFrozen) => "Transfer refused: account frozen",
            AurexError::Transfer(TransferError::AuthorityMismatch) => "Transfer refused: authority mismatch",
        }
    }
}

} // verus!
