//! A ledger of virtual cards. A card is a bounded balance that its owner
//! funds from a wallet into an escrow account, spends to merchants, and
//! takes back after deactivating the card. The escrow account answers to no
//! private key: the ledger alone can present the authority that moves its
//! funds, derived from the card's owner and id.
//!
//! The ledger decides and records; it moves no funds and stores nothing.
//! Each operation takes the records it works on, says which transfer it
//! needs, and, told how that transfer went, changes the records or leaves
//! them as they were.

pub mod address;
pub mod authority;
pub mod error;
pub mod events;
pub mod instructions;
pub mod laws;
pub mod state;
pub mod transfer;

pub use address::Address;
pub use error::{AurexError, TransferError};
pub use events::{BalanceWithdrawn, CardCreated, CardDeactivated, CardToppedUp, PaymentProcessed};
pub use instructions::{
    create_card, deactivate_card, initialize, payment_transfer, process_payment, top_up_card,
    top_up_transfer, withdraw_balance, withdrawal_transfer, CreateCard, DeactivateCard, Initialize,
    ProcessPayment, TopUpCard, WithdrawBalance,
};
pub use state::{BridgeState, Card};
pub use transfer::{Capability, DerivedAuthority, Transfer};
