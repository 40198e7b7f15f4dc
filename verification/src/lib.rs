//! Custody of a fee-collection token account.
//!
//! A fee account holds tokens of one mint on behalf of a single owner. Only
//! that owner may withdraw, and every withdrawal moves the same fixed
//! quantity. The tokens themselves are moved by the host's token service:
//! this library decides, issues the order for the service, and records what
//! the service reports back.

pub mod account;
pub mod error;
pub mod identity;
pub mod initialize;
pub mod laws;
pub mod withdraw;

pub use account::{FeeAccount, FeeAccountView};
pub use error::{CustomError, WithdrawError};
pub use identity::Identity;
pub use initialize::{
    initialize, CreateAccount, CreateAccountView, Initialize, InitializeView, Initialized,
    InitializedView,
};
pub use withdraw::{
    withdraw_fees, Transfer, TransferView, WithdrawFees, WithdrawFeesView, WITHDRAWAL_AMOUNT,
};
