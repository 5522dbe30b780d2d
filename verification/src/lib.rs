//! A single-owner custodial vault for a ledger's native currency.
//!
//! The crate holds the vault's state machine: creation, deposit and
//! withdrawal, with the authorization and arithmetic rules that protect the
//! funds. Moving the currency itself is left to the caller: every operation
//! that succeeds hands back the transfer that has to accompany it.

pub mod address;
pub mod derivation;
pub mod vault;
pub mod manager;
pub mod history;
pub mod layout;

pub use crate::address::Address;
pub use crate::derivation::{derive_escrow, Escrow};
pub use crate::manager::{
    check_balance, deposit, deposit_with_escrow, initialize, withdraw, withdraw_with_escrow,
    CheckBalance, Deposit, Initialize, Withdraw,
};
pub use crate::vault::{Authority, ErrorCode, Signer, Transfer, Vault, VaultAccount};
