//! A deterministic fungible-token ledger.
//!
//! The ledger keeps an account registry (balance and replay-protection nonce
//! per identity) and an allowance table (amounts a spender may move out of an
//! owner's balance), and mutates them through authenticated operations:
//! self-transfers, delegated transfers, approvals and module-initiated
//! transfers. Every balance-changing operation either takes full effect or
//! leaves the ledger untouched.
//!
//! Signatures are BLS signatures over the canonical request encodings,
//! checked through the trusted boundary in [`bls`]. The host environment is
//! expected to serialize calls and to run the acceptance callbacks into
//! recipient modules; the ledger hands it the calls to make and consumes
//! their outcomes through [`state::TokenState::settle_acceptance`].

pub mod bls;
pub mod identity;
pub mod laws;
pub mod requests;
pub mod state;
pub mod table;

pub use identity::{Account, AccountInfo};
pub use requests::{
    Allowance, Approve, ApproveEvent, Transfer, TransferEvent, TransferFrom, TransferFromContract,
    TransferInfo,
};
