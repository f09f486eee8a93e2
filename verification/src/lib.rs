//! A token ledger with signature-authorized transfers.
//!
//! A holder signs a payment payload off-line; a facilitator submits it later
//! and collects a basis-point fee. The pipeline checks expiry, replay (via a
//! nonce registry), and an sr25519 signature over a canonical message, then
//! performs the fee-splitting transfer.

pub mod account;
pub mod allowances;
pub mod authorization;
pub mod codec;
pub mod executor;
pub mod fees;
pub mod hashing;
pub mod httpusd;
pub mod ledger;
pub mod nonce;
