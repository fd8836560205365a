//! A verified voucher-escrow state machine for gift cards.
//!
//! A voucher locks a quantity of fungible value in an escrow vault on behalf
//! of an issuer, represents title to the voucher as a transferable ownership
//! token, and lets a fixed merchant redeem the locked value (partially or
//! fully) before an expiry deadline; after expiry the issuer may reclaim
//! whatever is left.
//!
//! The library is the lifecycle controller: each transition validates the
//! request against the voucher record, mutates the record, and returns the
//! value-movement and token-movement instructions that the host platform must
//! perform atomically with the state change. The platform (account
//! resolution, signature checks, and the actual ledger writes) stays outside;
//! it hands each transition the already-resolved accounts, the authenticated
//! signer, and the current time.

pub mod account;
pub mod context;
pub mod error;
pub mod events;
pub mod laws;
pub mod ledger;
pub mod lifecycle;
pub mod state;
