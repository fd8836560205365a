//! Identities of ledger accounts, and the authority under which value moves.

use vstd::prelude::*;

verus! {

/// The identity of an account on the host ledger: a wallet, a token holding
/// account, a token mint, or a voucher record. The lifecycle logic only ever
/// compares identities, so an opaque numeric id is all it keeps.
#[derive(Clone, Copy, PartialEq, Eq, Structural, Debug)]
pub struct AccountId {
    pub id: u64,
}

/// The authority justifying a value movement to the ledger.
///
/// Escrowed funds are never spent under a personal signing key: the vault's
/// spending authority is derived from the voucher record itself, so only the
/// lifecycle controller acting for that exact record can release them.
#[derive(Clone, Copy, PartialEq, Eq, Structural, Debug)]
pub enum Authority {
    /// A signature by the holder of the source account.
    Holder { holder: AccountId },
    /// The derived, non-key authority bound to one voucher record.
    Vault { record: AccountId, bump: u8 },
}

} // verus!
