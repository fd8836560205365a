//! The voucher record: the canonical state of one gift card.

use vstd::prelude::*;

use crate::account::AccountId;

verus! {

/// Where a voucher stands in its lifecycle. `Active` is the initial state;
/// `Redeemed` and `Expired` are terminal.
#[derive(Clone, Copy, PartialEq, Eq, Structural, Debug)]
pub enum GiftCardStatus {
    /// The voucher can be transferred, redeemed, or (after expiry) reclaimed.
    Active,
    /// Fully redeemed by the merchant; the ownership token is burned.
    Redeemed,
    /// Reclaimed after expiry; the ownership token is burned.
    Expired,
}

/// The canonical state of one voucher. One record exists per issued gift
/// card, addressed deterministically by the ownership token's identity.
#[derive(Debug)]
pub struct GiftCard {
    /// Identity that created and funded the voucher; reclaim beneficiary.
    pub issuer: AccountId,
    /// Identity currently holding the ownership token; changes on transfer.
    pub current_owner: AccountId,
    /// Fixed identity with exclusive redemption rights.
    pub merchant: AccountId,
    /// Display label for the merchant, at most 32 characters.
    pub merchant_name: String,
    /// Value locked at issuance; immutable.
    pub amount: u64,
    /// Value still redeemable; never increases.
    pub remaining_balance: u64,
    /// Identity of the ownership token's mint.
    pub mint: AccountId,
    /// The escrow vault holding the locked funds.
    pub escrow_account: AccountId,
    /// Time of issuance.
    pub created_at: i64,
    /// Deadline: redemption requires a time before it, reclaim one at or
    /// after it.
    pub expiry_timestamp: i64,
    /// Lifecycle state.
    pub status: GiftCardStatus,
    /// Seed completing the record's derived vault-spending authority.
    pub bump: u8,
}

impl GiftCard {
    /// The record invariants; they hold after issuance and after every
    /// transition.
    pub open spec fn wf(self) -> bool {
        &&& self.remaining_balance <= self.amount
        &&& self.status is Redeemed ==> self.remaining_balance == 0
        &&& self.status is Expired ==> self.remaining_balance == 0
        &&& self.merchant_name@.len() <= 32
    }

    /// True when all fields other than the mutable balance, status, and
    /// owner are the same in `self` and `other`: the identities, amounts,
    /// and timestamps fixed at issuance.
    pub open spec fn same_immutable_fields(self, other: GiftCard) -> bool {
        &&& other.issuer == self.issuer
        &&& other.merchant == self.merchant
        &&& other.merchant_name@ == self.merchant_name@
        &&& other.amount == self.amount
        &&& other.mint == self.mint
        &&& other.escrow_account == self.escrow_account
        &&& other.created_at == self.created_at
        &&& other.expiry_timestamp == self.expiry_timestamp
        &&& other.bump == self.bump
    }
}

} // verus!
