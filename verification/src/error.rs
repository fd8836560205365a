//! The errors a lifecycle transition can fail with.

use vstd::prelude::*;

verus! {

/// Every way a transition request can be rejected. Each variant names one
/// specific validation failure; a failed transition has no other effect.
#[derive(Clone, Copy, PartialEq, Eq, Structural, Debug)]
pub enum GiftCardError {
    /// Issue: the amount to lock must be greater than 0.
    InvalidAmount,
    /// Issue: the expiry must lie in the future.
    InvalidExpiry,
    /// Issue: the merchant name is limited to 32 characters.
    NameTooLong,
    /// The voucher is not in the `Active` state.
    GiftCardNotActive,
    /// The voucher's expiry has passed.
    GiftCardExpired,
    /// The voucher's expiry has not passed yet.
    GiftCardNotExpired,
    /// Transfer: the caller is not the current owner.
    NotCurrentOwner,
    /// Redeem: the merchant does not currently hold the ownership token.
    NotOwnedByMerchant,
    /// Redeem: the caller is not the voucher's merchant.
    UnauthorizedMerchant,
    /// Redeem: the requested amount exceeds the remaining balance.
    InsufficientBalance,
}

impl GiftCardError {
    /// A stable, human-readable description of the error.
    pub fn message(&self) -> (m: &'static str)
        ensures
            self is InvalidAmount ==> m@ == "Invalid amount: must be greater than 0"@,
            self is InvalidExpiry ==> m@ == "Invalid expiry: must be in the future"@,
            self is NameTooLong ==> m@ == "Merchant name too long: max 32 characters"@,
            self is GiftCardNotActive ==> m@ == "Gift card is not active"@,
            self is GiftCardExpired ==> m@ == "Gift card has expired"@,
            self is GiftCardNotExpired ==> m@ == "Gift card has not expired yet"@,
            self is NotCurrentOwner ==> m@ == "Not the current owner"@,
            self is NotOwnedByMerchant ==> m@ == "Not owned by merchant"@,
            self is UnauthorizedMerchant ==> m@ == "Unauthorized merchant"@,
            self is InsufficientBalance ==> m@ == "Insufficient balance"@,
    {
        match self {
            GiftCardError::InvalidAmount => "Invalid amount: must be greater than 0",
            GiftCardError::InvalidExpiry => "Invalid expiry: must be in the future",
            GiftCardError::NameTooLong => "Merchant name too long: max 32 characters",
            GiftCardError::GiftCardNotActive => "Gift card is not active",
            GiftCardError::GiftCardExpired => "Gift card has expired",
            GiftCardError::GiftCardNotExpired => "Gift card has not expired yet",
            GiftCardError::NotCurrentOwner => "Not the current owner",
            GiftCardError::NotOwnedByMerchant => "Not owned by merchant",
            GiftCardError::UnauthorizedMerchant => "Unauthorized merchant",
            GiftCardError::InsufficientBalance => "Insufficient balance",
        }
    }
}

} // verus!
