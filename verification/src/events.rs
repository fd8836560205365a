//! Events emitted by successful transitions, for the platform's audit log.

use vstd::prelude::*;

use crate::account::AccountId;

verus! {

/// A voucher was issued: funds locked, record created, token minted.
#[derive(Clone, Copy, PartialEq, Eq, Structural, Debug)]
pub struct GiftCardMinted {
    pub gift_card: AccountId,
    pub issuer: AccountId,
    pub merchant: AccountId,
    pub amount: u64,
    pub expiry_timestamp: i64,
    pub nft_mint: AccountId,
}

/// Title to a voucher moved from one owner to another.
#[derive(Clone, Copy, PartialEq, Eq, Structural, Debug)]
pub struct GiftCardTransferred {
    pub gift_card: AccountId,
    pub from: AccountId,
    pub to: AccountId,
    pub nft_mint: AccountId,
}

/// The merchant redeemed part or all of a voucher's balance.
#[derive(Clone, Copy, PartialEq, Eq, Structural, Debug)]
pub struct GiftCardRedeemed {
    pub gift_card: AccountId,
    pub merchant: AccountId,
    pub amount: u64,
    pub remaining_balance: u64,
    pub nft_mint: AccountId,
}

/// An expired voucher was closed and its leftover balance reclaimed.
#[derive(Clone, Copy, PartialEq, Eq, Structural, Debug)]
pub struct GiftCardExpired {
    pub gift_card: AccountId,
    pub issuer: AccountId,
    pub reclaimed_amount: u64,
    pub nft_mint: AccountId,
}

} // verus!
