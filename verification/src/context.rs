//! Resolved request contexts, one per transition.
//!
//! The host platform authenticates the caller and resolves every account a
//! request names before the lifecycle controller runs. Each struct here
//! carries the result of that resolution as plain identities: the signer
//! field is the authenticated caller, and the `wf` spec functions state the
//! resolution facts the platform guarantees (which the controller relies on
//! but cannot re-derive from identities alone).

use vstd::prelude::*;

use crate::account::AccountId;
use crate::state::GiftCard;

verus! {

/// Accounts resolved for an issue request.
#[derive(Clone, Copy, PartialEq, Eq, Structural, Debug)]
pub struct MintGiftCard {
    /// Authenticated caller; funds the voucher and receives the token.
    pub issuer: AccountId,
    /// Fresh mint for the ownership token.
    pub nft_mint: AccountId,
    /// Address of the new voucher record, derived from `nft_mint`.
    pub gift_card: AccountId,
    /// The issuer's own value account, the source of the locked funds.
    pub issuer_token_account: AccountId,
    /// Fresh escrow vault, held under the record's derived authority.
    pub escrow_token_account: AccountId,
    /// The issuer's holding account for the ownership token.
    pub issuer_nft_account: AccountId,
    /// Seed completing the record's derived vault authority.
    pub bump: u8,
}

impl MintGiftCard {
    /// Platform resolution facts: the escrow vault is freshly created for
    /// this record, so it is distinct from the issuer's own value account.
    pub open spec fn wf(self) -> bool {
        self.issuer_token_account != self.escrow_token_account
    }
}

/// Accounts resolved for a transfer request.
#[derive(Clone, Copy, PartialEq, Eq, Structural, Debug)]
pub struct TransferGiftCard {
    /// Authenticated caller, claiming to be the voucher's current owner.
    pub current_owner: AccountId,
    /// Identity receiving title.
    pub new_owner: AccountId,
    /// Address of the voucher record.
    pub gift_card: AccountId,
    /// The caller's holding account for the ownership token.
    pub current_owner_nft_account: AccountId,
    /// The new owner's holding account for the ownership token.
    pub new_owner_nft_account: AccountId,
}

/// Accounts resolved for a redeem request.
#[derive(Clone, Copy, PartialEq, Eq, Structural, Debug)]
pub struct RedeemGiftCard {
    /// Authenticated caller, claiming to be the voucher's merchant.
    pub merchant: AccountId,
    /// Address of the voucher record.
    pub gift_card: AccountId,
    /// The caller's holding account for the ownership token.
    pub merchant_nft_account: AccountId,
    /// The voucher's escrow vault.
    pub escrow_token_account: AccountId,
    /// The caller's own value account, the destination of redeemed funds.
    pub merchant_token_account: AccountId,
}

impl RedeemGiftCard {
    /// Platform resolution facts: the escrow account named by the request
    /// is the one the record points at, and it is not the merchant's own
    /// value account.
    pub open spec fn wf(self, card: GiftCard) -> bool {
        &&& self.escrow_token_account == card.escrow_account
        &&& self.merchant_token_account != self.escrow_token_account
    }
}

/// Accounts resolved for a reclaim request on an expired voucher.
#[derive(Clone, Copy, PartialEq, Eq, Structural, Debug)]
pub struct BurnExpiredGiftCard {
    /// Authenticated caller: the current token holder presenting the
    /// expired voucher for closure.
    pub current_owner: AccountId,
    /// Address of the voucher record.
    pub gift_card: AccountId,
    /// The caller's holding account for the ownership token.
    pub owner_nft_account: AccountId,
    /// The voucher's escrow vault.
    pub escrow_token_account: AccountId,
    /// The issuer named by the record.
    pub issuer: AccountId,
    /// The issuer's own value account, the destination of reclaimed funds.
    pub issuer_token_account: AccountId,
}

impl BurnExpiredGiftCard {
    /// Platform resolution facts: the issuer and escrow accounts named by
    /// the request are the ones the record points at, and the reclaim
    /// destination is the issuer's account, distinct from the vault.
    pub open spec fn wf(self, card: GiftCard) -> bool {
        &&& self.escrow_token_account == card.escrow_account
        &&& self.issuer == card.issuer
        &&& self.issuer_token_account != self.escrow_token_account
    }
}

/// Accounts resolved for a read-only inspection request.
#[derive(Clone, Copy, PartialEq, Eq, Structural, Debug)]
pub struct QueryGiftCard {
    /// Address of the voucher record.
    pub gift_card: AccountId,
    /// Mint of the ownership token the record is addressed by.
    pub nft_mint: AccountId,
}

} // verus!
