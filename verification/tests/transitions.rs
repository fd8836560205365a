use solgiftcards::account::AccountId;
use solgiftcards::account::Authority;
use solgiftcards::context::BurnExpiredGiftCard;
use solgiftcards::context::MintGiftCard;
use solgiftcards::context::QueryGiftCard;
use solgiftcards::context::RedeemGiftCard;
use solgiftcards::context::TransferGiftCard;
use solgiftcards::error::GiftCardError;
use solgiftcards::ledger::LedgerInstruction;
use solgiftcards::lifecycle::burn_expired_gift_card;
use solgiftcards::lifecycle::get_gift_card_status;
use solgiftcards::lifecycle::mint_gift_card;
use solgiftcards::lifecycle::redeem_gift_card;
use solgiftcards::lifecycle::transfer_gift_card;
use solgiftcards::state::GiftCard;
use solgiftcards::state::GiftCardStatus;

fn acct(id: u64) -> AccountId {
    AccountId { id }
}

/// A fresh voucher over 100 units, issued at time 100 by identity 1 for
/// merchant 9, expiring at 1100.
fn issued_card() -> GiftCard {
    let ctx = MintGiftCard {
        issuer: acct(1),
        nft_mint: acct(2),
        gift_card: acct(3),
        issuer_token_account: acct(4),
        escrow_token_account: acct(5),
        issuer_nft_account: acct(6),
        bump: 7,
    };
    mint_gift_card(&ctx, 100, 100, 1100, "Shop".to_string(), acct(9), "u".to_string())
        .ok()
        .unwrap()
        .gift_card
}

fn transfer_ctx(signer: u64, new_owner: u64) -> TransferGiftCard {
    TransferGiftCard {
        current_owner: acct(signer),
        new_owner: acct(new_owner),
        gift_card: acct(3),
        current_owner_nft_account: acct(6),
        new_owner_nft_account: acct(16),
    }
}

fn redeem_ctx(signer: u64) -> RedeemGiftCard {
    RedeemGiftCard {
        merchant: acct(signer),
        gift_card: acct(3),
        merchant_nft_account: acct(16),
        escrow_token_account: acct(5),
        merchant_token_account: acct(17),
    }
}

fn reclaim_ctx(signer: u64) -> BurnExpiredGiftCard {
    BurnExpiredGiftCard {
        current_owner: acct(signer),
        gift_card: acct(3),
        owner_nft_account: acct(6),
        escrow_token_account: acct(5),
        issuer: acct(1),
        issuer_token_account: acct(4),
    }
}

#[test]
fn transfer_changes_owner_and_nothing_else() {
    let mut card = issued_card();
    let r = transfer_gift_card(&transfer_ctx(1, 20), &mut card, 200);
    let o = r.ok().unwrap();
    assert_eq!(card.current_owner, acct(20));
    assert_eq!(card.issuer, acct(1));
    assert_eq!(card.merchant, acct(9));
    assert_eq!(card.merchant_name, "Shop");
    assert_eq!(card.amount, 100);
    assert_eq!(card.remaining_balance, 100);
    assert_eq!(card.status, GiftCardStatus::Active);
    assert_eq!(card.expiry_timestamp, 1100);
    assert_eq!(o.instructions.len(), 1);
    assert_eq!(
        o.instructions[0],
        LedgerInstruction::MoveToken { token: acct(2), from: acct(6), to: acct(16) }
    );
    assert_eq!(o.event.from, acct(1));
    assert_eq!(o.event.to, acct(20));
}

#[test]
fn transfer_rejects_non_owner() {
    let mut card = issued_card();
    let r = transfer_gift_card(&transfer_ctx(20, 21), &mut card, 200);
    assert_eq!(r.err().unwrap(), GiftCardError::NotCurrentOwner);
    assert_eq!(card.current_owner, acct(1));
}

#[test]
fn transfer_rejects_expired_card() {
    let mut card = issued_card();
    let r = transfer_gift_card(&transfer_ctx(1, 20), &mut card, 1100);
    assert_eq!(r.err().unwrap(), GiftCardError::GiftCardExpired);
}

#[test]
fn transfer_rejects_terminal_card() {
    let mut card = issued_card();
    // hand the token to the merchant and redeem everything
    transfer_gift_card(&transfer_ctx(1, 9), &mut card, 200).ok().unwrap();
    redeem_gift_card(&redeem_ctx(9), &mut card, 300, None).ok().unwrap();
    let r = transfer_gift_card(&transfer_ctx(9, 20), &mut card, 400);
    assert_eq!(r.err().unwrap(), GiftCardError::GiftCardNotActive);
}

#[test]
fn redeem_partial_keeps_card_active() {
    let mut card = issued_card();
    transfer_gift_card(&transfer_ctx(1, 9), &mut card, 200).ok().unwrap();
    let r = redeem_gift_card(&redeem_ctx(9), &mut card, 300, Some(40));
    let o = r.ok().unwrap();
    assert_eq!(card.remaining_balance, 60);
    assert_eq!(card.status, GiftCardStatus::Active);
    assert_eq!(o.instructions.len(), 1);
    assert_eq!(
        o.instructions[0],
        LedgerInstruction::MoveValue {
            amount: 40,
            from: acct(5),
            to: acct(17),
            authority: Authority::Vault { record: acct(3), bump: 7 },
        }
    );
    assert_eq!(o.event.amount, 40);
    assert_eq!(o.event.remaining_balance, 60);
}

#[test]
fn redeem_without_amount_takes_whole_balance_and_burns_token() {
    let mut card = issued_card();
    transfer_gift_card(&transfer_ctx(1, 9), &mut card, 200).ok().unwrap();
    let r = redeem_gift_card(&redeem_ctx(9), &mut card, 300, None);
    let o = r.ok().unwrap();
    assert_eq!(card.remaining_balance, 0);
    assert_eq!(card.status, GiftCardStatus::Redeemed);
    assert_eq!(o.instructions.len(), 2);
    assert_eq!(
        o.instructions[1],
        LedgerInstruction::BurnToken { token: acct(2), from: acct(16) }
    );
    assert_eq!(o.event.amount, 100);
    assert_eq!(o.event.remaining_balance, 0);
}

#[test]
fn redeem_rejects_amount_above_balance() {
    let mut card = issued_card();
    transfer_gift_card(&transfer_ctx(1, 9), &mut card, 200).ok().unwrap();
    let r = redeem_gift_card(&redeem_ctx(9), &mut card, 300, Some(101));
    assert_eq!(r.err().unwrap(), GiftCardError::InsufficientBalance);
    assert_eq!(card.remaining_balance, 100);
}

#[test]
fn redeem_rejects_merchant_without_the_token() {
    // the voucher still sits with the issuer, so the merchant cannot
    // present it
    let mut card = issued_card();
    let r = redeem_gift_card(&redeem_ctx(9), &mut card, 300, Some(10));
    assert_eq!(r.err().unwrap(), GiftCardError::NotOwnedByMerchant);
    assert_eq!(card.remaining_balance, 100);
}

#[test]
fn reclaim_rejects_unexpired_card() {
    let mut card = issued_card();
    let r = burn_expired_gift_card(&reclaim_ctx(1), &mut card, 1099);
    assert_eq!(r.err().unwrap(), GiftCardError::GiftCardNotExpired);
    assert_eq!(card.status, GiftCardStatus::Active);
}

#[test]
fn reclaim_rejects_terminal_card() {
    let mut card = issued_card();
    burn_expired_gift_card(&reclaim_ctx(1), &mut card, 1100).ok().unwrap();
    let r = burn_expired_gift_card(&reclaim_ctx(1), &mut card, 1200);
    assert_eq!(r.err().unwrap(), GiftCardError::GiftCardNotActive);
}

#[test]
fn reclaim_with_empty_vault_only_burns_the_token() {
    // a voucher whose balance is already zero still closes cleanly
    let card0 = issued_card();
    let mut card = GiftCard { remaining_balance: 0, ..card0 };
    let r = burn_expired_gift_card(&reclaim_ctx(1), &mut card, 1100);
    let o = r.ok().unwrap();
    assert_eq!(o.instructions.len(), 1);
    assert_eq!(
        o.instructions[0],
        LedgerInstruction::BurnToken { token: acct(2), from: acct(6) }
    );
    assert_eq!(o.event.reclaimed_amount, 0);
    assert_eq!(card.status, GiftCardStatus::Expired);
}

#[test]
fn status_query_returns_the_full_record() {
    let card = issued_card();
    let q = QueryGiftCard { gift_card: acct(3), nft_mint: acct(2) };
    let summary = get_gift_card_status(&q, &card);
    assert_eq!(summary.issuer, card.issuer);
    assert_eq!(summary.current_owner, card.current_owner);
    assert_eq!(summary.merchant, card.merchant);
    assert_eq!(summary.merchant_name, card.merchant_name);
    assert_eq!(summary.amount, card.amount);
    assert_eq!(summary.remaining_balance, card.remaining_balance);
    assert_eq!(summary.mint, card.mint);
    assert_eq!(summary.escrow_account, card.escrow_account);
    assert_eq!(summary.created_at, card.created_at);
    assert_eq!(summary.expiry_timestamp, card.expiry_timestamp);
    assert_eq!(summary.status, card.status);
    assert_eq!(summary.bump, card.bump);
}

#[test]
fn error_messages_are_stable() {
    assert_eq!(
        GiftCardError::InvalidAmount.message(),
        "Invalid amount: must be greater than 0"
    );
    assert_eq!(GiftCardError::GiftCardExpired.message(), "Gift card has expired");
    assert_eq!(GiftCardError::UnauthorizedMerchant.message(), "Unauthorized merchant");
    assert_eq!(GiftCardError::InsufficientBalance.message(), "Insufficient balance");
}
