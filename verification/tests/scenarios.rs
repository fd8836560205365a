use solgiftcards::account::AccountId;
use solgiftcards::context::BurnExpiredGiftCard;
use solgiftcards::context::MintGiftCard;
use solgiftcards::context::RedeemGiftCard;
use solgiftcards::context::TransferGiftCard;
use solgiftcards::error::GiftCardError;
use solgiftcards::ledger::LedgerInstruction;
use solgiftcards::lifecycle::burn_expired_gift_card;
use solgiftcards::lifecycle::mint_gift_card;
use solgiftcards::lifecycle::redeem_gift_card;
use solgiftcards::lifecycle::transfer_gift_card;
use solgiftcards::state::GiftCard;
use solgiftcards::state::GiftCardStatus;

fn acct(id: u64) -> AccountId {
    AccountId { id }
}

fn issue(amount: u64, now: i64, expiry: i64) -> GiftCard {
    let ctx = MintGiftCard {
        issuer: acct(1),
        nft_mint: acct(2),
        gift_card: acct(3),
        issuer_token_account: acct(4),
        escrow_token_account: acct(5),
        issuer_nft_account: acct(6),
        bump: 7,
    };
    mint_gift_card(&ctx, now, amount, expiry, "Shop".to_string(), acct(9), "u".to_string())
        .ok()
        .unwrap()
        .gift_card
}

fn transfer_ctx(signer: u64, new_owner: u64) -> TransferGiftCard {
    TransferGiftCard {
        current_owner: acct(signer),
        new_owner: acct(new_owner),
        gift_card: acct(3),
        current_owner_nft_account: acct(6),
        new_owner_nft_account: acct(16),
    }
}

fn redeem_ctx(signer: u64) -> RedeemGiftCard {
    RedeemGiftCard {
        merchant: acct(signer),
        gift_card: acct(3),
        merchant_nft_account: acct(16),
        escrow_token_account: acct(5),
        merchant_token_account: acct(17),
    }
}

fn reclaim_ctx(signer: u64) -> BurnExpiredGiftCard {
    BurnExpiredGiftCard {
        current_owner: acct(signer),
        gift_card: acct(3),
        owner_nft_account: acct(16),
        escrow_token_account: acct(5),
        issuer: acct(1),
        issuer_token_account: acct(4),
    }
}

#[test]
fn partial_then_full_redemption_ends_the_voucher() {
    let mut card = issue(100, 0, 1000);
    transfer_gift_card(&transfer_ctx(1, 9), &mut card, 10).ok().unwrap();

    let first = redeem_gift_card(&redeem_ctx(9), &mut card, 20, Some(40)).ok().unwrap();
    assert_eq!(card.remaining_balance, 60);
    assert_eq!(card.status, GiftCardStatus::Active);
    // the token stays alive: nothing burned yet
    assert_eq!(first.instructions.len(), 1);

    let second = redeem_gift_card(&redeem_ctx(9), &mut card, 30, Some(60)).ok().unwrap();
    assert_eq!(card.remaining_balance, 0);
    assert_eq!(card.status, GiftCardStatus::Redeemed);
    assert_eq!(second.instructions.len(), 2);
    assert_eq!(
        second.instructions[1],
        LedgerInstruction::BurnToken { token: acct(2), from: acct(16) }
    );
}

#[test]
fn expired_voucher_refuses_redemption_and_refunds_issuer() {
    let mut card = issue(50, 0, 1);
    transfer_gift_card(&transfer_ctx(1, 9), &mut card, 0).ok().unwrap();

    // past expiry the merchant can no longer redeem anything
    let r = redeem_gift_card(&redeem_ctx(9), &mut card, 1, Some(10));
    assert_eq!(r.err().unwrap(), GiftCardError::GiftCardExpired);
    assert_eq!(card.remaining_balance, 50);

    // the holder closes the voucher; all 50 go back to the issuer
    let o = burn_expired_gift_card(&reclaim_ctx(9), &mut card, 1).ok().unwrap();
    assert_eq!(card.status, GiftCardStatus::Expired);
    assert_eq!(card.remaining_balance, 0);
    assert_eq!(o.event.reclaimed_amount, 50);
    assert_eq!(o.event.issuer, acct(1));
    assert!(matches!(
        o.instructions[0],
        LedgerInstruction::MoveValue { amount: 50, to: AccountId { id: 4 }, .. }
    ));
}

#[test]
fn stale_owner_cannot_transfer_twice() {
    let mut card = issue(100, 0, 1000);
    transfer_gift_card(&transfer_ctx(1, 20), &mut card, 10).ok().unwrap();
    assert_eq!(card.current_owner, acct(20));

    let again = transfer_gift_card(&transfer_ctx(1, 21), &mut card, 20);
    assert_eq!(again.err().unwrap(), GiftCardError::NotCurrentOwner);
    assert_eq!(card.current_owner, acct(20));
}

#[test]
fn non_merchant_cannot_redeem() {
    let mut card = issue(100, 0, 1000);
    transfer_gift_card(&transfer_ctx(1, 9), &mut card, 10).ok().unwrap();

    let r = redeem_gift_card(&redeem_ctx(33), &mut card, 20, Some(10));
    assert_eq!(r.err().unwrap(), GiftCardError::UnauthorizedMerchant);
    assert_eq!(card.remaining_balance, 100);
    assert_eq!(card.status, GiftCardStatus::Active);
}

#[test]
fn many_small_redemptions_never_exceed_the_locked_amount() {
    let mut card = issue(100, 0, 1000);
    transfer_gift_card(&transfer_ctx(1, 9), &mut card, 10).ok().unwrap();

    let mut total: u64 = 0;
    for (now, part) in [(20i64, 30u64), (30, 30), (40, 40)] {
        let o = redeem_gift_card(&redeem_ctx(9), &mut card, now, Some(part)).ok().unwrap();
        total += o.event.amount;
    }
    assert_eq!(total, 100);
    assert_eq!(card.remaining_balance, 0);
    assert_eq!(card.status, GiftCardStatus::Redeemed);

    // nothing further can be redeemed
    let r = redeem_gift_card(&redeem_ctx(9), &mut card, 50, Some(1));
    assert_eq!(r.err().unwrap(), GiftCardError::GiftCardNotActive);
}
