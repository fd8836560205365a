//! The guarantees that hold across transitions, proved from the contracts.
//!
//! Each proof function here states one law of the escrow in terms of the
//! ledger-instruction semantics of [`crate::ledger`] and the transition
//! relations of [`crate::lifecycle`], so a reader can see — not merely
//! infer — what the voucher promises: issued funds land in the vault, no
//! sequence of redemptions exceeds the locked amount, transfers move no
//! value, and reclaimed funds go to the issuer and nobody else.

use vstd::prelude::*;

use crate::account::AccountId;
use crate::context::BurnExpiredGiftCard;
use crate::context::MintGiftCard;
use crate::context::RedeemGiftCard;
use crate::context::TransferGiftCard;
use crate::ledger::lemma_token_burn_count_unfold;
use crate::ledger::lemma_token_mint_count_unfold;
use crate::ledger::lemma_value_delta_unfold;
use crate::ledger::token_burn_count;
use crate::ledger::token_mint_count;
use crate::ledger::value_delta;
use crate::ledger::LedgerInstruction;
use crate::lifecycle::issue_instructions;
use crate::lifecycle::redeem_instructions;
use crate::lifecycle::redeemed_card;
use crate::lifecycle::reclaim_instructions;
use crate::lifecycle::transfer_instructions;
use crate::state::GiftCard;

verus! {

/// Law: a successful issue locks exactly `amount` in the escrow vault —
/// the instructions it emits credit the vault by `amount`, debit the
/// issuer's account by the same, and mint exactly one ownership token,
/// burning none.
pub proof fn lemma_issue_funds_escrow(
    ctx: MintGiftCard,
    amount: u64,
    merchant_name: Seq<char>,
    uri: Seq<char>,
    instrs: Seq<LedgerInstruction>,
)
    requires
        ctx.wf(),
        issue_instructions(ctx, amount, merchant_name, uri, instrs),
    ensures
        value_delta(instrs, ctx.escrow_token_account) == amount,
        value_delta(instrs, ctx.issuer_token_account) == -(amount as int),
        token_mint_count(instrs, ctx.nft_mint) == 1,
        token_burn_count(instrs, ctx.nft_mint) == 0,
{
    let rest1 = instrs.drop_first();
    let rest2 = rest1.drop_first();
    let rest3 = rest2.drop_first();
    assert(rest1[0] == instrs[1]);
    assert(rest1[1] == instrs[2]);
    assert(rest2[0] == instrs[2]);
    assert(rest3.len() == 0);
    lemma_value_delta_unfold(instrs, ctx.escrow_token_account);
    lemma_value_delta_unfold(rest1, ctx.escrow_token_account);
    lemma_value_delta_unfold(rest2, ctx.escrow_token_account);
    lemma_value_delta_unfold(rest3, ctx.escrow_token_account);
    lemma_value_delta_unfold(instrs, ctx.issuer_token_account);
    lemma_value_delta_unfold(rest1, ctx.issuer_token_account);
    lemma_value_delta_unfold(rest2, ctx.issuer_token_account);
    lemma_value_delta_unfold(rest3, ctx.issuer_token_account);
    lemma_token_mint_count_unfold(instrs, ctx.nft_mint);
    lemma_token_mint_count_unfold(rest1, ctx.nft_mint);
    lemma_token_mint_count_unfold(rest2, ctx.nft_mint);
    lemma_token_mint_count_unfold(rest3, ctx.nft_mint);
    lemma_token_burn_count_unfold(instrs, ctx.nft_mint);
    lemma_token_burn_count_unfold(rest1, ctx.nft_mint);
    lemma_token_burn_count_unfold(rest2, ctx.nft_mint);
    lemma_token_burn_count_unfold(rest3, ctx.nft_mint);
}

/// Law: a transfer conveys title only. Its instructions move no fungible
/// value at all — no account's balance changes — and the ownership token
/// is neither minted nor burned.
pub proof fn lemma_transfer_moves_no_value(
    ctx: TransferGiftCard,
    pre: GiftCard,
    instrs: Seq<LedgerInstruction>,
)
    requires
        transfer_instructions(ctx, pre, instrs),
    ensures
        forall|acct: AccountId| value_delta(instrs, acct) == 0,
        token_mint_count(instrs, pre.mint) == 0,
        token_burn_count(instrs, pre.mint) == 0,
{
    let rest1 = instrs.drop_first();
    assert(rest1.len() == 0);
    assert forall|acct: AccountId| value_delta(instrs, acct) == 0 by {
        lemma_value_delta_unfold(instrs, acct);
        lemma_value_delta_unfold(rest1, acct);
    }
    lemma_token_mint_count_unfold(instrs, pre.mint);
    lemma_token_mint_count_unfold(rest1, pre.mint);
    lemma_token_burn_count_unfold(instrs, pre.mint);
    lemma_token_burn_count_unfold(rest1, pre.mint);
}

/// Law: a successful redemption of `redeemed` pays the merchant exactly
/// that much out of the vault — no more, no less — and burns the ownership
/// token exactly when the balance is exhausted.
pub proof fn lemma_redeem_pays_merchant(
    ctx: RedeemGiftCard,
    pre: GiftCard,
    redeemed: u64,
    instrs: Seq<LedgerInstruction>,
)
    requires
        pre.wf(),
        ctx.wf(pre),
        redeem_instructions(ctx, pre, redeemed, instrs),
    ensures
        value_delta(instrs, ctx.merchant_token_account) == redeemed,
        value_delta(instrs, pre.escrow_account) == -(redeemed as int),
        token_mint_count(instrs, pre.mint) == 0,
        token_burn_count(instrs, pre.mint) == (if redeemed == pre.remaining_balance {
            1nat
        } else {
            0nat
        }),
{
    let rest1 = instrs.drop_first();
    let rest2 = rest1.drop_first();
    if redeemed == pre.remaining_balance {
        assert(rest1[0] == instrs[1]);
        assert(rest2.len() == 0);
    } else {
        assert(rest1.len() == 0);
    }
    lemma_value_delta_unfold(instrs, ctx.merchant_token_account);
    lemma_value_delta_unfold(rest1, ctx.merchant_token_account);
    lemma_value_delta_unfold(rest2, ctx.merchant_token_account);
    lemma_value_delta_unfold(instrs, pre.escrow_account);
    lemma_value_delta_unfold(rest1, pre.escrow_account);
    lemma_value_delta_unfold(rest2, pre.escrow_account);
    lemma_token_mint_count_unfold(instrs, pre.mint);
    lemma_token_mint_count_unfold(rest1, pre.mint);
    lemma_token_mint_count_unfold(rest2, pre.mint);
    lemma_token_burn_count_unfold(instrs, pre.mint);
    lemma_token_burn_count_unfold(rest1, pre.mint);
    lemma_token_burn_count_unfold(rest2, pre.mint);
}

/// Law: a successful reclaim returns the whole leftover balance from the
/// vault to the issuer's account — never to the caller's — and burns the
/// ownership token.
pub proof fn lemma_reclaim_refunds_issuer(
    ctx: BurnExpiredGiftCard,
    pre: GiftCard,
    instrs: Seq<LedgerInstruction>,
)
    requires
        ctx.wf(pre),
        reclaim_instructions(ctx, pre, instrs),
    ensures
        value_delta(instrs, ctx.issuer_token_account) == pre.remaining_balance,
        value_delta(instrs, pre.escrow_account) == -(pre.remaining_balance as int),
        token_mint_count(instrs, pre.mint) == 0,
        token_burn_count(instrs, pre.mint) == 1,
{
    let rest1 = instrs.drop_first();
    let rest2 = rest1.drop_first();
    if pre.remaining_balance > 0 {
        assert(rest1[0] == instrs[1]);
        assert(rest2.len() == 0);
    } else {
        assert(rest1.len() == 0);
    }
    lemma_value_delta_unfold(instrs, ctx.issuer_token_account);
    lemma_value_delta_unfold(rest1, ctx.issuer_token_account);
    lemma_value_delta_unfold(rest2, ctx.issuer_token_account);
    lemma_value_delta_unfold(instrs, pre.escrow_account);
    lemma_value_delta_unfold(rest1, pre.escrow_account);
    lemma_value_delta_unfold(rest2, pre.escrow_account);
    lemma_token_mint_count_unfold(instrs, pre.mint);
    lemma_token_mint_count_unfold(rest1, pre.mint);
    lemma_token_mint_count_unfold(rest2, pre.mint);
    lemma_token_burn_count_unfold(instrs, pre.mint);
    lemma_token_burn_count_unfold(rest1, pre.mint);
    lemma_token_burn_count_unfold(rest2, pre.mint);
}

/// One successful redemption, as a relation between the record before and
/// after: the voucher was active, the redeemed amount was covered by the
/// remaining balance, and the record changed as `redeemed_card` says.
/// `redeem_gift_card` ensures exactly this of every success.
pub open spec fn redeem_step(pre: GiftCard, post: GiftCard, redeemed: u64) -> bool {
    &&& pre.status is Active
    &&& redeemed <= pre.remaining_balance
    &&& redeemed_card(pre, redeemed, post)
}

/// A whole history of successful redemptions: `cards` are the successive
/// record states, `amounts` the amounts redeemed between them.
pub open spec fn redeem_chain(cards: Seq<GiftCard>, amounts: Seq<u64>) -> bool {
    &&& cards.len() == amounts.len() + 1
    &&& forall|i: int|
        0 <= i < amounts.len() ==> redeem_step(cards[i], cards[i + 1], amounts[i])
}

/// The total redeemed over a history.
pub open spec fn sum_redeemed(amounts: Seq<u64>) -> int
    decreases amounts.len(),
{
    if amounts.len() == 0 {
        0
    } else {
        amounts[0] + sum_redeemed(amounts.drop_first())
    }
}

/// Over any history of redemptions, the total redeemed is exactly the drop
/// in the remaining balance.
pub proof fn lemma_redeemed_total(cards: Seq<GiftCard>, amounts: Seq<u64>)
    requires
        redeem_chain(cards, amounts),
    ensures
        sum_redeemed(amounts) == cards[0].remaining_balance - cards[cards.len()
            - 1].remaining_balance,
    decreases amounts.len(),
{
    if amounts.len() == 0 {
    } else {
        let cards1 = cards.drop_first();
        let amounts1 = amounts.drop_first();
        assert(redeem_step(cards[0], cards[1], amounts[0]));
        assert forall|i: int|
            0 <= i < amounts1.len() implies redeem_step(
            cards1[i],
            cards1[i + 1],
            amounts1[i],
        ) by {
            assert(redeem_step(cards[i + 1], cards[i + 2], amounts[i + 1]));
        }
        lemma_redeemed_total(cards1, amounts1);
    }
}

/// Law: no sequence of partial redemptions can over-redeem. The sum of the
/// redeemed amounts never exceeds the amount originally locked, and the
/// history's final record is `Redeemed` exactly when its balance is
/// exhausted — the redemption that reaches zero is the one that ends the
/// voucher's life.
pub proof fn lemma_no_over_redemption(cards: Seq<GiftCard>, amounts: Seq<u64>)
    requires
        cards[0].wf(),
        redeem_chain(cards, amounts),
    ensures
        sum_redeemed(amounts) <= cards[0].amount,
        amounts.len() > 0 ==> (cards[cards.len() - 1].status is Redeemed <==> cards[cards.len()
            - 1].remaining_balance == 0),
        cards[cards.len() - 1].amount == cards[0].amount,
    decreases amounts.len(),
{
    lemma_redeemed_total(cards, amounts);
    if amounts.len() > 0 {
        assert(redeem_step(cards[amounts.len() - 1], cards[cards.len() - 1], amounts[amounts.len()
            - 1]));
        if amounts.len() > 1 {
            let cards1 = cards.drop_first();
            let amounts1 = amounts.drop_first();
            assert(redeem_step(cards[0], cards[1], amounts[0]));
            assert(cards[1].wf());
            assert forall|i: int|
                0 <= i < amounts1.len() implies redeem_step(
                cards1[i],
                cards1[i + 1],
                amounts1[i],
            ) by {
                assert(redeem_step(cards[i + 1], cards[i + 2], amounts[i + 1]));
            }
            lemma_no_over_redemption(cards1, amounts1);
        }
    }
}

} // verus!
