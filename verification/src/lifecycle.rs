//! The four lifecycle transitions and the read path.
//!
//! Each transition validates the request against the voucher record, then
//! mutates the record and returns the exact value- and token-movements the
//! platform must perform atomically with the state change, together with the
//! event to append to the audit log. Every precondition is checked before
//! any movement is emitted, so a failed request changes nothing.

use vstd::prelude::*;
use vstd::string::StrSliceExecFns;

use crate::account::AccountId;
use crate::account::Authority;
use crate::context::BurnExpiredGiftCard;
use crate::context::MintGiftCard;
use crate::context::QueryGiftCard;
use crate::context::RedeemGiftCard;
use crate::context::TransferGiftCard;
use crate::error::GiftCardError;
use crate::events::GiftCardExpired;
use crate::events::GiftCardMinted;
use crate::events::GiftCardRedeemed;
use crate::events::GiftCardTransferred;
use crate::ledger::LedgerInstruction;
use crate::state::GiftCard;
use crate::state::GiftCardStatus;

verus! {

/// What a successful issue hands back: the new record, the movements to
/// perform, and the event to log.
pub struct IssueOutcome {
    pub gift_card: GiftCard,
    pub instructions: Vec<LedgerInstruction>,
    pub event: GiftCardMinted,
}

/// What a successful transfer hands back.
pub struct TransferOutcome {
    pub instructions: Vec<LedgerInstruction>,
    pub event: GiftCardTransferred,
}

/// What a successful redemption hands back.
pub struct RedeemOutcome {
    pub instructions: Vec<LedgerInstruction>,
    pub event: GiftCardRedeemed,
}

/// What a successful reclaim hands back.
pub struct ReclaimOutcome {
    pub instructions: Vec<LedgerInstruction>,
    pub event: GiftCardExpired,
}

/// The inputs an issue request must satisfy.
pub open spec fn issue_accepted(
    amount: u64,
    expiry_timestamp: i64,
    now: i64,
    merchant_name: Seq<char>,
) -> bool {
    &&& amount > 0
    &&& expiry_timestamp > now
    &&& merchant_name.len() <= 32
}

/// The record a successful issue creates.
pub open spec fn issued_card(
    ctx: MintGiftCard,
    now: i64,
    amount: u64,
    expiry_timestamp: i64,
    merchant_name: Seq<char>,
    merchant_address: AccountId,
    card: GiftCard,
) -> bool {
    &&& card.issuer == ctx.issuer
    &&& card.current_owner == ctx.issuer
    &&& card.merchant == merchant_address
    &&& card.merchant_name@ == merchant_name
    &&& card.amount == amount
    &&& card.remaining_balance == amount
    &&& card.mint == ctx.nft_mint
    &&& card.escrow_account == ctx.escrow_token_account
    &&& card.created_at == now
    &&& card.expiry_timestamp == expiry_timestamp
    &&& card.status is Active
    &&& card.bump == ctx.bump
}

/// The movements a successful issue emits: lock the funds in escrow, mint
/// the single ownership token to the issuer, attach metadata to it.
pub open spec fn issue_instructions(
    ctx: MintGiftCard,
    amount: u64,
    merchant_name: Seq<char>,
    uri: Seq<char>,
    instrs: Seq<LedgerInstruction>,
) -> bool {
    &&& instrs.len() == 3
    &&& instrs[0] == (LedgerInstruction::MoveValue {
        amount,
        from: ctx.issuer_token_account,
        to: ctx.escrow_token_account,
        authority: (Authority::Holder { holder: ctx.issuer }),
    })
    &&& instrs[1] == (LedgerInstruction::MintToken { token: ctx.nft_mint, to: ctx.issuer_nft_account })
    &&& (instrs[2] matches LedgerInstruction::RegisterMetadata { token, name, uri: u, creator }
        && token == ctx.nft_mint && name@ == merchant_name && u@ == uri && creator == ctx.issuer)
}

/// The event a successful issue logs.
pub open spec fn issue_event(
    ctx: MintGiftCard,
    amount: u64,
    expiry_timestamp: i64,
    merchant_address: AccountId,
) -> GiftCardMinted {
    GiftCardMinted {
        gift_card: ctx.gift_card,
        issuer: ctx.issuer,
        merchant: merchant_address,
        amount,
        expiry_timestamp,
        nft_mint: ctx.nft_mint,
    }
}

/// Issue a new voucher: validate the inputs, create the record with the
/// full amount still redeemable, and emit the movements that lock `amount`
/// in a fresh escrow vault and mint the ownership token to the issuer.
pub fn mint_gift_card(
    ctx: &MintGiftCard,
    now: i64,
    amount: u64,
    expiry_timestamp: i64,
    merchant_name: String,
    merchant_address: AccountId,
    uri: String,
) -> (r: Result<IssueOutcome, GiftCardError>)
    requires
        ctx.wf(),
    ensures
        r is Ok <==> issue_accepted(amount, expiry_timestamp, now, merchant_name@),
        r matches Err(e) ==> (e == GiftCardError::InvalidAmount <==> amount == 0),
        r matches Err(e) ==> (amount > 0 ==> (e == GiftCardError::InvalidExpiry
            <==> expiry_timestamp <= now)),
        r matches Err(e) ==> (amount > 0 && expiry_timestamp > now ==> e
            == GiftCardError::NameTooLong && merchant_name@.len() > 32),
        r matches Ok(o) ==> issued_card(
            *ctx,
            now,
            amount,
            expiry_timestamp,
            merchant_name@,
            merchant_address,
            o.gift_card,
        ) && o.gift_card.wf(),
        r matches Ok(o) ==> issue_instructions(*ctx, amount, merchant_name@, uri@, o.instructions@),
        r matches Ok(o) ==> o.event == issue_event(*ctx, amount, expiry_timestamp, merchant_address),
{
    if amount == 0 {
        return Err(GiftCardError::InvalidAmount);
    }
    if expiry_timestamp <= now {
        return Err(GiftCardError::InvalidExpiry);
    }
    if merchant_name.as_str().unicode_len() > 32 {
        return Err(GiftCardError::NameTooLong);
    }
    let metadata_name = merchant_name.clone();
    let gift_card = GiftCard {
        issuer: ctx.issuer,
        current_owner: ctx.issuer,
        merchant: merchant_address,
        merchant_name,
        amount,
        remaining_balance: amount,
        mint: ctx.nft_mint,
        escrow_account: ctx.escrow_token_account,
        created_at: now,
        expiry_timestamp,
        status: GiftCardStatus::Active,
        bump: ctx.bump,
    };
    let mut instructions: Vec<LedgerInstruction> = Vec::new();
    instructions.push(
        LedgerInstruction::MoveValue {
            amount,
            from: ctx.issuer_token_account,
            to: ctx.escrow_token_account,
            authority: Authority::Holder { holder: ctx.issuer },
        },
    );
    instructions.push(LedgerInstruction::MintToken { token: ctx.nft_mint, to: ctx.issuer_nft_account });
    instructions.push(
        LedgerInstruction::RegisterMetadata {
            token: ctx.nft_mint,
            name: metadata_name,
            uri,
            creator: ctx.issuer,
        },
    );
    let event = GiftCardMinted {
        gift_card: ctx.gift_card,
        issuer: ctx.issuer,
        merchant: merchant_address,
        amount,
        expiry_timestamp,
        nft_mint: ctx.nft_mint,
    };
    Ok(IssueOutcome { gift_card, instructions, event })
}

/// The conditions under which a transfer request is accepted.
pub open spec fn transfer_accepted(ctx: TransferGiftCard, card: GiftCard, now: i64) -> bool {
    &&& ctx.current_owner == card.current_owner
    &&& card.status is Active
    &&& now < card.expiry_timestamp
}

/// How a successful transfer changes the record: the owner becomes
/// `new_owner`, everything else stays as it was.
pub open spec fn transferred_card(pre: GiftCard, new_owner: AccountId, post: GiftCard) -> bool {
    &&& pre.same_immutable_fields(post)
    &&& post.current_owner == new_owner
    &&& post.remaining_balance == pre.remaining_balance
    &&& post.status == pre.status
}

/// The movements a successful transfer emits: the ownership token moves to
/// the new owner's holding account. Balance and escrow are untouched.
pub open spec fn transfer_instructions(
    ctx: TransferGiftCard,
    pre: GiftCard,
    instrs: Seq<LedgerInstruction>,
) -> bool {
    &&& instrs.len() == 1
    &&& instrs[0] == (LedgerInstruction::MoveToken {
        token: pre.mint,
        from: ctx.current_owner_nft_account,
        to: ctx.new_owner_nft_account,
    })
}

/// The event a successful transfer logs.
pub open spec fn transfer_event(ctx: TransferGiftCard, pre: GiftCard) -> GiftCardTransferred {
    GiftCardTransferred {
        gift_card: ctx.gift_card,
        from: pre.current_owner,
        to: ctx.new_owner,
        nft_mint: pre.mint,
    }
}

/// Transfer title to a voucher: only the current owner may pass it on, only
/// while the voucher is active and unexpired, and only the owner field
/// changes — redemption rights stay with the fixed merchant.
pub fn transfer_gift_card(ctx: &TransferGiftCard, card: &mut GiftCard, now: i64) -> (r: Result<
    TransferOutcome,
    GiftCardError,
>)
    requires
        old(card).wf(),
    ensures
        final(card).wf(),
        r is Err ==> *final(card) == *old(card),
        r is Ok <==> transfer_accepted(*ctx, *old(card), now),
        r matches Err(e) ==> (e == GiftCardError::NotCurrentOwner
            <==> ctx.current_owner != old(card).current_owner),
        r matches Err(e) ==> (ctx.current_owner == old(card).current_owner
            ==> (e == GiftCardError::GiftCardNotActive <==> !(old(card).status is Active))),
        r matches Err(e) ==> (ctx.current_owner == old(card).current_owner
            && old(card).status is Active
            ==> e == GiftCardError::GiftCardExpired && now >= old(card).expiry_timestamp),
        r is Ok ==> transferred_card(*old(card), ctx.new_owner, *final(card)),
        r matches Ok(o) ==> transfer_instructions(*ctx, *old(card), o.instructions@),
        r matches Ok(o) ==> o.event == transfer_event(*ctx, *old(card)),
{
    if ctx.current_owner.id != card.current_owner.id {
        return Err(GiftCardError::NotCurrentOwner);
    }
    if !matches!(card.status, GiftCardStatus::Active) {
        return Err(GiftCardError::GiftCardNotActive);
    }
    if now >= card.expiry_timestamp {
        return Err(GiftCardError::GiftCardExpired);
    }
    let old_owner = card.current_owner;
    card.current_owner = ctx.new_owner;
    let mut instructions: Vec<LedgerInstruction> = Vec::new();
    instructions.push(
        LedgerInstruction::MoveToken {
            token: card.mint,
            from: ctx.current_owner_nft_account,
            to: ctx.new_owner_nft_account,
        },
    );
    let event = GiftCardTransferred {
        gift_card: ctx.gift_card,
        from: old_owner,
        to: ctx.new_owner,
        nft_mint: card.mint,
    };
    Ok(TransferOutcome { instructions, event })
}

/// The amount a redeem request asks for: the explicit amount if one is
/// given, the whole remaining balance otherwise.
pub open spec fn requested_amount(request: Option<u64>, remaining: u64) -> u64 {
    match request {
        Option::Some(a) => a,
        Option::None => remaining,
    }
}

/// The conditions under which a redeem request is accepted.
pub open spec fn redeem_accepted(
    ctx: RedeemGiftCard,
    card: GiftCard,
    now: i64,
    request: Option<u64>,
) -> bool {
    &&& ctx.merchant == card.merchant
    &&& card.status is Active
    &&& now < card.expiry_timestamp
    &&& card.current_owner == card.merchant
    &&& requested_amount(request, card.remaining_balance) <= card.remaining_balance
}

/// How a successful redemption of `redeemed` changes the record: the
/// balance drops by exactly that amount, and the voucher becomes `Redeemed`
/// precisely when the balance reaches zero; nothing else changes.
pub open spec fn redeemed_card(pre: GiftCard, redeemed: u64, post: GiftCard) -> bool {
    &&& pre.same_immutable_fields(post)
    &&& post.current_owner == pre.current_owner
    &&& post.remaining_balance == pre.remaining_balance - redeemed
    &&& post.status == (if post.remaining_balance == 0 {
        GiftCardStatus::Redeemed
    } else {
        GiftCardStatus::Active
    })
}

/// The movements a successful redemption emits: the redeemed value leaves
/// escrow for the merchant under the record's derived authority — never
/// under a personal key — and the ownership token is burned exactly when
/// the balance is exhausted.
pub open spec fn redeem_instructions(
    ctx: RedeemGiftCard,
    pre: GiftCard,
    redeemed: u64,
    instrs: Seq<LedgerInstruction>,
) -> bool {
    &&& instrs.len() == (if redeemed == pre.remaining_balance {
        2int
    } else {
        1int
    })
    &&& instrs[0] == (LedgerInstruction::MoveValue {
        amount: redeemed,
        from: pre.escrow_account,
        to: ctx.merchant_token_account,
        authority: (Authority::Vault { record: ctx.gift_card, bump: pre.bump }),
    })
    &&& redeemed == pre.remaining_balance ==> instrs[1] == (LedgerInstruction::BurnToken {
        token: pre.mint,
        from: ctx.merchant_nft_account,
    })
}

/// The event a successful redemption logs.
pub open spec fn redeem_event(ctx: RedeemGiftCard, pre: GiftCard, redeemed: u64) -> GiftCardRedeemed {
    GiftCardRedeemed {
        gift_card: ctx.gift_card,
        merchant: ctx.merchant,
        amount: redeemed,
        remaining_balance: (pre.remaining_balance - redeemed) as u64,
        nft_mint: pre.mint,
    }
}

/// Redeem part or all of a voucher's balance. Redemption is a role right:
/// only the identity fixed as `merchant` at issuance may redeem, and the
/// merchant must currently hold the ownership token. An omitted amount
/// redeems the whole remaining balance; exhausting the balance burns the
/// token and ends the voucher's life as `Redeemed`.
pub fn redeem_gift_card(
    ctx: &RedeemGiftCard,
    card: &mut GiftCard,
    now: i64,
    amount_to_redeem: Option<u64>,
) -> (r: Result<RedeemOutcome, GiftCardError>)
    requires
        old(card).wf(),
        ctx.wf(*old(card)),
    ensures
        final(card).wf(),
        r is Err ==> *final(card) == *old(card),
        r is Ok <==> redeem_accepted(*ctx, *old(card), now, amount_to_redeem),
        r matches Err(e) ==> (e == GiftCardError::UnauthorizedMerchant
            <==> ctx.merchant != old(card).merchant),
        r matches Err(e) ==> (ctx.merchant == old(card).merchant
            ==> (e == GiftCardError::GiftCardNotActive <==> !(old(card).status is Active))),
        r matches Err(e) ==> (ctx.merchant == old(card).merchant
            && old(card).status is Active
            ==> (e == GiftCardError::GiftCardExpired <==> now >= old(card).expiry_timestamp)),
        r matches Err(e) ==> (ctx.merchant == old(card).merchant
            && old(card).status is Active
            && now < old(card).expiry_timestamp
            ==> (e == GiftCardError::NotOwnedByMerchant
                <==> old(card).current_owner != old(card).merchant)),
        r matches Err(e) ==> (ctx.merchant == old(card).merchant
            && old(card).status is Active
            && now < old(card).expiry_timestamp
            && old(card).current_owner == old(card).merchant
            ==> e == GiftCardError::InsufficientBalance
                && (amount_to_redeem matches Some(a) && a > old(card).remaining_balance)),
        r is Ok ==> redeemed_card(
            *old(card),
            requested_amount(amount_to_redeem, old(card).remaining_balance),
            *final(card),
        ),
        r is Ok ==> crate::laws::redeem_step(
            *old(card),
            *final(card),
            requested_amount(amount_to_redeem, old(card).remaining_balance),
        ),
        r matches Ok(o) ==> redeem_instructions(
            *ctx,
            *old(card),
            requested_amount(amount_to_redeem, old(card).remaining_balance),
            o.instructions@,
        ),
        r matches Ok(o) ==> o.event == redeem_event(
            *ctx,
            *old(card),
            requested_amount(amount_to_redeem, old(card).remaining_balance),
        ),
{
    if ctx.merchant.id != card.merchant.id {
        return Err(GiftCardError::UnauthorizedMerchant);
    }
    if !matches!(card.status, GiftCardStatus::Active) {
        return Err(GiftCardError::GiftCardNotActive);
    }
    if now >= card.expiry_timestamp {
        return Err(GiftCardError::GiftCardExpired);
    }
    if card.current_owner.id != card.merchant.id {
        return Err(GiftCardError::NotOwnedByMerchant);
    }
    let redeem_amount = match amount_to_redeem {
        Some(a) => a,
        None => card.remaining_balance,
    };
    if redeem_amount > card.remaining_balance {
        return Err(GiftCardError::InsufficientBalance);
    }
    let mut instructions: Vec<LedgerInstruction> = Vec::new();
    instructions.push(
        LedgerInstruction::MoveValue {
            amount: redeem_amount,
            from: card.escrow_account,
            to: ctx.merchant_token_account,
            authority: Authority::Vault { record: ctx.gift_card, bump: card.bump },
        },
    );
    if redeem_amount == card.remaining_balance {
        instructions.push(
            LedgerInstruction::BurnToken { token: card.mint, from: ctx.merchant_nft_account },
        );
    }
    let event = GiftCardRedeemed {
        gift_card: ctx.gift_card,
        merchant: ctx.merchant,
        amount: redeem_amount,
        remaining_balance: card.remaining_balance - redeem_amount,
        nft_mint: card.mint,
    };
    card.remaining_balance = card.remaining_balance - redeem_amount;
    if card.remaining_balance == 0 {
        card.status = GiftCardStatus::Redeemed;
    }
    Ok(RedeemOutcome { instructions, event })
}

/// The conditions under which a reclaim request is accepted: the voucher is
/// still active and its expiry has passed.
pub open spec fn reclaim_accepted(card: GiftCard, now: i64) -> bool {
    &&& card.status is Active
    &&& now >= card.expiry_timestamp
}

/// How a successful reclaim changes the record: the balance is zeroed and
/// the voucher ends its life as `Expired`; nothing else changes.
pub open spec fn reclaimed_card(pre: GiftCard, post: GiftCard) -> bool {
    &&& pre.same_immutable_fields(post)
    &&& post.current_owner == pre.current_owner
    &&& post.remaining_balance == 0
    &&& post.status == GiftCardStatus::Expired
}

/// The movements a successful reclaim emits: whatever balance is left goes
/// from escrow back to the issuer — never to the caller — under the
/// record's derived authority, and the ownership token is burned.
pub open spec fn reclaim_instructions(
    ctx: BurnExpiredGiftCard,
    pre: GiftCard,
    instrs: Seq<LedgerInstruction>,
) -> bool {
    if pre.remaining_balance > 0 {
        &&& instrs.len() == 2
        &&& instrs[0] == (LedgerInstruction::MoveValue {
            amount: pre.remaining_balance,
            from: pre.escrow_account,
            to: ctx.issuer_token_account,
            authority: (Authority::Vault { record: ctx.gift_card, bump: pre.bump }),
        })
        &&& instrs[1] == (LedgerInstruction::BurnToken {
            token: pre.mint,
            from: ctx.owner_nft_account,
        })
    } else {
        &&& instrs.len() == 1
        &&& instrs[0] == (LedgerInstruction::BurnToken {
            token: pre.mint,
            from: ctx.owner_nft_account,
        })
    }
}

/// The event a successful reclaim logs.
pub open spec fn reclaim_event(ctx: BurnExpiredGiftCard, pre: GiftCard) -> GiftCardExpired {
    GiftCardExpired {
        gift_card: ctx.gift_card,
        issuer: pre.issuer,
        reclaimed_amount: pre.remaining_balance,
        nft_mint: pre.mint,
    }
}

/// Close an expired voucher: the current token holder presents it, the
/// leftover balance returns to the issuer, and the token is burned.
pub fn burn_expired_gift_card(ctx: &BurnExpiredGiftCard, card: &mut GiftCard, now: i64) -> (r:
    Result<ReclaimOutcome, GiftCardError>)
    requires
        old(card).wf(),
        ctx.wf(*old(card)),
    ensures
        final(card).wf(),
        r is Err ==> *final(card) == *old(card),
        r is Ok <==> reclaim_accepted(*old(card), now),
        r matches Err(e) ==> (e == GiftCardError::GiftCardNotActive
            <==> !(old(card).status is Active)),
        r matches Err(e) ==> (old(card).status is Active ==> e == GiftCardError::GiftCardNotExpired
            && now < old(card).expiry_timestamp),
        r is Ok ==> reclaimed_card(*old(card), *final(card)),
        r matches Ok(o) ==> reclaim_instructions(*ctx, *old(card), o.instructions@),
        r matches Ok(o) ==> o.event == reclaim_event(*ctx, *old(card)),
{
    if !matches!(card.status, GiftCardStatus::Active) {
        return Err(GiftCardError::GiftCardNotActive);
    }
    if now < card.expiry_timestamp {
        return Err(GiftCardError::GiftCardNotExpired);
    }
    let mut instructions: Vec<LedgerInstruction> = Vec::new();
    if card.remaining_balance > 0 {
        instructions.push(
            LedgerInstruction::MoveValue {
                amount: card.remaining_balance,
                from: card.escrow_account,
                to: ctx.issuer_token_account,
                authority: Authority::Vault { record: ctx.gift_card, bump: card.bump },
            },
        );
    }
    instructions.push(
        LedgerInstruction::BurnToken { token: card.mint, from: ctx.owner_nft_account },
    );
    let event = GiftCardExpired {
        gift_card: ctx.gift_card,
        issuer: card.issuer,
        reclaimed_amount: card.remaining_balance,
        nft_mint: card.mint,
    };
    card.remaining_balance = 0;
    card.status = GiftCardStatus::Expired;
    Ok(ReclaimOutcome { instructions, event })
}

/// Read a voucher's full record, without changing anything.
pub fn get_gift_card_status(ctx: &QueryGiftCard, card: &GiftCard) -> (summary: GiftCard)
    ensures
        card.same_immutable_fields(summary),
        summary.current_owner == card.current_owner,
        summary.remaining_balance == card.remaining_balance,
        summary.status == card.status,
{
    GiftCard {
        issuer: card.issuer,
        current_owner: card.current_owner,
        merchant: card.merchant,
        merchant_name: card.merchant_name.clone(),
        amount: card.amount,
        remaining_balance: card.remaining_balance,
        mint: card.mint,
        escrow_account: card.escrow_account,
        created_at: card.created_at,
        expiry_timestamp: card.expiry_timestamp,
        status: card.status,
        bump: card.bump,
    }
}

} // verus!
