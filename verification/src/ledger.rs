//! Instructions to the platform's value and token primitives.
//!
//! A transition does not move funds or tokens itself: it returns the exact
//! movements the platform must perform atomically with the state change.
//! The spec functions here give those instruction lists their meaning — the
//! net value an account gains, and how often a token is minted or burned —
//! so the laws can speak about balances and token liveness.

use vstd::prelude::*;

use crate::account::AccountId;
use crate::account::Authority;

verus! {

/// One movement the platform must perform on behalf of a transition.
#[derive(Clone, PartialEq, Eq, Debug)]
pub enum LedgerInstruction {
    /// Move `amount` of fungible value between two accounts, justified by
    /// `authority`. Fails on the platform if the source balance is short or
    /// the authority does not govern the source account.
    MoveValue { amount: u64, from: AccountId, to: AccountId, authority: Authority },
    /// Mint the single ownership token of mint `token` into `to`.
    MintToken { token: AccountId, to: AccountId },
    /// Move the ownership token of mint `token` between holding accounts.
    MoveToken { token: AccountId, from: AccountId, to: AccountId },
    /// Burn the ownership token of mint `token` out of `from`.
    BurnToken { token: AccountId, from: AccountId },
    /// Attach descriptive metadata to the ownership token. Best effort;
    /// no invariant consults it.
    RegisterMetadata { token: AccountId, name: String, uri: String, creator: AccountId },
}

/// The net fungible value `acct` gains from one instruction.
pub open spec fn instruction_delta(instr: LedgerInstruction, acct: AccountId) -> int {
    match instr {
        LedgerInstruction::MoveValue { amount, from, to, .. } => (
            (if to == acct { amount as int } else { 0 }) - (if from == acct {
                amount as int
            } else {
                0
            })
        ),
        _ => 0,
    }
}

/// The net fungible value `acct` gains from a list of instructions.
pub open spec fn value_delta(instrs: Seq<LedgerInstruction>, acct: AccountId) -> int
    decreases instrs.len(),
{
    if instrs.len() == 0 {
        0
    } else {
        instruction_delta(instrs[0], acct) + value_delta(instrs.drop_first(), acct)
    }
}

/// How many instructions in the list mint the token of mint `token`.
pub open spec fn token_mint_count(instrs: Seq<LedgerInstruction>, token: AccountId) -> nat
    decreases instrs.len(),
{
    if instrs.len() == 0 {
        0
    } else {
        (if instrs[0] matches LedgerInstruction::MintToken { token: t, .. } && t == token {
            1nat
        } else {
            0nat
        }) + token_mint_count(instrs.drop_first(), token)
    }
}

/// How many instructions in the list burn the token of mint `token`.
pub open spec fn token_burn_count(instrs: Seq<LedgerInstruction>, token: AccountId) -> nat
    decreases instrs.len(),
{
    if instrs.len() == 0 {
        0
    } else {
        (if instrs[0] matches LedgerInstruction::BurnToken { token: t, .. } && t == token {
            1nat
        } else {
            0nat
        }) + token_burn_count(instrs.drop_first(), token)
    }
}

/// One step of `value_delta`'s recursion, for walking a concrete list.
pub proof fn lemma_value_delta_unfold(instrs: Seq<LedgerInstruction>, acct: AccountId)
    ensures
        instrs.len() == 0 ==> value_delta(instrs, acct) == 0,
        instrs.len() > 0 ==> value_delta(instrs, acct) == instruction_delta(instrs[0], acct)
            + value_delta(instrs.drop_first(), acct),
{
}

/// One step of `token_mint_count`'s recursion.
pub proof fn lemma_token_mint_count_unfold(instrs: Seq<LedgerInstruction>, token: AccountId)
    ensures
        instrs.len() == 0 ==> token_mint_count(instrs, token) == 0,
        instrs.len() > 0 ==> token_mint_count(instrs, token) == (
        if instrs[0] matches LedgerInstruction::MintToken { token: t, .. } && t == token {
            1nat
        } else {
            0nat
        }) + token_mint_count(instrs.drop_first(), token),
{
}

/// One step of `token_burn_count`'s recursion.
pub proof fn lemma_token_burn_count_unfold(instrs: Seq<LedgerInstruction>, token: AccountId)
    ensures
        instrs.len() == 0 ==> token_burn_count(instrs, token) == 0,
        instrs.len() > 0 ==> token_burn_count(instrs, token) == (
        if instrs[0] matches LedgerInstruction::BurnToken { token: t, .. } && t == token {
            1nat
        } else {
            0nat
        }) + token_burn_count(instrs.drop_first(), token),
{
}

} // verus!
