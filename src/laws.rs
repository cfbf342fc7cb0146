use vstd::prelude::*;
use crate::errors::EscrowError;
use crate::instructions::{
    CancelEscrow, ClaimAfterExpire, CompleteEscrow, CreateEscrow, FundEscrow, RaiseDispute,
    ResolveDispute, VoteOnDispute, cancel_step, claim_step, complete_step, create_step, fund_step,
    raise_step, resolve_step, vote_step,
};
use crate::ledger::{LedgerState, state_valid};
use crate::states::{Endpoint, EscrowKey, Pubkey, TradeStatus, Transfer, is_terminal};

verus! {

/// One instruction with its arguments, as a caller submits it.
pub enum Instruction {
    Create {
        accounts: CreateEscrow,
        amount: u64,
        confirm_duration: i64,
        dispute_duration: i64,
        bump: u8,
        listing_id: u64,
    },
    Fund(FundEscrow),
    Complete(CompleteEscrow),
    Cancel(CancelEscrow),
    Claim(ClaimAfterExpire),
    Raise(RaiseDispute),
    Vote { accounts: VoteOnDispute, support_seller: bool, bump: u8 },
    Resolve(ResolveDispute),
}

/// The escrow an instruction addresses.
pub open spec fn target(ins: Instruction) -> EscrowKey {
    match ins {
        Instruction::Create { accounts, listing_id, .. } => EscrowKey {
            seller: accounts.seller,
            listing_id,
        },
        Instruction::Fund(c) => EscrowKey { seller: c.seller, listing_id: c.listing_id },
        Instruction::Complete(c) => EscrowKey { seller: c.seller, listing_id: c.listing_id },
        Instruction::Cancel(c) => EscrowKey { seller: c.seller, listing_id: c.listing_id },
        Instruction::Claim(c) => EscrowKey { seller: c.seller, listing_id: c.listing_id },
        Instruction::Raise(c) => EscrowKey { seller: c.seller, listing_id: c.listing_id },
        Instruction::Vote { accounts, .. } => EscrowKey {
            seller: accounts.seller,
            listing_id: accounts.listing_id,
        },
        Instruction::Resolve(c) => EscrowKey { seller: c.seller, listing_id: c.listing_id },
    }
}

/// The result of a transition that licenses a transfer, in the shape of `step`.
pub open spec fn with_transfer(out: Result<(LedgerState, Transfer), EscrowError>) -> Result<
    (LedgerState, Option<Transfer>),
    EscrowError,
> {
    match out {
        Ok((s, t)) => Ok((s, Some(t))),
        Err(e) => Err(e),
    }
}

/// The result of a transition that moves no value, in the shape of `step`.
pub open spec fn without_transfer(out: Result<(LedgerState, ()), EscrowError>) -> Result<
    (LedgerState, Option<Transfer>),
    EscrowError,
> {
    match out {
        Ok((s, _)) => Ok((s, None)),
        Err(e) => Err(e),
    }
}

/// The transition that instruction `ins` makes from `s` at time `now`: the new
/// state and the transfer it licenses, or the error it is refused with.
pub open spec fn step(s: LedgerState, ins: Instruction, now: i64) -> Result<
    (LedgerState, Option<Transfer>),
    EscrowError,
> {
    match ins {
        Instruction::Create {
            accounts,
            amount,
            confirm_duration,
            dispute_duration,
            bump,
            listing_id,
        } => without_transfer(
            create_step(
                s,
                accounts,
                amount,
                confirm_duration,
                dispute_duration,
                bump,
                listing_id,
                now,
            ),
        ),
        Instruction::Fund(c) => with_transfer(fund_step(s, c, now)),
        Instruction::Complete(c) => with_transfer(complete_step(s, c, now)),
        Instruction::Cancel(c) => without_transfer(cancel_step(s, c)),
        Instruction::Claim(c) => with_transfer(claim_step(s, c, now)),
        Instruction::Raise(c) => without_transfer(raise_step(s, c, now)),
        Instruction::Vote { accounts, support_seller, bump } => without_transfer(
            vote_step(s, accounts, support_seller, bump, now),
        ),
        Instruction::Resolve(c) => with_transfer(resolve_step(s, c, now)),
    }
}

/// Every instruction keeps the ledger's invariants: in particular custody holds
/// exactly the escrowed amount while the trade is funded or disputed, and
/// nothing otherwise.
pub proof fn lemma_step_keeps_valid(s: LedgerState, ins: Instruction, now: i64)
    requires
        state_valid(s),
        step(s, ins, now) is Ok,
    ensures
        state_valid(step(s, ins, now)->Ok_0.0),
{
    let s2 = step(s, ins, now)->Ok_0.0;
    let k0 = target(ins);
    assert forall|k: EscrowKey| #[trigger] s2.escrows.contains_key(k) implies s2.escrows[k].escrow.spec_key()
        == k && crate::states::holding_valid(s2.escrows[k]) by {
        if k != k0 {
            assert(s.escrows.contains_key(k));
        }
    }
    assert forall|rk: (EscrowKey, Pubkey)| #[trigger] s2.receipts.contains_key(rk) implies (
    s2.receipts[rk].escrow, s2.receipts[rk].arbitrator) == rk by {
        assert(s.receipts.contains_key(rk) ==> (s.receipts[rk].escrow, s.receipts[rk].arbitrator)
            == rk);
    }
}

/// The moves between statuses that the settlement table allows. A vote stays
/// in InDispute; every other move goes strictly forward.
pub open spec fn allowed_move(from: TradeStatus, to: TradeStatus) -> bool {
    ||| from == TradeStatus::Created && (to == TradeStatus::Funded || to == TradeStatus::Cancelled)
    ||| from == TradeStatus::Funded && (to == TradeStatus::Completed || to
        == TradeStatus::InDispute)
    ||| from == TradeStatus::InDispute && (to == TradeStatus::InDispute || to
        == TradeStatus::Completed || to == TradeStatus::Refunded)
}

/// A successful instruction either creates its escrow in Created, or moves the
/// status of the escrow it addresses along the table; every other escrow keeps
/// its record. So each escrow ends in at most one of the terminal statuses.
pub proof fn lemma_status_follows_table(s: LedgerState, ins: Instruction, now: i64)
    requires
        state_valid(s),
        step(s, ins, now) is Ok,
    ensures
        ({
            let s2 = step(s, ins, now)->Ok_0.0;
            let k = target(ins);
            &&& s2.escrows.contains_key(k)
            &&& if s.escrows.contains_key(k) {
                allowed_move(s.escrows[k].escrow.status, s2.escrows[k].escrow.status)
            } else {
                ins is Create && s2.escrows[k].escrow.status == TradeStatus::Created
            }
            &&& forall|j: EscrowKey|
                j != k && #[trigger] s.escrows.contains_key(j) ==> s2.escrows[j] == s.escrows[j]
        }),
{
}

/// Once an escrow is Completed, Cancelled or Refunded, every instruction that
/// addresses it is refused (and so leaves the ledger unchanged).
pub proof fn lemma_terminal_is_final(s: LedgerState, ins: Instruction, now: i64)
    requires
        state_valid(s),
        s.escrows.contains_key(target(ins)),
        is_terminal(s.escrows[target(ins)].escrow.status),
    ensures
        step(s, ins, now) is Err,
{
}

/// A successful instruction never removes an escrow or a vote receipt, and
/// never changes the status of a terminal escrow.
pub proof fn lemma_step_keeps_history(s: LedgerState, ins: Instruction, now: i64)
    requires
        state_valid(s),
        step(s, ins, now) is Ok,
    ensures
        forall|k: EscrowKey| #[trigger]
            s.escrows.contains_key(k) ==> step(s, ins, now)->Ok_0.0.escrows.contains_key(k) && (
            is_terminal(s.escrows[k].escrow.status) ==> step(s, ins, now)->Ok_0.0.escrows[k]
                == s.escrows[k]),
        forall|rk: (EscrowKey, Pubkey)| #[trigger]
            s.receipts.contains_key(rk) ==> step(s, ins, now)->Ok_0.0.receipts.contains_key(rk),
{
    let s2 = step(s, ins, now)->Ok_0.0;
    assert forall|k: EscrowKey| #[trigger] s.escrows.contains_key(k) implies s2.escrows.contains_key(k)
        && (is_terminal(s.escrows[k].escrow.status) ==> s2.escrows[k] == s.escrows[k]) by {
        if k == target(ins) && is_terminal(s.escrows[k].escrow.status) {
            lemma_terminal_is_final(s, ins, now);
        }
    }
}

/// Custody is paid into exactly once, by funding, with the escrowed amount, and
/// paid out exactly once: a transfer out of custody moves the whole escrowed
/// amount and leaves the escrow terminal with an empty custody, which no later
/// instruction reopens.
pub proof fn lemma_custody_conservation(s: LedgerState, ins: Instruction, now: i64)
    requires
        state_valid(s),
        step(s, ins, now) is Ok,
    ensures
        ({
            let (s2, t) = step(s, ins, now)->Ok_0;
            let k = target(ins);
            match t {
                None => forall|j: EscrowKey| #[trigger]
                    s.escrows.contains_key(j) ==> s2.escrows[j].vault == s.escrows[j].vault,
                Some(t) => {
                    &&& s.escrows.contains_key(k)
                    &&& t.lamports == s.escrows[k].escrow.amount
                    &&& forall|j: EscrowKey|
                        j != k && #[trigger] s.escrows.contains_key(j) ==> s2.escrows[j].vault
                            == s.escrows[j].vault
                    &&& if t.to == Endpoint::Custody(k) {
                        &&& s.escrows[k].escrow.status == TradeStatus::Created
                        &&& s.escrows[k].vault == 0
                        &&& s2.escrows[k].vault == t.lamports
                    } else {
                        &&& t.from == Endpoint::Custody(k)
                        &&& s.escrows[k].vault == t.lamports
                        &&& s2.escrows[k].vault == 0
                        &&& is_terminal(s2.escrows[k].escrow.status)
                    }
                },
            }
        }),
{
}

/// A vote receipt, once written, refuses every later vote by the same
/// arbitrator on the same escrow with DuplicateVote.
pub proof fn lemma_double_vote_rejected(
    s: LedgerState,
    ctx: VoteOnDispute,
    support_seller: bool,
    bump: u8,
    now: i64,
)
    requires
        s.receipts.contains_key(
            (EscrowKey { seller: ctx.seller, listing_id: ctx.listing_id }, ctx.arbitrator),
        ),
        s.escrows.contains_key(EscrowKey { seller: ctx.seller, listing_id: ctx.listing_id }),
    ensures
        vote_step(s, ctx, support_seller, bump, now) == Err::<(LedgerState, ()), EscrowError>(
            EscrowError::DuplicateVote,
        ),
{
}

/// A successful vote writes the receipt that refuses the arbitrator's next vote.
pub proof fn lemma_vote_leaves_receipt(
    s: LedgerState,
    ctx: VoteOnDispute,
    support_seller: bool,
    bump: u8,
    now: i64,
)
    requires
        vote_step(s, ctx, support_seller, bump, now) is Ok,
    ensures
        ({
            let s2 = vote_step(s, ctx, support_seller, bump, now)->Ok_0.0;
            let key = EscrowKey { seller: ctx.seller, listing_id: ctx.listing_id };
            &&& s2.receipts.contains_key((key, ctx.arbitrator))
            &&& s2.escrows.contains_key(key)
        }),
{
}

/// The expiry of the confirm window is set once, by funding, to the funding
/// time plus the confirm duration; no other instruction changes it.
pub proof fn lemma_expiry_fixed(s: LedgerState, ins: Instruction, now: i64)
    requires
        state_valid(s),
        step(s, ins, now) is Ok,
    ensures
        forall|k: EscrowKey| #[trigger]
            s.escrows.contains_key(k) ==> {
                let s2 = step(s, ins, now)->Ok_0.0;
                if ins is Fund && k == target(ins) {
                    &&& s.escrows[k].escrow.status == TradeStatus::Created
                    &&& s.escrows[k].escrow.expire_at == 0
                    &&& s2.escrows[k].escrow.expire_at == now
                        + s.escrows[k].escrow.confirm_duration
                } else {
                    s2.escrows[k].escrow.expire_at == s.escrows[k].escrow.expire_at
                }
            },
{
}

/// Unless the seller has a strict majority of votes, resolving a dispute
/// refunds the buyer: a tie, including no votes at all, goes to the buyer.
pub proof fn lemma_tie_goes_to_buyer(s: LedgerState, ctx: ResolveDispute, now: i64)
    requires
        state_valid(s),
        resolve_step(s, ctx, now) is Ok,
        ({
            let e = s.escrows[EscrowKey { seller: ctx.seller, listing_id: ctx.listing_id }].escrow;
            e.votes_for_seller <= e.votes_for_buyer
        }),
    ensures
        ({
            let key = EscrowKey { seller: ctx.seller, listing_id: ctx.listing_id };
            let (s2, t) = resolve_step(s, ctx, now)->Ok_0;
            &&& s2.escrows[key].escrow.status == TradeStatus::Refunded
            &&& t.to == Endpoint::Wallet(s.escrows[key].escrow.buyer)
            &&& t.to == Endpoint::Wallet(ctx.buyer)
        }),
{
}

} // verus!
