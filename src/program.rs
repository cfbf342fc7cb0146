//! The entry points of the settlement program: one per instruction. Each runs
//! as one indivisible step on the ledger: it either applies its whole
//! transition or is refused with the ledger untouched.
use vstd::prelude::*;
use crate::errors::EscrowError;
use crate::instructions::{
    CancelEscrow, ClaimAfterExpire, CompleteEscrow, CreateEscrow, FundEscrow, RaiseDispute,
    ResolveDispute, VoteOnDispute, cancel_step, claim_step, complete_step, create_step, fund_step,
    performs, raise_step, resolve_step, vote_step,
};
use crate::ledger::{Ledger, state_valid};
use crate::states::Transfer;

verus! {

/// Opens an escrow for `listing_id`; the caller in `accounts` becomes its seller.
pub fn create_escrow(
    ledger: &mut Ledger,
    accounts: &CreateEscrow,
    listing_id: u64,
    amount: u64,
    confirm_duration: i64,
    dispute_duration: i64,
    bump: u8,
    now: i64,
) -> (r: Result<(), EscrowError>)
    requires
        old(ledger).wf(),
    ensures
        final(ledger).wf(),
        state_valid(final(ledger)@),
        performs(old(ledger)@, create_step(old(ledger)@, *accounts, amount, confirm_duration, dispute_duration, bump, listing_id, now), r, final(ledger)@),
{
    accounts.init_escrow(ledger, amount, confirm_duration, dispute_duration, bump, listing_id, now)
}

/// Funds an escrow; the caller becomes (or must already be) its buyer.
pub fn fund_escrow(
    ledger: &mut Ledger,
    accounts: &FundEscrow,
    now: i64,
) -> (r: Result<Transfer, EscrowError>)
    requires
        old(ledger).wf(),
    ensures
        final(ledger).wf(),
        state_valid(final(ledger)@),
        performs(old(ledger)@, fund_step(old(ledger)@, *accounts, now), r, final(ledger)@),
{
    accounts.fund(ledger, now)
}

/// The buyer confirms receipt; custody goes to the seller.
pub fn complete_escrow(
    ledger: &mut Ledger,
    accounts: &CompleteEscrow,
    now: i64,
) -> (r: Result<Transfer, EscrowError>)
    requires
        old(ledger).wf(),
    ensures
        final(ledger).wf(),
        state_valid(final(ledger)@),
        performs(old(ledger)@, complete_step(old(ledger)@, *accounts, now), r, final(ledger)@),
{
    accounts.complete(ledger, now)
}

/// The seller cancels an escrow that was never funded.
pub fn cancel_escrow(
    ledger: &mut Ledger,
    accounts: &CancelEscrow,
) -> (r: Result<(), EscrowError>)
    requires
        old(ledger).wf(),
    ensures
        final(ledger).wf(),
        state_valid(final(ledger)@),
        performs(old(ledger)@, cancel_step(old(ledger)@, *accounts), r, final(ledger)@),
{
    accounts.cancel(ledger)
}

/// Anyone settles an expired funded escrow in favour of the seller.
pub fn claim_after_expire(
    ledger: &mut Ledger,
    accounts: &ClaimAfterExpire,
    now: i64,
) -> (r: Result<Transfer, EscrowError>)
    requires
        old(ledger).wf(),
    ensures
        final(ledger).wf(),
        state_valid(final(ledger)@),
        performs(old(ledger)@, claim_step(old(ledger)@, *accounts, now), r, final(ledger)@),
{
    accounts.claim(ledger, now)
}

/// The buyer or the seller disputes a funded escrow.
pub fn raise_dispute(
    ledger: &mut Ledger,
    accounts: &RaiseDispute,
    now: i64,
) -> (r: Result<(), EscrowError>)
    requires
        old(ledger).wf(),
    ensures
        final(ledger).wf(),
        state_valid(final(ledger)@),
        performs(old(ledger)@, raise_step(old(ledger)@, *accounts, now), r, final(ledger)@),
{
    accounts.raise(ledger, now)
}

/// An arbitrator votes once on a disputed escrow.
pub fn vote_on_dispute(
    ledger: &mut Ledger,
    accounts: &VoteOnDispute,
    support_seller: bool,
    bump: u8,
    now: i64,
) -> (r: Result<(), EscrowError>)
    requires
        old(ledger).wf(),
    ensures
        final(ledger).wf(),
        state_valid(final(ledger)@),
        performs(old(ledger)@, vote_step(old(ledger)@, *accounts, support_seller, bump, now), r, final(ledger)@),
{
    accounts.vote(ledger, support_seller, bump, now)
}

/// Anyone settles a dispute whose voting window has closed.
pub fn resolve_dispute(
    ledger: &mut Ledger,
    accounts: &ResolveDispute,
    now: i64,
) -> (r: Result<Transfer, EscrowError>)
    requires
        old(ledger).wf(),
    ensures
        final(ledger).wf(),
        state_valid(final(ledger)@),
        performs(old(ledger)@, resolve_step(old(ledger)@, *accounts, now), r, final(ledger)@),
{
    accounts.resolve(ledger, now)
}

} // verus!
