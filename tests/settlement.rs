use safetrade::errors::EscrowError;
use safetrade::instructions::{
    CancelEscrow, ClaimAfterExpire, CompleteEscrow, CreateEscrow, FundEscrow, RaiseDispute,
    ResolveDispute, VoteOnDispute,
};
use safetrade::ledger::Ledger;
use safetrade::program::{
    cancel_escrow, claim_after_expire, complete_escrow, create_escrow, fund_escrow, raise_dispute,
    resolve_dispute, vote_on_dispute,
};
use safetrade::states::{Endpoint, EscrowAccount, EscrowKey, Pubkey, TradeStatus, Transfer};

const SELLER: Pubkey = Pubkey(1, 0, 0, 0);
const BUYER: Pubkey = Pubkey(2, 0, 0, 0);
const OTHER: Pubkey = Pubkey(3, 0, 0, 0);
const ARB1: Pubkey = Pubkey(4, 0, 0, 0);
const ARB2: Pubkey = Pubkey(5, 0, 0, 0);
const CONFIRM: i64 = 604800;
const DISPUTE: i64 = 259200;
const T0: i64 = 1_000_000;

fn key() -> EscrowKey {
    EscrowKey { seller: SELLER, listing_id: 1 }
}

fn record(l: &Ledger) -> EscrowAccount {
    l.escrow(key()).expect("escrow exists")
}

fn created() -> Ledger {
    let mut l = Ledger::new();
    create_escrow(&mut l, &CreateEscrow { seller: SELLER }, 1, 100, CONFIRM, DISPUTE, 7, T0).unwrap();
    l
}

fn fund_ctx(buyer: Pubkey) -> FundEscrow {
    FundEscrow { buyer, seller: SELLER, listing_id: 1 }
}

fn funded() -> Ledger {
    let mut l = created();
    fund_escrow(&mut l, &fund_ctx(BUYER), T0 + 10).unwrap();
    l
}

fn disputed() -> Ledger {
    let mut l = funded();
    raise_dispute(&mut l, &RaiseDispute { initiator: SELLER, seller: SELLER, listing_id: 1 }, T0 + 20)
        .unwrap();
    l
}

fn vote_ctx(arbitrator: Pubkey) -> VoteOnDispute {
    VoteOnDispute { arbitrator, seller: SELLER, listing_id: 1 }
}

fn resolve_ctx() -> ResolveDispute {
    ResolveDispute { resolver: OTHER, seller: SELLER, buyer: BUYER, listing_id: 1 }
}

fn payout_to(who: Pubkey, lamports: u64) -> Transfer {
    Transfer { from: Endpoint::Custody(key()), to: Endpoint::Wallet(who), lamports }
}

#[test]
fn scenario_create_fund_complete() {
    let mut l = created();
    let e = record(&l);
    assert_eq!(e.status, TradeStatus::Created);
    assert_eq!(e.buyer, Pubkey::unset());
    assert_eq!(e.amount, 100);
    assert_eq!(e.created_at, T0);
    assert_eq!(e.expire_at, 0);
    assert_eq!(l.holding(key()).unwrap().vault, 0);

    let t = fund_escrow(&mut l, &fund_ctx(BUYER), T0 + 10).unwrap();
    assert_eq!(t, Transfer { from: Endpoint::Wallet(BUYER), to: Endpoint::Custody(key()), lamports: 100 });
    let e = record(&l);
    assert_eq!(e.status, TradeStatus::Funded);
    assert_eq!(e.buyer, BUYER);
    assert_eq!(e.expire_at, T0 + 10 + 604800);
    assert_eq!(l.holding(key()).unwrap().vault, 100);

    let ctx = CompleteEscrow { buyer: BUYER, seller: SELLER, listing_id: 1 };
    let t = complete_escrow(&mut l, &ctx, T0 + 10 + 604799).unwrap();
    assert_eq!(t, payout_to(SELLER, 100));
    assert_eq!(record(&l).status, TradeStatus::Completed);
    assert_eq!(l.holding(key()).unwrap().vault, 0);
}

#[test]
fn scenario_claim_after_expire_by_third_party() {
    let mut l = funded();
    let expire_at = record(&l).expire_at;
    let ctx = ClaimAfterExpire { claimer: OTHER, seller: SELLER, listing_id: 1 };
    assert_eq!(claim_after_expire(&mut l, &ctx, expire_at - 1), Err(EscrowError::InvalidStatus));
    assert_eq!(record(&l).status, TradeStatus::Funded);
    let t = claim_after_expire(&mut l, &ctx, expire_at).unwrap();
    assert_eq!(t, payout_to(SELLER, 100));
    assert_eq!(record(&l).status, TradeStatus::Completed);
}

#[test]
fn scenario_dispute_tie_refunds_buyer() {
    let mut l = funded();
    let ctx = RaiseDispute { initiator: SELLER, seller: SELLER, listing_id: 1 };
    raise_dispute(&mut l, &ctx, T0 + 20).unwrap();
    let e = record(&l);
    assert_eq!(e.status, TradeStatus::InDispute);
    assert_eq!(e.dispute_end_time, T0 + 20 + 259200);
    assert_eq!(e.dispute_initiator, SELLER);
    assert_eq!((e.votes_for_seller, e.votes_for_buyer), (0, 0));

    vote_on_dispute(&mut l, &vote_ctx(ARB1), true, 1, T0 + 30).unwrap();
    vote_on_dispute(&mut l, &vote_ctx(ARB2), false, 2, T0 + 40).unwrap();
    let e = record(&l);
    assert_eq!((e.votes_for_seller, e.votes_for_buyer), (1, 1));

    let end = e.dispute_end_time;
    assert_eq!(resolve_dispute(&mut l, &resolve_ctx(), end - 1), Err(EscrowError::InvalidStatus));
    let t = resolve_dispute(&mut l, &resolve_ctx(), end).unwrap();
    assert_eq!(t, payout_to(BUYER, 100));
    assert_eq!(record(&l).status, TradeStatus::Refunded);
}

#[test]
fn scenario_cancel_then_fund_fails() {
    let mut l = created();
    cancel_escrow(&mut l, &CancelEscrow { seller: SELLER, listing_id: 1 }).unwrap();
    assert_eq!(record(&l).status, TradeStatus::Cancelled);
    assert_eq!(fund_escrow(&mut l, &fund_ctx(BUYER), T0 + 10), Err(EscrowError::InvalidStatus));
    assert_eq!(record(&l).status, TradeStatus::Cancelled);
}

#[test]
fn scenario_second_fund_by_other_buyer() {
    let mut l = funded();
    assert_eq!(fund_escrow(&mut l, &fund_ctx(OTHER), T0 + 11), Err(EscrowError::WrongBuyer));
    assert_eq!(record(&l).buyer, BUYER);
    assert_eq!(fund_escrow(&mut l, &fund_ctx(BUYER), T0 + 11), Err(EscrowError::InvalidStatus));
    assert_eq!(record(&l).expire_at, T0 + 10 + CONFIRM);
}

#[test]
fn tie_with_no_votes_refunds_buyer() {
    let mut l = disputed();
    let end = record(&l).dispute_end_time;
    let t = resolve_dispute(&mut l, &resolve_ctx(), end + 5).unwrap();
    assert_eq!(t, payout_to(BUYER, 100));
    assert_eq!(record(&l).status, TradeStatus::Refunded);
}

#[test]
fn seller_majority_completes() {
    let mut l = disputed();
    vote_on_dispute(&mut l, &vote_ctx(ARB1), true, 1, T0 + 30).unwrap();
    let end = record(&l).dispute_end_time;
    let t = resolve_dispute(&mut l, &resolve_ctx(), end).unwrap();
    assert_eq!(t, payout_to(SELLER, 100));
    assert_eq!(record(&l).status, TradeStatus::Completed);
}

#[test]
fn double_vote_is_rejected() {
    let mut l = disputed();
    vote_on_dispute(&mut l, &vote_ctx(ARB1), true, 1, T0 + 30).unwrap();
    assert!(l.has_voted(key(), ARB1));
    assert!(!l.has_voted(key(), ARB2));
    let before = record(&l);
    assert_eq!(
        vote_on_dispute(&mut l, &vote_ctx(ARB1), false, 1, T0 + 31),
        Err(EscrowError::DuplicateVote)
    );
    let after = record(&l);
    assert_eq!(before, after);
    assert_eq!((after.votes_for_seller, after.votes_for_buyer), (1, 0));
}

#[test]
fn vote_after_window_is_rejected() {
    let mut l = disputed();
    let end = record(&l).dispute_end_time;
    assert_eq!(vote_on_dispute(&mut l, &vote_ctx(ARB1), true, 1, end), Err(EscrowError::InvalidStatus));
    assert!(!l.has_voted(key(), ARB1));
    vote_on_dispute(&mut l, &vote_ctx(ARB1), true, 1, end - 1).unwrap();
}

#[test]
fn vote_outside_dispute_is_rejected() {
    let mut l = funded();
    assert_eq!(vote_on_dispute(&mut l, &vote_ctx(ARB1), true, 1, T0 + 30), Err(EscrowError::InvalidStatus));
}

#[test]
fn terminal_states_refuse_everything() {
    let mut l = funded();
    let ctx = CompleteEscrow { buyer: BUYER, seller: SELLER, listing_id: 1 };
    complete_escrow(&mut l, &ctx, T0 + 11).unwrap();
    let before = l.holding(key()).unwrap();
    assert_eq!(complete_escrow(&mut l, &ctx, T0 + 12), Err(EscrowError::InvalidStatus));
    let claim = ClaimAfterExpire { claimer: OTHER, seller: SELLER, listing_id: 1 };
    assert_eq!(claim_after_expire(&mut l, &claim, i64::MAX), Err(EscrowError::InvalidStatus));
    let raise = RaiseDispute { initiator: BUYER, seller: SELLER, listing_id: 1 };
    assert_eq!(raise_dispute(&mut l, &raise, T0 + 13), Err(EscrowError::InvalidStatus));
    assert_eq!(resolve_dispute(&mut l, &resolve_ctx(), i64::MAX), Err(EscrowError::InvalidStatus));
    assert_eq!(cancel_escrow(&mut l, &CancelEscrow { seller: SELLER, listing_id: 1 }), Err(EscrowError::InvalidStatus));
    assert_eq!(fund_escrow(&mut l, &fund_ctx(BUYER), T0 + 14), Err(EscrowError::InvalidStatus));
    assert_eq!(
        create_escrow(&mut l, &CreateEscrow { seller: SELLER }, 1, 5, CONFIRM, DISPUTE, 0, T0),
        Err(EscrowError::EscrowAlreadyExists)
    );
    assert_eq!(l.holding(key()).unwrap(), before);
}

#[test]
fn custody_released_once() {
    let mut l = funded();
    let end = record(&l).expire_at;
    let claim = ClaimAfterExpire { claimer: OTHER, seller: SELLER, listing_id: 1 };
    let t = claim_after_expire(&mut l, &claim, end + 1).unwrap();
    assert_eq!(t.lamports, 100);
    assert_eq!(l.holding(key()).unwrap().vault, 0);
    assert_eq!(claim_after_expire(&mut l, &claim, end + 2), Err(EscrowError::InvalidStatus));
}

#[test]
fn complete_at_expiry_is_too_late() {
    let mut l = funded();
    let expire_at = record(&l).expire_at;
    let ctx = CompleteEscrow { buyer: BUYER, seller: SELLER, listing_id: 1 };
    assert_eq!(complete_escrow(&mut l, &ctx, expire_at), Err(EscrowError::EscrowExpired));
    assert_eq!(record(&l).status, TradeStatus::Funded);
}

#[test]
fn complete_by_stranger_is_wrong_buyer() {
    let mut l = funded();
    let ctx = CompleteEscrow { buyer: OTHER, seller: SELLER, listing_id: 1 };
    assert_eq!(complete_escrow(&mut l, &ctx, T0 + 11), Err(EscrowError::WrongBuyer));
}

#[test]
fn complete_before_funding_is_invalid() {
    let mut l = created();
    let ctx = CompleteEscrow { buyer: Pubkey::unset(), seller: SELLER, listing_id: 1 };
    assert_eq!(complete_escrow(&mut l, &ctx, T0 + 11), Err(EscrowError::InvalidStatus));
}

#[test]
fn cancel_after_funding_is_refused() {
    let mut l = funded();
    assert_eq!(
        cancel_escrow(&mut l, &CancelEscrow { seller: SELLER, listing_id: 1 }),
        Err(EscrowError::InvalidStatus)
    );
}

#[test]
fn resolve_with_wrong_buyer() {
    let mut l = disputed();
    let end = record(&l).dispute_end_time;
    let ctx = ResolveDispute { resolver: OTHER, seller: SELLER, buyer: OTHER, listing_id: 1 };
    assert_eq!(resolve_dispute(&mut l, &ctx, end), Err(EscrowError::WrongBuyer));
    assert_eq!(record(&l).status, TradeStatus::InDispute);
}

#[test]
fn dispute_by_stranger_is_refused() {
    let mut l = funded();
    let ctx = RaiseDispute { initiator: OTHER, seller: SELLER, listing_id: 1 };
    assert_eq!(raise_dispute(&mut l, &ctx, T0 + 20), Err(EscrowError::WrongBuyer));
    assert_eq!(record(&l).status, TradeStatus::Funded);
    let ctx = RaiseDispute { initiator: BUYER, seller: SELLER, listing_id: 1 };
    raise_dispute(&mut l, &ctx, T0 + 20).unwrap();
    assert_eq!(record(&l).dispute_initiator, BUYER);
}

#[test]
fn dispute_end_overflow_is_invalid_expiry() {
    let mut l = funded();
    let ctx = RaiseDispute { initiator: BUYER, seller: SELLER, listing_id: 1 };
    assert_eq!(raise_dispute(&mut l, &ctx, i64::MAX - 1), Err(EscrowError::InvalidExpireAt));
    assert_eq!(record(&l).status, TradeStatus::Funded);
}

#[test]
fn fund_expiry_overflow_is_invalid_expiry() {
    let mut l = created();
    assert_eq!(fund_escrow(&mut l, &fund_ctx(BUYER), i64::MAX - CONFIRM + 1), Err(EscrowError::InvalidExpireAt));
    assert_eq!(record(&l).buyer, Pubkey::unset());
    fund_escrow(&mut l, &fund_ctx(BUYER), i64::MAX - CONFIRM).unwrap();
    assert_eq!(record(&l).expire_at, i64::MAX);
}

#[test]
fn create_rejects_bad_arguments() {
    let mut l = Ledger::new();
    let ctx = CreateEscrow { seller: SELLER };
    assert_eq!(create_escrow(&mut l, &ctx, 1, 0, CONFIRM, DISPUTE, 0, T0), Err(EscrowError::InvalidAmount));
    assert_eq!(create_escrow(&mut l, &ctx, 1, 100, 0, DISPUTE, 0, T0), Err(EscrowError::InvalidExpireAt));
    assert_eq!(create_escrow(&mut l, &ctx, 1, 100, CONFIRM, -1, 0, T0), Err(EscrowError::InvalidExpireAt));
    assert_eq!(l.escrow(key()), None);
    create_escrow(&mut l, &ctx, 1, u64::MAX, CONFIRM, DISPUTE, 0, T0).unwrap();
    assert_eq!(record(&l).amount, u64::MAX);
    create_escrow(&mut l, &ctx, 2, 100, CONFIRM, DISPUTE, 0, T0).unwrap();
    assert!(l.escrow(EscrowKey { seller: SELLER, listing_id: 2 }).is_some());
}

#[test]
fn missing_escrow_is_not_found() {
    let mut l = created();
    let ctx = FundEscrow { buyer: BUYER, seller: OTHER, listing_id: 1 };
    assert_eq!(fund_escrow(&mut l, &ctx, T0), Err(EscrowError::EscrowNotFound));
    let ctx = CancelEscrow { seller: SELLER, listing_id: 9 };
    assert_eq!(cancel_escrow(&mut l, &ctx), Err(EscrowError::EscrowNotFound));
}

#[test]
fn cancel_keeps_record() {
    let mut l = created();
    cancel_escrow(&mut l, &CancelEscrow { seller: SELLER, listing_id: 1 }).unwrap();
    let e = record(&l);
    assert_eq!(e.amount, 100);
    assert_eq!(e.seller, SELLER);
    assert_eq!(
        cancel_escrow(&mut l, &CancelEscrow { seller: SELLER, listing_id: 1 }),
        Err(EscrowError::InvalidStatus)
    );
}

#[test]
fn handlers_match_entry_points() {
    let mut l = created();
    let t = fund_ctx(BUYER).fund(&mut l, T0).unwrap();
    assert_eq!(t.lamports, 100);
    let t = CompleteEscrow { buyer: BUYER, seller: SELLER, listing_id: 1 }.complete(&mut l, T0 + 1).unwrap();
    assert_eq!(t, payout_to(SELLER, 100));
}

#[test]
fn stored_record_loads_only_when_consistent() {
    let l = funded();
    let h = l.holding(key()).unwrap();
    assert!(h.is_valid());
    let loaded = Ledger::from_stored(h.escrow, 100).expect("consistent record");
    assert_eq!(loaded.holding(key()), Some(h));
    assert!(Ledger::from_stored(h.escrow, 99).is_none());
    let drained = safetrade::states::Holding { vault: 0, ..h };
    assert!(!drained.is_valid());
    let c = created().holding(key()).unwrap();
    let with_buyer = EscrowAccount { buyer: BUYER, ..c.escrow };
    assert!(Ledger::from_stored(with_buyer, 0).is_none());
    assert!(Ledger::from_stored(c.escrow, 0).is_some());
}

#[test]
fn surplus_in_custody_is_not_escrowed() {
    let h = funded().holding(key()).unwrap();
    let mut l = Ledger::from_stored(h.escrow, 5_000).unwrap();
    assert_eq!(l.holding(key()).unwrap().vault, 100);
    let ctx = CompleteEscrow { buyer: BUYER, seller: SELLER, listing_id: 1 };
    let t = complete_escrow(&mut l, &ctx, T0 + 11).unwrap();
    assert_eq!(t, payout_to(SELLER, 100));
}

#[test]
fn loaded_record_settles_a_dispute() {
    let h = disputed().holding(key()).unwrap();
    let mut l = Ledger::from_stored(h.escrow, 100).unwrap();
    let end = h.escrow.dispute_end_time;
    let t = resolve_dispute(&mut l, &resolve_ctx(), end).unwrap();
    assert_eq!(t, payout_to(BUYER, 100));
}
