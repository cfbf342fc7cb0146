use vstd::prelude::*;
use crate::errors::EscrowError;
use crate::ledger::{Ledger, LedgerState, state_valid};
use crate::states::{
    Endpoint, EscrowAccount, EscrowKey, Holding, Pubkey, TradeStatus, Transfer, VoteReceipt,
    holding_valid, unset_key,
};

verus! {

/// The ledger after storing `h` at its own address.
pub open spec fn with_holding(s: LedgerState, h: Holding) -> LedgerState {
    LedgerState { escrows: s.escrows.insert(h.escrow.spec_key(), h), ..s }
}

/// Whether an instruction that returned `r` and left `post` behind did what the
/// transition `out` from `pre` prescribes: on success the new state and the
/// result, on refusal the same error and an untouched ledger.
pub open spec fn performs<T>(
    pre: LedgerState,
    out: Result<(LedgerState, T), EscrowError>,
    r: Result<T, EscrowError>,
    post: LedgerState,
) -> bool {
    match out {
        Ok((s, t)) => r == Ok::<T, EscrowError>(t) && post == s,
        Err(e) => r == Err::<T, EscrowError>(e) && post == pre,
    }
}

/// The transfer that empties the custody holding of `h` into `to`'s wallet.
pub open spec fn payout(h: Holding, to: Pubkey) -> Transfer {
    Transfer {
        from: Endpoint::Custody(h.escrow.spec_key()),
        to: Endpoint::Wallet(to),
        lamports: h.vault,
    }
}

/// `h` with its custody emptied and its status set to `status`.
pub open spec fn settled(h: Holding, status: TradeStatus) -> Holding {
    Holding { escrow: EscrowAccount { status, ..h.escrow }, vault: 0 }
}

/// The accounts of a create instruction: the seller who opens the escrow.
#[derive(Clone, Copy, Debug, PartialEq, Eq, Structural)]
pub struct CreateEscrow {
    pub seller: Pubkey,
}

/// The create transition: refused if the address is taken, the amount is zero
/// or a duration is not positive; else a new Created record with empty custody.
pub open spec fn create_step(
    s: LedgerState,
    ctx: CreateEscrow,
    amount: u64,
    confirm_duration: i64,
    dispute_duration: i64,
    bump: u8,
    listing_id: u64,
    now: i64,
) -> Result<(LedgerState, ()), EscrowError> {
    let key = EscrowKey { seller: ctx.seller, listing_id };
    if s.escrows.contains_key(key) {
        Err(EscrowError::EscrowAlreadyExists)
    } else if amount == 0 {
        Err(EscrowError::InvalidAmount)
    } else if confirm_duration <= 0 || dispute_duration <= 0 {
        Err(EscrowError::InvalidExpireAt)
    } else {
        let e = EscrowAccount {
            seller: ctx.seller,
            buyer: unset_key(),
            amount,
            status: TradeStatus::Created,
            created_at: now,
            expire_at: 0,
            confirm_duration,
            dispute_duration,
            dispute_initiator: unset_key(),
            dispute_end_time: 0,
            votes_for_buyer: 0,
            votes_for_seller: 0,
            bump,
            listing_id,
        };
        Ok((with_holding(s, Holding { escrow: e, vault: 0 }), ()))
    }
}

impl CreateEscrow {
    /// Opens an escrow for `listing_id`, with no buyer and an empty custody.
    pub fn init_escrow(
        &self,
        ledger: &mut Ledger,
        amount: u64,
        confirm_duration: i64,
        dispute_duration: i64,
        bump: u8,
        listing_id: u64,
        now: i64,
    ) -> (r: Result<(), EscrowError>)
        requires
            old(ledger).wf(),
        ensures
            final(ledger).wf(),
            state_valid(final(ledger)@),
            performs(
                old(ledger)@,
                create_step(
                    old(ledger)@,
                    *self,
                    amount,
                    confirm_duration,
                    dispute_duration,
                    bump,
                    listing_id,
                    now,
                ),
                r,
                final(ledger)@,
            ),
    {
        let key = EscrowKey { seller: self.seller, listing_id };
        if ledger.holding(key).is_some() {
            return Err(EscrowError::EscrowAlreadyExists);
        }
        if amount == 0 {
            return Err(EscrowError::InvalidAmount);
        }
        if confirm_duration <= 0 || dispute_duration <= 0 {
            return Err(EscrowError::InvalidExpireAt);
        }
        let e = EscrowAccount {
            seller: self.seller,
            buyer: Pubkey::unset(),
            amount,
            status: TradeStatus::Created,
            created_at: now,
            expire_at: 0,
            confirm_duration,
            dispute_duration,
            dispute_initiator: Pubkey::unset(),
            dispute_end_time: 0,
            votes_for_buyer: 0,
            votes_for_seller: 0,
            bump,
            listing_id,
        };
        ledger.insert_holding(Holding { escrow: e, vault: 0 });
        Ok(())
    }
}

/// The accounts of a fund instruction: the paying buyer and the escrow's address.
#[derive(Clone, Copy, Debug, PartialEq, Eq, Structural)]
pub struct FundEscrow {
    pub buyer: Pubkey,
    pub seller: Pubkey,
    pub listing_id: u64,
}

/// The fund transition: refused for a caller other than a bound buyer, outside
/// Created, or when the expiry would not fit; else the caller is the buyer,
/// custody holds the amount and the confirm window ends at `now + confirm_duration`.
pub open spec fn fund_step(s: LedgerState, ctx: FundEscrow, now: i64) -> Result<
    (LedgerState, Transfer),
    EscrowError,
> {
    let key = EscrowKey { seller: ctx.seller, listing_id: ctx.listing_id };
    if !s.escrows.contains_key(key) {
        Err(EscrowError::EscrowNotFound)
    } else {
        let h = s.escrows[key];
        let e = h.escrow;
        if e.buyer != unset_key() && e.buyer != ctx.buyer {
            Err(EscrowError::WrongBuyer)
        } else if e.status != TradeStatus::Created {
            Err(EscrowError::InvalidStatus)
        } else if now + e.confirm_duration > i64::MAX {
            Err(EscrowError::InvalidExpireAt)
        } else {
            let funded = Holding {
                escrow: EscrowAccount {
                    buyer: ctx.buyer,
                    expire_at: (now + e.confirm_duration) as i64,
                    status: TradeStatus::Funded,
                    ..e
                },
                vault: e.amount,
            };
            let t = Transfer {
                from: Endpoint::Wallet(ctx.buyer),
                to: Endpoint::Custody(key),
                lamports: e.amount,
            };
            Ok((with_holding(s, funded), t))
        }
    }
}

impl FundEscrow {
    /// Binds the caller as buyer, moves the amount into custody and starts the
    /// confirm window. The returned transfer is the buyer's payment.
    pub fn fund(&self, ledger: &mut Ledger, now: i64) -> (r: Result<Transfer, EscrowError>)
        requires
            old(ledger).wf(),
        ensures
            final(ledger).wf(),
            state_valid(final(ledger)@),
            performs(old(ledger)@, fund_step(old(ledger)@, *self, now), r, final(ledger)@),
    {
        let key = EscrowKey { seller: self.seller, listing_id: self.listing_id };
        let h = match ledger.holding(key) {
            Some(h) => h,
            None => return Err(EscrowError::EscrowNotFound),
        };
        let e = h.escrow;
        if e.buyer != Pubkey::unset() && e.buyer != self.buyer {
            return Err(EscrowError::WrongBuyer);
        }
        if e.status != TradeStatus::Created {
            return Err(EscrowError::InvalidStatus);
        }
        let expire_at = match now.checked_add(e.confirm_duration) {
            Some(t) => t,
            None => return Err(EscrowError::InvalidExpireAt),
        };
        let funded = Holding {
            escrow: EscrowAccount {
                buyer: self.buyer,
                expire_at,
                status: TradeStatus::Funded,
                ..e
            },
            vault: e.amount,
        };
        ledger.replace_holding(funded);
        Ok(Transfer { from: Endpoint::Wallet(self.buyer), to: Endpoint::Custody(key), lamports: e.amount })
    }
}

/// The accounts of a complete instruction: the confirming buyer and the seller.
#[derive(Clone, Copy, Debug, PartialEq, Eq, Structural)]
pub struct CompleteEscrow {
    pub buyer: Pubkey,
    pub seller: Pubkey,
    pub listing_id: u64,
}

/// The complete transition: only the buyer, only while Funded and strictly
/// before `expire_at`; custody goes to the seller.
pub open spec fn complete_step(s: LedgerState, ctx: CompleteEscrow, now: i64) -> Result<
    (LedgerState, Transfer),
    EscrowError,
> {
    let key = EscrowKey { seller: ctx.seller, listing_id: ctx.listing_id };
    if !s.escrows.contains_key(key) {
        Err(EscrowError::EscrowNotFound)
    } else {
        let h = s.escrows[key];
        let e = h.escrow;
        if e.buyer != ctx.buyer {
            Err(EscrowError::WrongBuyer)
        } else if e.seller != ctx.seller {
            Err(EscrowError::WrongSeller)
        } else if e.status != TradeStatus::Funded {
            Err(EscrowError::InvalidStatus)
        } else if now >= e.expire_at {
            Err(EscrowError::EscrowExpired)
        } else {
            Ok((with_holding(s, settled(h, TradeStatus::Completed)), payout(h, e.seller)))
        }
    }
}

impl CompleteEscrow {
    /// The buyer confirms receipt within the confirm window: custody is released
    /// to the seller.
    pub fn complete(&self, ledger: &mut Ledger, now: i64) -> (r: Result<Transfer, EscrowError>)
        requires
            old(ledger).wf(),
        ensures
            final(ledger).wf(),
            state_valid(final(ledger)@),
            performs(old(ledger)@, complete_step(old(ledger)@, *self, now), r, final(ledger)@),
    {
        let key = EscrowKey { seller: self.seller, listing_id: self.listing_id };
        let h = match ledger.holding(key) {
            Some(h) => h,
            None => return Err(EscrowError::EscrowNotFound),
        };
        let e = h.escrow;
        if e.buyer != self.buyer {
            return Err(EscrowError::WrongBuyer);
        }
        if e.seller != self.seller {
            return Err(EscrowError::WrongSeller);
        }
        if e.status != TradeStatus::Funded {
            return Err(EscrowError::InvalidStatus);
        }
        if now >= e.expire_at {
            return Err(EscrowError::EscrowExpired);
        }
        release(ledger, h, TradeStatus::Completed, e.seller)
    }
}

/// Empties the custody of `h` into `to`'s wallet and records `status`.
fn release(ledger: &mut Ledger, h: Holding, status: TradeStatus, to: Pubkey) -> (r: Result<
    Transfer,
    EscrowError,
>)
    requires
        old(ledger).wf(),
        old(ledger)@.escrows.contains_key(h.escrow.spec_key()),
        old(ledger)@.escrows[h.escrow.spec_key()] == h,
        holding_valid(h),
        status == TradeStatus::Completed || status == TradeStatus::Refunded,
    ensures
        final(ledger).wf(),
        r == Ok::<Transfer, EscrowError>(payout(h, to)),
        final(ledger)@ == with_holding(old(ledger)@, settled(h, status)),
{
    let t = Transfer { from: Endpoint::Custody(h.escrow.key()), to: Endpoint::Wallet(to), lamports: h.vault };
    ledger.replace_holding(Holding { escrow: EscrowAccount { status, ..h.escrow }, vault: 0 });
    Ok(t)
}

/// The accounts of a cancel instruction: the seller.
#[derive(Clone, Copy, Debug, PartialEq, Eq, Structural)]
pub struct CancelEscrow {
    pub seller: Pubkey,
    pub listing_id: u64,
}

/// The cancel transition: only the seller, only in Created with no buyer bound.
pub open spec fn cancel_step(s: LedgerState, ctx: CancelEscrow) -> Result<
    (LedgerState, ()),
    EscrowError,
> {
    let key = EscrowKey { seller: ctx.seller, listing_id: ctx.listing_id };
    if !s.escrows.contains_key(key) {
        Err(EscrowError::EscrowNotFound)
    } else {
        let h = s.escrows[key];
        let e = h.escrow;
        if e.seller != ctx.seller {
            Err(EscrowError::WrongSeller)
        } else if e.status != TradeStatus::Created {
            Err(EscrowError::InvalidStatus)
        } else if e.buyer != unset_key() {
            Err(EscrowError::AlreadyHasBuyer)
        } else {
            let cancelled = Holding {
                escrow: EscrowAccount { status: TradeStatus::Cancelled, ..e },
                vault: h.vault,
            };
            Ok((with_holding(s, cancelled), ()))
        }
    }
}

impl CancelEscrow {
    /// The seller withdraws an escrow that was never funded. The record stays
    /// as history.
    pub fn cancel(&self, ledger: &mut Ledger) -> (r: Result<(), EscrowError>)
        requires
            old(ledger).wf(),
        ensures
            final(ledger).wf(),
            state_valid(final(ledger)@),
            performs(old(ledger)@, cancel_step(old(ledger)@, *self), r, final(ledger)@),
    {
        let key = EscrowKey { seller: self.seller, listing_id: self.listing_id };
        let h = match ledger.holding(key) {
            Some(h) => h,
            None => return Err(EscrowError::EscrowNotFound),
        };
        let e = h.escrow;
        if e.seller != self.seller {
            return Err(EscrowError::WrongSeller);
        }
        if e.status != TradeStatus::Created {
            return Err(EscrowError::InvalidStatus);
        }
        if e.buyer != Pubkey::unset() {
            return Err(EscrowError::AlreadyHasBuyer);
        }
        ledger.replace_holding(
            Holding { escrow: EscrowAccount { status: TradeStatus::Cancelled, ..e }, vault: h.vault },
        );
        Ok(())
    }
}

/// The accounts of a claim instruction: any claimer, and the seller.
#[derive(Clone, Copy, Debug, PartialEq, Eq, Structural)]
pub struct ClaimAfterExpire {
    pub claimer: Pubkey,
    pub seller: Pubkey,
    pub listing_id: u64,
}

/// The claim transition: anyone, while Funded and at or after `expire_at`;
/// custody goes to the seller.
pub open spec fn claim_step(s: LedgerState, ctx: ClaimAfterExpire, now: i64) -> Result<
    (LedgerState, Transfer),
    EscrowError,
> {
    let key = EscrowKey { seller: ctx.seller, listing_id: ctx.listing_id };
    if !s.escrows.contains_key(key) {
        Err(EscrowError::EscrowNotFound)
    } else {
        let h = s.escrows[key];
        let e = h.escrow;
        if e.status != TradeStatus::Funded {
            Err(EscrowError::InvalidStatus)
        } else if now < e.expire_at {
            Err(EscrowError::InvalidStatus)
        } else if e.seller != ctx.seller {
            Err(EscrowError::WrongSeller)
        } else {
            Ok((with_holding(s, settled(h, TradeStatus::Completed)), payout(h, e.seller)))
        }
    }
}

impl ClaimAfterExpire {
    /// Once the confirm window has closed, anyone may release custody to the
    /// seller.
    pub fn claim(&self, ledger: &mut Ledger, now: i64) -> (r: Result<Transfer, EscrowError>)
        requires
            old(ledger).wf(),
        ensures
            final(ledger).wf(),
            state_valid(final(ledger)@),
            performs(old(ledger)@, claim_step(old(ledger)@, *self, now), r, final(ledger)@),
    {
        let key = EscrowKey { seller: self.seller, listing_id: self.listing_id };
        let h = match ledger.holding(key) {
            Some(h) => h,
            None => return Err(EscrowError::EscrowNotFound),
        };
        let e = h.escrow;
        if e.status != TradeStatus::Funded {
            return Err(EscrowError::InvalidStatus);
        }
        if now < e.expire_at {
            return Err(EscrowError::InvalidStatus);
        }
        if e.seller != self.seller {
            return Err(EscrowError::WrongSeller);
        }
        release(ledger, h, TradeStatus::Completed, e.seller)
    }
}

/// The accounts of a dispute instruction: the party raising it, and the seller.
#[derive(Clone, Copy, Debug, PartialEq, Eq, Structural)]
pub struct RaiseDispute {
    pub initiator: Pubkey,
    pub seller: Pubkey,
    pub listing_id: u64,
}

/// The dispute transition: the buyer or the seller, while Funded (a caller who
/// is neither is refused with WrongBuyer); tallies are
/// reset and the voting window ends at `now + dispute_duration`.
pub open spec fn raise_step(s: LedgerState, ctx: RaiseDispute, now: i64) -> Result<
    (LedgerState, ()),
    EscrowError,
> {
    let key = EscrowKey { seller: ctx.seller, listing_id: ctx.listing_id };
    if !s.escrows.contains_key(key) {
        Err(EscrowError::EscrowNotFound)
    } else {
        let h = s.escrows[key];
        let e = h.escrow;
        if e.status != TradeStatus::Funded {
            Err(EscrowError::InvalidStatus)
        } else if ctx.initiator != e.buyer && ctx.initiator != e.seller {
            Err(EscrowError::WrongBuyer)
        } else if now + e.dispute_duration > i64::MAX {
            Err(EscrowError::InvalidExpireAt)
        } else {
            let disputed = Holding {
                escrow: EscrowAccount {
                    dispute_initiator: ctx.initiator,
                    dispute_end_time: (now + e.dispute_duration) as i64,
                    votes_for_buyer: 0,
                    votes_for_seller: 0,
                    status: TradeStatus::InDispute,
                    ..e
                },
                vault: h.vault,
            };
            Ok((with_holding(s, disputed), ()))
        }
    }
}

impl RaiseDispute {
    /// The buyer or the seller opens a dispute on a funded escrow and starts the
    /// voting window.
    pub fn raise(&self, ledger: &mut Ledger, now: i64) -> (r: Result<(), EscrowError>)
        requires
            old(ledger).wf(),
        ensures
            final(ledger).wf(),
            state_valid(final(ledger)@),
            performs(old(ledger)@, raise_step(old(ledger)@, *self, now), r, final(ledger)@),
    {
        let key = EscrowKey { seller: self.seller, listing_id: self.listing_id };
        let h = match ledger.holding(key) {
            Some(h) => h,
            None => return Err(EscrowError::EscrowNotFound),
        };
        let e = h.escrow;
        if e.status != TradeStatus::Funded {
            return Err(EscrowError::InvalidStatus);
        }
        if self.initiator != e.buyer && self.initiator != e.seller {
            return Err(EscrowError::WrongBuyer);
        }
        let end = match now.checked_add(e.dispute_duration) {
            Some(t) => t,
            None => return Err(EscrowError::InvalidExpireAt),
        };
        ledger.replace_holding(
            Holding {
                escrow: EscrowAccount {
                    dispute_initiator: self.initiator,
                    dispute_end_time: end,
                    votes_for_buyer: 0,
                    votes_for_seller: 0,
                    status: TradeStatus::InDispute,
                    ..e
                },
                vault: h.vault,
            },
        );
        Ok(())
    }
}

/// The accounts of a vote instruction: the arbitrator, and the seller.
#[derive(Clone, Copy, Debug, PartialEq, Eq, Structural)]
pub struct VoteOnDispute {
    pub arbitrator: Pubkey,
    pub seller: Pubkey,
    pub listing_id: u64,
}

/// The vote transition: refused for an arbitrator who already voted, outside
/// InDispute, or at or after the end of the voting window; else the receipt is
/// written and the chosen tally grows by one.
pub open spec fn vote_step(
    s: LedgerState,
    ctx: VoteOnDispute,
    support_seller: bool,
    bump: u8,
    now: i64,
) -> Result<(LedgerState, ()), EscrowError> {
    let key = EscrowKey { seller: ctx.seller, listing_id: ctx.listing_id };
    if !s.escrows.contains_key(key) {
        Err(EscrowError::EscrowNotFound)
    } else {
        let h = s.escrows[key];
        let e = h.escrow;
        if s.receipts.contains_key((key, ctx.arbitrator)) {
            Err(EscrowError::DuplicateVote)
        } else if e.status != TradeStatus::InDispute {
            Err(EscrowError::InvalidStatus)
        } else if now >= e.dispute_end_time {
            Err(EscrowError::InvalidStatus)
        } else if (if support_seller {
            e.votes_for_seller
        } else {
            e.votes_for_buyer
        }) == u64::MAX {
            Err(EscrowError::TallyOverflow)
        } else {
            let counted = if support_seller {
                EscrowAccount { votes_for_seller: (e.votes_for_seller + 1) as u64, ..e }
            } else {
                EscrowAccount { votes_for_buyer: (e.votes_for_buyer + 1) as u64, ..e }
            };
            let receipt = VoteReceipt { escrow: key, arbitrator: ctx.arbitrator, support_seller, bump };
            Ok(
                (
                    LedgerState {
                        escrows: s.escrows.insert(key, Holding { escrow: counted, vault: h.vault }),
                        receipts: s.receipts.insert((key, ctx.arbitrator), receipt),
                    },
                    (),
                ),
            )
        }
    }
}

impl VoteOnDispute {
    /// An arbitrator casts its one vote while the voting window is open.
    pub fn vote(&self, ledger: &mut Ledger, support_seller: bool, bump: u8, now: i64) -> (r: Result<
        (),
        EscrowError,
    >)
        requires
            old(ledger).wf(),
        ensures
            final(ledger).wf(),
            state_valid(final(ledger)@),
            performs(
                old(ledger)@,
                vote_step(old(ledger)@, *self, support_seller, bump, now),
                r,
                final(ledger)@,
            ),
    {
        let key = EscrowKey { seller: self.seller, listing_id: self.listing_id };
        let h = match ledger.holding(key) {
            Some(h) => h,
            None => return Err(EscrowError::EscrowNotFound),
        };
        let e = h.escrow;
        if ledger.has_voted(key, self.arbitrator) {
            return Err(EscrowError::DuplicateVote);
        }
        if e.status != TradeStatus::InDispute {
            return Err(EscrowError::InvalidStatus);
        }
        if now >= e.dispute_end_time {
            return Err(EscrowError::InvalidStatus);
        }
        let counted = if support_seller {
            if e.votes_for_seller == u64::MAX {
                return Err(EscrowError::TallyOverflow);
            }
            EscrowAccount { votes_for_seller: e.votes_for_seller + 1, ..e }
        } else {
            if e.votes_for_buyer == u64::MAX {
                return Err(EscrowError::TallyOverflow);
            }
            EscrowAccount { votes_for_buyer: e.votes_for_buyer + 1, ..e }
        };
        ledger.replace_holding(Holding { escrow: counted, vault: h.vault });
        ledger.insert_receipt(
            VoteReceipt { escrow: key, arbitrator: self.arbitrator, support_seller, bump },
        );
        Ok(())
    }
}

/// The accounts of a resolve instruction: any resolver, the seller and the buyer.
#[derive(Clone, Copy, Debug, PartialEq, Eq, Structural)]
pub struct ResolveDispute {
    pub resolver: Pubkey,
    pub seller: Pubkey,
    pub buyer: Pubkey,
    pub listing_id: u64,
}

/// The seller wins a dispute only on a strict majority; a tie goes to the buyer.
pub open spec fn seller_wins(e: EscrowAccount) -> bool {
    e.votes_for_seller > e.votes_for_buyer
}

/// The resolve transition: anyone, while InDispute and at or after the end of
/// the voting window, naming the recorded seller and buyer; custody goes to the
/// seller on a strict majority, else to the buyer.
pub open spec fn resolve_step(s: LedgerState, ctx: ResolveDispute, now: i64) -> Result<
    (LedgerState, Transfer),
    EscrowError,
> {
    let key = EscrowKey { seller: ctx.seller, listing_id: ctx.listing_id };
    if !s.escrows.contains_key(key) {
        Err(EscrowError::EscrowNotFound)
    } else {
        let h = s.escrows[key];
        let e = h.escrow;
        if e.status != TradeStatus::InDispute {
            Err(EscrowError::InvalidStatus)
        } else if now < e.dispute_end_time {
            Err(EscrowError::InvalidStatus)
        } else if e.seller != ctx.seller {
            Err(EscrowError::WrongSeller)
        } else if e.buyer != ctx.buyer {
            Err(EscrowError::WrongBuyer)
        } else if seller_wins(e) {
            Ok((with_holding(s, settled(h, TradeStatus::Completed)), payout(h, e.seller)))
        } else {
            Ok((with_holding(s, settled(h, TradeStatus::Refunded)), payout(h, e.buyer)))
        }
    }
}

impl ResolveDispute {
    /// Once the voting window has closed, anyone may settle the dispute: custody
    /// goes to the seller on a strict majority for the seller, else back to the
    /// buyer.
    pub fn resolve(&self, ledger: &mut Ledger, now: i64) -> (r: Result<Transfer, EscrowError>)
        requires
            old(ledger).wf(),
        ensures
            final(ledger).wf(),
            state_valid(final(ledger)@),
            performs(old(ledger)@, resolve_step(old(ledger)@, *self, now), r, final(ledger)@),
    {
        let key = EscrowKey { seller: self.seller, listing_id: self.listing_id };
        let h = match ledger.holding(key) {
            Some(h) => h,
            None => return Err(EscrowError::EscrowNotFound),
        };
        let e = h.escrow;
        if e.status != TradeStatus::InDispute {
            return Err(EscrowError::InvalidStatus);
        }
        if now < e.dispute_end_time {
            return Err(EscrowError::InvalidStatus);
        }
        if e.seller != self.seller {
            return Err(EscrowError::WrongSeller);
        }
        if e.buyer != self.buyer {
            return Err(EscrowError::WrongBuyer);
        }
        if e.votes_for_seller > e.votes_for_buyer {
            release(ledger, h, TradeStatus::Completed, e.seller)
        } else {
            release(ledger, h, TradeStatus::Refunded, e.buyer)
        }
    }
}

} // verus!
