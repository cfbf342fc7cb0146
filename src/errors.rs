use vstd::prelude::*;

verus! {

/// Every way an instruction can be refused. A refused instruction leaves the
/// ledger exactly as it was.
#[derive(Clone, Copy, Debug, PartialEq, Eq, Structural)]
pub enum EscrowError {
    /// The buyer provided does not match the escrow's buyer.
    WrongBuyer,
    /// The seller provided does not match the escrow's seller.
    WrongSeller,
    /// The escrow is not in a valid state (or time window) for this action.
    InvalidStatus,
    /// The escrow already has a buyer assigned.
    AlreadyHasBuyer,
    /// A supplied or derived expiry is not strictly in the future.
    InvalidExpireAt,
    /// The escrow has expired and can no longer be completed.
    EscrowExpired,
    /// The arbitrator has already voted on this escrow.
    DuplicateVote,
    /// An escrow must hold a positive amount.
    InvalidAmount,
    /// No escrow exists for this seller and listing.
    EscrowNotFound,
    /// An escrow already exists for this seller and listing.
    EscrowAlreadyExists,
    /// A vote tally cannot grow any further.
    TallyOverflow,
}

} // verus!
