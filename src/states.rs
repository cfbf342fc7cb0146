use vstd::prelude::*;

verus! {

/// A 256-bit public identity, held as four 64-bit words.
#[derive(Clone, Copy, Debug, PartialEq, Eq, Structural)]
pub struct Pubkey(pub u64, pub u64, pub u64, pub u64);

/// The all-zero identity, which marks a party that is not set.
pub open spec fn unset_key() -> Pubkey {
    Pubkey(0, 0, 0, 0)
}

impl Pubkey {
    /// The all-zero identity.
    pub fn unset() -> (r: Pubkey)
        ensures
            r == unset_key(),
    {
        Pubkey(0, 0, 0, 0)
    }
}

/// The stage of a trade.
#[derive(Clone, Copy, Debug, PartialEq, Eq, Structural)]
pub enum TradeStatus {
    Created,
    Funded,
    InDispute,
    Completed,
    /// Cancelled before funding (never paid).
    Cancelled,
    /// Funds returned to the buyer (after payment).
    Refunded,
}

/// A status that no instruction leaves.
pub open spec fn is_terminal(s: TradeStatus) -> bool {
    s == TradeStatus::Completed || s == TradeStatus::Cancelled || s == TradeStatus::Refunded
}

/// The address of an escrow: one per (seller, listing).
#[derive(Clone, Copy, Debug, PartialEq, Eq, Structural)]
pub struct EscrowKey {
    pub seller: Pubkey,
    pub listing_id: u64,
}

/// The record of one trade.
#[derive(Clone, Copy, Debug, PartialEq, Eq, Structural)]
pub struct EscrowAccount {
    pub seller: Pubkey,
    pub buyer: Pubkey,
    pub amount: u64,
    pub status: TradeStatus,
    pub created_at: i64,
    pub expire_at: i64,
    pub confirm_duration: i64,
    pub dispute_duration: i64,
    pub dispute_initiator: Pubkey,
    pub dispute_end_time: i64,
    pub votes_for_buyer: u64,
    pub votes_for_seller: u64,
    pub bump: u8,
    pub listing_id: u64,
}

impl EscrowAccount {
    /// The address this record is stored under.
    pub open spec fn spec_key(&self) -> EscrowKey {
        EscrowKey { seller: self.seller, listing_id: self.listing_id }
    }

    /// The address this record is stored under.
    pub fn key(&self) -> (r: EscrowKey)
        ensures
            r == self.spec_key(),
    {
        EscrowKey { seller: self.seller, listing_id: self.listing_id }
    }
}

/// One arbitrator's vote on one escrow.
#[derive(Clone, Copy, Debug, PartialEq, Eq, Structural)]
pub struct VoteReceipt {
    pub escrow: EscrowKey,
    pub arbitrator: Pubkey,
    /// true = voted for the seller, false = voted for the buyer.
    pub support_seller: bool,
    pub bump: u8,
}

/// An escrow record together with the balance of its custody holding.
#[derive(Clone, Copy, Debug, PartialEq, Eq, Structural)]
pub struct Holding {
    pub escrow: EscrowAccount,
    pub vault: u64,
}

/// The record invariants of one escrow and its custody.
pub open spec fn holding_valid(h: Holding) -> bool {
    let e = h.escrow;
    &&& e.amount > 0
    &&& e.confirm_duration > 0
    &&& e.dispute_duration > 0
    &&& e.status == TradeStatus::Created ==> e.buyer == unset_key() && e.expire_at == 0
    &&& e.status == TradeStatus::Created || e.status == TradeStatus::Funded ==> e.votes_for_buyer
        == 0 && e.votes_for_seller == 0
    &&& h.vault == custody_of(e)
}

/// What custody must hold for a record: the escrowed amount while the trade is
/// funded or disputed, nothing otherwise.
pub open spec fn custody_of(e: EscrowAccount) -> u64 {
    if e.status == TradeStatus::Funded || e.status == TradeStatus::InDispute {
        e.amount
    } else {
        0
    }
}

impl Holding {
    /// Whether the record and its custody balance are consistent.
    pub fn is_valid(&self) -> (r: bool)
        ensures
            r == holding_valid(*self),
    {
        let e = &self.escrow;
        let active = e.status == TradeStatus::Funded || e.status == TradeStatus::InDispute;
        let pre_dispute = e.status == TradeStatus::Created || e.status == TradeStatus::Funded;
        e.amount > 0 && e.confirm_duration > 0 && e.dispute_duration > 0 && (e.status
            != TradeStatus::Created || (e.buyer == Pubkey::unset() && e.expire_at == 0)) && (
        !pre_dispute || (e.votes_for_buyer == 0 && e.votes_for_seller == 0)) && self.vault == (
        if active {
            e.amount
        } else {
            0
        })
    }
}

/// One side of a value transfer.
#[derive(Clone, Copy, Debug, PartialEq, Eq, Structural)]
pub enum Endpoint {
    /// A party's own wallet.
    Wallet(Pubkey),
    /// The custody holding of an escrow.
    Custody(EscrowKey),
}

/// A movement of native value that an instruction licenses.
#[derive(Clone, Copy, Debug, PartialEq, Eq, Structural)]
pub struct Transfer {
    pub from: Endpoint,
    pub to: Endpoint,
    pub lamports: u64,
}

} // verus!
