use vstd::prelude::*;
use crate::states::{
    EscrowAccount, EscrowKey, Holding, Pubkey, TradeStatus, VoteReceipt, custody_of, holding_valid,
};

verus! {

/// What the ledger holds: each escrow with its custody balance, by address,
/// and each vote receipt, by (escrow, arbitrator).
pub struct LedgerState {
    pub escrows: Map<EscrowKey, Holding>,
    pub receipts: Map<(EscrowKey, Pubkey), VoteReceipt>,
}

/// The invariants that every reachable ledger state keeps.
pub open spec fn state_valid(s: LedgerState) -> bool {
    &&& forall|k: EscrowKey| #[trigger]
        s.escrows.contains_key(k) ==> s.escrows[k].escrow.spec_key() == k && holding_valid(
            s.escrows[k],
        )
    &&& forall|rk: (EscrowKey, Pubkey)| #[trigger]
        s.receipts.contains_key(rk) ==> (s.receipts[rk].escrow, s.receipts[rk].arbitrator) == rk
            && s.escrows.contains_key(rk.0) && votes_possible(s.escrows[rk.0].escrow.status)
}

/// The statuses in which an escrow may carry vote receipts: votes are cast only
/// in a dispute, and stay as history once it is settled.
pub open spec fn votes_possible(s: TradeStatus) -> bool {
    s == TradeStatus::InDispute || s == TradeStatus::Completed || s == TradeStatus::Refunded
}

/// The store of escrow records, custody balances and vote receipts. Records are
/// never removed: terminal trades stay as history.
pub struct Ledger {
    holdings: Vec<Holding>,
    receipts: Vec<VoteReceipt>,
    escrow_map: Ghost<Map<EscrowKey, Holding>>,
    receipt_map: Ghost<Map<(EscrowKey, Pubkey), VoteReceipt>>,
}

/// The address of a vote receipt: its escrow and its arbitrator.
pub open spec fn receipt_key(r: VoteReceipt) -> (EscrowKey, Pubkey) {
    (r.escrow, r.arbitrator)
}

impl View for Ledger {
    type V = LedgerState;

    closed spec fn view(&self) -> LedgerState {
        LedgerState { escrows: self.escrow_map@, receipts: self.receipt_map@ }
    }
}

impl Ledger {
    /// The vectors hold exactly what the maps hold, with unique keys.
    pub closed spec fn wf(&self) -> bool {
        let hs = self.holdings@;
        let rs = self.receipts@;
        &&& forall|i: int|
            0 <= i < hs.len() ==> #[trigger] self.escrow_map@.contains_key(hs[i].escrow.spec_key())
                && self.escrow_map@[hs[i].escrow.spec_key()] == hs[i]
        &&& forall|i: int, j: int|
            0 <= i < hs.len() && 0 <= j < hs.len() && i != j ==> hs[i].escrow.spec_key()
                != hs[j].escrow.spec_key()
        &&& forall|k: EscrowKey| #[trigger]
            self.escrow_map@.contains_key(k) ==> exists|i: int|
                0 <= i < hs.len() && hs[i].escrow.spec_key() == k
        &&& forall|i: int|
            0 <= i < rs.len() ==> #[trigger] self.receipt_map@.contains_key(receipt_key(rs[i]))
                && self.receipt_map@[receipt_key(rs[i])] == rs[i]
        &&& forall|k: (EscrowKey, Pubkey)| #[trigger]
            self.receipt_map@.contains_key(k) ==> exists|i: int|
                0 <= i < rs.len() && receipt_key(rs[i]) == k
        &&& state_valid(self@)
    }

    /// An empty ledger.
    pub fn new() -> (r: Ledger)
        ensures
            r.wf(),
            r@.escrows == Map::<EscrowKey, Holding>::empty(),
            r@.receipts == Map::<(EscrowKey, Pubkey), VoteReceipt>::empty(),
            state_valid(r@),
    {
        Ledger {
            holdings: Vec::new(),
            receipts: Vec::new(),
            escrow_map: Ghost(Map::empty()),
            receipt_map: Ghost(Map::empty()),
        }
    }

    /// A ledger that holds one stored escrow record, whose custody account
    /// holds `balance`. Custody is taken to be what the record's status
    /// requires; a balance above that is not escrowed value and is ignored.
    pub fn from_stored(escrow: EscrowAccount, balance: u64) -> (r: Option<Ledger>)
        ensures
            r is Some <==> holding_valid(Holding { escrow, vault: custody_of(escrow) }) && balance
                >= custody_of(escrow),
            r matches Some(l) ==> {
                &&& l.wf()
                &&& l@.escrows == Map::<EscrowKey, Holding>::empty().insert(
                    escrow.spec_key(),
                    Holding { escrow, vault: custody_of(escrow) },
                )
                &&& l@.receipts == Map::<(EscrowKey, Pubkey), VoteReceipt>::empty()
            },
    {
        let custody = if escrow.status == TradeStatus::Funded || escrow.status
            == TradeStatus::InDispute {
            escrow.amount
        } else {
            0
        };
        let h = Holding { escrow, vault: custody };
        if !h.is_valid() || balance < custody {
            return None;
        }
        let mut l = Ledger::new();
        l.insert_holding(h);
        Some(l)
    }

    /// A well-formed ledger keeps the state invariants.
    pub proof fn lemma_valid(&self)
        requires
            self.wf(),
        ensures
            state_valid(self@),
    {
    }


    fn find_holding(&self, key: EscrowKey) -> (r: Option<usize>)
        requires
            self.wf(),
        ensures
            match r {
                Some(i) => i < self.holdings@.len() && self.holdings@[i as int].escrow.spec_key()
                    == key,
                None => !self@.escrows.contains_key(key),
            },
    {
        let mut i: usize = 0;
        while i < self.holdings.len()
            invariant
                self.wf(),
                i <= self.holdings@.len(),
                forall|j: int| 0 <= j < i ==> self.holdings@[j].escrow.spec_key() != key,
            decreases self.holdings@.len() - i,
        {
            if self.holdings[i].escrow.key() == key {
                return Some(i);
            }
            i += 1;
        }
        None
    }

    /// The escrow stored at `key`, with its custody balance. Also makes the
    /// ledger's invariants known to the caller.
    pub fn holding(&self, key: EscrowKey) -> (r: Option<Holding>)
        requires
            self.wf(),
        ensures
            state_valid(self@),
            r == (if self@.escrows.contains_key(key) {
                Some(self@.escrows[key])
            } else {
                None
            }),
    {
        match self.find_holding(key) {
            Some(i) => Some(self.holdings[i]),
            None => None,
        }
    }

    /// The record of the escrow stored at `key`.
    pub fn escrow(&self, key: EscrowKey) -> (r: Option<EscrowAccount>)
        requires
            self.wf(),
        ensures
            r == (if self@.escrows.contains_key(key) {
                Some(self@.escrows[key].escrow)
            } else {
                None
            }),
    {
        match self.holding(key) {
            Some(h) => Some(h.escrow),
            None => None,
        }
    }

    /// Writing `h` at index `idx` (an overwrite of the same address, or a push
    /// of a fresh one) keeps the ledger well formed.
    proof fn lemma_write_keeps_wf(pre: Ledger, post: Ledger, h: Holding, idx: int)
        requires
            pre.wf(),
            0 <= idx <= pre.holdings@.len(),
            idx < pre.holdings@.len() ==> pre.holdings@[idx].escrow.spec_key()
                == h.escrow.spec_key(),
            idx < pre.holdings@.len() ==> forall|a: Pubkey|
                #[trigger] pre.receipt_map@.contains_key((h.escrow.spec_key(), a))
                    ==> votes_possible(h.escrow.status),
            idx == pre.holdings@.len() ==> !pre.escrow_map@.contains_key(h.escrow.spec_key()),
            post.holdings@ == (if idx < pre.holdings@.len() {
                pre.holdings@.update(idx, h)
            } else {
                pre.holdings@.push(h)
            }),
            post.escrow_map@ == pre.escrow_map@.insert(h.escrow.spec_key(), h),
            post.receipts@ == pre.receipts@,
            post.receipt_map@ == pre.receipt_map@,
            holding_valid(h),
        ensures
            post.wf(),
    {
        let key = h.escrow.spec_key();
        let n = pre.holdings@.len();
        assert forall|i: int| 0 <= i < n && i != idx implies pre.holdings@[i].escrow.spec_key()
            != key by {
            assert(pre.escrow_map@.contains_key(pre.holdings@[i].escrow.spec_key()));
        }
        assert forall|k: EscrowKey| #[trigger] post.escrow_map@.contains_key(k) implies exists|j: int|
            0 <= j < post.holdings@.len() && post.holdings@[j].escrow.spec_key() == k by {
            if k != key {
                let j = choose|j: int|
                    0 <= j < n && pre.holdings@[j].escrow.spec_key() == k;
                assert(post.holdings@[j].escrow.spec_key() == k);
            } else {
                assert(post.holdings@[idx].escrow.spec_key() == k);
            }
        }
        assert forall|k: EscrowKey| #[trigger] post.escrow_map@.contains_key(k) implies
            post.escrow_map@[k].escrow.spec_key() == k && holding_valid(post.escrow_map@[k]) by {
            if k != key {
                assert(pre.escrow_map@.contains_key(k));
            }
        }
        assert forall|j: int| 0 <= j < post.holdings@.len() implies
            #[trigger] post.escrow_map@.contains_key(post.holdings@[j].escrow.spec_key())
            && post.escrow_map@[post.holdings@[j].escrow.spec_key()] == post.holdings@[j] by {
            if j != idx {
                assert(pre.escrow_map@.contains_key(pre.holdings@[j].escrow.spec_key()));
            }
        }
        assert forall|a: int, b: int|
            0 <= a < post.holdings@.len() && 0 <= b < post.holdings@.len() && a != b implies
            post.holdings@[a].escrow.spec_key() != post.holdings@[b].escrow.spec_key() by {
            if a != idx && b != idx {
                assert(pre.holdings@[a].escrow.spec_key() != pre.holdings@[b].escrow.spec_key());
            }
        }
        assert forall|rk: (EscrowKey, Pubkey)| #[trigger] post.receipt_map@.contains_key(rk) implies
            post.escrow_map@.contains_key(rk.0) && votes_possible(post.escrow_map@[rk.0].escrow.status) by {
            assert(pre@.receipts.contains_key(rk));
            if rk.0 == key {
                assert(idx < n);
                assert(pre.receipt_map@.contains_key((key, rk.1)));
            }
        }
        assert forall|k: (EscrowKey, Pubkey)| #[trigger] post.receipt_map@.contains_key(k) implies exists|j: int|
            0 <= j < post.receipts@.len() && receipt_key(post.receipts@[j]) == k by {
            let j = choose|j: int| 0 <= j < pre.receipts@.len() && receipt_key(pre.receipts@[j]) == k;
            assert(receipt_key(post.receipts@[j]) == k);
        }
    }

    /// Overwrites the escrow stored at its own address.
    pub(crate) fn replace_holding(&mut self, h: Holding)
        requires
            old(self).wf(),
            old(self)@.escrows.contains_key(h.escrow.spec_key()),
            holding_valid(h),
            forall|a: Pubkey| #[trigger]
                old(self)@.receipts.contains_key((h.escrow.spec_key(), a)) ==> votes_possible(
                    h.escrow.status,
                ),
        ensures
            final(self).wf(),
            state_valid(final(self)@),
            final(self)@ == (LedgerState {
                escrows: old(self)@.escrows.insert(h.escrow.spec_key(), h),
                ..old(self)@
            }),
    {
        let key = h.escrow.key();
        let i = self.find_holding(key).unwrap();
        let ghost pre = *self;
        self.holdings.set(i, h);
        self.escrow_map = Ghost(self.escrow_map@.insert(key, h));
        proof {
            Self::lemma_write_keeps_wf(pre, *self, h, i as int);
        }
    }

    /// Stores a new escrow at an address that holds none.
    pub(crate) fn insert_holding(&mut self, h: Holding)
        requires
            old(self).wf(),
            !old(self)@.escrows.contains_key(h.escrow.spec_key()),
            holding_valid(h),
        ensures
            final(self).wf(),
            state_valid(final(self)@),
            final(self)@ == (LedgerState {
                escrows: old(self)@.escrows.insert(h.escrow.spec_key(), h),
                ..old(self)@
            }),
    {
        let key = h.escrow.key();
        let ghost pre = *self;
        self.holdings.push(h);
        self.escrow_map = Ghost(self.escrow_map@.insert(key, h));
        proof {
            Self::lemma_write_keeps_wf(pre, *self, h, pre.holdings@.len() as int);
        }
    }


    /// Whether `arbitrator` holds a vote receipt for the escrow at `key`.
    pub fn has_voted(&self, key: EscrowKey, arbitrator: Pubkey) -> (r: bool)
        requires
            self.wf(),
        ensures
            r == self@.receipts.contains_key((key, arbitrator)),
    {
        let mut i: usize = 0;
        while i < self.receipts.len()
            invariant
                self.wf(),
                i <= self.receipts@.len(),
                forall|j: int| 0 <= j < i ==> receipt_key(self.receipts@[j]) != (key, arbitrator),
            decreases self.receipts@.len() - i,
        {
            let r = self.receipts[i];
            if r.escrow == key && r.arbitrator == arbitrator {
                assert(self.receipt_map@.contains_key(receipt_key(self.receipts@[i as int])));
                return true;
            }
            i += 1;
        }
        false
    }

    /// Stores a receipt for an (escrow, arbitrator) pair that holds none.
    pub(crate) fn insert_receipt(&mut self, r: VoteReceipt)
        requires
            old(self).wf(),
            !old(self)@.receipts.contains_key(receipt_key(r)),
            old(self)@.escrows.contains_key(r.escrow),
            votes_possible(old(self)@.escrows[r.escrow].escrow.status),
        ensures
            final(self).wf(),
            state_valid(final(self)@),
            final(self)@ == (LedgerState {
                receipts: old(self)@.receipts.insert(receipt_key(r), r),
                ..old(self)@
            }),
    {
        let ghost n = self.receipts@.len();
        self.receipts.push(r);
        self.receipt_map = Ghost(self.receipt_map@.insert(receipt_key(r), r));
        proof {
            assert forall|i: int| 0 <= i < n implies receipt_key(self.receipts@[i]) != receipt_key(r) by {
                assert(old(self).receipt_map@.contains_key(receipt_key(old(self).receipts@[i])));
            }
            assert forall|k: (EscrowKey, Pubkey)| #[trigger]
                self.receipt_map@.contains_key(k) implies exists|j: int|
                0 <= j < self.receipts@.len() && receipt_key(self.receipts@[j]) == k by {
                if k != receipt_key(r) {
                    let j = choose|j: int|
                        0 <= j < old(self).receipts@.len() && receipt_key(old(self).receipts@[j]) == k;
                    assert(receipt_key(self.receipts@[j]) == k);
                } else {
                    assert(receipt_key(self.receipts@[n as int]) == k);
                }
            }
        }
    }
}

} // verus!
