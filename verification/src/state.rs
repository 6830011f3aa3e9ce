use vstd::pervasive::VecAdditionalExecFns;
use vstd::prelude::*;

use crate::error::ContractError;
use crate::fees::FEE_DECIMAL_PRECISION;

verus! {

/// Auction parameters, immutable after creation except for the open flag,
/// which transitions from `true` to `false` exactly once, on close.
pub struct Config {
    /// The only currency in which bids are accepted.
    pub required_native_denom: String,
    /// Fixed-point fee rate: the fraction charged is
    /// `fee / FEE_DECIMAL_PRECISION`.
    pub fee: u128,
    /// Whether the auction still accepts bids.
    pub open_sale: bool,
}

/// The cumulative contribution of every participant, modelled as a map
/// from identity to amount. An entry, once created, is never removed: a
/// zero value records a completed retraction, while a missing key means
/// the participant never bid.
pub struct BidLedger {
    entries: Vec<(String, u128)>,
}

/// The mapping an association list denotes: later entries win, though a
/// well-formed ledger never has two entries for one key.
spec fn assoc_map(s: Seq<(String, u128)>) -> Map<Seq<char>, u128>
    decreases s.len(),
{
    if s.len() == 0 {
        Map::empty()
    } else {
        assoc_map(s.drop_last()).insert(s.last().0@, s.last().1)
    }
}

/// No two entries share a key.
spec fn entries_wf(s: Seq<(String, u128)>) -> bool {
    forall|i: int, j: int| 0 <= i < j < s.len() ==> s[i].0@ != s[j].0@
}

proof fn lemma_assoc_map_contains(s: Seq<(String, u128)>, k: Seq<char>)
    ensures
        assoc_map(s).contains_key(k) <==> (exists|i: int| 0 <= i < s.len() && s[i].0@ == k),
    decreases s.len(),
{
    if s.len() > 0 {
        lemma_assoc_map_contains(s.drop_last(), k);
        if s.last().0@ == k {
            assert(s[s.len() - 1].0@ == k);
        } else if assoc_map(s).contains_key(k) {
            let i = choose|i: int| 0 <= i < s.drop_last().len() && s.drop_last()[i].0@ == k;
            assert(s[i].0@ == k);
        } else if exists|i: int| 0 <= i < s.len() && s[i].0@ == k {
            let i = choose|i: int| 0 <= i < s.len() && s[i].0@ == k;
            assert(s.drop_last()[i].0@ == k);
        }
    }
}

proof fn lemma_assoc_map_index(s: Seq<(String, u128)>, i: int)
    requires
        entries_wf(s),
        0 <= i < s.len(),
    ensures
        assoc_map(s).contains_key(s[i].0@),
        assoc_map(s)[s[i].0@] == s[i].1,
    decreases s.len(),
{
    if i < s.len() - 1 {
        assert(entries_wf(s.drop_last())) by {
            assert(forall|x: int, y: int|
                0 <= x < y < s.drop_last().len() ==> s.drop_last()[x].0@ != s.drop_last()[y].0@);
        }
        lemma_assoc_map_index(s.drop_last(), i);
        assert(s.drop_last()[i] == s[i]);
        assert(s[i].0@ != s.last().0@);
    }
}

proof fn lemma_assoc_map_len(s: Seq<(String, u128)>)
    requires
        entries_wf(s),
    ensures
        assoc_map(s).dom().finite(),
        assoc_map(s).dom().len() == s.len(),
    decreases s.len(),
{
    if s.len() > 0 {
        assert(entries_wf(s.drop_last())) by {
            assert(forall|x: int, y: int|
                0 <= x < y < s.drop_last().len() ==> s.drop_last()[x].0@ != s.drop_last()[y].0@);
        }
        lemma_assoc_map_len(s.drop_last());
        lemma_assoc_map_contains(s.drop_last(), s.last().0@);
        assert(forall|i: int|
            0 <= i < s.drop_last().len() ==> s.drop_last()[i].0@ != s.last().0@) by {
            assert(forall|i: int| 0 <= i < s.len() - 1 ==> (#[trigger] s[i]).0@ != s[s.len() - 1].0@);
        }
        assert(!assoc_map(s.drop_last()).contains_key(s.last().0@));
    }
}

proof fn lemma_assoc_map_update(s: Seq<(String, u128)>, i: int, p: (String, u128))
    requires
        entries_wf(s),
        0 <= i < s.len(),
        p.0@ == s[i].0@,
    ensures
        entries_wf(s.update(i, p)),
        assoc_map(s.update(i, p)) == assoc_map(s).insert(p.0@, p.1),
    decreases s.len(),
{
    let t = s.update(i, p);
    assert(entries_wf(t)) by {
        assert(forall|x: int, y: int| 0 <= x < y < t.len() ==> t[x].0@ != t[y].0@) by {
            assert(forall|x: int| 0 <= x < t.len() ==> t[x].0@ == s[x].0@);
        }
    }
    if i == s.len() - 1 {
        assert(t.drop_last() =~= s.drop_last());
        assert(assoc_map(t) == assoc_map(s.drop_last()).insert(p.0@, p.1));
        assert(assoc_map(s.drop_last()).insert(p.0@, p.1) =~= assoc_map(s.drop_last()).insert(
            s.last().0@,
            s.last().1,
        ).insert(p.0@, p.1));
    } else {
        assert(entries_wf(s.drop_last())) by {
            assert(forall|x: int, y: int|
                0 <= x < y < s.drop_last().len() ==> s.drop_last()[x].0@ != s.drop_last()[y].0@);
        }
        assert(t.drop_last() =~= s.drop_last().update(i, p));
        lemma_assoc_map_update(s.drop_last(), i, p);
        assert(t.last() == s.last());
        assert(assoc_map(t) == assoc_map(s.drop_last()).insert(p.0@, p.1).insert(
            s.last().0@,
            s.last().1,
        ));
        assert(p.0@ != s.last().0@);
        assert(assoc_map(s.drop_last()).insert(p.0@, p.1).insert(s.last().0@, s.last().1)
            =~= assoc_map(s.drop_last()).insert(s.last().0@, s.last().1).insert(p.0@, p.1));
    }
}

impl View for BidLedger {
    type V = Map<Seq<char>, u128>;

    closed spec fn view(&self) -> Map<Seq<char>, u128> {
        assoc_map(self.entries@)
    }
}

impl BidLedger {
    /// Internal invariant: no participant appears twice.
    pub closed spec fn wf(self) -> bool {
        entries_wf(self.entries@)
    }

    /// An empty ledger: nobody ever bid.
    pub fn new() -> (r: BidLedger)
        ensures
            r.wf(),
            r@ == Map::<Seq<char>, u128>::empty(),
    {
        BidLedger { entries: Vec::new() }
    }

    /// Index of the entry for `key`, if the participant ever bid.
    fn index_of(&self, key: &String) -> (r: Option<usize>)
        ensures
            r matches Some(i) ==> i < self.entries@.len() && self.entries@[i as int].0@ == key@,
            r is None ==> forall|j: int| 0 <= j < self.entries@.len() ==> self.entries@[j].0@ != key@,
    {
        let n = self.entries.len();
        let mut i: usize = 0;
        while i < n
            invariant
                n == self.entries@.len(),
                i <= n,
                forall|j: int| 0 <= j < i ==> self.entries@[j].0@ != key@,
            decreases n - i,
        {
            if self.entries[i].0 == *key {
                return Some(i);
            }
            i = i + 1;
        }
        None
    }

    /// The stored cumulative amount, or zero if the participant never bid.
    pub fn get(&self, key: &String) -> (r: u128)
        requires
            self.wf(),
        ensures
            r == (if self@.contains_key(key@) {
                self@[key@]
            } else {
                0u128
            }),
    {
        proof {
            lemma_assoc_map_contains(self.entries@, key@);
        }
        match self.index_of(key) {
            Some(i) => {
                proof {
                    lemma_assoc_map_index(self.entries@, i as int);
                }
                self.entries[i].1
            },
            None => 0,
        }
    }

    /// Overwrites (or inserts) the participant's cumulative amount
    /// unconditionally; the caller is responsible for having validated that
    /// the new total is an increase.
    pub fn record_bid(&mut self, key: String, new_total: u128)
        requires
            old(self).wf(),
        ensures
            final(self).wf(),
            final(self)@ == old(self)@.insert(key@, new_total),
    {
        let ghost s0 = self.entries@;
        match self.index_of(&key) {
            Some(i) => {
                self.entries.set(i, (key, new_total));
                proof {
                    lemma_assoc_map_update(s0, i as int, self.entries@[i as int]);
                }
            },
            None => {
                self.entries.push((key, new_total));
                proof {
                    assert(self.entries@.drop_last() =~= s0);
                    assert(forall|x: int, y: int|
                        0 <= x < y < self.entries@.len() ==> self.entries@[x].0@
                            != self.entries@[y].0@) by {
                        assert(forall|x: int|
                            0 <= x < s0.len() ==> self.entries@[x] == s0[x]);
                    }
                }
            },
        }
    }

    /// Atomically reads and zeroes the participant's entry: a missing entry
    /// means they never bid, a zero entry that they already retracted once;
    /// otherwise the prior amount is returned and the entry is zeroed.
    pub fn take_for_retraction(&mut self, key: &String) -> (r: Result<u128, ContractError>)
        requires
            old(self).wf(),
        ensures
            final(self).wf(),
            !old(self)@.contains_key(key@) ==> r == Err::<u128, ContractError>(
                ContractError::NoFundsToRetract {},
            ) && *final(self) == *old(self),
            old(self)@.contains_key(key@) && old(self)@[key@] == 0 ==> r == Err::<
                u128,
                ContractError,
            >(ContractError::AlreadyRetracted {}) && *final(self) == *old(self),
            old(self)@.contains_key(key@) && old(self)@[key@] > 0 ==> r == Ok::<u128, ContractError>(
                old(self)@[key@],
            ) && final(self)@ == old(self)@.insert(key@, 0u128),
    {
        let ghost s0 = self.entries@;
        proof {
            lemma_assoc_map_contains(s0, key@);
        }
        match self.index_of(key) {
            None => Err(ContractError::NoFundsToRetract {}),
            Some(i) => {
                proof {
                    lemma_assoc_map_index(s0, i as int);
                }
                let amount = self.entries[i].1;
                if amount == 0 {
                    Err(ContractError::AlreadyRetracted {})
                } else {
                    let stored_key = self.entries[i].0.clone();
                    self.entries.set(i, (stored_key, 0));
                    proof {
                        lemma_assoc_map_update(s0, i as int, self.entries@[i as int]);
                    }
                    Ok(amount)
                }
            },
        }
    }

    /// The ledger's content as one pair per participant, for persistence
    /// by a hosting runtime: every pair is an entry of the ledger, every
    /// participant appears exactly once.
    pub fn entries(&self) -> (r: Vec<(String, u128)>)
        requires
            self.wf(),
        ensures
            r@.len() == self@.dom().len(),
            forall|i: int|
                0 <= i < r@.len() ==> self@.contains_key((#[trigger] r@[i]).0@) && self@[r@[i].0@]
                    == r@[i].1,
            forall|i: int, j: int| 0 <= i < j < r@.len() ==> r@[i].0@ != r@[j].0@,
    {
        proof {
            lemma_assoc_map_len(self.entries@);
        }
        let n = self.entries.len();
        let mut r: Vec<(String, u128)> = Vec::new();
        let mut i: usize = 0;
        while i < n
            invariant
                n == self.entries@.len(),
                i <= n,
                self.wf(),
                r@ =~= self.entries@.subrange(0, i as int),
            decreases n - i,
        {
            let key = self.entries[i].0.clone();
            let amount = self.entries[i].1;
            r.push((key, amount));
            i = i + 1;
        }
        proof {
            assert(r@ =~= self.entries@);
            assert forall|i: int| 0 <= i < r@.len() implies self@.contains_key(
                (#[trigger] r@[i]).0@,
            ) && self@[r@[i].0@] == r@[i].1 by {
                lemma_assoc_map_index(self.entries@, i);
            }
        }
        r
    }

    /// Count of distinct participants that ever placed a bid, retracted or
    /// not.
    pub fn num_participants(&self) -> (r: usize)
        requires
            self.wf(),
        ensures
            r == self@.dom().len(),
    {
        proof {
            lemma_assoc_map_len(self.entries@);
        }
        self.entries.len()
    }
}

/// The whole persistent state of one auction: the engine is its sole
/// writer, and every action either commits all its changes or none.
pub struct AuctionState {
    /// Set once at creation; authorizes the close action.
    pub owner: String,
    pub config: Config,
    pub bids: BidLedger,
    /// Current leader and leading cumulative amount; `None` until the
    /// first bid, never cleared afterwards.
    pub highest: Option<(String, u128)>,
}

impl AuctionState {
    /// The leading cumulative amount; zero before the first bid.
    pub open spec fn highest_amount(self) -> int {
        match self.highest {
            None => 0,
            Some(p) => p.1 as int,
        }
    }

    /// The leader and leading amount with the identity abstracted to its
    /// character sequence.
    pub open spec fn highest_view(self) -> Option<(Seq<char>, u128)> {
        match self.highest {
            None => None,
            Some(p) => Some((p.0@, p.1)),
        }
    }

    /// Well-formedness, established at creation and preserved by every
    /// action:
    /// - the ledger has one entry per participant;
    /// - the fee rate is strictly below one, so a fee never exceeds the
    ///   principal it is computed from and a payout never underflows;
    /// - before the first bid the ledger is empty; afterwards the leader
    ///   holds a positive ledger entry equal to the leading amount, and no
    ///   entry exceeds it.
    pub open spec fn wf(self) -> bool {
        &&& self.bids.wf()
        &&& self.config.fee < FEE_DECIMAL_PRECISION
        &&& match self.highest {
            None => forall|k: Seq<char>| !self.bids@.contains_key(k),
            Some(p) => {
                &&& self.bids@.contains_key(p.0@)
                &&& self.bids@[p.0@] == p.1
                &&& p.1 > 0
                &&& forall|k: Seq<char>| self.bids@.contains_key(k) ==> self.bids@[k] <= p.1
            },
        }
    }
}

} // verus!
