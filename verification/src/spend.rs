//! What wallets have spent, by wallet and day.
use vstd::prelude::*;

use crate::strkey::Strkey;

verus! {

/// What one wallet has spent on one day, in USDC stroops.
#[derive(Debug)]
pub struct SpendEntry {
    wallet: Strkey,
    day: u64,
    amount: i128,
}

impl SpendEntry {
    spec fn key(self) -> (Seq<char>, u64) {
        (self.wallet@, self.day)
    }
}

/// The spend entries, at most one for each wallet and day.
#[derive(Debug)]
pub struct SpendLedger {
    entries: Vec<SpendEntry>,
}

spec fn entry_at(entries: Seq<SpendEntry>, key: (Seq<char>, u64), i: int) -> bool {
    0 <= i < entries.len() && entries[i].key() == key
}

impl View for SpendLedger {
    type V = Map<(Seq<char>, u64), i128>;

    closed spec fn view(&self) -> Map<(Seq<char>, u64), i128> {
        Map::new(
            |key: (Seq<char>, u64)| exists|i: int| entry_at(self.entries@, key, i),
            |key: (Seq<char>, u64)|
                self.entries@[choose|i: int| entry_at(self.entries@, key, i)].amount,
        )
    }
}

impl SpendLedger {
    /// No key occurs twice, and no amount is negative.
    pub closed spec fn wf(self) -> bool {
        &&& forall|i: int, j: int|
            0 <= i < self.entries@.len() && 0 <= j < self.entries@.len()
                && #[trigger] self.entries@[i].key() == #[trigger] self.entries@[j].key() ==> i == j
        &&& forall|i: int| 0 <= i < self.entries@.len() ==> 0 <= #[trigger] self.entries@[i].amount
    }

    pub fn new() -> (ledger: SpendLedger)
        ensures
            ledger.wf(),
            ledger@ == Map::<(Seq<char>, u64), i128>::empty(),
    {
        let ledger = SpendLedger { entries: Vec::new() };
        assert(ledger@ =~= Map::<(Seq<char>, u64), i128>::empty());
        ledger
    }

    proof fn lemma_view_at(self, i: int)
        requires
            self.wf(),
            0 <= i < self.entries@.len(),
        ensures
            self@.contains_key(self.entries@[i].key()),
            self@[self.entries@[i].key()] == self.entries@[i].amount,
    {
        let key = self.entries@[i].key();
        assert(entry_at(self.entries@, key, i));
        let j = choose|j: int| entry_at(self.entries@, key, j);
        assert(entry_at(self.entries@, key, j));
    }

    /// Recorded amounts are never negative.
    pub proof fn lemma_amounts_not_negative(self, key: (Seq<char>, u64))
        requires
            self.wf(),
            self@.contains_key(key),
        ensures
            0 <= self@[key],
    {
        let i = choose|i: int| entry_at(self.entries@, key, i);
        assert(entry_at(self.entries@, key, i));
    }

    fn find(&self, wallet: &Strkey, day: u64) -> (found: Option<usize>)
        ensures
            match found {
                Some(i) => entry_at(self.entries@, (wallet@, day), i as int),
                None => forall|i: int| !entry_at(self.entries@, (wallet@, day), i),
            },
    {
        let mut i: usize = 0;
        while i < self.entries.len()
            invariant
                i <= self.entries@.len(),
                forall|j: int| 0 <= j < i ==> !entry_at(self.entries@, (wallet@, day), j),
            decreases self.entries@.len() - i,
        {
            if self.entries[i].day == day && self.entries[i].wallet.same(wallet) {
                return Some(i);
            }
            i = i + 1;
        }
        None
    }

    /// The entry of a wallet for a day, if there is one.
    pub fn get(&self, wallet: &Strkey, day: u64) -> (amount: Option<i128>)
        requires
            self.wf(),
        ensures
            amount == (if self@.contains_key((wallet@, day)) {
                Some(self@[(wallet@, day)])
            } else {
                None
            }),
    {
        match self.find(wallet, day) {
            Some(i) => {
                proof {
                    self.lemma_view_at(i as int);
                }
                Some(self.entries[i].amount)
            },
            None => None,
        }
    }

    /// Writes the entry of a wallet for a day.
    pub fn set(&mut self, wallet: &Strkey, day: u64, amount: i128)
        requires
            old(self).wf(),
            0 <= amount,
        ensures
            final(self).wf(),
            final(self)@ == old(self)@.insert((wallet@, day), amount),
    {
        let ghost before = *self;
        let ghost key = (wallet@, day);
        match self.find(wallet, day) {
            Some(i) => {
                self.entries.set(i, SpendEntry { wallet: wallet.clone(), day, amount });
                proof {
                    assert forall|j: int| 0 <= j < self.entries@.len() implies
                        self.entries@[j].key() == before.entries@[j].key() by {}
                    self.lemma_written(before, key, i as int);
                }
            },
            None => {
                self.entries.push(SpendEntry { wallet: wallet.clone(), day, amount });
                proof {
                    let n = before.entries@.len() as int;
                    assert forall|j: int| 0 <= j < n implies self.entries@[j]
                        == before.entries@[j] && before.entries@[j].key() != key by {
                        assert(!entry_at(before.entries@, key, j));
                    }
                    self.lemma_written(before, key, n);
                }
            },
        }
    }

    /// A ledger that differs from another in the entry of `key`, at `at`, shows that entry
    /// written.
    proof fn lemma_written(self, before: SpendLedger, key: (Seq<char>, u64), at: int)
        requires
            self.wf(),
            before.wf(),
            entry_at(self.entries@, key, at),
            before.entries@.len() <= self.entries@.len() <= before.entries@.len() + 1,
            self.entries@.len() == before.entries@.len() + 1 ==> at == before.entries@.len(),
            self.entries@.len() == before.entries@.len() ==> entry_at(before.entries@, key, at),
            forall|j: int|
                0 <= j < before.entries@.len() && j != at ==> #[trigger] self.entries@[j]
                    == before.entries@[j],
        ensures
            self@ == before@.insert(key, self.entries@[at].amount),
    {
        let amount = self.entries@[at].amount;
        assert forall|k: (Seq<char>, u64)| self@.contains_key(k) == before@.insert(
            key,
            amount,
        ).contains_key(k) by {
            if self@.contains_key(k) {
                let j = choose|j: int| entry_at(self.entries@, k, j);
                assert(entry_at(self.entries@, k, j));
                if j != at {
                    assert(entry_at(before.entries@, k, j));
                }
            }
            if before@.contains_key(k) {
                let j = choose|j: int| entry_at(before.entries@, k, j);
                assert(entry_at(before.entries@, k, j));
                if j != at {
                    assert(entry_at(self.entries@, k, j));
                } else {
                    assert(entry_at(self.entries@, k, at));
                }
            }
            self.lemma_view_at(at);
        }
        assert forall|k: (Seq<char>, u64)| #[trigger] self@.contains_key(k) implies self@[k]
            == before@.insert(key, amount)[k] by {
            let j = choose|j: int| entry_at(self.entries@, k, j);
            assert(entry_at(self.entries@, k, j));
            self.lemma_view_at(j);
            if j != at {
                before.lemma_view_at(j);
            }
        }
        assert(self@ =~= before@.insert(key, amount));
    }
}

} // verus!
