//! The accounts of all traders, keyed by the trader's address.

use vstd::prelude::*;
use crate::account::{empty_account, Account};

verus! {

/// One line of the ledger.
struct Entry {
    trader: String,
    account: Account,
}

/// Accounts by trader. A trader that was never written has the empty account.
pub struct Ledger {
    entries: Vec<Entry>,
}

impl Ledger {
    /// Whether `i` is the first line that names `trader`.
    spec fn first_at(self, trader: Seq<char>, i: int) -> bool {
        &&& 0 <= i < self.entries.len()
        &&& self.entries[i].trader@ == trader
        &&& forall|j: int| 0 <= j < i ==> (#[trigger] self.entries[j]).trader@ != trader
    }

    /// The account of `trader`: the first line that names the trader counts,
    /// and the empty account where none does.
    pub closed spec fn account_of(self, trader: Seq<char>) -> Account {
        if exists|i: int| self.first_at(trader, i) {
            self.entries[choose|i: int| self.first_at(trader, i)].account
        } else {
            empty_account()
        }
    }

    /// The ledger as a total map from trader to account.
    pub open spec fn view(self) -> Map<Seq<char>, Account> {
        Map::total(|trader: Seq<char>| self.account_of(trader))
    }

    /// Only one line can be the first to name a trader.
    proof fn lemma_first_is_unique(self, trader: Seq<char>, i: int, j: int)
        requires
            self.first_at(trader, i),
            self.first_at(trader, j),
        ensures
            i == j,
    {
        if i < j {
            assert(self.entries[i].trader@ != trader);
        } else if j < i {
            assert(self.entries[j].trader@ != trader);
        }
    }

    /// A ledger in which every account is empty.
    pub fn new() -> (l: Ledger)
        ensures
            l@ == Map::total(|trader: Seq<char>| empty_account()),
    {
        let l = Ledger { entries: Vec::new() };
        assert(forall|trader: Seq<char>| l.account_of(trader) == empty_account());
        assert(l@ =~= Map::total(|trader: Seq<char>| empty_account()));
        l
    }

    /// The first line that names `trader`, if any does.
    fn find(&self, trader: &String) -> (r: Option<usize>)
        ensures
            match r {
                Some(i) => self.first_at(trader@, i as int),
                None => forall|i: int| !self.first_at(trader@, i),
            },
    {
        let mut i: usize = 0;
        while i < self.entries.len()
            invariant
                i <= self.entries.len(),
                forall|j: int| 0 <= j < i ==> (#[trigger] self.entries[j]).trader@ != trader@,
            decreases self.entries.len() - i,
        {
            if self.entries[i].trader == *trader {
                return Some(i);
            }
            i = i + 1;
        }
        None
    }

    /// The account of `trader`.
    pub fn get(&self, trader: &str) -> (a: Account)
        ensures
            a == self@[trader@],
    {
        let key = trader.to_owned();
        match self.find(&key) {
            Some(i) => {
                proof {
                    let c = choose|c: int| self.first_at(trader@, c);
                    self.lemma_first_is_unique(trader@, i as int, c);
                }
                self.entries[i].account
            },
            None => Account::empty(),
        }
    }

    /// Writes the account of `trader`, leaving every other account as it is.
    pub fn put(&mut self, trader: &str, account: Account)
        ensures
            final(self)@ == old(self)@.insert(trader@, account),
    {
        let key = trader.to_owned();
        let found = self.find(&key);
        let ghost before = *self;
        match found {
            Some(i) => {
                self.entries.set(i, Entry { trader: key, account });
            },
            None => {
                self.entries.push(Entry { trader: key, account });
            },
        }
        proof {
            let at: int = match found {
                Some(i) => i as int,
                None => before.entries.len() as int,
            };
            assert forall|t: Seq<char>, j: int| j != at implies self.first_at(t, j) == before.first_at(
                t,
                j,
            ) by {
                if 0 <= j < before.entries.len() {
                    assert(self.entries[j] == before.entries[j]);
                    if self.first_at(t, j) {
                        assert forall|k: int| 0 <= k < j implies (#[trigger] before.entries[k]).trader@
                            != t by {
                            assert(self.entries[k].trader@ != t);
                        }
                    }
                    if before.first_at(t, j) {
                        assert forall|k: int| 0 <= k < j implies (#[trigger] self.entries[k]).trader@
                            != t by {
                            assert(before.entries[k].trader@ != t);
                        }
                    }
                }
            }
            assert(self.first_at(trader@, at)) by {
                assert forall|k: int| 0 <= k < at implies (#[trigger] self.entries[k]).trader@
                    != trader@ by {
                    assert(self.entries[k] == before.entries[k]);
                    if found is None {
                        assert(!before.first_at(trader@, k));
                        before.lemma_no_line_names(trader@, k);
                    }
                }
            }
            assert forall|t: Seq<char>| #[trigger] self.account_of(t) == before@.insert(trader@, account)[t] by {
                if t == trader@ {
                    let c = choose|c: int| self.first_at(t, c);
                    self.lemma_first_is_unique(t, c, at);
                } else {
                    assert(!self.first_at(t, at));
                    assert(!before.first_at(t, at)) by {
                        if found is Some {
                            assert(before.entries[at].trader@ == trader@);
                        }
                    }
                    if exists|c: int| self.first_at(t, c) {
                        let c = choose|c: int| self.first_at(t, c);
                        assert(before.first_at(t, c));
                        let d = choose|d: int| before.first_at(t, d);
                        assert(self.first_at(t, d));
                        self.lemma_first_is_unique(t, c, d);
                    } else {
                        assert forall|d: int| !before.first_at(t, d) by {
                            if before.first_at(t, d) {
                                assert(self.first_at(t, d));
                            }
                        }
                    }
                }
            }
            assert(self@ =~= before@.insert(trader@, account));
        }
    }

    /// Where no line is the first to name a trader, no line names the trader.
    proof fn lemma_no_line_names(self, trader: Seq<char>, k: int)
        requires
            forall|i: int| !self.first_at(trader, i),
            0 <= k < self.entries.len(),
        ensures
            self.entries[k].trader@ != trader,
        decreases k,
    {
        if self.entries[k].trader@ == trader {
            assert(!self.first_at(trader, k));
            let j = choose|j: int| 0 <= j < k && (#[trigger] self.entries[j]).trader@ == trader;
            self.lemma_no_line_names(trader, j);
        }
    }
}

} // verus!
