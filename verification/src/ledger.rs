//! Fungible balance ledger: per-account free balance, and balance held
//! under the module's hold reason. Holding moves funds from free to held;
//! releasing moves up to the held amount back, best-effort.

use crate::store::{assoc_map, distinct_keys, lemma_assoc_contains, lemma_assoc_index,
    lemma_assoc_update};
use crate::types::{AccountId, Balance, DispatchError, HoldReason};
use vstd::prelude::*;

verus! {

/// The two balances an account has with the ledger.
#[derive(Clone, Copy, PartialEq, Eq, Structural, Debug)]
pub struct AccountState {
    /// Balance the account can spend or have held.
    pub free: Balance,
    /// Balance reserved under the module's hold reason.
    pub held: Balance,
}

/// Association-list ledger; an account without an entry has zero balances.
pub struct Ledger {
    pub accounts: Vec<(AccountId, AccountState)>,
}

impl View for Ledger {
    type V = Map<AccountId, AccountState>;

    open spec fn view(&self) -> Map<AccountId, AccountState> {
        assoc_map(self.accounts@)
    }
}

impl Ledger {
    /// Free balance of an account, zero when the ledger has no entry.
    pub open spec fn free_of(&self, a: AccountId) -> Balance {
        if self@.dom().contains(a) {
            self@[a].free
        } else {
            0
        }
    }

    /// Held balance of an account, zero when the ledger has no entry.
    pub open spec fn held_of(&self, a: AccountId) -> Balance {
        if self@.dom().contains(a) {
            self@[a].held
        } else {
            0
        }
    }

    /// Each account has at most one entry, and its two balances sum to an
    /// amount a balance can carry, so holding and releasing never overflow.
    pub open spec fn wf(&self) -> bool {
        &&& distinct_keys(self.accounts@)
        &&& forall|a: AccountId|
            #[trigger] self.free_of(a) + self.held_of(a) <= Balance::MAX
    }

    pub fn new() -> (l: Ledger)
        ensures
            l.wf(),
            forall|a: AccountId| #[trigger] l.free_of(a) == 0,
            forall|a: AccountId| #[trigger] l.held_of(a) == 0,
    {
        let l = Ledger { accounts: Vec::new() };
        proof {
            assert(forall|a: AccountId| !l@.dom().contains(a)) by {
                assert(l@ =~= Map::<AccountId, AccountState>::empty());
            }
        }
        l
    }

    /// The index of the entry for `a`, if the ledger has one.
    fn index_of(&self, a: AccountId) -> (r: Option<usize>)
        ensures
            match r {
                Some(i) => i < self.accounts@.len() && self.accounts@[i as int].0 == a,
                None => forall|j: int|
                    0 <= j < self.accounts@.len() ==> (#[trigger] self.accounts@[j]).0 != a,
            },
    {
        let n = self.accounts.len();
        let mut i: usize = 0;
        while i < n
            invariant
                n == self.accounts@.len(),
                i <= n,
                forall|j: int| 0 <= j < i ==> (#[trigger] self.accounts@[j]).0 != a,
            decreases n - i,
        {
            if self.accounts[i].0 == a {
                return Some(i);
            }
            i = i + 1;
        }
        None
    }

    /// The balances of `a` together with the index of its entry.
    fn lookup(&self, a: AccountId) -> (r: (AccountState, Option<usize>))
        requires
            distinct_keys(self.accounts@),
        ensures
            r.0.free == self.free_of(a),
            r.0.held == self.held_of(a),
            match r.1 {
                Some(i) => i < self.accounts@.len() && self.accounts@[i as int].0 == a,
                None => !self@.dom().contains(a),
            },
    {
        proof {
            lemma_assoc_contains(self.accounts@, a);
        }
        match self.index_of(a) {
            Some(i) => {
                proof {
                    lemma_assoc_index(self.accounts@, i as int);
                }
                (self.accounts[i].1, Some(i))
            },
            None => (AccountState { free: 0, held: 0 }, None),
        }
    }

    pub fn free_balance(&self, a: AccountId) -> (r: Balance)
        requires
            self.wf(),
        ensures
            r == self.free_of(a),
    {
        self.lookup(a).0.free
    }

    pub fn held_balance(&self, a: AccountId) -> (r: Balance)
        requires
            self.wf(),
        ensures
            r == self.held_of(a),
    {
        self.lookup(a).0.held
    }

    /// Writes the entry for `a`, updating it in place or appending one.
    fn write(&mut self, a: AccountId, st: AccountState)
        requires
            distinct_keys(old(self).accounts@),
        ensures
            distinct_keys(final(self).accounts@),
            final(self)@ =~= old(self)@.insert(a, st),
            final(self).free_of(a) == st.free,
            final(self).held_of(a) == st.held,
            forall|b: AccountId|
                b != a ==> #[trigger] final(self).free_of(b) == old(self).free_of(b),
            forall|b: AccountId|
                b != a ==> #[trigger] final(self).held_of(b) == old(self).held_of(b),
    {
        proof {
            lemma_assoc_contains(self.accounts@, a);
        }
        match self.index_of(a) {
            Some(i) => {
                proof {
                    lemma_assoc_update(self.accounts@, i as int, st);
                }
                self.accounts[i] = (a, st);
            },
            None => {
                self.accounts.push((a, st));
                proof {
                    assert(self.accounts@.drop_last() =~= old(self).accounts@);
                }
            },
        }
    }

    /// Endows an account with a free balance, a fixture for setting up
    /// participants; held funds are untouched.
    pub fn set_free_balance(&mut self, a: AccountId, amount: Balance)
        requires
            old(self).wf(),
            amount + old(self).held_of(a) <= Balance::MAX,
        ensures
            final(self).wf(),
            final(self).free_of(a) == amount,
            final(self).held_of(a) == old(self).held_of(a),
            forall|b: AccountId|
                b != a ==> #[trigger] final(self).free_of(b) == old(self).free_of(b),
            forall|b: AccountId|
                b != a ==> #[trigger] final(self).held_of(b) == old(self).held_of(b),
    {
        let (st, _) = self.lookup(a);
        self.write(a, AccountState { free: amount, held: st.held });
    }

    /// Reserves `amount` from the free balance of `a` under `_reason`,
    /// failing without any change when the free balance is short.
    pub fn hold(&mut self, _reason: HoldReason, a: AccountId, amount: Balance) -> (r: Result<
        (),
        DispatchError,
    >)
        requires
            old(self).wf(),
        ensures
            final(self).wf(),
            r is Ok <==> old(self).free_of(a) >= amount,
            r is Err ==> r == Err::<(), DispatchError>(DispatchError::FundsUnavailable)
                && *final(self) == *old(self),
            r is Ok ==> final(self).free_of(a) == old(self).free_of(a) - amount
                && final(self).held_of(a) == old(self).held_of(a) + amount,
            forall|b: AccountId|
                b != a ==> #[trigger] final(self).free_of(b) == old(self).free_of(b),
            forall|b: AccountId|
                b != a ==> #[trigger] final(self).held_of(b) == old(self).held_of(b),
    {
        let (st, _) = self.lookup(a);
        if st.free < amount {
            return Err(DispatchError::FundsUnavailable);
        }
        self.write(a, AccountState { free: st.free - amount, held: st.held + amount });
        Ok(())
    }

    /// Releases up to `amount` of the balance held for `a` under `_reason`
    /// back to its free balance, best-effort, and returns how much moved.
    pub fn release(&mut self, _reason: HoldReason, a: AccountId, amount: Balance) -> (released:
        Balance)
        requires
            old(self).wf(),
        ensures
            final(self).wf(),
            released == if amount <= old(self).held_of(a) {
                amount
            } else {
                old(self).held_of(a)
            },
            final(self).held_of(a) == old(self).held_of(a) - released,
            final(self).free_of(a) == old(self).free_of(a) + released,
            forall|b: AccountId|
                b != a ==> #[trigger] final(self).free_of(b) == old(self).free_of(b),
            forall|b: AccountId|
                b != a ==> #[trigger] final(self).held_of(b) == old(self).held_of(b),
    {
        let (st, _) = self.lookup(a);
        let released = if amount <= st.held {
            amount
        } else {
            st.held
        };
        self.write(a, AccountState { free: st.free + released, held: st.held - released });
        released
    }
}

} // verus!
