//! The stock ledger, the transaction log and the change notifications, held
//! together as one store. The ledger is viewed as a map from entry id to entry.
use vstd::prelude::*;

use crate::model::{ChangeEvent, StockEntry, StockStatus, TransactionRecord, UIOperationEvent};

verus! {

pub open spec fn has_id(s: Seq<StockEntry>, id: u64) -> bool {
    exists|i: int| 0 <= i < s.len() && s[i].id == id
}

pub open spec fn index_of(s: Seq<StockEntry>, id: u64) -> int {
    choose|i: int| 0 <= i < s.len() && s[i].id == id
}

pub open spec fn ids_unique(s: Seq<StockEntry>) -> bool {
    forall|i: int, j: int| 0 <= i < s.len() && 0 <= j < s.len() && i != j ==> s[i].id != s[j].id
}

/// The entries of `s`, keyed by their ids.
pub open spec fn ledger_of(s: Seq<StockEntry>) -> Map<u64, StockEntry> {
    Map::new(|id: u64| has_id(s, id), |id: u64| s[index_of(s, id)])
}

/// What every stored entry satisfies: it owns at least one unit, no more than
/// it ever acquired, is live, and a riven is a single unit.
pub open spec fn entry_valid(e: StockEntry) -> bool {
    &&& 1 <= e.owned <= e.bought
    &&& e.status == StockStatus::Live
    &&& e.detail is Riven ==> e.owned == 1 && e.bought == 1
}

pub proof fn lemma_index_of(s: Seq<StockEntry>, k: int)
    requires
        ids_unique(s),
        0 <= k < s.len(),
    ensures
        has_id(s, s[k].id),
        index_of(s, s[k].id) == k,
        ledger_of(s).contains_key(s[k].id),
        ledger_of(s)[s[k].id] == s[k],
{
    assert(has_id(s, s[k].id));
}

pub proof fn lemma_ledger_push(s: Seq<StockEntry>, e: StockEntry)
    requires
        ids_unique(s),
        !has_id(s, e.id),
    ensures
        ids_unique(s.push(e)),
        ledger_of(s.push(e)) == ledger_of(s).insert(e.id, e),
{
    let t = s.push(e);
    assert forall|i: int, j: int| 0 <= i < t.len() && 0 <= j < t.len() && i != j implies t[i].id
        != t[j].id by {
        if i < s.len() && j < s.len() {
            assert(t[i] == s[i] && t[j] == s[j]);
        } else if i < s.len() {
            assert(s[i].id == t[i].id);
        } else {
            assert(s[j].id == t[j].id);
        }
    }
    lemma_index_of(t, s.len() as int);
    assert forall|id: u64| #[trigger] has_id(t, id) == (has_id(s, id) || id == e.id) by {
        if has_id(s, id) {
            let i = choose|i: int| 0 <= i < s.len() && s[i].id == id;
            assert(t[i] == s[i]);
        }
        if has_id(t, id) && id != e.id {
            let i = choose|i: int| 0 <= i < t.len() && t[i].id == id;
            assert(i < s.len() && s[i] == t[i]);
        }
    }
    assert forall|id: u64| has_id(s, id) implies #[trigger] ledger_of(t)[id] == ledger_of(s)[id] by {
        let i = index_of(s, id);
        assert(0 <= i < s.len() && s[i].id == id);
        assert(t[i] == s[i]);
        lemma_index_of(t, i);
    }
    assert(ledger_of(t) =~= ledger_of(s).insert(e.id, e));
}

pub proof fn lemma_ledger_update(s: Seq<StockEntry>, k: int, e: StockEntry)
    requires
        ids_unique(s),
        0 <= k < s.len(),
        e.id == s[k].id,
    ensures
        ids_unique(s.update(k, e)),
        ledger_of(s.update(k, e)) == ledger_of(s).insert(e.id, e),
{
    let t = s.update(k, e);
    assert forall|i: int, j: int| 0 <= i < t.len() && 0 <= j < t.len() && i != j implies t[i].id
        != t[j].id by {
        assert(t[i].id == s[i].id && t[j].id == s[j].id);
    }
    assert forall|id: u64| #[trigger] has_id(t, id) == has_id(s, id) by {
        if has_id(s, id) {
            let i = choose|i: int| 0 <= i < s.len() && s[i].id == id;
            assert(t[i].id == s[i].id);
        }
        if has_id(t, id) {
            let i = choose|i: int| 0 <= i < t.len() && t[i].id == id;
            assert(t[i].id == s[i].id);
        }
    }
    lemma_index_of(t, k);
    assert forall|id: u64| has_id(s, id) && id != e.id implies #[trigger] ledger_of(t)[id]
        == ledger_of(s)[id] by {
        let i = index_of(s, id);
        assert(0 <= i < s.len() && s[i].id == id);
        assert(i != k);
        assert(t[i] == s[i]);
        lemma_index_of(t, i);
    }
    assert(ledger_of(t) =~= ledger_of(s).insert(e.id, e));
}

pub proof fn lemma_ledger_remove(s: Seq<StockEntry>, k: int)
    requires
        ids_unique(s),
        0 <= k < s.len(),
    ensures
        ids_unique(s.remove(k)),
        ledger_of(s.remove(k)) == ledger_of(s).remove(s[k].id),
{
    let t = s.remove(k);
    let gone = s[k].id;
    assert forall|i: int| 0 <= i < t.len() implies #[trigger] t[i] == (if i < k {
        s[i]
    } else {
        s[i + 1]
    }) by {}
    assert forall|i: int, j: int| 0 <= i < t.len() && 0 <= j < t.len() && i != j implies t[i].id
        != t[j].id by {
        let a = if i < k { i } else { i + 1 };
        let b = if j < k { j } else { j + 1 };
        assert(t[i] == s[a] && t[j] == s[b]);
    }
    assert forall|id: u64| #[trigger] has_id(t, id) == (has_id(s, id) && id != gone) by {
        if has_id(s, id) && id != gone {
            let i = choose|i: int| 0 <= i < s.len() && s[i].id == id;
            assert(i != k);
            let a = if i < k { i } else { i - 1 };
            assert(t[a] == s[i]);
        }
        if has_id(t, id) {
            let i = choose|i: int| 0 <= i < t.len() && t[i].id == id;
            let a = if i < k { i } else { i + 1 };
            assert(t[i] == s[a]);
            assert(a != k);
        }
    }
    assert forall|id: u64| has_id(s, id) && id != gone implies #[trigger] ledger_of(t)[id]
        == ledger_of(s)[id] by {
        let i = index_of(s, id);
        assert(0 <= i < s.len() && s[i].id == id);
        assert(i != k);
        let a = if i < k { i } else { i - 1 };
        assert(t[a] == s[i]);
        lemma_index_of(t, a);
    }
    assert(ledger_of(t) =~= ledger_of(s).remove(gone));
}

/// The ledger, the transaction log and the notifications emitted so far.
pub struct StockStore {
    pub entries: Vec<StockEntry>,
    pub transactions: Vec<TransactionRecord>,
    pub events: Vec<ChangeEvent>,
    pub next_id: u64,
    pub next_transaction_id: u64,
}

impl StockStore {
    /// The ledger: each stored entry under its id.
    pub open spec fn ledger(&self) -> Map<u64, StockEntry> {
        ledger_of(self.entries@)
    }

    pub open spec fn wf(&self) -> bool {
        &&& ids_unique(self.entries@)
        &&& forall|i: int|
            0 <= i < self.entries@.len() ==> #[trigger] self.entries@[i].id < self.next_id
                && entry_valid(self.entries@[i])
    }

    /// The stored entry `id`, if it is a plain item.
    pub open spec fn has_plain(&self, id: u64) -> bool {
        self.ledger().contains_key(id) && self.ledger()[id].detail is Plain
    }

    /// The stored entry `id`, if it is a riven.
    pub open spec fn has_riven(&self, id: u64) -> bool {
        self.ledger().contains_key(id) && self.ledger()[id].detail is Riven
    }

    /// Both an entry and a transaction record can still be given an id.
    pub open spec fn has_room(&self) -> bool {
        self.next_id < u64::MAX && self.next_transaction_id < u64::MAX
    }

    pub proof fn lemma_wf_ledger(&self)
        requires
            self.wf(),
        ensures
            forall|id: u64| #[trigger]
                self.ledger().contains_key(id) ==> id < self.next_id && entry_valid(
                    self.ledger()[id],
                ),
    {
        assert forall|id: u64| #[trigger] self.ledger().contains_key(id) implies id < self.next_id
            && entry_valid(self.ledger()[id]) by {
            let i = index_of(self.entries@, id);
            assert(0 <= i < self.entries@.len() && self.entries@[i].id == id);
        }
    }

    pub fn new() -> (r: StockStore)
        ensures
            r.wf(),
            r.ledger() == Map::<u64, StockEntry>::empty(),
            r.transactions@ == Seq::<TransactionRecord>::empty(),
            r.events@ == Seq::<ChangeEvent>::empty(),
    {
        let r = StockStore {
            entries: Vec::new(),
            transactions: Vec::new(),
            events: Vec::new(),
            next_id: 0,
            next_transaction_id: 0,
        };
        assert(r.ledger() =~= Map::<u64, StockEntry>::empty());
        r
    }

    /// Position of entry `id` in storage.
    pub fn find_index(&self, id: u64) -> (r: Option<usize>)
        requires
            self.wf(),
        ensures
            match r {
                Some(k) => k < self.entries@.len() && self.entries@[k as int].id == id
                    && self.ledger().contains_key(id) && self.ledger()[id] == self.entries@[k as int],
                None => !self.ledger().contains_key(id),
            },
    {
        let mut i: usize = 0;
        while i < self.entries.len()
            invariant
                self.wf(),
                i <= self.entries@.len(),
                forall|j: int| 0 <= j < i ==> #[trigger] self.entries@[j].id != id,
            decreases self.entries@.len() - i,
        {
            if self.entries[i].id == id {
                proof {
                    lemma_index_of(self.entries@, i as int);
                }
                return Some(i);
            }
            i = i + 1;
        }
        None
    }

    /// The entry stored under `id`.
    pub fn get(&self, id: u64) -> (r: Option<&StockEntry>)
        requires
            self.wf(),
        ensures
            r.is_some() == self.ledger().contains_key(id),
            r.is_some() ==> *r.unwrap() == self.ledger()[id],
    {
        match self.find_index(id) {
            Some(k) => Some(&self.entries[k]),
            None => None,
        }
    }

    /// Stores `e` under a fresh id, which it returns.
    pub(crate) fn insert(&mut self, e: StockEntry) -> (r: u64)
        requires
            old(self).wf(),
            old(self).next_id < u64::MAX,
            entry_valid(e),
        ensures
            final(self).wf(),
            r == old(self).next_id,
            final(self).next_id == old(self).next_id + 1,
            final(self).ledger() == old(self).ledger().insert(r, StockEntry { id: r, ..e }),
            final(self).transactions == old(self).transactions,
            final(self).events == old(self).events,
            final(self).next_transaction_id == old(self).next_transaction_id,
    {
        let id = self.next_id;
        let mut e = e;
        e.id = id;
        proof {
            if has_id(self.entries@, id) {
                let i = choose|i: int| 0 <= i < self.entries@.len() && self.entries@[i].id == id;
                assert(self.entries@[i].id < self.next_id);
            }
            lemma_ledger_push(self.entries@, e);
        }
        self.entries.push(e);
        self.next_id = id + 1;
        proof {
            assert(self.entries@.last() == e);
        }
        id
    }

    /// Puts back an entry taken out by `remove_at`, under its own id.
    pub(crate) fn restore(&mut self, e: StockEntry)
        requires
            old(self).wf(),
            !old(self).ledger().contains_key(e.id),
            e.id < old(self).next_id,
            entry_valid(e),
        ensures
            final(self).wf(),
            final(self).ledger() == old(self).ledger().insert(e.id, e),
            final(self).transactions == old(self).transactions,
            final(self).events == old(self).events,
            final(self).next_id == old(self).next_id,
            final(self).next_transaction_id == old(self).next_transaction_id,
    {
        proof {
            lemma_ledger_push(self.entries@, e);
        }
        self.entries.push(e);
        proof {
            assert(self.entries@.last() == e);
        }
    }

    /// Removes the entry at position `k` and returns it.
    pub(crate) fn remove_at(&mut self, k: usize) -> (r: StockEntry)
        requires
            old(self).wf(),
            k < old(self).entries@.len(),
        ensures
            final(self).wf(),
            r == old(self).entries@[k as int],
            final(self).ledger() == old(self).ledger().remove(r.id),
            final(self).transactions == old(self).transactions,
            final(self).events == old(self).events,
            final(self).next_id == old(self).next_id,
            final(self).next_transaction_id == old(self).next_transaction_id,
    {
        proof {
            lemma_ledger_remove(self.entries@, k as int);
        }
        let r = self.entries.remove(k);
        proof {
            assert forall|i: int| 0 <= i < self.entries@.len() implies #[trigger]
                self.entries@[i].id < self.next_id && entry_valid(self.entries@[i]) by {
                if i < k {
                    assert(self.entries@[i] == old(self).entries@[i]);
                } else {
                    assert(self.entries@[i] == old(self).entries@[i + 1]);
                }
            }
        }
        r
    }

    /// Appends `t` to the log under a fresh id, which it returns.
    pub(crate) fn append_transaction(&mut self, t: TransactionRecord) -> (r: u64)
        requires
            old(self).wf(),
            old(self).next_transaction_id < u64::MAX,
        ensures
            final(self).wf(),
            r == old(self).next_transaction_id,
            final(self).next_transaction_id == old(self).next_transaction_id + 1,
            final(self).transactions@ == old(self).transactions@.push(
                TransactionRecord { id: r, ..t },
            ),
            final(self).entries == old(self).entries,
            final(self).events == old(self).events,
            final(self).next_id == old(self).next_id,
    {
        let id = self.next_transaction_id;
        let mut t = t;
        t.id = id;
        self.transactions.push(t);
        self.next_transaction_id = id + 1;
        id
    }

    /// Records a change notification about entry `id`.
    pub(crate) fn emit(&mut self, operation: UIOperationEvent, entry_id: u64)
        requires
            old(self).wf(),
        ensures
            final(self).wf(),
            final(self).events@ == old(self).events@.push(
                ChangeEvent { operation, entry_id },
            ),
            final(self).entries == old(self).entries,
            final(self).transactions == old(self).transactions,
            final(self).next_id == old(self).next_id,
            final(self).next_transaction_id == old(self).next_transaction_id,
    {
        self.events.push(ChangeEvent { operation, entry_id });
    }
}

} // verus!
