//! Read-only listings of the ledger and the transaction log.
use vstd::prelude::*;

use crate::ledger::StockStore;
use crate::model::{StockEntry, TransactionRecord};

verus! {

/// `e` owns more than `minimum_owned` units.
pub open spec fn owns_more(e: StockEntry, minimum_owned: i64) -> bool {
    e.owned as int > minimum_owned as int
}

/// Listings over a store.
pub struct StockItemQuery;

impl StockItemQuery {
    /// The ids of all logged transactions, oldest first.
    pub fn find_all_transactions(store: &StockStore) -> (r: Vec<u64>)
        ensures
            r@ == store.transactions@.map_values(|t: TransactionRecord| t.id),
    {
        let mut r: Vec<u64> = Vec::new();
        let mut i: usize = 0;
        while i < store.transactions.len()
            invariant
                i <= store.transactions@.len(),
                r@ == store.transactions@.take(i as int).map_values(|t: TransactionRecord| t.id),
            decreases store.transactions@.len() - i,
        {
            r.push(store.transactions[i].id);
            i = i + 1;
            assert(r@ =~= store.transactions@.take(i as int).map_values(|t: TransactionRecord| t.id));
        }
        assert(store.transactions@.take(i as int) =~= store.transactions@);
        r
    }

    /// The ids of all entries, in storage order.
    pub fn get_all(store: &StockStore) -> (r: Vec<u64>)
        ensures
            r@ == store.entries@.map_values(|e: StockEntry| e.id),
    {
        let mut r: Vec<u64> = Vec::new();
        let mut i: usize = 0;
        while i < store.entries.len()
            invariant
                i <= store.entries@.len(),
                r@ == store.entries@.take(i as int).map_values(|e: StockEntry| e.id),
            decreases store.entries@.len() - i,
        {
            r.push(store.entries[i].id);
            i = i + 1;
            assert(r@ =~= store.entries@.take(i as int).map_values(|e: StockEntry| e.id));
        }
        assert(store.entries@.take(i as int) =~= store.entries@);
        r
    }

    /// The ids of the entries that own more than `minimum_owned` units, in
    /// storage order.
    pub fn get_all_stock_items(store: &StockStore, minimum_owned: i64) -> (r: Vec<u64>)
        ensures
            r@ == store.entries@.filter(|e: StockEntry| owns_more(e, minimum_owned)).map_values(
                |e: StockEntry| e.id,
            ),
    {
        let mut r: Vec<u64> = Vec::new();
        let mut i: usize = 0;
        while i < store.entries.len()
            invariant
                i <= store.entries@.len(),
                r@ == store.entries@.take(i as int).filter(
                    |e: StockEntry| owns_more(e, minimum_owned),
                ).map_values(|e: StockEntry| e.id),
            decreases store.entries@.len() - i,
        {
            let e = &store.entries[i];
            let keep = minimum_owned < 0 || e.owned > minimum_owned as u64;
            proof {
                reveal(Seq::filter);
                let t = store.entries@.take(i + 1);
                assert(t.drop_last() =~= store.entries@.take(i as int));
                assert(t.last() == *e);
                assert(keep == owns_more(*e, minimum_owned));
            }
            if keep {
                r.push(e.id);
            }
            i = i + 1;
            assert(r@ =~= store.entries@.take(i as int).filter(
                |e: StockEntry| owns_more(e, minimum_owned),
            ).map_values(|e: StockEntry| e.id));
        }
        assert(store.entries@.take(i as int) =~= store.entries@);
        r
    }
}

} // verus!
