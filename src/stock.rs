//! Buying, selling and deleting plain items, and the sell and delete steps
//! shared with rivens.
use vstd::prelude::*;

use crate::catalog::{CatalogItem, ItemCatalog};
use crate::clock::now_millis;
use crate::ledger::StockStore;
use crate::model::{
    PriceHistoryVec,
    copy_opt_sub_type, copy_string, ChangeEvent, StockDetail, StockEntry, StockError, StockStatus,
    SubType, TransactionItemType, TransactionRecord, TransactionType, UIOperationEvent,
};
use crate::remote::RemotePlan;

verus! {

/// The result of buying a plain item.
#[derive(Clone, Debug)]
pub struct CreateReport {
    pub entry_id: u64,
    pub remote: RemotePlan,
}

/// The result of selling a plain item.
#[derive(Clone, Debug)]
pub struct SellReport {
    pub remaining: u64,
    pub remote: RemotePlan,
}

/// What a sale left behind: the units still owned, and the entry's item and
/// listing, for the remote step.
pub struct SaleOutcome {
    pub remaining: u64,
    pub item_url: String,
    pub listing: Option<String>,
}

pub open spec fn event(operation: UIOperationEvent, entry_id: u64) -> ChangeEvent {
    ChangeEvent { operation, entry_id }
}

/// `t` records a trade of `quantity` units of `url` at `price` each, under id `id`.
pub open spec fn is_record(
    t: TransactionRecord,
    id: u64,
    url: String,
    item_type: TransactionItemType,
    transaction_type: TransactionType,
    sub_type: Option<SubType>,
    quantity: u64,
    price: i64,
) -> bool {
    &&& t.id == id
    &&& t.wfm_url == url
    &&& t.item_type == item_type
    &&& t.transaction_type == transaction_type
    &&& t.sub_type == sub_type
    &&& t.quantity == quantity
    &&& t.price == price
}

/// `e` is a freshly bought plain entry of `quantity` units of `item`.
pub open spec fn is_new_plain(
    e: StockEntry,
    id: u64,
    url: String,
    item: CatalogItem,
    sub_type: Option<SubType>,
    quantity: u64,
) -> bool {
    &&& e.id == id
    &&& e.wfm_id == item.wfm_id
    &&& e.wfm_url == url
    &&& e.item_name == item.name
    &&& e.item_unique_name == item.unique_name
    &&& e.sub_type == sub_type
    &&& e.owned == quantity
    &&& e.bought == quantity
    &&& e.minimum_price is None
    &&& e.list_price is None
    &&& !e.is_hidden
    &&& e.status == StockStatus::Live
    &&& e.price_history.0@.len() == 0
    &&& e.remote_listing_id is None
    &&& e.detail is Plain
}

/// The contract of `create_item_stock`.
pub open spec fn create_item_stock_post(
    s0: StockStore,
    s1: StockStore,
    catalog: ItemCatalog,
    id: String,
    report: bool,
    quantity: u64,
    price: i64,
    sub_type: Option<SubType>,
    r: Result<CreateReport, StockError>,
) -> bool {
    &&& s1.wf()
    &&& r is Ok <==> (quantity > 0 && catalog.resolves(id@, sub_type) && s0.has_room())
    &&& r matches Err(e) ==> s1 == s0 && e == (if quantity == 0 || !catalog.resolves(
        id@,
        sub_type,
    ) {
        StockError::Validation
    } else {
        StockError::Storage
    })
    &&& r matches Ok(rep) ==> {
        let n = rep.entry_id;
        &&& n == s0.next_id
        &&& s1.next_id == s0.next_id + 1
        &&& !s0.ledger().contains_key(n)
        &&& s1.ledger() == s0.ledger().insert(n, s1.ledger()[n])
        &&& is_new_plain(s1.ledger()[n], n, id, catalog.item_of(id@), sub_type, quantity)
        &&& s1.transactions@.len() == s0.transactions@.len() + 1
        &&& s1.transactions@ == s0.transactions@.push(s1.transactions@.last())
        &&& is_record(
            s1.transactions@.last(),
            s0.next_transaction_id,
            id,
            TransactionItemType::Item,
            TransactionType::Purchase,
            sub_type,
            quantity,
            price,
        )
        &&& s1.transactions@.last().extra is None
        &&& s1.events@ == s0.events@.push(event(UIOperationEvent::CreateOrUpdate, n))
        &&& rep.remote == (if report {
            RemotePlan::CloseOrder { item_url: id, direction: TransactionType::Purchase }
        } else {
            RemotePlan::Nothing
        })
    }
}

/// `id` names an entry of the asked kind.
pub open spec fn holds(s: StockStore, id: u64, riven: bool) -> bool {
    if riven {
        s.has_riven(id)
    } else {
        s.has_plain(id)
    }
}

/// The contract of the sale step shared by items and rivens.
pub open spec fn sell_post(
    s0: StockStore,
    s1: StockStore,
    id: u64,
    riven: bool,
    quantity: u64,
    price: i64,
    r: Result<SaleOutcome, StockError>,
) -> bool {
    let e0 = s0.ledger()[id];
    &&& s1.wf()
    &&& r is Ok <==> (holds(s0, id, riven) && 0 < quantity <= e0.owned
        && s0.next_transaction_id < u64::MAX)
    &&& r matches Err(e) ==> s1 == s0 && e == (if !holds(s0, id, riven) {
        StockError::NotFound
    } else if quantity == 0 {
        StockError::Validation
    } else if quantity > e0.owned {
        StockError::InsufficientQuantity
    } else {
        StockError::Storage
    })
    &&& r matches Ok(out) ==> {
        &&& out.remaining == e0.owned - quantity
        &&& out.item_url == e0.wfm_url
        &&& out.listing == e0.remote_listing_id
        &&& s1.next_id == s0.next_id
        &&& if out.remaining == 0 {
            &&& s1.ledger() == s0.ledger().remove(id)
            &&& s1.events@ == s0.events@.push(event(UIOperationEvent::Delete, id))
        } else {
            &&& s1.ledger() == s0.ledger().insert(
                id,
                StockEntry { owned: out.remaining, updated_at: s1.ledger()[id].updated_at, ..e0 },
            )
            &&& s1.events@ == s0.events@.push(event(UIOperationEvent::CreateOrUpdate, id))
        }
        &&& s1.transactions@ == s0.transactions@.push(s1.transactions@.last())
        &&& is_record(
            s1.transactions@.last(),
            s0.next_transaction_id,
            e0.wfm_url,
            if riven {
                TransactionItemType::Riven
            } else {
                TransactionItemType::Item
            },
            TransactionType::Sale,
            e0.sub_type,
            quantity,
            price,
        )
        &&& s1.transactions@.last().extra is None
    }
}

/// The contract of the delete step shared by items and rivens.
pub open spec fn delete_post(
    s0: StockStore,
    s1: StockStore,
    id: u64,
    riven: bool,
    r: Result<StockEntry, StockError>,
) -> bool {
    &&& s1.wf()
    &&& r is Ok <==> holds(s0, id, riven)
    &&& r matches Err(e) ==> s1 == s0 && e == StockError::NotFound
    &&& r matches Ok(e) ==> {
        &&& e == s0.ledger()[id]
        &&& s1.ledger() == s0.ledger().remove(id)
        &&& s1.events@ == s0.events@.push(event(UIOperationEvent::Delete, id))
        &&& s1.transactions == s0.transactions
        &&& s1.next_id == s0.next_id
        &&& s1.next_transaction_id == s0.next_transaction_id
    }
}

/// Position of entry `id` if it is of the asked kind.
pub(crate) fn find_kind(store: &StockStore, id: u64, riven: bool) -> (r: Option<usize>)
    requires
        store.wf(),
    ensures
        r is Some <==> holds(*store, id, riven),
        r matches Some(k) ==> k < store.entries@.len() && store.entries@[k as int]
            == store.ledger()[id] && store.entries@[k as int].id == id,
{
    match store.find_index(id) {
        Some(k) => {
            let is_riven = match &store.entries[k].detail {
                StockDetail::Riven(_) => true,
                StockDetail::Plain => false,
            };
            if is_riven == riven {
                Some(k)
            } else {
                None
            }
        },
        None => None,
    }
}

/// Sells `quantity` units of entry `id`: the entry loses them, and is removed
/// once none are left; a sale is logged either way.
pub(crate) fn sell_entry(store: &mut StockStore, id: u64, riven: bool, quantity: u64, price: i64) -> (r:
    Result<SaleOutcome, StockError>)
    requires
        old(store).wf(),
    ensures
        sell_post(*old(store), *final(store), id, riven, quantity, price, r),
{
    let k = match find_kind(store, id, riven) {
        Some(k) => k,
        None => return Err(StockError::NotFound),
    };
    if quantity == 0 {
        return Err(StockError::Validation);
    }
    if quantity > store.entries[k].owned {
        return Err(StockError::InsufficientQuantity);
    }
    if store.next_transaction_id == u64::MAX {
        return Err(StockError::Storage);
    }
    let ghost s0 = *store;
    let mut e = store.remove_at(k);
    assert(e == s0.ledger()[id]);
    let remaining = e.owned - quantity;
    let item_url = copy_string(&e.wfm_url);
    let record = TransactionRecord {
        id: 0,
        wfm_url: copy_string(&e.wfm_url),
        item_type: if riven {
            TransactionItemType::Riven
        } else {
            TransactionItemType::Item
        },
        transaction_type: TransactionType::Sale,
        sub_type: copy_opt_sub_type(&e.sub_type),
        quantity,
        price,
        extra: None,
        created_at: now_millis(),
    };
    let listing = if remaining == 0 {
        let listing = e.remote_listing_id;
        store.emit(UIOperationEvent::Delete, id);
        listing
    } else {
        let ghost e0 = e;
        e.owned = remaining;
        e.updated_at = now_millis();
        assert(e == StockEntry { owned: remaining, updated_at: e.updated_at, ..e0 });
        let listing = match &e.remote_listing_id {
            Some(l) => Some(copy_string(l)),
            None => None,
        };
        proof {
            s0.lemma_wf_ledger();
        }
        store.restore(e);
        assert(store.ledger() =~= s0.ledger().insert(id, e));
        store.emit(UIOperationEvent::CreateOrUpdate, id);
        listing
    };
    store.append_transaction(record);
    Ok(SaleOutcome { remaining, item_url, listing })
}

/// Removes entry `id` and returns it.
pub(crate) fn delete_entry(store: &mut StockStore, id: u64, riven: bool) -> (r: Result<StockEntry, StockError>)
    requires
        old(store).wf(),
    ensures
        delete_post(*old(store), *final(store), id, riven, r),
{
    let k = match find_kind(store, id, riven) {
        Some(k) => k,
        None => return Err(StockError::NotFound),
    };
    let e = store.remove_at(k);
    store.emit(UIOperationEvent::Delete, id);
    Ok(e)
}

/// Buys `quantity` units of catalog item `id` at `price` each: a new live
/// entry and a purchase record. With `report`, the trader's buy order for the
/// item is to be closed on the marketplace.
pub fn create_item_stock(
    store: &mut StockStore,
    catalog: &ItemCatalog,
    id: String,
    report: bool,
    quantity: u64,
    price: i64,
    sub_type: Option<SubType>,
) -> (r: Result<CreateReport, StockError>)
    requires
        old(store).wf(),
    ensures
        create_item_stock_post(*old(store), *final(store), *catalog, id, report, quantity, price, sub_type, r),
{
    if quantity == 0 {
        return Err(StockError::Validation);
    }
    let item = match catalog.resolve(&id, &sub_type) {
        Some(item) => item,
        None => return Err(StockError::Validation),
    };
    if store.next_id == u64::MAX || store.next_transaction_id == u64::MAX {
        return Err(StockError::Storage);
    }
    let ghost s0 = *store;
    proof {
        s0.lemma_wf_ledger();
    }
    let entry = StockEntry {
        id: 0,
        wfm_id: copy_string(&item.wfm_id),
        wfm_url: copy_string(&id),
        item_name: copy_string(&item.name),
        item_unique_name: copy_string(&item.unique_name),
        sub_type: copy_opt_sub_type(&sub_type),
        owned: quantity,
        bought: quantity,
        minimum_price: None,
        list_price: None,
        is_hidden: false,
        status: StockStatus::Live,
        price_history: PriceHistoryVec(Vec::new()),
        remote_listing_id: None,
        detail: StockDetail::Plain,
        updated_at: now_millis(),
    };
    let n = store.insert(entry);
    let record = TransactionRecord {
        id: 0,
        wfm_url: copy_string(&id),
        item_type: TransactionItemType::Item,
        transaction_type: TransactionType::Purchase,
        sub_type,
        quantity,
        price,
        extra: None,
        created_at: now_millis(),
    };
    store.append_transaction(record);
    store.emit(UIOperationEvent::CreateOrUpdate, n);
    let remote = if report {
        RemotePlan::CloseOrder { item_url: id, direction: TransactionType::Purchase }
    } else {
        RemotePlan::Nothing
    };
    Ok(CreateReport { entry_id: n, remote })
}

/// Sells `quantity` units of plain entry `id` at `price` each. With `report`,
/// the trader's sell order for the item is to be closed; otherwise it is to be
/// brought in line with the units left.
pub fn sell_item_stock(store: &mut StockStore, id: u64, report: bool, quantity: u64, price: i64) -> (r:
    Result<SellReport, StockError>)
    requires
        old(store).wf(),
    ensures
        sell_post(
            *old(store),
            *final(store),
            id,
            false,
            quantity,
            price,
            match r {
                Ok(rep) => Ok(
                    SaleOutcome {
                        remaining: rep.remaining,
                        item_url: old(store).ledger()[id].wfm_url,
                        listing: old(store).ledger()[id].remote_listing_id,
                    },
                ),
                Err(e) => Err(e),
            },
        ),
        r matches Ok(rep) ==> rep.remote == (if report {
            RemotePlan::CloseOrder {
                item_url: old(store).ledger()[id].wfm_url,
                direction: TransactionType::Sale,
            }
        } else {
            RemotePlan::SyncOrder {
                item_url: old(store).ledger()[id].wfm_url,
                remaining: rep.remaining,
            }
        }),
{
    match sell_entry(store, id, false, quantity, price) {
        Ok(out) => {
            let remote = if report {
                RemotePlan::CloseOrder { item_url: out.item_url, direction: TransactionType::Sale }
            } else {
                RemotePlan::SyncOrder { item_url: out.item_url, remaining: out.remaining }
            };
            Ok(SellReport { remaining: out.remaining, remote })
        },
        Err(e) => Err(e),
    }
}

/// Deletes plain entry `id`. The trader's sell order for the item, if any, is
/// then to be removed from the marketplace.
pub fn delete_item_stock(store: &mut StockStore, id: u64) -> (r: Result<RemotePlan, StockError>)
    requires
        old(store).wf(),
    ensures
        delete_post(
            *old(store),
            *final(store),
            id,
            false,
            match r {
                Ok(_) => Ok(old(store).ledger()[id]),
                Err(e) => Err(e),
            },
        ),
        r matches Ok(plan) ==> plan == (RemotePlan::SyncOrder {
            item_url: old(store).ledger()[id].wfm_url,
            remaining: 0,
        }),
{
    match delete_entry(store, id, false) {
        Ok(e) => Ok(RemotePlan::SyncOrder { item_url: e.wfm_url, remaining: 0 }),
        Err(err) => Err(err),
    }
}

} // verus!
