//! Buying, importing, updating, selling and deleting rivens.
use vstd::prelude::*;

use crate::catalog::{attributes_known, ItemCatalog, RivenWeapon};
use crate::clock::now_millis;
use crate::ledger::StockStore;
use crate::model::{
    PriceHistoryVec,
    copy_attributes, copy_string, ChangeEvent, MatchRivenStruct, RivenAttribute, RivenDetail,
    StockDetail, StockEntry, StockError, StockStatus, SubType, TransactionItemType,
    TransactionRecord, TransactionType, UIOperationEvent,
};
use crate::remote::{auction_at, auction_plan, find_auction, has_auction, plan_for_listing, Auction, AuctionItem, RemotePlan};
use crate::stock::{delete_entry, delete_post, event, find_kind, is_record, sell_entry, sell_post, SaleOutcome};

verus! {

/// The result of deleting several rivens in turn: how many went, the remote
/// step for each of them in order, and the error that stopped the batch.
#[derive(Clone, Debug)]
pub struct BulkDeleteReport {
    pub deleted: u64,
    pub remote: Vec<RemotePlan>,
    pub error: Option<StockError>,
}

/// `a` and `b` describe the same riven: the same attributes in the same
/// order, polarity, re-rolls and the rest.
pub open spec fn same_riven(a: RivenDetail, b: RivenDetail) -> bool {
    &&& a.mod_name == b.mod_name
    &&& a.polarity == b.polarity
    &&& a.mastery_rank == b.mastery_rank
    &&& a.re_rolls == b.re_rolls
    &&& a.rank == b.rank
    &&& a.attributes@ == b.attributes@
    &&& a.filter == b.filter
}

/// `e` is a freshly bought riven `detail` for weapon `w`.
pub open spec fn is_new_riven(
    e: StockEntry,
    id: u64,
    url: String,
    w: RivenWeapon,
    detail: RivenDetail,
    minimum_price: Option<i64>,
    is_hidden: bool,
    listing: Option<String>,
) -> bool {
    &&& e.id == id
    &&& e.wfm_id == w.wfm_id
    &&& e.wfm_url == url
    &&& e.item_name == w.name
    &&& e.item_unique_name == w.unique_name
    &&& e.sub_type is None
    &&& e.owned == 1
    &&& e.bought == 1
    &&& e.minimum_price == minimum_price
    &&& e.list_price is None
    &&& e.is_hidden == is_hidden
    &&& e.status == StockStatus::Live
    &&& e.price_history.0@.len() == 0
    &&& e.remote_listing_id == listing
    &&& e.detail matches StockDetail::Riven(d) && same_riven(d, detail)
}

/// The contract of creating a riven entry, bought at `price`.
pub open spec fn create_riven_post(
    s0: StockStore,
    s1: StockStore,
    catalog: ItemCatalog,
    url: String,
    detail: RivenDetail,
    price: i64,
    minimum_price: Option<i64>,
    is_hidden: bool,
    listing: Option<String>,
    r: Result<u64, StockError>,
) -> bool {
    let valid = catalog.knows_weapon(url@) && attributes_known(catalog, detail.attributes@);
    &&& s1.wf()
    &&& r is Ok <==> (valid && s0.has_room())
    &&& r matches Err(e) ==> s1 == s0 && e == (if !valid {
        StockError::Validation
    } else {
        StockError::Storage
    })
    &&& r matches Ok(n) ==> {
        &&& n == s0.next_id
        &&& s1.next_id == s0.next_id + 1
        &&& !s0.ledger().contains_key(n)
        &&& s1.ledger() == s0.ledger().insert(n, s1.ledger()[n])
        &&& is_new_riven(
            s1.ledger()[n],
            n,
            url,
            catalog.weapon_of(url@),
            detail,
            minimum_price,
            is_hidden,
            listing,
        )
        &&& s1.transactions@ == s0.transactions@.push(s1.transactions@.last())
        &&& is_record(
            s1.transactions@.last(),
            s0.next_transaction_id,
            url,
            TransactionItemType::Riven,
            TransactionType::Purchase,
            None,
            1,
            price,
        )
        &&& s1.transactions@.last().extra matches Some(x) && same_riven(x, detail)
        &&& s1.events@ == s0.events@.push(event(UIOperationEvent::CreateOrUpdate, n))
    }
}

/// `e` with the given fields replaced, stamped at `at`.
pub open spec fn patch(
    e: StockEntry,
    minimum_price: Option<i64>,
    sub_type: Option<SubType>,
    is_hidden: Option<bool>,
    filter: Option<MatchRivenStruct>,
    at: i64,
) -> StockEntry {
    StockEntry {
        minimum_price: if minimum_price is Some {
            minimum_price
        } else {
            e.minimum_price
        },
        sub_type: if sub_type is Some {
            sub_type
        } else {
            e.sub_type
        },
        is_hidden: match is_hidden {
            Some(h) => h,
            None => e.is_hidden,
        },
        detail: match (filter, e.detail) {
            (Some(f), StockDetail::Riven(d)) => StockDetail::Riven(RivenDetail { filter: Some(f), ..d }),
            _ => e.detail,
        },
        updated_at: at,
        ..e
    }
}

/// The contract of `stock_riven_update`.
pub open spec fn update_post(
    s0: StockStore,
    s1: StockStore,
    id: u64,
    minimum_price: Option<i64>,
    sub_type: Option<SubType>,
    is_hidden: Option<bool>,
    filter: Option<MatchRivenStruct>,
    r: Result<(), StockError>,
) -> bool {
    &&& s1.wf()
    &&& r is Ok <==> s0.has_riven(id)
    &&& r matches Err(e) ==> s1 == s0 && e == StockError::NotFound
    &&& r is Ok ==> {
        &&& s1.ledger() == s0.ledger().insert(
            id,
            patch(s0.ledger()[id], minimum_price, sub_type, is_hidden, filter, s1.ledger()[id].updated_at),
        )
        &&& s1.events@ == s0.events@.push(event(UIOperationEvent::CreateOrUpdate, id))
        &&& s1.transactions == s0.transactions
        &&& s1.next_id == s0.next_id
        &&& s1.next_transaction_id == s0.next_transaction_id
    }
}

/// Some of the first `k` ids is `x`.
pub open spec fn in_prefix(ids: Seq<u64>, k: int, x: u64) -> bool {
    exists|j: int| 0 <= j < k && ids[j] == x
}

pub open spec fn events_for(operation: UIOperationEvent, ids: Seq<u64>) -> Seq<ChangeEvent> {
    ids.map_values(|x: u64| event(operation, x))
}

/// `m1` is `m0` with the first `k` of `ids` given the bulk fields.
pub open spec fn patched_prefix(
    m0: Map<u64, StockEntry>,
    m1: Map<u64, StockEntry>,
    ids: Seq<u64>,
    k: int,
    minimum_price: Option<i64>,
    is_hidden: Option<bool>,
) -> bool {
    &&& m1.dom() == m0.dom()
    &&& forall|x: u64| #[trigger]
        m1.contains_key(x) ==> if in_prefix(ids, k, x) {
            m1[x] == patch(m0[x], minimum_price, None, is_hidden, None, m1[x].updated_at)
        } else {
            m1[x] == m0[x]
        }
}

/// The contract of `stock_riven_update_bulk`.
pub open spec fn update_bulk_post(
    s0: StockStore,
    s1: StockStore,
    ids: Seq<u64>,
    minimum_price: Option<i64>,
    is_hidden: Option<bool>,
    r: Result<u64, StockError>,
) -> bool {
    &&& s1.wf()
    &&& s1.transactions == s0.transactions
    &&& s1.next_id == s0.next_id
    &&& s1.next_transaction_id == s0.next_transaction_id
    &&& r is Ok <==> forall|j: int| 0 <= j < ids.len() ==> s0.has_riven(#[trigger] ids[j])
    &&& r matches Ok(n) ==> {
        &&& n == ids.len()
        &&& patched_prefix(s0.ledger(), s1.ledger(), ids, ids.len() as int, minimum_price, is_hidden)
        &&& s1.events@ == s0.events@ + events_for(UIOperationEvent::CreateOrUpdate, ids)
    }
    &&& r matches Err(e) ==> {
        &&& e == StockError::NotFound
        &&& exists|k: int|
            0 <= k < ids.len() && !s0.has_riven(ids[k]) && (forall|j: int|
                0 <= j < k ==> s0.has_riven(#[trigger] ids[j])) && patched_prefix(
                s0.ledger(),
                s1.ledger(),
                ids,
                k,
                minimum_price,
                is_hidden,
            ) && s1.events@ == s0.events@ + events_for(
                UIOperationEvent::CreateOrUpdate,
                ids.take(k),
            )
    }
}

/// The contract of `stock_riven_delete_bulk`.
pub open spec fn delete_bulk_post(s0: StockStore, s1: StockStore, ids: Seq<u64>, r: BulkDeleteReport) -> bool {
    let k = r.deleted as int;
    &&& s1.wf()
    &&& k <= ids.len()
    &&& forall|j: int| 0 <= j < k ==> s0.has_riven(#[trigger] ids[j])
    &&& forall|j: int| 0 <= j < k ==> !in_prefix(ids, j, #[trigger] ids[j])
    &&& forall|x: u64| #[trigger]
        s1.ledger().contains_key(x) == (s0.ledger().contains_key(x) && !in_prefix(ids, k, x))
    &&& forall|x: u64| #[trigger] s1.ledger().contains_key(x) ==> s1.ledger()[x] == s0.ledger()[x]
    &&& r.remote@.len() == k
    &&& forall|j: int|
        0 <= j < k ==> #[trigger] r.remote@[j] == auction_plan(s0.ledger()[ids[j]].remote_listing_id)
    &&& s1.events@ == s0.events@ + events_for(UIOperationEvent::Delete, ids.take(k))
    &&& s1.transactions == s0.transactions
    &&& s1.next_id == s0.next_id
    &&& s1.next_transaction_id == s0.next_transaction_id
    &&& r.error is None <==> k == ids.len()
    &&& r.error matches Some(e) ==> e == StockError::NotFound && !(s0.has_riven(ids[k]) && !in_prefix(
        ids,
        k,
        ids[k],
    ))
}

/// The contract of `stock_riven_delete`: the riven goes, and its auction,
/// if it has one, is to be deleted on the marketplace.
pub open spec fn riven_delete_post(s0: StockStore, s1: StockStore, id: u64, r: Result<RemotePlan, StockError>) -> bool {
    &&& delete_post(
        s0,
        s1,
        id,
        true,
        match r {
            Ok(_) => Ok(s0.ledger()[id]),
            Err(e) => Err(e),
        },
    )
    &&& r matches Ok(plan) ==> plan == auction_plan(s0.ledger()[id].remote_listing_id)
}

/// The riven that an auction offers.
pub open spec fn auction_detail(item: AuctionItem) -> RivenDetail {
    RivenDetail {
        mod_name: item.mod_name,
        polarity: item.polarity,
        mastery_rank: item.mastery_level,
        re_rolls: item.re_rolls,
        rank: item.mod_rank,
        attributes: item.attributes,
        filter: None,
    }
}

/// The contract of `import_auction`.
pub open spec fn import_post(
    s0: StockStore,
    s1: StockStore,
    catalog: ItemCatalog,
    auctions: Seq<Auction>,
    id: String,
    price: i64,
    r: Result<u64, StockError>,
) -> bool {
    &&& !has_auction(auctions, id@) ==> s1 == s0 && r == Err::<u64, StockError>(StockError::NotFound)
    &&& has_auction(auctions, id@) ==> exists|k: int|
        auction_at(auctions, id@, k) && #[trigger] create_riven_post(
            s0,
            s1,
            catalog,
            auctions[k].item.weapon_url,
            auction_detail(auctions[k].item),
            price,
            None,
            false,
            Some(id),
            r,
        )
}

/// The sale outcome of a whole riven, as `sell_post` states it.
pub open spec fn riven_sale(s0: StockStore, id: u64, r: Result<RemotePlan, StockError>) -> Result<
    SaleOutcome,
    StockError,
> {
    match r {
        Ok(_) => Ok(
            SaleOutcome {
                remaining: 0,
                item_url: s0.ledger()[id].wfm_url,
                listing: s0.ledger()[id].remote_listing_id,
            },
        ),
        Err(e) => Err(e),
    }
}

/// Creates a riven entry after validating its weapon and attributes.
fn create_riven(
    store: &mut StockStore,
    catalog: &ItemCatalog,
    url: String,
    detail: RivenDetail,
    price: i64,
    minimum_price: Option<i64>,
    is_hidden: bool,
    listing: Option<String>,
) -> (r: Result<u64, StockError>)
    requires
        old(store).wf(),
    ensures
        create_riven_post(
            *old(store),
            *final(store),
            *catalog,
            url,
            detail,
            price,
            minimum_price,
            is_hidden,
            listing,
            r,
        ),
{
    let weapon = match catalog.find_weapon(&url) {
        Some(w) => w,
        None => return Err(StockError::Validation),
    };
    if !catalog.validate_attributes(&detail.attributes) {
        return Err(StockError::Validation);
    }
    if store.next_id == u64::MAX || store.next_transaction_id == u64::MAX {
        return Err(StockError::Storage);
    }
    let ghost s0 = *store;
    proof {
        s0.lemma_wf_ledger();
    }
    let snapshot = detail.copy();
    let entry = StockEntry {
        id: 0,
        wfm_id: copy_string(&weapon.wfm_id),
        wfm_url: copy_string(&url),
        item_name: copy_string(&weapon.name),
        item_unique_name: copy_string(&weapon.unique_name),
        sub_type: None,
        owned: 1,
        bought: 1,
        minimum_price,
        list_price: None,
        is_hidden,
        status: StockStatus::Live,
        price_history: PriceHistoryVec(Vec::new()),
        remote_listing_id: listing,
        detail: StockDetail::Riven(detail),
        updated_at: now_millis(),
    };
    let n = store.insert(entry);
    store.emit(UIOperationEvent::CreateOrUpdate, n);
    let record = TransactionRecord {
        id: 0,
        wfm_url: url,
        item_type: TransactionItemType::Riven,
        transaction_type: TransactionType::Purchase,
        sub_type: None,
        quantity: 1,
        price,
        extra: Some(snapshot),
        created_at: now_millis(),
    };
    store.append_transaction(record);
    Ok(n)
}

/// Records a riven bought for `bought`, after checking its weapon and each
/// of its attributes against the catalog. A riven is hidden unless told
/// otherwise.
pub fn stock_riven_create(
    store: &mut StockStore,
    catalog: &ItemCatalog,
    wfm_url: String,
    bought: i64,
    mod_name: String,
    mastery_rank: i64,
    re_rolls: i64,
    polarity: String,
    rank: i64,
    attributes: Vec<RivenAttribute>,
    minimum_price: Option<i64>,
    is_hidden: Option<bool>,
) -> (r: Result<u64, StockError>)
    requires
        old(store).wf(),
    ensures
        create_riven_post(
            *old(store),
            *final(store),
            *catalog,
            wfm_url,
            RivenDetail { mod_name, polarity, mastery_rank, re_rolls, rank, attributes, filter: None },
            bought,
            minimum_price,
            match is_hidden {
                Some(h) => h,
                None => true,
            },
            None,
            r,
        ),
{
    let hidden = match is_hidden {
        Some(h) => h,
        None => true,
    };
    let detail = RivenDetail { mod_name, polarity, mastery_rank, re_rolls, rank, attributes, filter: None };
    create_riven(store, catalog, wfm_url, detail, bought, minimum_price, hidden, None)
}

/// Records a riven bought at `price`, with no minimum price, hidden.
pub fn create_riven_stock(
    store: &mut StockStore,
    catalog: &ItemCatalog,
    id: String,
    price: i64,
    rank: i64,
    attributes: Vec<RivenAttribute>,
    mastery_rank: i64,
    re_rolls: i64,
    polarity: String,
    mod_name: String,
) -> (r: Result<u64, StockError>)
    requires
        old(store).wf(),
    ensures
        create_riven_post(
            *old(store),
            *final(store),
            *catalog,
            id,
            RivenDetail { mod_name, polarity, mastery_rank, re_rolls, rank, attributes, filter: None },
            price,
            None,
            true,
            None,
            r,
        ),
{
    stock_riven_create(
        store,
        catalog,
        id,
        price,
        mod_name,
        mastery_rank,
        re_rolls,
        polarity,
        rank,
        attributes,
        None,
        None,
    )
}

/// Records the riven of the trader's open auction `id`, bought at `price`.
/// `auctions` are the trader's auctions as just fetched from the marketplace;
/// the new entry keeps the auction as its listing.
pub fn import_auction(
    store: &mut StockStore,
    catalog: &ItemCatalog,
    auctions: &Vec<Auction>,
    id: String,
    price: i64,
) -> (r: Result<u64, StockError>)
    requires
        old(store).wf(),
    ensures
        import_post(*old(store), *final(store), *catalog, auctions@, id, price, r),
{
    let k = match find_auction(auctions, &id) {
        Some(k) => k,
        None => return Err(StockError::NotFound),
    };
    let item = &auctions[k].item;
    let detail = RivenDetail {
        mod_name: copy_string(&item.mod_name),
        polarity: copy_string(&item.polarity),
        mastery_rank: item.mastery_level,
        re_rolls: item.re_rolls,
        rank: item.mod_rank,
        attributes: copy_attributes(&item.attributes),
        filter: None,
    };
    let r = create_riven(store, catalog, copy_string(&item.weapon_url), detail, price, None, false, Some(id));
    assert(auction_at(auctions@, id@, k as int));
    assert(create_riven_post(
        *old(store),
        *store,
        *catalog,
        auctions@[k as int].item.weapon_url,
        auction_detail(auctions@[k as int].item),
        price,
        None,
        false,
        Some(id),
        r,
    ));
    r
}

/// Changes the given fields of riven `id`; absent ones are kept.
pub fn stock_riven_update(
    store: &mut StockStore,
    id: u64,
    minimum_price: Option<i64>,
    sub_type: Option<SubType>,
    is_hidden: Option<bool>,
    filter: Option<MatchRivenStruct>,
) -> (r: Result<(), StockError>)
    requires
        old(store).wf(),
    ensures
        update_post(*old(store), *final(store), id, minimum_price, sub_type, is_hidden, filter, r),
{
    let k = match find_kind(store, id, true) {
        Some(k) => k,
        None => return Err(StockError::NotFound),
    };
    let ghost s0 = *store;
    proof {
        s0.lemma_wf_ledger();
    }
    let mut e = store.remove_at(k);
    let ghost e0 = e;
    if let Some(m) = minimum_price {
        e.minimum_price = Some(m);
    }
    if let Some(st) = sub_type {
        e.sub_type = Some(st);
    }
    if let Some(h) = is_hidden {
        e.is_hidden = h;
    }
    if let Some(f) = filter {
        e.detail = match e.detail {
            StockDetail::Riven(d) => StockDetail::Riven(RivenDetail { filter: Some(f), ..d }),
            StockDetail::Plain => StockDetail::Plain,
        };
    }
    e.updated_at = now_millis();
    assert(e == patch(e0, minimum_price, sub_type, is_hidden, filter, e.updated_at));
    store.restore(e);
    assert(store.ledger() =~= s0.ledger().insert(id, e));
    store.emit(UIOperationEvent::CreateOrUpdate, id);
    Ok(())
}

/// Gives each riven of `ids`, in turn, the minimum price and visibility
/// given. The first id that names no riven stops the batch with `NotFound`;
/// the rivens before it keep their change.
pub fn stock_riven_update_bulk(
    store: &mut StockStore,
    ids: &Vec<u64>,
    minimum_price: Option<i64>,
    is_hidden: Option<bool>,
) -> (r: Result<u64, StockError>)
    requires
        old(store).wf(),
    ensures
        update_bulk_post(*old(store), *final(store), ids@, minimum_price, is_hidden, r),
{
    let ghost s0 = *store;
    let mut i: usize = 0;
    while i < ids.len()
        invariant
            s0 == *old(store),
            store.wf(),
            i <= ids@.len(),
            store.transactions == s0.transactions,
            store.next_id == s0.next_id,
            store.next_transaction_id == s0.next_transaction_id,
            forall|j: int| 0 <= j < i ==> s0.has_riven(#[trigger] ids@[j]),
            patched_prefix(s0.ledger(), store.ledger(), ids@, i as int, minimum_price, is_hidden),
            store.events@ == s0.events@ + events_for(
                UIOperationEvent::CreateOrUpdate,
                ids@.take(i as int),
            ),
        decreases ids@.len() - i,
    {
        let id = ids[i];
        let ghost cur = *store;
        assert(cur.has_riven(id) == s0.has_riven(id));
        match stock_riven_update(store, id, minimum_price, None, is_hidden, None) {
            Ok(()) => {},
            Err(e) => {
                assert(!s0.has_riven(ids@[i as int]));
                assert(0 <= i < ids@.len() && !s0.has_riven(ids@[i as int]) && (forall|j: int|
                    0 <= j < i ==> s0.has_riven(#[trigger] ids@[j])) && patched_prefix(
                    s0.ledger(),
                    store.ledger(),
                    ids@,
                    i as int,
                    minimum_price,
                    is_hidden,
                ) && store.events@ == s0.events@ + events_for(
                    UIOperationEvent::CreateOrUpdate,
                    ids@.take(i as int),
                ));
                return Err(e);
            },
        }
        proof {
            assert forall|x: u64| #[trigger] store.ledger().contains_key(x) implies if in_prefix(
                ids@,
                i + 1,
                x,
            ) {
                store.ledger()[x] == patch(
                    s0.ledger()[x],
                    minimum_price,
                    None,
                    is_hidden,
                    None,
                    store.ledger()[x].updated_at,
                )
            } else {
                store.ledger()[x] == s0.ledger()[x]
            } by {
                assert(cur.ledger().contains_key(x));
                if x != id {
                    if in_prefix(ids@, i + 1, x) {
                        let j = choose|j: int| 0 <= j < i + 1 && ids@[j] == x;
                        assert(in_prefix(ids@, i as int, x));
                    } else {
                        assert(!in_prefix(ids@, i as int, x)) by {
                            if in_prefix(ids@, i as int, x) {
                                let j = choose|j: int| 0 <= j < i && ids@[j] == x;
                                assert(0 <= j < i + 1 && ids@[j] == x);
                            }
                        }
                    }
                } else {
                    assert(in_prefix(ids@, i + 1, x)) by {
                        assert(ids@[i as int] == x);
                    }
                }
            }
            assert(store.ledger().dom() =~= s0.ledger().dom());
            assert(ids@.take(i + 1) =~= ids@.take(i as int).push(id));
            assert(events_for(UIOperationEvent::CreateOrUpdate, ids@.take(i + 1)) =~= events_for(
                UIOperationEvent::CreateOrUpdate,
                ids@.take(i as int),
            ).push(event(UIOperationEvent::CreateOrUpdate, id)));
        }
        i = i + 1;
        assert(store.events@ =~= s0.events@ + events_for(
            UIOperationEvent::CreateOrUpdate,
            ids@.take(i as int),
        ));
    }
    assert(ids@.take(ids@.len() as int) =~= ids@);
    Ok(i as u64)
}

/// Deletes riven `id`. Its auction, if it has one, is then to be deleted on
/// the marketplace.
pub fn stock_riven_delete(store: &mut StockStore, id: u64) -> (r: Result<RemotePlan, StockError>)
    requires
        old(store).wf(),
    ensures
        riven_delete_post(*old(store), *final(store), id, r),
{
    match delete_entry(store, id, true) {
        Ok(e) => Ok(plan_for_listing(e.remote_listing_id)),
        Err(err) => Err(err),
    }
}

/// Deletes riven `id`, as `stock_riven_delete` does.
pub fn delete_riven_stock(store: &mut StockStore, id: u64) -> (r: Result<RemotePlan, StockError>)
    requires
        old(store).wf(),
    ensures
        riven_delete_post(*old(store), *final(store), id, r),
{
    stock_riven_delete(store, id)
}

/// Deletes the rivens of `ids` in turn, stopping at the first id that names
/// no riven (an id met twice included).
pub fn stock_riven_delete_bulk(store: &mut StockStore, ids: &Vec<u64>) -> (r: BulkDeleteReport)
    requires
        old(store).wf(),
    ensures
        delete_bulk_post(*old(store), *final(store), ids@, r),
{
    let ghost s0 = *store;
    let mut remote: Vec<RemotePlan> = Vec::new();
    let mut i: usize = 0;
    while i < ids.len()
        invariant
            s0 == *old(store),
            store.wf(),
            i <= ids@.len(),
            remote@.len() == i,
            store.transactions == s0.transactions,
            store.next_id == s0.next_id,
            store.next_transaction_id == s0.next_transaction_id,
            forall|j: int| 0 <= j < i ==> s0.has_riven(#[trigger] ids@[j]),
            forall|j: int| 0 <= j < i ==> !in_prefix(ids@, j, #[trigger] ids@[j]),
            forall|x: u64| #[trigger]
                store.ledger().contains_key(x) == (s0.ledger().contains_key(x) && !in_prefix(
                    ids@,
                    i as int,
                    x,
                )),
            forall|x: u64| #[trigger]
                store.ledger().contains_key(x) ==> store.ledger()[x] == s0.ledger()[x],
            forall|j: int|
                0 <= j < i ==> #[trigger] remote@[j] == auction_plan(
                    s0.ledger()[ids@[j]].remote_listing_id,
                ),
            store.events@ == s0.events@ + events_for(UIOperationEvent::Delete, ids@.take(i as int)),
        decreases ids@.len() - i,
    {
        let id = ids[i];
        let ghost cur = *store;
        match stock_riven_delete(store, id) {
            Ok(plan) => {
                remote.push(plan);
            },
            Err(e) => {
                assert(cur.ledger().contains_key(id) ==> cur.ledger()[id] == s0.ledger()[id]);
                assert(!(s0.has_riven(id) && !in_prefix(ids@, i as int, id)));
                return BulkDeleteReport { deleted: i as u64, remote, error: Some(e) };
            },
        }
        proof {
            assert(cur.has_riven(id));
            assert(!in_prefix(ids@, i as int, id));
            assert forall|x: u64| #[trigger]
                store.ledger().contains_key(x) == (s0.ledger().contains_key(x) && !in_prefix(
                    ids@,
                    i + 1,
                    x,
                )) by {
                if in_prefix(ids@, i + 1, x) && x != id {
                    let j = choose|j: int| 0 <= j < i + 1 && ids@[j] == x;
                    assert(in_prefix(ids@, i as int, x));
                }
                if in_prefix(ids@, i as int, x) {
                    let j = choose|j: int| 0 <= j < i && ids@[j] == x;
                    assert(0 <= j < i + 1 && ids@[j] == x);
                }
                if x == id {
                    assert(ids@[i as int] == x);
                }
            }
            assert(ids@.take(i + 1) =~= ids@.take(i as int).push(id));
            assert(events_for(UIOperationEvent::Delete, ids@.take(i + 1)) =~= events_for(
                UIOperationEvent::Delete,
                ids@.take(i as int),
            ).push(event(UIOperationEvent::Delete, id)));
        }
        i = i + 1;
        assert(store.events@ =~= s0.events@ + events_for(UIOperationEvent::Delete, ids@.take(i as int)));
    }
    BulkDeleteReport { deleted: i as u64, remote, error: None }
}

/// Sells riven `id` at `price`: the entry goes, a sale is logged, and its
/// auction, if it has one, is then to be deleted on the marketplace.
pub fn stock_riven_sell(store: &mut StockStore, id: u64, price: i64) -> (r: Result<RemotePlan, StockError>)
    requires
        old(store).wf(),
    ensures
        sell_post(*old(store), *final(store), id, true, 1, price, riven_sale(*old(store), id, r)),
        r matches Ok(plan) ==> plan == auction_plan(old(store).ledger()[id].remote_listing_id),
{
    sell_riven_stock(store, id, true, 1, price)
}

/// Sells `quantity` units of riven `id` at `price`. A riven is a single
/// unit, so any other quantity than one is refused; the auction of the riven
/// is then to be deleted, `report` or not.
pub fn sell_riven_stock(store: &mut StockStore, id: u64, report: bool, quantity: u64, price: i64) -> (r:
    Result<RemotePlan, StockError>)
    requires
        old(store).wf(),
    ensures
        sell_post(*old(store), *final(store), id, true, quantity, price, riven_sale(*old(store), id, r)),
        r matches Ok(plan) ==> plan == auction_plan(old(store).ledger()[id].remote_listing_id),
{
    proof {
        old(store).lemma_wf_ledger();
    }
    match sell_entry(store, id, true, quantity, price) {
        Ok(out) => Ok(plan_for_listing(out.listing)),
        Err(e) => Err(e),
    }
}

} // verus!
