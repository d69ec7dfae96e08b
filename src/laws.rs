//! Properties that relate the engine's actions to one another and to what
//! the ledger holds afterwards.
use vstd::prelude::*;

use crate::catalog::{attributes_known, ItemCatalog};
use crate::ledger::StockStore;
use crate::model::{
    RivenDetail, StockDetail, StockError, StockStatus, SubType, TransactionType, UIOperationEvent,
};
use crate::remote::{has_auction, remote_result_spec, Auction, RemoteOutcome, RemotePlan};
use crate::stock::{create_item_stock_post, event, sell_post, CreateReport, SaleOutcome};
use crate::stock_riven::{
    create_riven_post, import_post, patch, riven_delete_post, update_bulk_post,
};

verus! {

/// A valid purchase of `quantity` units succeeds; reading the new entry back
/// gives `quantity` units owned and as many acquired, and the log holds
/// exactly one more record: the purchase of those units at `price`.
pub proof fn law_create_then_get(
    s0: StockStore,
    s1: StockStore,
    catalog: ItemCatalog,
    id: String,
    report: bool,
    quantity: u64,
    price: i64,
    sub_type: Option<SubType>,
    r: Result<CreateReport, StockError>,
)
    requires
        s0.wf(),
        quantity > 0,
        catalog.resolves(id@, sub_type),
        s0.has_room(),
        create_item_stock_post(s0, s1, catalog, id, report, quantity, price, sub_type, r),
    ensures
        r matches Ok(rep) && {
            let e = s1.ledger()[rep.entry_id];
            &&& s1.ledger().contains_key(rep.entry_id)
            &&& e.owned == quantity
            &&& e.bought == quantity
            &&& e.sub_type == sub_type
            &&& s1.transactions@.len() == s0.transactions@.len() + 1
            &&& s1.transactions@.last().transaction_type == TransactionType::Purchase
            &&& s1.transactions@.last().wfm_url == id
            &&& s1.transactions@.last().sub_type == sub_type
            &&& s1.transactions@.last().quantity == quantity
            &&& s1.transactions@.last().price == price
        },
{
}

/// A valid riven purchase succeeds; the new entry owns and has acquired
/// exactly one unit, and the log holds exactly one more record: its purchase
/// at `price`.
pub proof fn law_create_riven_then_get(
    s0: StockStore,
    s1: StockStore,
    catalog: ItemCatalog,
    url: String,
    detail: RivenDetail,
    price: i64,
    minimum_price: Option<i64>,
    is_hidden: bool,
    listing: Option<String>,
    r: Result<u64, StockError>,
)
    requires
        s0.wf(),
        catalog.knows_weapon(url@),
        attributes_known(catalog, detail.attributes@),
        s0.has_room(),
        create_riven_post(s0, s1, catalog, url, detail, price, minimum_price, is_hidden, listing, r),
    ensures
        r matches Ok(n) && {
            &&& s1.ledger().contains_key(n)
            &&& s1.ledger()[n].owned == 1
            &&& s1.ledger()[n].bought == 1
            &&& s1.transactions@.len() == s0.transactions@.len() + 1
            &&& s1.transactions@.last().transaction_type == TransactionType::Purchase
            &&& s1.transactions@.last().wfm_url == url
            &&& s1.transactions@.last().quantity == 1
            &&& s1.transactions@.last().price == price
        },
{
}

/// Selling fewer units than an entry owns succeeds and leaves the difference,
/// the entry still live, and one more record in the log: the sale of those
/// units.
pub proof fn law_partial_sell(
    s0: StockStore,
    s1: StockStore,
    id: u64,
    riven: bool,
    quantity: u64,
    price: i64,
    r: Result<SaleOutcome, StockError>,
)
    requires
        s0.wf(),
        s0.ledger().contains_key(id),
        riven == s0.ledger()[id].detail is Riven,
        0 < quantity < s0.ledger()[id].owned,
        s0.next_transaction_id < u64::MAX,
        sell_post(s0, s1, id, riven, quantity, price, r),
    ensures
        r is Ok,
        s1.ledger().contains_key(id),
        s1.ledger()[id].owned == s0.ledger()[id].owned - quantity,
        s1.ledger()[id].status == StockStatus::Live,
        s1.transactions@.len() == s0.transactions@.len() + 1,
        s1.transactions@.last().transaction_type == TransactionType::Sale,
        s1.transactions@.last().quantity == quantity,
        s1.transactions@.last().price == price,
{
    s0.lemma_wf_ledger();
}

/// Selling every unit an entry owns removes it and emits exactly one
/// notification, a `Delete` for it: no `CreateOrUpdate` for it follows.
pub proof fn law_sell_all_deletes(
    s0: StockStore,
    s1: StockStore,
    id: u64,
    riven: bool,
    price: i64,
    r: Result<SaleOutcome, StockError>,
)
    requires
        s0.wf(),
        s0.ledger().contains_key(id),
        riven == s0.ledger()[id].detail is Riven,
        s0.next_transaction_id < u64::MAX,
        sell_post(s0, s1, id, riven, s0.ledger()[id].owned, price, r),
    ensures
        r is Ok,
        !s1.ledger().contains_key(id),
        s1.events@.len() == s0.events@.len() + 1,
        s1.events@.last() == event(UIOperationEvent::Delete, id),
        s1.transactions@.last().transaction_type == TransactionType::Sale,
{
    s0.lemma_wf_ledger();
}

/// Deleting a riven that has an auction always asks for that auction's
/// deletion; when the marketplace answers that it is already gone, the local
/// delete stands and no error is reported.
pub proof fn law_delete_with_listing(
    s0: StockStore,
    s1: StockStore,
    id: u64,
    listing: String,
    r: Result<RemotePlan, StockError>,
)
    requires
        s0.wf(),
        s0.has_riven(id),
        s0.ledger()[id].remote_listing_id == Some(listing),
        riven_delete_post(s0, s1, id, r),
    ensures
        r == Ok::<RemotePlan, StockError>(RemotePlan::DeleteAuction { auction_id: listing }),
        !s1.ledger().contains_key(id),
        remote_result_spec(RemoteOutcome::AlreadyAbsent) == Ok::<(), StockError>(()),
{
}

/// Importing one auction twice: the second import fails with `NotFound`
/// exactly when the auction is no longer among the trader's open auctions;
/// when it succeeds it is a second entry beside the first.
pub proof fn law_import_twice(
    s0: StockStore,
    s1: StockStore,
    s2: StockStore,
    catalog: ItemCatalog,
    first: Seq<Auction>,
    second: Seq<Auction>,
    id: String,
    price1: i64,
    price2: i64,
    r1: Result<u64, StockError>,
    r2: Result<u64, StockError>,
)
    requires
        s0.wf(),
        import_post(s0, s1, catalog, first, id, price1, r1),
        r1 is Ok,
        import_post(s1, s2, catalog, second, id, price2, r2),
    ensures
        r2 == Err::<u64, StockError>(StockError::NotFound) <==> !has_auction(second, id@),
        r2 matches Ok(n2) ==> n2 != r1->Ok_0 && s2.ledger().contains_key(n2)
            && s2.ledger().contains_key(r1->Ok_0),
{
    if r2 is Ok {
        assert(s2.ledger().contains_key(r1->Ok_0) == s1.ledger().insert(
            r2->Ok_0,
            s2.ledger()[r2->Ok_0],
        ).contains_key(r1->Ok_0));
    }
}

/// A bulk update that meets an unknown id after a known one fails, yet the
/// change to the known one stays committed and readable.
pub proof fn law_bulk_update_partial(
    s0: StockStore,
    s1: StockStore,
    ids: Seq<u64>,
    minimum_price: Option<i64>,
    is_hidden: Option<bool>,
    r: Result<u64, StockError>,
)
    requires
        s0.wf(),
        ids.len() >= 2,
        s0.has_riven(ids[0]),
        !s0.has_riven(ids[1]),
        update_bulk_post(s0, s1, ids, minimum_price, is_hidden, r),
    ensures
        r == Err::<u64, StockError>(StockError::NotFound),
        s1.ledger().contains_key(ids[0]),
        s1.ledger()[ids[0]] == patch(
            s0.ledger()[ids[0]],
            minimum_price,
            None,
            is_hidden,
            None,
            s1.ledger()[ids[0]].updated_at,
        ),
{
    assert(!s0.has_riven(ids[1]));
    let k = choose|k: int|
        0 <= k < ids.len() && !s0.has_riven(ids[k]) && (forall|j: int|
            0 <= j < k ==> s0.has_riven(#[trigger] ids[j])) && crate::stock_riven::patched_prefix(
            s0.ledger(),
            s1.ledger(),
            ids,
            k,
            minimum_price,
            is_hidden,
        ) && s1.events@ == s0.events@ + crate::stock_riven::events_for(
            UIOperationEvent::CreateOrUpdate,
            ids.take(k),
        );
    assert(k == 1) by {
        if k == 0 {
        } else if k > 1 {
            assert(s0.has_riven(ids[1]));
        }
    }
    assert(crate::stock_riven::in_prefix(ids, 1, ids[0]));
    assert(s1.ledger().contains_key(ids[0]));
}

/// A riven read back after its creation has the attributes it was created
/// with, in the same order, and the same polarity and re-roll count.
pub proof fn law_riven_round_trip(
    s0: StockStore,
    s1: StockStore,
    catalog: ItemCatalog,
    url: String,
    detail: RivenDetail,
    price: i64,
    minimum_price: Option<i64>,
    is_hidden: bool,
    listing: Option<String>,
    r: Result<u64, StockError>,
)
    requires
        s0.wf(),
        create_riven_post(s0, s1, catalog, url, detail, price, minimum_price, is_hidden, listing, r),
        r is Ok,
    ensures
        s1.ledger().contains_key(r->Ok_0),
        s1.ledger()[r->Ok_0].detail matches StockDetail::Riven(d) && {
            &&& d.attributes@ == detail.attributes@
            &&& d.polarity == detail.polarity
            &&& d.re_rolls == detail.re_rolls
        },
{
}

} // verus!
