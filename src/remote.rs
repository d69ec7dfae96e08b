//! What the engine asks of the remote marketplace after a local change, and
//! how it reads the marketplace's answers.
use vstd::prelude::*;

use crate::model::{RivenAttribute, StockError, TransactionType};

verus! {

/// The remote step that follows a committed local change. The caller
/// performs it against the marketplace.
#[derive(Clone, Debug)]
pub enum RemotePlan {
    /// Nothing to do remotely.
    Nothing,
    /// Close the trader's order for this item in this direction.
    CloseOrder { item_url: String, direction: TransactionType },
    /// Fetch the trader's open sell orders and hand them to
    /// `reconcile_sell_order` with this item and remaining quantity.
    SyncOrder { item_url: String, remaining: u64 },
    /// Delete the trader's auction with this id.
    DeleteAuction { auction_id: String },
}

/// One of the trader's open sell orders on the marketplace.
#[derive(Clone, Debug)]
pub struct Order {
    pub id: String,
    pub item_url: String,
    pub platinum: i64,
    pub quantity: u64,
    pub visible: bool,
}

/// What to do with the trader's sell order once the local quantity is known.
#[derive(Clone, Debug)]
pub enum OrderAction {
    Nothing,
    Delete { order_id: String },
    Update { order_id: String, platinum: i64, quantity: u64, visible: bool },
}

/// How a remote call ended.
#[derive(Clone, Copy, Debug, PartialEq, Eq, Structural)]
pub enum RemoteOutcome {
    Done,
    /// The listing was already gone on the marketplace.
    AlreadyAbsent,
    /// The marketplace could not be reached.
    Unavailable,
}

/// The riven on offer in an auction.
#[derive(Clone, Debug)]
pub struct AuctionItem {
    pub weapon_url: String,
    pub mod_name: String,
    pub mastery_level: i64,
    pub re_rolls: i64,
    pub polarity: String,
    pub mod_rank: i64,
    pub attributes: Vec<RivenAttribute>,
}

/// One of the trader's open auctions on the marketplace.
#[derive(Clone, Debug)]
pub struct Auction {
    pub id: String,
    pub item: AuctionItem,
}

/// `k` is the first order of `orders` for item `url`.
pub open spec fn order_at(orders: Seq<Order>, url: Seq<char>, k: int) -> bool {
    &&& 0 <= k < orders.len()
    &&& orders[k].item_url@ == url
    &&& forall|j: int| 0 <= j < k ==> #[trigger] orders[j].item_url@ != url
}

/// `k` is the first auction of `auctions` with id `id`.
pub open spec fn auction_at(auctions: Seq<Auction>, id: Seq<char>, k: int) -> bool {
    &&& 0 <= k < auctions.len()
    &&& auctions[k].id@ == id
    &&& forall|j: int| 0 <= j < k ==> #[trigger] auctions[j].id@ != id
}

pub open spec fn has_auction(auctions: Seq<Auction>, id: Seq<char>) -> bool {
    exists|k: int| 0 <= k < auctions.len() && auctions[k].id@ == id
}

/// The action for a sell order of item `url` once `remaining` units are
/// owned: none without an order, a delete at zero, else an update of its
/// quantity that keeps its price and visibility.
pub open spec fn order_action_for(orders: Seq<Order>, url: Seq<char>, remaining: u64, r: OrderAction) -> bool {
    if forall|k: int| 0 <= k < orders.len() ==> #[trigger] orders[k].item_url@ != url {
        r is Nothing
    } else {
        exists|k: int|
            order_at(orders, url, k) && (if remaining == 0 {
                r == (OrderAction::Delete { order_id: orders[k].id })
            } else {
                r == (OrderAction::Update {
                    order_id: orders[k].id,
                    platinum: orders[k].platinum,
                    quantity: remaining,
                    visible: orders[k].visible,
                })
            })
    }
}

/// The remote plan that removes an entry's auction, if it has one.
pub open spec fn auction_plan(listing: Option<String>) -> RemotePlan {
    match listing {
        Some(l) => RemotePlan::DeleteAuction { auction_id: l },
        None => RemotePlan::Nothing,
    }
}

pub open spec fn remote_result_spec(outcome: RemoteOutcome) -> Result<(), StockError> {
    match outcome {
        RemoteOutcome::Unavailable => Err(StockError::RemoteUnavailable),
        _ => Ok(()),
    }
}

/// Decides what to do with the trader's sell order for `item_url` given the
/// open orders just fetched and the quantity still owned.
pub fn reconcile_sell_order(orders: &Vec<Order>, item_url: &String, remaining: u64) -> (r: OrderAction)
    ensures
        order_action_for(orders@, item_url@, remaining, r),
{
    let mut i: usize = 0;
    while i < orders.len()
        invariant
            i <= orders@.len(),
            forall|j: int| 0 <= j < i ==> #[trigger] orders@[j].item_url@ != item_url@,
        decreases orders@.len() - i,
    {
        if orders[i].item_url == *item_url {
            let o = &orders[i];
            let r = if remaining == 0 {
                OrderAction::Delete { order_id: o.id.clone() }
            } else {
                OrderAction::Update {
                    order_id: o.id.clone(),
                    platinum: o.platinum,
                    quantity: remaining,
                    visible: o.visible,
                }
            };
            assert(order_at(orders@, item_url@, i as int));
            return r;
        }
        i = i + 1;
    }
    OrderAction::Nothing
}

/// Reads the outcome of a remote call that removes a listing: a listing that
/// was already gone is what was wanted, so only an unreachable marketplace is
/// reported.
pub fn remote_result(outcome: RemoteOutcome) -> (r: Result<(), StockError>)
    ensures
        r == remote_result_spec(outcome),
{
    match outcome {
        RemoteOutcome::Unavailable => Err(StockError::RemoteUnavailable),
        _ => Ok(()),
    }
}

/// Position of the first auction with id `id`.
pub fn find_auction(auctions: &Vec<Auction>, id: &String) -> (r: Option<usize>)
    ensures
        r is None <==> !has_auction(auctions@, id@),
        r matches Some(k) ==> auction_at(auctions@, id@, k as int),
{
    let mut i: usize = 0;
    while i < auctions.len()
        invariant
            i <= auctions@.len(),
            forall|j: int| 0 <= j < i ==> #[trigger] auctions@[j].id@ != id@,
        decreases auctions@.len() - i,
    {
        if auctions[i].id == *id {
            return Some(i);
        }
        i = i + 1;
    }
    None
}

pub fn plan_for_listing(listing: Option<String>) -> (r: RemotePlan)
    ensures
        r == auction_plan(listing),
{
    match listing {
        Some(l) => RemotePlan::DeleteAuction { auction_id: l },
        None => RemotePlan::Nothing,
    }
}

} // verus!
