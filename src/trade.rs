//! A trade partner on the marketplace.
use vstd::prelude::*;

verus! {

/// The other side of a trade.
#[derive(Clone, Debug)]
pub struct PlayerTrade {
    pub user_name: String,
}

} // verus!
