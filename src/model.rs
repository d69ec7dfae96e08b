//! The records kept by the ledger and the transaction log.
use vstd::prelude::*;

verus! {

/// Lifecycle state of a stock entry.
#[derive(Clone, Copy, Debug, PartialEq, Eq, Structural)]
pub enum StockStatus {
    Pending,
    Live,
    Sold,
    Inactive,
}

/// What kind of goods a transaction moved.
#[derive(Clone, Copy, Debug, PartialEq, Eq, Structural)]
pub enum TransactionItemType {
    Item,
    Riven,
}

/// Direction of a trade, seen from the trader.
#[derive(Clone, Copy, Debug, PartialEq, Eq, Structural)]
pub enum TransactionType {
    Purchase,
    Sale,
}

/// A variant discriminator of a catalog item: a rank and/or a named variant.
#[derive(Clone, Debug)]
pub struct SubType {
    pub rank: Option<u64>,
    pub variant: Option<String>,
}

/// One past price observation.
#[derive(Clone, Copy, Debug, PartialEq, Eq, Structural)]
pub struct PriceHistory {
    pub price: i64,
    pub at: i64,
}

/// The price observations of an entry, oldest first.
#[derive(Clone, Debug)]
pub struct PriceHistoryVec(pub Vec<PriceHistory>);

/// One rolled attribute of a riven: its catalog identifier, whether it is a
/// positive roll, and its magnitude.
#[derive(Clone, Debug)]
pub struct RivenAttribute {
    pub url_name: String,
    pub positive: bool,
    pub value: i64,
}

/// Criteria used when matching this riven against auction listings.
#[derive(Clone, Debug)]
pub struct MatchRivenStruct {
    pub enabled: bool,
    pub min_mastery_rank: Option<i64>,
    pub max_re_rolls: Option<i64>,
    pub polarity: Option<String>,
}

/// The rolled properties of a riven.
#[derive(Clone, Debug)]
pub struct RivenDetail {
    pub mod_name: String,
    pub polarity: String,
    pub mastery_rank: i64,
    pub re_rolls: i64,
    pub rank: i64,
    pub attributes: Vec<RivenAttribute>,
    pub filter: Option<MatchRivenStruct>,
}

/// Variant-specific part of a stock entry.
#[derive(Clone, Debug)]
pub enum StockDetail {
    Plain,
    Riven(RivenDetail),
}

/// One owned position in the ledger.
#[derive(Clone, Debug)]
pub struct StockEntry {
    pub id: u64,
    pub wfm_id: String,
    pub wfm_url: String,
    pub item_name: String,
    pub item_unique_name: String,
    pub sub_type: Option<SubType>,
    pub owned: u64,
    pub bought: u64,
    pub minimum_price: Option<i64>,
    pub list_price: Option<i64>,
    pub is_hidden: bool,
    pub status: StockStatus,
    pub price_history: PriceHistoryVec,
    pub remote_listing_id: Option<String>,
    pub detail: StockDetail,
    pub updated_at: i64,
}

/// A row of the stock ledger.
pub type Model = StockEntry;

/// One completed trade; never changed once appended.
#[derive(Clone, Debug)]
pub struct TransactionRecord {
    pub id: u64,
    pub wfm_url: String,
    pub item_type: TransactionItemType,
    pub transaction_type: TransactionType,
    pub sub_type: Option<SubType>,
    pub quantity: u64,
    pub price: i64,
    pub extra: Option<RivenDetail>,
    pub created_at: i64,
}

/// Which kind of change a notification reports.
#[derive(Clone, Copy, Debug, PartialEq, Eq, Structural)]
pub enum UIOperationEvent {
    CreateOrUpdate,
    Delete,
}

/// A change notification about one stock entry.
#[derive(Clone, Copy, Debug, PartialEq, Eq, Structural)]
pub struct ChangeEvent {
    pub operation: UIOperationEvent,
    pub entry_id: u64,
}

/// Why an action failed.
#[derive(Clone, Copy, Debug, PartialEq, Eq, Structural)]
pub enum StockError {
    /// Unknown item, sub-type or attribute, or malformed input.
    Validation,
    /// The referenced entry or auction is absent.
    NotFound,
    /// A sale asks for more units than are owned.
    InsufficientQuantity,
    /// The marketplace could not be reached; local state already changed.
    RemoteUnavailable,
    /// The ledger or the log cannot take another record.
    Storage,
}

/// A copy of `s`.
pub fn copy_string(s: &String) -> (r: String)
    ensures
        r == *s,
{
    s.clone()
}

/// A copy of `s`.
pub fn copy_opt_string(s: &Option<String>) -> (r: Option<String>)
    ensures
        r == *s,
{
    match s {
        Some(v) => Some(v.clone()),
        None => None,
    }
}

impl SubType {
    /// A field-for-field copy.
    pub fn copy(&self) -> (r: SubType)
        ensures
            r == *self,
    {
        SubType { rank: self.rank, variant: copy_opt_string(&self.variant) }
    }
}

/// A copy of `s`.
pub fn copy_opt_sub_type(s: &Option<SubType>) -> (r: Option<SubType>)
    ensures
        r == *s,
{
    match s {
        Some(v) => Some(v.copy()),
        None => None,
    }
}

impl RivenAttribute {
    /// A field-for-field copy.
    pub fn copy(&self) -> (r: RivenAttribute)
        ensures
            r == *self,
    {
        RivenAttribute { url_name: self.url_name.clone(), positive: self.positive, value: self.value }
    }
}

/// A copy of `v`, element for element.
pub fn copy_attributes(v: &Vec<RivenAttribute>) -> (r: Vec<RivenAttribute>)
    ensures
        r@ == v@,
{
    let mut r: Vec<RivenAttribute> = Vec::new();
    let mut i: usize = 0;
    while i < v.len()
        invariant
            i <= v.len(),
            r@ == v@.take(i as int),
        decreases v.len() - i,
    {
        r.push(v[i].copy());
        i = i + 1;
        assert(r@ =~= v@.take(i as int));
    }
    assert(v@.take(v.len() as int) =~= v@);
    r
}

impl MatchRivenStruct {
    /// A field-for-field copy.
    pub fn copy(&self) -> (r: MatchRivenStruct)
        ensures
            r == *self,
    {
        MatchRivenStruct {
            enabled: self.enabled,
            min_mastery_rank: self.min_mastery_rank,
            max_re_rolls: self.max_re_rolls,
            polarity: copy_opt_string(&self.polarity),
        }
    }
}

impl RivenDetail {
    /// A field-for-field copy; the attributes keep their order.
    pub fn copy(&self) -> (r: RivenDetail)
        ensures
            r.mod_name == self.mod_name,
            r.polarity == self.polarity,
            r.mastery_rank == self.mastery_rank,
            r.re_rolls == self.re_rolls,
            r.rank == self.rank,
            r.attributes@ == self.attributes@,
            r.filter == self.filter,
    {
        RivenDetail {
            mod_name: self.mod_name.clone(),
            polarity: self.polarity.clone(),
            mastery_rank: self.mastery_rank,
            re_rolls: self.re_rolls,
            rank: self.rank,
            attributes: copy_attributes(&self.attributes),
            filter: match &self.filter {
                Some(f) => Some(f.copy()),
                None => None,
            },
        }
    }
}

} // verus!
