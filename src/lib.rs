//! Stock bookkeeping for a marketplace trader: a local ledger of owned goods,
//! an append-only transaction log, and the decisions that keep the trader's
//! remote listings consistent with both.
pub mod arch_melee;
pub mod cache_items;
pub mod catalog;
pub mod clock;
pub mod laws;
pub mod ledger;
pub mod melee;
pub mod model;
pub mod query;
pub mod remote;
pub mod skin;
pub mod stock;
pub mod stock_riven;
pub mod text;
pub mod trade;
