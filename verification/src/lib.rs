//! A verified model of a price-oracle relay: the price-feed record and its
//! update rules, the record's delegation lifecycle, the update dispatcher,
//! the recent-blockhash cache, the feed-ingestion failover engine, and the
//! configuration rules around them.

pub mod args;
pub mod blockhash_cache;
pub mod codec;
pub mod delegation;
pub mod dispatcher;
pub mod ingestion;
pub mod price_feed;
pub mod pyth_lazer;
pub mod sample;
