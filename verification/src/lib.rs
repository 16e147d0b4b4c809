//! A bounded recency cache for a link shortener, with the request protocol of
//! the storage accessor that stands behind it.

pub mod cache;
pub mod config;
pub mod consistency;
pub mod eviction;
pub mod recency;
pub mod storage;
