//! Ticket prices: the price service's records, and when a lookup is served
//! from the cache.

pub mod models;
pub mod service;

pub use service::create_cached_response;
