//! The price cache: entries that are valid through the end of the calendar
//! year, keyed by an unordered station pair and a travel class.

pub mod laws;
pub mod models;
pub mod service;

pub use models::CacheEntry;
pub use service::{CacheStats, PriceCache};
