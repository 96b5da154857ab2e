//! Station-name resolution and a yearly price cache for a railway travel client.

pub mod cache;
pub mod dates;
pub mod prices;
pub mod server;
pub mod stations;
pub mod text;
pub mod trips;
pub mod trips_models;
