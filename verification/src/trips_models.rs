//! Trip records as the remote trip service reports them.

use vstd::prelude::*;

verus! {

/// The body of a trip search response.
#[derive(Debug)]
pub struct TripsResponse {
    pub trips: Vec<TripRaw>,
}

/// One trip: its legs in travel order.
#[derive(Debug)]
pub struct TripRaw {
    pub legs: Vec<LegRaw>,
}

/// One leg of a trip.
#[derive(Debug)]
pub struct LegRaw {
    pub origin: StopRaw,
    pub destination: StopRaw,
    pub cancelled: bool,
    pub product: ProductRaw,
}

/// One end of a leg.
#[derive(Debug)]
pub struct StopRaw {
    pub name: String,
    pub actual_track: Option<String>,
    pub planned_track: Option<String>,
    pub planned_date_time: String,
    pub actual_date_time: Option<String>,
}

/// The kind of train that runs a leg.
#[derive(Debug)]
pub struct ProductRaw {
    pub category_code: String,
}

} // verus!
