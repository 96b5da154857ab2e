//! Trips between two stations, reduced to what is shown of them.

use crate::dates::Date;
use crate::stations::models::Station;
use crate::text::{nat_text, nat_to_string};
use crate::trips_models::{LegRaw, TripRaw, TripsResponse};
use chrono::{Datelike, Timelike};
use vstd::prelude::*;

verus! {

/// A point in time with the offset of its own time zone: the local calendar
/// day and clock time, and the seconds by which local time is ahead of UTC.
#[derive(Clone, Copy, Debug, PartialEq, Eq, Structural)]
pub struct Moment {
    pub date: Date,
    pub hour: u32,
    pub minute: u32,
    pub second: u32,
    pub offset_seconds: i32,
}

/// What `chrono::DateTime::parse_from_str` with the format
/// `%Y-%m-%dT%H:%M:%S%z` makes of a text: the point in time taken apart, or
/// `None` where it reports an error.
pub uninterp spec fn parsed_moment(text: Seq<char>) -> Option<Moment>;

/// Calls `chrono::DateTime::parse_from_str(text, "%Y-%m-%dT%H:%M:%S%z")` and
/// takes the result apart into local date, local clock time and offset; an
/// error becomes `None`. The contract only names the result: it depends on
/// the text alone.
#[verifier::external_body]
pub(crate) fn parse_moment(text: &str) -> (r: Option<Moment>)
    ensures
        r == parsed_moment(text@),
{
    match chrono::DateTime::parse_from_str(text, "%Y-%m-%dT%H:%M:%S%z") {
        Ok(t) => Some(
            Moment {
                date: Date { year: t.year(), month: t.month(), day: t.day() },
                hour: t.hour(),
                minute: t.minute(),
                second: t.second(),
                offset_seconds: t.offset().local_minus_utc(),
            },
        ),
        Err(_) => None,
    }
}

/// A number below 100 in two digits, with a leading zero where it is below 10.
pub open spec fn two_digit_text(n: nat) -> Seq<char> {
    if n < 10 {
        seq!['0'] + nat_text(n)
    } else {
        nat_text(n)
    }
}

/// Writes a number in two digits, with a leading zero where it is below 10.
pub fn two_digits(n: u32) -> (r: String)
    ensures
        r@ == two_digit_text(n as nat),
{
    if n < 10 {
        proof {
            reveal_strlit("0");
        }
        String::from_str("0").concat(nat_to_string(n as u64).as_str())
    } else {
        nat_to_string(n as u64)
    }
}

impl Moment {
    /// The local clock time as hours and minutes, `HH:MM`.
    pub open spec fn clock_text(self) -> Seq<char> {
        two_digit_text(self.hour as nat) + seq![':'] + two_digit_text(self.minute as nat)
    }

    /// Writes the local clock time as hours and minutes, `HH:MM`.
    pub fn clock(&self) -> (r: String)
        ensures
            r@ == self.clock_text(),
    {
        proof {
            reveal_strlit(":");
        }
        two_digits(self.hour).concat(":").concat(two_digits(self.minute).as_str())
    }
}

/// What is shown of a trip: its first leg.
#[derive(Debug)]
pub struct Trip {
    pub origin_name: String,
    pub destination_name: String,
    pub track: String,
    pub cancelled: bool,
    pub departure_time: Moment,
    pub arrival_time: Moment,
    pub train_type: String,
}

/// A trip as contracts see it.
pub struct TripView {
    pub origin_name: Seq<char>,
    pub destination_name: Seq<char>,
    pub track: Seq<char>,
    pub cancelled: bool,
    pub departure_time: Moment,
    pub arrival_time: Moment,
    pub train_type: Seq<char>,
}

impl View for Trip {
    type V = TripView;

    open spec fn view(&self) -> TripView {
        TripView {
            origin_name: self.origin_name@,
            destination_name: self.destination_name@,
            track: self.track@,
            cancelled: self.cancelled,
            departure_time: self.departure_time,
            arrival_time: self.arrival_time,
            train_type: self.train_type@,
        }
    }
}

/// Why a trip record cannot be shown.
#[derive(Debug, Clone, Copy, PartialEq, Eq, Structural)]
pub enum TripError {
    /// The trip has no leg.
    NoLegs,
    /// The planned departure or arrival of the first leg is no date and time.
    InvalidDatetime,
}

impl TripError {
    /// The message for this error.
    pub fn message(&self) -> (r: String)
        ensures
            *self == TripError::NoLegs ==> r@ == "No legs in trip"@,
            *self == TripError::InvalidDatetime ==> r@ == "Invalid datetime format"@,
    {
        match self {
            TripError::NoLegs => String::from_str("No legs in trip"),
            TripError::InvalidDatetime => String::from_str("Invalid datetime format"),
        }
    }
}

/// The track a leg leaves from: the actual track where it is known, else the
/// planned one, else a question mark.
pub open spec fn track_of(leg: LegRaw) -> Seq<char> {
    match leg.origin.actual_track {
        Some(track) => track@,
        None => match leg.origin.planned_track {
            Some(track) => track@,
            None => "?"@,
        },
    }
}

/// What is shown of a leg that leaves at `departure` and arrives at `arrival`.
pub open spec fn trip_of(leg: LegRaw, departure: Moment, arrival: Moment) -> TripView {
    TripView {
        origin_name: leg.origin.name@,
        destination_name: leg.destination.name@,
        track: track_of(leg),
        cancelled: leg.cancelled,
        departure_time: departure,
        arrival_time: arrival,
        train_type: leg.product.category_code@,
    }
}

/// What is shown of a trip record, or why it cannot be shown. Only the first
/// leg counts; its planned times have to be dates and times.
pub open spec fn trip_result(raw: TripRaw) -> Result<TripView, TripError> {
    if raw.legs@.len() == 0 {
        Err(TripError::NoLegs)
    } else {
        let leg = raw.legs@[0];
        match (
            parsed_moment(leg.origin.planned_date_time@),
            parsed_moment(leg.destination.planned_date_time@),
        ) {
            (Some(departure), Some(arrival)) => Ok(trip_of(leg, departure, arrival)),
            _ => Err(TripError::InvalidDatetime),
        }
    }
}

/// The view of a converted trip record.
pub open spec fn trip_result_view(r: Result<Trip, TripError>) -> Result<TripView, TripError> {
    match r {
        Ok(trip) => Ok(trip@),
        Err(e) => Err(e),
    }
}

/// The line that shows a trip: the two names, the kind of train, the track,
/// the clock times of departure and arrival, and a mark where the trip is
/// cancelled.
pub open spec fn trip_line(trip: TripView) -> Seq<char> {
    trip.origin_name + " -> "@ + trip.destination_name + " ["@ + trip.train_type + "] tr."@
        + trip.track + " "@ + trip.departure_time.clock_text() + "->"@
        + trip.arrival_time.clock_text() + " "@ + (if trip.cancelled {
        "(cancelled)"@
    } else {
        Seq::<char>::empty()
    })
}

impl Trip {
    /// Puts together what is shown of a leg, given its two times.
    pub fn from_leg(leg: &LegRaw, departure: Moment, arrival: Moment) -> (trip: Trip)
        ensures
            trip@ == trip_of(*leg, departure, arrival),
    {
        let track = match &leg.origin.actual_track {
            Some(track) => track.clone(),
            None => match &leg.origin.planned_track {
                Some(track) => track.clone(),
                None => String::from_str("?"),
            },
        };
        Trip {
            origin_name: leg.origin.name.clone(),
            destination_name: leg.destination.name.clone(),
            track,
            cancelled: leg.cancelled,
            departure_time: departure,
            arrival_time: arrival,
            train_type: leg.product.category_code.clone(),
        }
    }

    /// Converts a trip record to what is shown of it, or says why it cannot
    /// be shown.
    pub fn from_raw(raw: &TripRaw) -> (r: Result<Trip, TripError>)
        ensures
            trip_result_view(r) == trip_result(*raw),
    {
        if raw.legs.len() == 0 {
            return Err(TripError::NoLegs);
        }
        let leg = &raw.legs[0];
        let departure = parse_moment(leg.origin.planned_date_time.as_str());
        let arrival = parse_moment(leg.destination.planned_date_time.as_str());
        match (departure, arrival) {
            (Some(d), Some(a)) => Ok(Trip::from_leg(leg, d, a)),
            _ => Err(TripError::InvalidDatetime),
        }
    }

    /// The line that shows this trip.
    pub fn to_text(&self) -> (r: String)
        ensures
            r@ == trip_line(self@),
    {
        let mark = if self.cancelled {
            "(cancelled)"
        } else {
            ""
        };
        proof {
            reveal_strlit("");
        }
        self.origin_name.clone().concat(" -> ").concat(self.destination_name.as_str()).concat(
            " [",
        ).concat(self.train_type.as_str()).concat("] tr.").concat(self.track.as_str()).concat(
            " ",
        ).concat(self.departure_time.clock().as_str()).concat("->").concat(
            self.arrival_time.clock().as_str(),
        ).concat(" ").concat(mark)
    }
}

/// Converts the trips of a response, in order. The first record that cannot
/// be shown decides the error.
pub fn trips_of(response: &TripsResponse) -> (r: Result<Vec<Trip>, TripError>)
    ensures
        match r {
            Ok(trips) => trips@.len() == response.trips@.len() && forall|i: int|
                0 <= i < trips@.len() ==> trip_result(response.trips@[i]) == Ok::<
                    TripView,
                    TripError,
                >((#[trigger] trips@[i])@),
            Err(e) => exists|i: int|
                0 <= i < response.trips@.len() && trip_result(#[trigger] response.trips@[i])
                    == Err::<TripView, TripError>(e) && forall|j: int|
                    0 <= j < i ==> (#[trigger] trip_result(response.trips@[j])) is Ok,
        },
{
    let mut trips: Vec<Trip> = Vec::new();
    let mut i: usize = 0;
    while i < response.trips.len()
        invariant
            i <= response.trips.len(),
            trips@.len() == i,
            forall|j: int|
                0 <= j < i ==> trip_result(response.trips@[j]) == Ok::<TripView, TripError>(
                    (#[trigger] trips@[j])@,
                ),
        decreases response.trips.len() - i,
    {
        match Trip::from_raw(&response.trips[i]) {
            Ok(trip) => {
                trips.push(trip);
            },
            Err(e) => {
                assert forall|j: int| 0 <= j < i implies (#[trigger] trip_result(
                    response.trips@[j],
                )) is Ok by {
                    assert(trip_result(response.trips@[j]) == Ok::<TripView, TripError>(
                        trips@[j]@,
                    ));
                }
                return Err(e);
            },
        }
        i += 1;
    }
    Ok(trips)
}

/// The query parameters of a trip search between two stations, as names and
/// values in the order in which they are sent.
pub fn trip_query(from: &Station, to: &Station) -> (r: Vec<(String, String)>)
    ensures
        r@.len() == 2,
        r@[0].0@ == "originUicCode"@ && r@[0].1@ == from@.uic_code,
        r@[1].0@ == "destinationUicCode"@ && r@[1].1@ == to@.uic_code,
{
    let mut r: Vec<(String, String)> = Vec::new();
    r.push((String::from_str("originUicCode"), from.id.uic_code.clone()));
    r.push((String::from_str("destinationUicCode"), to.id.uic_code.clone()));
    r
}

} // verus!
