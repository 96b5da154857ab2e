//! The decisions of the price endpoint: which requests are rejected, with
//! what status and message, and what a successful answer holds.

use crate::prices::models::PriceApiResponse;
use crate::prices::service::{class_label, class_label_text};
use crate::stations::models::{Station, StationView};
use crate::stations::{
    builtin_table, candidates_view, lookup, lookup_result, station_table, table_view, LookupView,
    RecordView, StationLookupResult, StationRecord,
};
use vstd::prelude::*;

verus! {

/// The travel class of a request that names none.
pub fn default_class() -> (r: u8)
    ensures
        r == 2,
{
    2
}

/// A station that matched an ambiguous query.
#[derive(Debug)]
pub struct StationMatch {
    pub name: String,
    pub uic_code: i32,
}

/// The body of a rejected request.
#[derive(Debug)]
pub struct ErrorResponse {
    /// What went wrong.
    pub error: String,
    /// The stations that matched, where a query was ambiguous.
    pub matches: Option<Vec<StationMatch>>,
}

/// The body of a successful answer.
#[derive(Debug)]
pub struct PriceResponse {
    /// The full name of the station of departure.
    pub from: String,
    /// The full name of the station of arrival.
    pub to: String,
    /// The price in cents.
    pub price_cents: i32,
    /// The travel class, as shown.
    pub travel_class: String,
}

/// A rejected request: the HTTP status and the body.
#[derive(Debug)]
pub struct Rejection {
    pub status: u16,
    pub body: ErrorResponse,
}

/// A request that passed the checks: the two stations and the class.
#[derive(Debug)]
pub struct PriceQuery {
    pub from: Station,
    pub to: Station,
    pub class: u8,
}

/// The body of a rejected request as contracts see it.
pub struct ErrorView {
    pub error: Seq<char>,
    pub matches: Option<Seq<RecordView>>,
}

/// A rejection as contracts see it.
pub struct RejectionView {
    pub status: u16,
    pub body: ErrorView,
}

/// The matches of an error body as table entries.
pub open spec fn matches_view(matches: Seq<StationMatch>) -> Seq<RecordView> {
    matches.map_values(|m: StationMatch| RecordView { display_name: m.name@, code: m.uic_code })
}

impl View for ErrorResponse {
    type V = ErrorView;

    open spec fn view(&self) -> ErrorView {
        ErrorView {
            error: self.error@,
            matches: match self.matches {
                Some(found) => Some(matches_view(found@)),
                None => None,
            },
        }
    }
}

impl View for Rejection {
    type V = RejectionView;

    open spec fn view(&self) -> RejectionView {
        RejectionView { status: self.status, body: self.body@ }
    }
}

/// A successful answer as contracts see it.
pub struct PriceResponseView {
    pub from: Seq<char>,
    pub to: Seq<char>,
    pub price_cents: i32,
    pub travel_class: Seq<char>,
}

impl View for PriceResponse {
    type V = PriceResponseView;

    open spec fn view(&self) -> PriceResponseView {
        PriceResponseView {
            from: self.from@,
            to: self.to@,
            price_cents: self.price_cents,
            travel_class: self.travel_class@,
        }
    }
}

/// The message for a query that matched nothing; `side` is `from` or `to`.
pub open spec fn no_match_text(side: Seq<char>, query: Seq<char>) -> Seq<char> {
    "No stations found for '"@ + side + "' query: "@ + query
}

/// The message for a query that matched several stations.
pub open spec fn ambiguous_text(side: Seq<char>, query: Seq<char>) -> Seq<char> {
    "Multiple stations matched for '"@ + side + "' query: "@ + query
        + ". Please refine your query."@
}

/// What a lookup result means for a request: the station, or the rejection
/// with status 400 that names the side and the query.
pub open spec fn resolved(side: Seq<char>, query: Seq<char>, found: LookupView) -> Result<
    StationView,
    RejectionView,
> {
    match found {
        LookupView::Single(station) => Ok(station),
        LookupView::NoMatch => Err(
            RejectionView {
                status: 400,
                body: ErrorView { error: no_match_text(side, query), matches: None },
            },
        ),
        LookupView::Multiple(found) => Err(
            RejectionView {
                status: 400,
                body: ErrorView { error: ambiguous_text(side, query), matches: Some(found) },
            },
        ),
    }
}

/// The view of a station or a rejection.
pub open spec fn resolved_view(r: Result<Station, Rejection>) -> Result<
    StationView,
    RejectionView,
> {
    match r {
        Ok(station) => Ok(station@),
        Err(rejection) => Err(rejection@),
    }
}

/// Turns a lookup result into the station or into the rejection of the
/// request; `side` is `from` or `to`.
pub fn resolve(side: &str, query: &str, found: StationLookupResult) -> (r: Result<
    Station,
    Rejection,
>)
    ensures
        resolved_view(r) == resolved(side@, query@, found@),
{
    match found {
        StationLookupResult::Single(station) => Ok(station),
        StationLookupResult::NoMatch => {
            let error = String::from_str("No stations found for '").concat(side).concat(
                "' query: ",
            ).concat(query);
            Err(Rejection { status: 400, body: ErrorResponse { error, matches: None } })
        },
        StationLookupResult::Multiple(found) => {
            let error = String::from_str("Multiple stations matched for '").concat(side).concat(
                "' query: ",
            ).concat(query).concat(". Please refine your query.");
            let mut matches: Vec<StationMatch> = Vec::new();
            let mut i: usize = 0;
            while i < found.len()
                invariant
                    i <= found.len(),
                    matches_view(matches@) == candidates_view(found@).take(i as int),
                decreases found.len() - i,
            {
                matches.push(StationMatch { name: found[i].0.clone(), uic_code: found[i].1 });
                assert(candidates_view(found@).take(i + 1) =~= candidates_view(found@).take(
                    i as int,
                ).push(candidates_view(found@)[i as int]));
                i += 1;
            }
            assert(candidates_view(found@).take(found.len() as int) =~= candidates_view(found@));
            Err(Rejection { status: 400, body: ErrorResponse { error, matches: Some(matches) } })
        },
    }
}

/// A checked request as contracts see it.
pub struct PriceQueryView {
    pub from: StationView,
    pub to: StationView,
    pub class: u8,
}

impl View for PriceQuery {
    type V = PriceQueryView;

    open spec fn view(&self) -> PriceQueryView {
        PriceQueryView { from: self.from@, to: self.to@, class: self.class }
    }
}

/// The rejection of a request whose class is neither 1 nor 2.
pub open spec fn bad_class() -> RejectionView {
    RejectionView { status: 400, body: ErrorView { error: "class must be 1 or 2"@, matches: None } }
}

/// What becomes of a price request, given a station table: the class is
/// checked first, then the station of departure is resolved, then the
/// station of arrival; the first check that fails decides the rejection.
pub open spec fn checked_query(
    table: Seq<RecordView>,
    from: Seq<char>,
    to: Seq<char>,
    class: u8,
) -> Result<PriceQueryView, RejectionView> {
    if class != 1 && class != 2 {
        Err(bad_class())
    } else {
        match resolved("from"@, from, lookup_result(table, from)) {
            Err(rejection) => Err(rejection),
            Ok(from_station) => match resolved("to"@, to, lookup_result(table, to)) {
                Err(rejection) => Err(rejection),
                Ok(to_station) => Ok(PriceQueryView { from: from_station, to: to_station, class }),
            },
        }
    }
}

/// The view of a checked or rejected request.
pub open spec fn query_view(r: Result<PriceQuery, Rejection>) -> Result<
    PriceQueryView,
    RejectionView,
> {
    match r {
        Ok(query) => Ok(query@),
        Err(rejection) => Err(rejection@),
    }
}

/// Checks a price request and resolves its two stations in the built-in
/// table.
pub fn check_price_query(from: &str, to: &str, class: u8) -> (r: Result<PriceQuery, Rejection>)
    ensures
        query_view(r) == checked_query(builtin_table(), from@, to@, class),
{
    let table = station_table();
    check_price_query_in(&table, from, to, class)
}

/// Checks a price request and resolves its two stations in `table`.
pub fn check_price_query_in(table: &Vec<StationRecord>, from: &str, to: &str, class: u8) -> (r:
    Result<PriceQuery, Rejection>)
    ensures
        query_view(r) == checked_query(table_view(table@), from@, to@, class),
{
    if class != 1 && class != 2 {
        return Err(
            Rejection {
                status: 400,
                body: ErrorResponse {
                    error: String::from_str("class must be 1 or 2"),
                    matches: None,
                },
            },
        );
    }
    let from_station = match resolve("from", from, lookup(table, from)) {
        Ok(station) => station,
        Err(rejection) => {
            return Err(rejection);
        },
    };
    let to_station = match resolve("to", to, lookup(table, to)) {
        Ok(station) => station,
        Err(rejection) => {
            return Err(rejection);
        },
    };
    Ok(PriceQuery { from: from_station, to: to_station, class })
}

/// The answer to a checked request, given what the price lookup brought:
/// the first offer with status 200, or a rejection with status 404 where
/// there is no offer and with status 500 where the lookup failed.
pub open spec fn answer_of(query: PriceQueryView, fetched: Result<PriceApiResponse, String>)
    -> Result<PriceResponseView, RejectionView> {
    match fetched {
        Err(reason) => Err(
            RejectionView {
                status: 500,
                body: ErrorView { error: "Failed to fetch prices: "@ + reason@, matches: None },
            },
        ),
        Ok(response) => if response@.len() > 0 {
            Ok(
                PriceResponseView {
                    from: query.from.long,
                    to: query.to.long,
                    price_cents: response@[0].total_price_in_cents,
                    travel_class: class_label_text(query.class),
                },
            )
        } else {
            Err(
                RejectionView {
                    status: 404,
                    body: ErrorView { error: "No prices found for this route"@, matches: None },
                },
            )
        },
    }
}

/// The view of an answer.
pub open spec fn answer_view(r: Result<PriceResponse, Rejection>) -> Result<
    PriceResponseView,
    RejectionView,
> {
    match r {
        Ok(response) => Ok(response@),
        Err(rejection) => Err(rejection@),
    }
}

/// Makes the answer to a checked request from what the price lookup brought.
pub fn price_answer(query: &PriceQuery, fetched: &Result<PriceApiResponse, String>) -> (r: Result<
    PriceResponse,
    Rejection,
>)
    ensures
        answer_view(r) == answer_of(query@, *fetched),
{
    match fetched {
        Err(reason) => Err(
            Rejection {
                status: 500,
                body: ErrorResponse {
                    error: String::from_str("Failed to fetch prices: ").concat(reason.as_str()),
                    matches: None,
                },
            },
        ),
        Ok(response) => {
            if response.payload.prices.len() > 0 {
                Ok(
                    PriceResponse {
                        from: query.from.names.long.clone(),
                        to: query.to.names.long.clone(),
                        price_cents: response.payload.prices[0].total_price_in_cents,
                        travel_class: String::from_str(class_label(query.class)),
                    },
                )
            } else {
                Err(
                    Rejection {
                        status: 404,
                        body: ErrorResponse {
                            error: String::from_str("No prices found for this route"),
                            matches: None,
                        },
                    },
                )
            }
        },
    }
}

} // verus!
