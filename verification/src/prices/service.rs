//! Deciding whether a price lookup is served from the cache, what is asked
//! of the remote service otherwise, and what is remembered of its answer.

use crate::cache::service::{stored_price, with_price, FileAction, PriceCache};
use crate::dates::{today, Date};
use crate::prices::models::{Price, PriceApiResponse, PriceView, PricesResponse};
use crate::stations::models::Station;
use crate::text::same_text;
use vstd::prelude::*;

verus! {

/// The travel class that is asked for: second class unless one is named.
pub open spec fn effective_class(travel_class: Option<&str>) -> Seq<char> {
    match travel_class {
        Some(name) => name@,
        None => "SECOND_CLASS"@,
    }
}

/// The kind of trip that is asked for: a single trip unless one is named.
pub open spec fn effective_type(travel_type: Option<&str>) -> Seq<char> {
    match travel_type {
        Some(name) => name@,
        None => "single"@,
    }
}

/// The number under which the cache keeps a travel class: 1 for first class,
/// 2 for every other name.
pub open spec fn class_number_of(class_name: Seq<char>) -> u8 {
    if class_name == "FIRST_CLASS"@ {
        1
    } else {
        2
    }
}

/// A price in cents as the signed number of the same 32 bits.
pub open spec fn cents_as_signed(cents: u32) -> i32 {
    if cents <= i32::MAX {
        cents as i32
    } else {
        (cents - 0x1_0000_0000) as i32
    }
}

/// A signed price in cents as the unsigned number of the same 32 bits.
pub open spec fn cents_as_unsigned(cents: i32) -> u32 {
    if cents >= 0 {
        cents as u32
    } else {
        (cents + 0x1_0000_0000) as u32
    }
}

/// The one offer that stands for a price taken from the cache.
pub open spec fn cached_price(price_cents: u32, travel_class: Seq<char>) -> PriceView {
    PriceView {
        total_price_in_cents: cents_as_signed(price_cents),
        price_per_adult_in_cents: cents_as_signed(price_cents),
        discount_in_cents: None,
        operator_name: None,
        discount_type: "NONE"@,
        travel_class,
        display_name: "Cached Price"@,
        is_best_option: true,
    }
}

/// What is asked of the remote price service.
#[derive(Debug)]
pub struct PriceRequest {
    /// The code of the station of departure.
    pub from_station: String,
    /// The code of the station of arrival.
    pub to_station: String,
    /// The name of the travel class.
    pub travel_class: String,
    /// The kind of trip.
    pub travel_type: String,
}

/// A price request as contracts see it.
pub struct PriceRequestView {
    pub from_station: Seq<char>,
    pub to_station: Seq<char>,
    pub travel_class: Seq<char>,
    pub travel_type: Seq<char>,
}

impl View for PriceRequest {
    type V = PriceRequestView;

    open spec fn view(&self) -> PriceRequestView {
        PriceRequestView {
            from_station: self.from_station@,
            to_station: self.to_station@,
            travel_class: self.travel_class@,
            travel_type: self.travel_type@,
        }
    }
}

/// How a price lookup goes on.
#[derive(Debug)]
pub enum PricePlan {
    /// The cache holds the price: this is the response.
    Cached(PriceApiResponse),
    /// The remote service has to be asked.
    Fetch(PriceRequest),
}

/// A plan as contracts see it.
pub enum PricePlanView {
    Cached(Seq<PriceView>),
    Fetch(PriceRequestView),
}

impl View for PricePlan {
    type V = PricePlanView;

    open spec fn view(&self) -> PricePlanView {
        match self {
            PricePlan::Cached(response) => PricePlanView::Cached(response@),
            PricePlan::Fetch(request) => PricePlanView::Fetch(request@),
        }
    }
}

/// The cache, if any, is used for this kind of trip: only single trips are
/// cached.
pub open spec fn cache_applies(cache_present: bool, travel_type: Option<&str>) -> bool {
    cache_present && effective_type(travel_type) == "single"@
}

/// What the cache, if it is used, holds for the lookup on the day `today`.
pub open spec fn cache_hit(
    cache: Option<&PriceCache>,
    from: &Station,
    to: &Station,
    travel_class: Option<&str>,
    travel_type: Option<&str>,
    today: Date,
) -> Option<u32> {
    if cache_applies(cache is Some, travel_type) {
        stored_price(
            cache->0@,
            from@.long,
            to@.long,
            class_number_of(effective_class(travel_class)),
            today,
        )
    } else {
        None
    }
}

/// How the lookup goes on, on the day `today`: with the cached price where
/// there is one, else with a request for the two station codes.
pub open spec fn plan_of(
    cache: Option<&PriceCache>,
    from: &Station,
    to: &Station,
    travel_class: Option<&str>,
    travel_type: Option<&str>,
    today: Date,
) -> PricePlanView {
    match cache_hit(cache, from, to, travel_class, travel_type, today) {
        Some(price_cents) => PricePlanView::Cached(
            seq![cached_price(price_cents, effective_class(travel_class))],
        ),
        None => PricePlanView::Fetch(
            PriceRequestView {
                from_station: from@.uic_code,
                to_station: to@.uic_code,
                travel_class: effective_class(travel_class),
                travel_type: effective_type(travel_type),
            },
        ),
    }
}

/// The travel class that is asked for: second class unless one is named.
pub fn requested_class(travel_class: Option<&str>) -> (r: &str)
    ensures
        r@ == effective_class(travel_class),
{
    match travel_class {
        Some(name) => name,
        None => "SECOND_CLASS",
    }
}

/// The kind of trip that is asked for: a single trip unless one is named.
pub fn requested_type(travel_type: Option<&str>) -> (r: &str)
    ensures
        r@ == effective_type(travel_type),
{
    match travel_type {
        Some(name) => name,
        None => "single",
    }
}

/// The number under which the cache keeps the travel class that is asked for.
pub fn class_number(travel_class: Option<&str>) -> (r: u8)
    ensures
        r == class_number_of(effective_class(travel_class)),
{
    if same_text(requested_class(travel_class), "FIRST_CLASS") {
        1
    } else {
        2
    }
}

/// Tests whether the cache, if any, is used for this kind of trip.
pub fn uses_cache(cache_present: bool, travel_type: Option<&str>) -> (r: bool)
    ensures
        r == cache_applies(cache_present, travel_type),
{
    cache_present && same_text(requested_type(travel_type), "single")
}

/// The name of a travel class for the remote service: first class for 1,
/// second class for every other number.
pub open spec fn class_name_text(class: u8) -> Seq<char> {
    if class == 1 {
        "FIRST_CLASS"@
    } else {
        "SECOND_CLASS"@
    }
}

/// The travel class as shown in an answer.
pub open spec fn class_label_text(class: u8) -> Seq<char> {
    if class == 1 {
        "1st class"@
    } else {
        "2nd class"@
    }
}

/// The name of a travel class for the remote service.
pub fn travel_class_name(class: u8) -> (r: &'static str)
    ensures
        r@ == class_name_text(class),
{
    if class == 1 {
        "FIRST_CLASS"
    } else {
        "SECOND_CLASS"
    }
}

/// The travel class as shown in an answer.
pub fn class_label(class: u8) -> (r: &'static str)
    ensures
        r@ == class_label_text(class),
{
    if class == 1 {
        "1st class"
    } else {
        "2nd class"
    }
}

/// The travel class as shown on the command line, from its name for the
/// remote service; an unknown name is shown as it is.
pub fn class_display(class_name: &str) -> (r: String)
    ensures
        class_name@ == "FIRST_CLASS"@ ==> r@ == "1st class"@,
        class_name@ == "SECOND_CLASS"@ ==> r@ == "2nd class"@,
        class_name@ != "FIRST_CLASS"@ && class_name@ != "SECOND_CLASS"@ ==> r@ == class_name@,
{
    proof {
        reveal_strlit("FIRST_CLASS");
        reveal_strlit("SECOND_CLASS");
        assert("FIRST_CLASS"@[0] != "SECOND_CLASS"@[0]);
    }
    if same_text(class_name, "FIRST_CLASS") {
        String::from_str("1st class")
    } else if same_text(class_name, "SECOND_CLASS") {
        String::from_str("2nd class")
    } else {
        String::from_str(class_name)
    }
}

/// Makes the response that stands for a price taken from the cache: one
/// offer with that price, marked as the best option.
pub fn create_cached_response(price_cents: u32, travel_class: &str) -> (r: PriceApiResponse)
    ensures
        r@ == seq![cached_price(price_cents, travel_class@)],
{
    let signed: i32 = if price_cents <= 0x7fff_ffff {
        price_cents as i32
    } else {
        (price_cents as i64 - 0x1_0000_0000) as i32
    };
    let mut prices: Vec<Price> = Vec::new();
    prices.push(
        Price {
            travel_class: String::from_str(travel_class),
            total_price_in_cents: signed,
            price_per_adult_in_cents: signed,
            discount_in_cents: None,
            discount_type: String::from_str("NONE"),
            is_best_option: true,
            display_name: String::from_str("Cached Price"),
            operator_name: None,
        },
    );
    PriceApiResponse { payload: PricesResponse { prices } }
}

/// Decides how a price lookup goes on, as of today.
pub fn plan_prices(
    from: &Station,
    to: &Station,
    travel_class: Option<&str>,
    travel_type: Option<&str>,
    cache: Option<&PriceCache>,
) -> (plan: PricePlan)
    ensures
        exists|day: Date|
            day.wf() && plan@ == plan_of(cache, from, to, travel_class, travel_type, day),
{
    let day = today();
    plan_prices_on(from, to, travel_class, travel_type, cache, day)
}

/// Decides how a price lookup goes on, on the day `today`. The cache is
/// asked only for single trips; where it holds a valid price, that price is
/// the response, else the remote service has to be asked.
pub fn plan_prices_on(
    from: &Station,
    to: &Station,
    travel_class: Option<&str>,
    travel_type: Option<&str>,
    cache: Option<&PriceCache>,
    today: Date,
) -> (plan: PricePlan)
    ensures
        plan@ == plan_of(cache, from, to, travel_class, travel_type, today),
{
    if uses_cache(cache.is_some(), travel_type) {
        let hit = cache.unwrap().get_on(
            from.names.long.as_str(),
            to.names.long.as_str(),
            class_number(travel_class),
            today,
        );
        match hit {
            Some(price_cents) => {
                return PricePlan::Cached(
                    create_cached_response(price_cents, requested_class(travel_class)),
                );
            },
            None => {},
        }
    }
    PricePlan::Fetch(
        PriceRequest {
            from_station: from.id.uic_code.clone(),
            to_station: to.id.uic_code.clone(),
            travel_class: String::from_str(requested_class(travel_class)),
            travel_type: String::from_str(requested_type(travel_type)),
        },
    )
}

/// The cache after the answer of the remote service was seen on the day
/// `today`: for a single trip the first offer's total is stored, else
/// nothing changes.
pub open spec fn remembered(
    prices: Map<Seq<char>, crate::cache::models::EntryView>,
    from: &Station,
    to: &Station,
    travel_class: Option<&str>,
    travel_type: Option<&str>,
    response: &PriceApiResponse,
    today: Date,
) -> Map<Seq<char>, crate::cache::models::EntryView> {
    if cache_applies(true, travel_type) && response@.len() > 0 {
        with_price(
            prices,
            from@.long,
            to@.long,
            class_number_of(effective_class(travel_class)),
            cents_as_unsigned(response@[0].total_price_in_cents),
            today,
        )
    } else {
        prices
    }
}

/// Stores the first offer of a fetched response in the cache, as of today,
/// where the lookup was for a single trip.
pub fn remember_prices(
    cache: &mut PriceCache,
    from: &Station,
    to: &Station,
    travel_class: Option<&str>,
    travel_type: Option<&str>,
    response: &PriceApiResponse,
) -> (action: FileAction)
    ensures
        exists|day: Date|
            day.wf() && final(cache)@ == remembered(
                old(cache)@,
                from,
                to,
                travel_class,
                travel_type,
                response,
                day,
            ),
        action == FileAction::Rewrite <==> cache_applies(true, travel_type) && response@.len() > 0,
        final(cache).path_text() == old(cache).path_text(),
{
    let day = today();
    remember_prices_on(cache, from, to, travel_class, travel_type, response, day)
}

/// Stores the first offer of a fetched response in the cache, on the day
/// `today`, where the lookup was for a single trip. The backing file has to
/// be written again exactly when something was stored.
pub fn remember_prices_on(
    cache: &mut PriceCache,
    from: &Station,
    to: &Station,
    travel_class: Option<&str>,
    travel_type: Option<&str>,
    response: &PriceApiResponse,
    today: Date,
) -> (action: FileAction)
    ensures
        final(cache)@ == remembered(
            old(cache)@,
            from,
            to,
            travel_class,
            travel_type,
            response,
            today,
        ),
        action == FileAction::Rewrite <==> cache_applies(true, travel_type) && response@.len() > 0,
        final(cache).path_text() == old(cache).path_text(),
{
    if uses_cache(true, travel_type) && response.payload.prices.len() > 0 {
        let total = response.payload.prices[0].total_price_in_cents;
        let unsigned: u32 = if total >= 0 {
            total as u32
        } else {
            (total as i64 + 0x1_0000_0000) as u32
        };
        cache.set_on(
            from.names.long.as_str(),
            to.names.long.as_str(),
            class_number(travel_class),
            unsigned,
            today,
        )
    } else {
        FileAction::Leave
    }
}

impl PriceRequest {
    /// The query parameters of the request, as names and values in the
    /// order in which they are sent: the two stations, the class, the kind
    /// of trip, and the fixed party of one adult.
    pub fn query(&self) -> (r: Vec<(String, String)>)
        ensures
            r@.len() == 7,
            r@[0].0@ == "fromStation"@ && r@[0].1@ == self@.from_station,
            r@[1].0@ == "toStation"@ && r@[1].1@ == self@.to_station,
            r@[2].0@ == "travelClass"@ && r@[2].1@ == self@.travel_class,
            r@[3].0@ == "travelType"@ && r@[3].1@ == self@.travel_type,
            r@[4].0@ == "isJointJourney"@ && r@[4].1@ == "false"@,
            r@[5].0@ == "adults"@ && r@[5].1@ == "1"@,
            r@[6].0@ == "children"@ && r@[6].1@ == "0"@,
    {
        let mut r: Vec<(String, String)> = Vec::new();
        r.push((String::from_str("fromStation"), self.from_station.clone()));
        r.push((String::from_str("toStation"), self.to_station.clone()));
        r.push((String::from_str("travelClass"), self.travel_class.clone()));
        r.push((String::from_str("travelType"), self.travel_type.clone()));
        r.push((String::from_str("isJointJourney"), String::from_str("false")));
        r.push((String::from_str("adults"), String::from_str("1")));
        r.push((String::from_str("children"), String::from_str("0")));
        r
    }
}

} // verus!
