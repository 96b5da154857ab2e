use nstimes::prices::models::{Price, PriceApiResponse, PricesResponse};
use nstimes::server::{
    check_price_query, check_price_query_in, default_class, price_answer, resolve, PriceQuery,
};
use nstimes::stations::models::Station;
use nstimes::stations::{StationLookupResult, StationRecord};

fn offer(total: i32) -> Price {
    Price {
        total_price_in_cents: total,
        price_per_adult_in_cents: total,
        discount_in_cents: None,
        operator_name: None,
        discount_type: "NONE".to_string(),
        travel_class: "SECOND_CLASS".to_string(),
        display_name: "Single".to_string(),
        is_best_option: true,
    }
}

fn query(class: u8) -> PriceQuery {
    PriceQuery {
        from: Station::new("8400058".to_string(), "Amsterdam Centraal".to_string()),
        to: Station::new("8400054".to_string(), "Amsterdam Sloterdijk".to_string()),
        class,
    }
}

#[test]
fn default_class_is_second() {
    assert_eq!(default_class(), 2);
}

#[test]
fn class_outside_one_and_two_is_rejected_first() {
    for class in [0u8, 3, 255] {
        let rejection = check_price_query("nowhere", "amsterdam", class).unwrap_err();
        assert_eq!(rejection.status, 400);
        assert_eq!(rejection.body.error, "class must be 1 or 2");
        assert!(rejection.body.matches.is_none());
    }
}

#[test]
fn unknown_station_is_rejected() {
    let rejection = check_price_query("Utrecht", "Amsterdam Centraal", 2).unwrap_err();
    assert_eq!(rejection.status, 400);
    assert_eq!(rejection.body.error, "No stations found for 'from' query: Utrecht");
    assert!(rejection.body.matches.is_none());

    let rejection = check_price_query("Amsterdam Centraal", "Utrecht", 1).unwrap_err();
    assert_eq!(rejection.status, 400);
    assert_eq!(rejection.body.error, "No stations found for 'to' query: Utrecht");
}

#[test]
fn ambiguous_station_is_rejected_with_its_matches() {
    let rejection = check_price_query("amsterdam", "Utrecht", 2).unwrap_err();
    assert_eq!(rejection.status, 400);
    assert_eq!(
        rejection.body.error,
        "Multiple stations matched for 'from' query: amsterdam. Please refine your query."
    );
    let matches = rejection.body.matches.unwrap();
    assert_eq!(matches.len(), 2);
    assert_eq!(matches[0].name, "Amsterdam Centraal");
    assert_eq!(matches[0].uic_code, 8400058);
    assert_eq!(matches[1].name, "Amsterdam Sloterdijk");
    assert_eq!(matches[1].uic_code, 8400054);

    let rejection = check_price_query("Amsterdam Centraal", "dam", 2).unwrap_err();
    assert_eq!(
        rejection.body.error,
        "Multiple stations matched for 'to' query: dam. Please refine your query."
    );
    assert_eq!(rejection.body.matches.unwrap().len(), 2);
}

#[test]
fn good_request_resolves_both_stations() {
    let checked = check_price_query("centraal", "SLOTERDIJK", 1).unwrap();
    assert_eq!(checked.from.names.long, "Amsterdam Centraal");
    assert_eq!(checked.from.id.uic_code, "8400058");
    assert_eq!(checked.to.names.long, "Amsterdam Sloterdijk");
    assert_eq!(checked.to.id.uic_code, "8400054");
    assert_eq!(checked.class, 1);
}

#[test]
fn request_is_checked_against_a_given_table() {
    let table = vec![
        StationRecord { display_name: "Utrecht Centraal".to_string(), code: 8400621 },
        StationRecord { display_name: "Zwolle".to_string(), code: 8400747 },
    ];
    let checked = check_price_query_in(&table, "utrecht", "zwolle", 2).unwrap();
    assert_eq!(checked.from.id.uic_code, "8400621");
    assert_eq!(checked.to.names.long, "Zwolle");
    let rejection = check_price_query_in(&table, "amsterdam", "zwolle", 2).unwrap_err();
    assert_eq!(rejection.body.error, "No stations found for 'from' query: amsterdam");
    let rejection = check_price_query_in(&table, "utrecht", "zwolle", 9).unwrap_err();
    assert_eq!(rejection.body.error, "class must be 1 or 2");
}

#[test]
fn resolve_maps_each_lookup_result() {
    let station = resolve(
        "from",
        "x",
        StationLookupResult::Single(Station::new("1".to_string(), "One".to_string())),
    )
    .unwrap();
    assert_eq!(station.names.long, "One");
    let rejection = resolve("to", "x y", StationLookupResult::NoMatch).unwrap_err();
    assert_eq!(rejection.status, 400);
    assert_eq!(rejection.body.error, "No stations found for 'to' query: x y");
    let rejection = resolve(
        "to",
        "q",
        StationLookupResult::Multiple(vec![("A".to_string(), 1), ("B".to_string(), 2)]),
    )
    .unwrap_err();
    assert_eq!(
        rejection.body.error,
        "Multiple stations matched for 'to' query: q. Please refine your query."
    );
    let matches = rejection.body.matches.unwrap();
    assert_eq!(matches[0].name, "A");
    assert_eq!(matches[1].uic_code, 2);
}

#[test]
fn first_offer_is_the_answer() {
    let fetched = Ok(PriceApiResponse {
        payload: PricesResponse { prices: vec![offer(940), offer(1200)] },
    });
    let answer = price_answer(&query(2), &fetched).unwrap();
    assert_eq!(answer.from, "Amsterdam Centraal");
    assert_eq!(answer.to, "Amsterdam Sloterdijk");
    assert_eq!(answer.price_cents, 940);
    assert_eq!(answer.travel_class, "2nd class");
    let answer = price_answer(&query(1), &fetched).unwrap();
    assert_eq!(answer.travel_class, "1st class");
}

#[test]
fn no_offer_is_not_found() {
    let fetched = Ok(PriceApiResponse { payload: PricesResponse { prices: Vec::new() } });
    let rejection = price_answer(&query(2), &fetched).unwrap_err();
    assert_eq!(rejection.status, 404);
    assert_eq!(rejection.body.error, "No prices found for this route");
    assert!(rejection.body.matches.is_none());
}

#[test]
fn failed_lookup_is_a_server_error() {
    let fetched = Err("NS_API_TOKEN not found".to_string());
    let rejection = price_answer(&query(2), &fetched).unwrap_err();
    assert_eq!(rejection.status, 500);
    assert_eq!(rejection.body.error, "Failed to fetch prices: NS_API_TOKEN not found");
    assert!(rejection.body.matches.is_none());
}
