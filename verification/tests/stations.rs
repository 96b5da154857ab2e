use nstimes::stations::models::Station;
use nstimes::stations::{
    listing_line, lookup, lookup_station_local, pick_from_lookup, pick_station_in,
    pick_station_local, select_station, station_from_record, station_search_url, station_table,
    StationError, StationLookupResult, StationRecord,
};

fn record(name: &str, code: i32) -> StationRecord {
    StationRecord { display_name: name.to_string(), code }
}

fn two_amsterdams() -> Vec<StationRecord> {
    vec![record("Amsterdam Centraal", 8400058), record("Amsterdam Sloterdijk", 8400054)]
}

fn wide_table() -> Vec<StationRecord> {
    vec![
        record("Amsterdam Centraal", 8400058),
        record("Amsterdam Sloterdijk", 8400054),
        record("Utrecht Centraal", 8400621),
        record("Utrecht", 1),
        record("Den Haag Centraal", 8400282),
        record("Haag", 2),
        record("UTRECHT", 3),
        record("Überlingen", 4),
    ]
}

fn single(result: StationLookupResult) -> (String, String) {
    match result {
        StationLookupResult::Single(s) => (s.names.long, s.id.uic_code),
        other => panic!("expected one station, got {:?}", other),
    }
}

fn multiple(result: StationLookupResult) -> Vec<(String, i32)> {
    match result {
        StationLookupResult::Multiple(found) => found,
        other => panic!("expected several stations, got {:?}", other),
    }
}

#[test]
fn ambiguous_query_lists_both_in_table_order() {
    let found = multiple(lookup(&two_amsterdams(), "amsterdam"));
    assert_eq!(
        found,
        vec![
            ("Amsterdam Centraal".to_string(), 8400058),
            ("Amsterdam Sloterdijk".to_string(), 8400054)
        ]
    );
}

#[test]
fn exact_name_gives_single() {
    let (name, code) = single(lookup(&two_amsterdams(), "Amsterdam Centraal"));
    assert_eq!(name, "Amsterdam Centraal");
    assert_eq!(code, "8400058");
}

#[test]
fn unknown_name_gives_no_match() {
    assert!(matches!(lookup(&two_amsterdams(), "Utrecht"), StationLookupResult::NoMatch));
}

#[test]
fn built_in_table_scenario() {
    let found = multiple(lookup_station_local("amsterdam"));
    assert_eq!(
        found,
        vec![
            ("Amsterdam Centraal".to_string(), 8400058),
            ("Amsterdam Sloterdijk".to_string(), 8400054)
        ]
    );
    let (name, code) = single(lookup_station_local("Amsterdam Centraal"));
    assert_eq!(name, "Amsterdam Centraal");
    assert_eq!(code, "8400058");
    assert!(matches!(lookup_station_local("Utrecht"), StationLookupResult::NoMatch));
}

#[test]
fn built_in_table_holds_its_entries() {
    let table = station_table();
    assert_eq!(table.len(), 2);
    assert_eq!(table[0].display_name, "Amsterdam Centraal");
    assert_eq!(table[0].code, 8400058);
    assert_eq!(table[1].display_name, "Amsterdam Sloterdijk");
    assert_eq!(table[1].code, 8400054);
}

#[test]
fn exact_match_wins_over_substring_matches() {
    // "utrecht" is contained in three names and equals two of them, ignoring case
    let (name, code) = single(lookup(&wide_table(), "utrecht"));
    assert_eq!(name, "Utrecht");
    assert_eq!(code, "1");
    let (name, code) = single(lookup(&wide_table(), "HAAG"));
    assert_eq!(name, "Haag");
    assert_eq!(code, "2");
}

#[test]
fn first_of_several_exact_matches_wins() {
    let table = vec![record("UTRECHT", 3), record("Utrecht", 1), record("utrecht", 9)];
    let (name, code) = single(lookup(&table, "uTrEcHt"));
    assert_eq!(name, "UTRECHT");
    assert_eq!(code, "3");
}

#[test]
fn single_substring_match_gives_single() {
    let (name, code) = single(lookup(&wide_table(), "sloter"));
    assert_eq!(name, "Amsterdam Sloterdijk");
    assert_eq!(code, "8400054");
    let (name, _) = single(lookup(&wide_table(), "DEN H"));
    assert_eq!(name, "Den Haag Centraal");
}

#[test]
fn substring_matches_keep_table_order() {
    let found = multiple(lookup(&wide_table(), "centraal"));
    assert_eq!(
        found,
        vec![
            ("Amsterdam Centraal".to_string(), 8400058),
            ("Utrecht Centraal".to_string(), 8400621),
            ("Den Haag Centraal".to_string(), 8400282)
        ]
    );
}

#[test]
fn case_is_ignored_beyond_ascii() {
    let (name, code) = single(lookup(&wide_table(), "überlingen"));
    assert_eq!(name, "Überlingen");
    assert_eq!(code, "4");
    let (name, _) = single(lookup(&wide_table(), "ÜBERL"));
    assert_eq!(name, "Überlingen");
}

#[test]
fn empty_query_matches_every_entry() {
    let found = multiple(lookup(&two_amsterdams(), ""));
    assert_eq!(found.len(), 2);
    let one = vec![record("Zwolle", 8400747)];
    let (name, _) = single(lookup(&one, ""));
    assert_eq!(name, "Zwolle");
}

#[test]
fn empty_table_matches_nothing() {
    let table: Vec<StationRecord> = Vec::new();
    assert!(matches!(lookup(&table, "anything"), StationLookupResult::NoMatch));
    assert!(matches!(lookup(&table, ""), StationLookupResult::NoMatch));
}

#[test]
fn query_longer_than_every_name_matches_nothing() {
    assert!(matches!(
        lookup(&two_amsterdams(), "Amsterdam Centraal Station Hal"),
        StationLookupResult::NoMatch
    ));
}

#[test]
fn match_at_the_end_of_a_name_is_found() {
    let (name, _) = single(lookup(&two_amsterdams(), "dijk"));
    assert_eq!(name, "Amsterdam Sloterdijk");
    let (name, _) = single(lookup(&two_amsterdams(), "k"));
    assert_eq!(name, "Amsterdam Sloterdijk");
}

#[test]
fn negative_code_is_written_with_its_sign() {
    let station = station_from_record(&record("Nowhere", -17));
    assert_eq!(station.id.uic_code, "-17");
    assert_eq!(station.names.long, "Nowhere");
    let lowest = station_from_record(&record("Lowest", i32::MIN));
    assert_eq!(lowest.id.uic_code, "-2147483648");
    let highest = station_from_record(&record("Highest", i32::MAX));
    assert_eq!(highest.id.uic_code, "2147483647");
    let zero = station_from_record(&record("Zero", 0));
    assert_eq!(zero.id.uic_code, "0");
}

#[test]
fn pick_local_reports_no_match() {
    match pick_station_local("Utrecht") {
        Err(StationError::NoMatch) => {}
        other => panic!("expected no match, got {:?}", other),
    }
    assert_eq!(StationError::NoMatch.message(), "❌ No stations found for your query");
}

#[test]
fn pick_local_reports_candidates() {
    match pick_station_local("amsterdam") {
        Err(StationError::AmbiguousMatch(found)) => {
            assert_eq!(found.len(), 2);
            assert_eq!(listing_line(&found[0]), "8400058 - Amsterdam Centraal");
            assert_eq!(listing_line(&found[1]), "8400054 - Amsterdam Sloterdijk");
            assert_eq!(
                StationError::AmbiguousMatch(found).message(),
                "⚠️ Multiple stations matched. Please refine your query."
            );
        }
        other => panic!("expected candidates, got {:?}", other),
    }
}

#[test]
fn pick_local_gives_the_station() {
    let station = pick_station_local("amsterdam sloterdijk").unwrap();
    assert_eq!(station.names.long, "Amsterdam Sloterdijk");
    assert_eq!(station.id.uic_code, "8400054");
}

#[test]
fn pick_in_a_given_table() {
    let station = pick_station_in(&wide_table(), "den haag").unwrap();
    assert_eq!(station.names.long, "Den Haag Centraal");
    assert_eq!(station.id.uic_code, "8400282");
    assert!(matches!(pick_station_in(&wide_table(), "paris"), Err(StationError::NoMatch)));
    match pick_station_in(&wide_table(), "centraal") {
        Err(StationError::AmbiguousMatch(found)) => assert_eq!(found.len(), 3),
        other => panic!("expected candidates, got {:?}", other),
    }
}

#[test]
fn pick_from_lookup_maps_each_variant() {
    assert!(matches!(
        pick_from_lookup(StationLookupResult::NoMatch),
        Err(StationError::NoMatch)
    ));
    let picked = pick_from_lookup(StationLookupResult::Single(Station::new(
        "7".to_string(),
        "Seven".to_string(),
    )))
    .unwrap();
    assert_eq!(picked.id.uic_code, "7");
    assert_eq!(picked.names.long, "Seven");
    match pick_from_lookup(StationLookupResult::Multiple(vec![
        ("One".to_string(), 1),
        ("Two".to_string(), -2),
    ])) {
        Err(StationError::AmbiguousMatch(found)) => {
            assert_eq!(found.len(), 2);
            assert_eq!(found[0].names.long, "One");
            assert_eq!(found[0].id.uic_code, "1");
            assert_eq!(found[1].names.long, "Two");
            assert_eq!(found[1].id.uic_code, "-2");
        }
        other => panic!("expected candidates, got {:?}", other),
    }
}

#[test]
fn select_station_by_payload_size() {
    assert!(matches!(select_station(Vec::new()), Err(StationError::NoMatch)));
    let one = select_station(vec![Station::new("8400621".to_string(), "Utrecht Centraal".to_string())])
        .unwrap();
    assert_eq!(one.id.uic_code, "8400621");
    assert_eq!(one.names.long, "Utrecht Centraal");
    match select_station(vec![
        Station::new("1".to_string(), "A".to_string()),
        Station::new("2".to_string(), "B".to_string()),
        Station::new("3".to_string(), "C".to_string()),
    ]) {
        Err(StationError::AmbiguousMatch(found)) => {
            assert_eq!(found.len(), 3);
            assert_eq!(found[2].names.long, "C");
        }
        other => panic!("expected candidates, got {:?}", other),
    }
}

#[test]
fn search_url_percent_encodes_the_query() {
    assert_eq!(
        station_search_url("Utrecht"),
        "https://gateway.apiportal.ns.nl/nsapp-stations/v3?q=Utrecht&includeNonPlannableStations=false&limit=10"
    );
    assert_eq!(
        station_search_url("Den Haag"),
        "https://gateway.apiportal.ns.nl/nsapp-stations/v3?q=Den%20Haag&includeNonPlannableStations=false&limit=10"
    );
    assert_eq!(
        station_search_url("a-b_c.d~e/f&g=é"),
        "https://gateway.apiportal.ns.nl/nsapp-stations/v3?q=a-b_c.d~e%2Ff%26g%3D%C3%A9&includeNonPlannableStations=false&limit=10"
    );
    assert_eq!(
        station_search_url(""),
        "https://gateway.apiportal.ns.nl/nsapp-stations/v3?q=&includeNonPlannableStations=false&limit=10"
    );
}

#[test]
fn station_duplicate_keeps_both_fields() {
    let station = Station::new("8400058".to_string(), "Amsterdam Centraal".to_string());
    let copy = station.duplicate();
    assert_eq!(copy.id.uic_code, "8400058");
    assert_eq!(copy.names.long, "Amsterdam Centraal");
}
