//! Resolving a free-text query to a station of a fixed table.

pub mod models;

use crate::stations::models::{Station, StationView};
use crate::text::{
    chars_of, contains_chars, decimal_text, int_to_string, is_substring, lowercase_of,
    percent_encoded, to_lowercase, url_encode,
};
use vstd::prelude::*;

verus! {

/// One entry of the station table.
#[derive(Debug)]
pub struct StationRecord {
    pub display_name: String,
    pub code: i32,
}

/// A table entry as contracts see it.
pub struct RecordView {
    pub display_name: Seq<char>,
    pub code: i32,
}

impl View for StationRecord {
    type V = RecordView;

    open spec fn view(&self) -> RecordView {
        RecordView { display_name: self.display_name@, code: self.code }
    }
}

/// What a query resolves to.
#[derive(Debug)]
pub enum StationLookupResult {
    /// Exactly one station.
    Single(Station),
    /// No station.
    NoMatch,
    /// Several stations, as (display name, code) in table order.
    Multiple(Vec<(String, i32)>),
}

/// A lookup result as contracts see it.
pub enum LookupView {
    Single(StationView),
    NoMatch,
    Multiple(Seq<RecordView>),
}

/// The candidates of an ambiguous result as table entries.
pub open spec fn candidates_view(found: Seq<(String, i32)>) -> Seq<RecordView> {
    found.map_values(|p: (String, i32)| RecordView { display_name: p.0@, code: p.1 })
}

impl View for StationLookupResult {
    type V = LookupView;

    open spec fn view(&self) -> LookupView {
        match self {
            StationLookupResult::Single(s) => LookupView::Single(s@),
            StationLookupResult::NoMatch => LookupView::NoMatch,
            StationLookupResult::Multiple(found) => LookupView::Multiple(candidates_view(found@)),
        }
    }
}

/// A table as contracts see it.
pub open spec fn table_view(table: Seq<StationRecord>) -> Seq<RecordView> {
    table.map_values(|r: StationRecord| r@)
}

/// The station that a table entry describes: the code in decimal, and the name.
pub open spec fn station_of(record: RecordView) -> StationView {
    StationView { uic_code: decimal_text(record.code as int), long: record.display_name }
}

/// The name equals the query when case is ignored.
pub open spec fn same_ignoring_case(name: Seq<char>, query: Seq<char>) -> bool {
    lowercase_of(name) == lowercase_of(query)
}

/// The name contains the query when case is ignored.
pub open spec fn holds_ignoring_case(name: Seq<char>, query: Seq<char>) -> bool {
    is_substring(lowercase_of(name), lowercase_of(query))
}

/// Entry `i` is the first of the table whose name equals the query, ignoring case.
pub open spec fn is_first_exact(table: Seq<RecordView>, query: Seq<char>, i: int) -> bool {
    &&& 0 <= i < table.len()
    &&& same_ignoring_case(table[i].display_name, query)
    &&& forall|j: int| 0 <= j < i ==> !same_ignoring_case(#[trigger] table[j].display_name, query)
}

/// No entry's name equals the query, ignoring case.
pub open spec fn no_exact(table: Seq<RecordView>, query: Seq<char>) -> bool {
    forall|j: int|
        0 <= j < table.len() ==> !same_ignoring_case(#[trigger] table[j].display_name, query)
}

/// The test that picks the entries whose name contains the query.
pub open spec fn holds_query(query: Seq<char>) -> spec_fn(RecordView) -> bool {
    |r: RecordView| holds_ignoring_case(r.display_name, query)
}

/// The entries whose name contains the query, ignoring case, in table order.
pub open spec fn partial_matches(table: Seq<RecordView>, query: Seq<char>) -> Seq<RecordView> {
    table.filter(holds_query(query))
}

/// The result for a list of candidates: none, the only one, or all of them.
pub open spec fn classify(found: Seq<RecordView>) -> LookupView {
    if found.len() == 0 {
        LookupView::NoMatch
    } else if found.len() == 1 {
        LookupView::Single(station_of(found[0]))
    } else {
        LookupView::Multiple(found)
    }
}

/// What a query resolves to in a table: the first entry that equals it when
/// case is ignored, and only if there is none, the entries that contain it.
pub open spec fn lookup_result(table: Seq<RecordView>, query: Seq<char>) -> LookupView {
    if exists|i: int| is_first_exact(table, query, i) {
        LookupView::Single(station_of(table[choose|i: int| is_first_exact(table, query, i)]))
    } else {
        classify(partial_matches(table, query))
    }
}

/// Builds the station that a table entry describes.
pub fn station_from_record(record: &StationRecord) -> (r: Station)
    ensures
        r@ == station_of(record@),
{
    Station::new(int_to_string(record.code as i64), record.display_name.clone())
}

/// Resolves `query` in `table`.
///
/// An entry whose name equals the query, ignoring case, wins over everything
/// else; the first such entry is returned. Without one, the entries whose name
/// contains the query, ignoring case, decide: none, the only one, or all of
/// them in table order.
pub fn lookup(table: &Vec<StationRecord>, query: &str) -> (r: StationLookupResult)
    ensures
        r@ == lookup_result(table_view(table@), query@),
{
    let ghost t = table_view(table@);
    let q = to_lowercase(query);
    let mut i: usize = 0;
    while i < table.len()
        invariant
            i <= table.len(),
            t == table_view(table@),
            q@ == lowercase_of(query@),
            forall|j: int| 0 <= j < i ==> !same_ignoring_case(#[trigger] t[j].display_name, query@),
        decreases table.len() - i,
    {
        let name = to_lowercase(table[i].display_name.as_str());
        if name == q {
            proof {
                assert(is_first_exact(t, query@, i as int));
            }
            return StationLookupResult::Single(station_from_record(&table[i]));
        }
        i += 1;
    }
    let needle = chars_of(q.as_str());
    let mut found: Vec<(String, i32)> = Vec::new();
    let mut k: usize = 0;
    while k < table.len()
        invariant
            k <= table.len(),
            t == table_view(table@),
            needle@ == lowercase_of(query@),
            candidates_view(found@) == partial_matches(t.take(k as int), query@),
        decreases table.len() - k,
    {
        let name = to_lowercase(table[k].display_name.as_str());
        let hay = chars_of(name.as_str());
        proof {
            reveal(Seq::filter);
            assert(t.take(k + 1).drop_last() =~= t.take(k as int));
        }
        if contains_chars(&hay, &needle) {
            found.push((table[k].display_name.clone(), table[k].code));
        }
        k += 1;
    }
    assert(t.take(table.len() as int) =~= t);
    if found.len() == 0 {
        StationLookupResult::NoMatch
    } else if found.len() == 1 {
        let only = &found[0];
        StationLookupResult::Single(Station::new(int_to_string(only.1 as i64), only.0.clone()))
    } else {
        StationLookupResult::Multiple(found)
    }
}

/// The built-in station table as contracts see it.
pub open spec fn builtin_table() -> Seq<RecordView> {
    seq![
        RecordView { display_name: "Amsterdam Centraal"@, code: 8400058 },
        RecordView { display_name: "Amsterdam Sloterdijk"@, code: 8400054 },
    ]
}

/// The built-in station table. Callers that hold a fuller list pass their own
/// to [`lookup`].
pub fn station_table() -> (table: Vec<StationRecord>)
    ensures
        table_view(table@) == builtin_table(),
{
    let mut table: Vec<StationRecord> = Vec::new();
    table.push(
        StationRecord { display_name: String::from_str("Amsterdam Centraal"), code: 8400058 },
    );
    table.push(
        StationRecord { display_name: String::from_str("Amsterdam Sloterdijk"), code: 8400054 },
    );
    table
}

/// Resolves `query` in the built-in station table.
pub fn lookup_station_local(query: &str) -> (r: StationLookupResult)
    ensures
        r@ == lookup_result(builtin_table(), query@),
{
    let table = station_table();
    lookup(&table, query)
}

/// A query that equals the name of one entry only, ignoring case, resolves to
/// that entry, whatever other names contain it.
pub proof fn lemma_exact_match_wins(table: Seq<RecordView>, query: Seq<char>, i: int)
    requires
        0 <= i < table.len(),
        same_ignoring_case(table[i].display_name, query),
        forall|j: int|
            0 <= j < table.len() && j != i ==> !same_ignoring_case(
                #[trigger] table[j].display_name,
                query,
            ),
    ensures
        lookup_result(table, query) == LookupView::Single(station_of(table[i])),
{
    assert(is_first_exact(table, query, i));
}

/// Where several names equal the query, ignoring case, the first of them in
/// table order is the result.
pub proof fn lemma_first_exact_match_wins(table: Seq<RecordView>, query: Seq<char>, i: int)
    requires
        is_first_exact(table, query, i),
    ensures
        lookup_result(table, query) == LookupView::Single(station_of(table[i])),
{
}

/// The entries that pass a test number at least two where two different
/// entries pass it.
proof fn lemma_two_pass_filter(table: Seq<RecordView>, pred: spec_fn(RecordView) -> bool, i: int, j: int)
    requires
        0 <= i < j < table.len(),
        pred(table[i]),
        pred(table[j]),
    ensures
        table.filter(pred).len() >= 2,
    decreases table.len(),
{
    reveal(Seq::filter);
    let front = table.drop_last();
    if j == table.len() - 1 {
        front.lemma_filter_contains(pred, i);
    } else {
        lemma_two_pass_filter(front, pred, i, j);
    }
}

/// The entries that pass a test are none where no entry passes it, and the
/// one entry alone where no other passes it.
proof fn lemma_few_pass_filter(table: Seq<RecordView>, pred: spec_fn(RecordView) -> bool)
    ensures
        (forall|j: int| 0 <= j < table.len() ==> !pred(#[trigger] table[j])) ==> table.filter(
            pred,
        ).len() == 0,
        forall|i: int|
            0 <= i < table.len() && pred(#[trigger] table[i]) && (forall|j: int|
                0 <= j < table.len() && j != i ==> !pred(#[trigger] table[j])) ==> table.filter(
                pred,
            ) == seq![table[i]],
    decreases table.len(),
{
    reveal(Seq::filter);
    if table.len() > 0 {
        let front = table.drop_last();
        lemma_few_pass_filter(front, pred);
        assert forall|i: int|
            0 <= i < table.len() && pred(#[trigger] table[i]) && (forall|j: int|
                0 <= j < table.len() && j != i ==> !pred(#[trigger] table[j])) implies table.filter(
            pred,
        ) == seq![table[i]] by {
            if i < table.len() - 1 {
                assert(front[i] == table[i]);
            }
        }
    }
}

/// The listed entries `k1` and `k2` come from two places of the table that
/// stand in the same order.
pub open spec fn in_table_order(
    table: Seq<RecordView>,
    listed: Seq<RecordView>,
    k1: int,
    k2: int,
) -> bool {
    exists|i1: int, i2: int|
        0 <= i1 < i2 < table.len() && #[trigger] table[i1] == listed[k1] && #[trigger] table[i2]
            == listed[k2]
}

/// The entries that pass a test stand in the order of the table: of two
/// listed entries, the earlier one comes from an earlier place in the table.
proof fn lemma_filter_keeps_order(table: Seq<RecordView>, pred: spec_fn(RecordView) -> bool)
    ensures
        forall|k1: int, k2: int|
            0 <= k1 < k2 < table.filter(pred).len() ==> #[trigger] in_table_order(
                table,
                table.filter(pred),
                k1,
                k2,
            ),
    decreases table.len(),
{
    reveal(Seq::filter);
    if table.len() > 0 {
        let front = table.drop_last();
        let kept = front.filter(pred);
        let listed = table.filter(pred);
        lemma_filter_keeps_order(front, pred);
        assert forall|k1: int, k2: int| 0 <= k1 < k2 < listed.len() implies #[trigger] in_table_order(
            table,
            listed,
            k1,
            k2,
        ) by {
            if k2 < kept.len() {
                assert(in_table_order(front, kept, k1, k2));
            } else {
                front.lemma_filter_contains_rev(pred, kept[k1]);
            }
        }
    }
}

/// A query that no name equals or contains, ignoring case, resolves to nothing.
pub proof fn lemma_no_match(table: Seq<RecordView>, query: Seq<char>)
    requires
        forall|j: int|
            0 <= j < table.len() ==> !same_ignoring_case(#[trigger] table[j].display_name, query)
                && !holds_ignoring_case(table[j].display_name, query),
    ensures
        lookup_result(table, query) == LookupView::NoMatch,
{
    lemma_few_pass_filter(table, holds_query(query));
}

/// A query that no name equals and that exactly one name contains, ignoring
/// case, resolves to that entry.
pub proof fn lemma_single_partial_match(table: Seq<RecordView>, query: Seq<char>, i: int)
    requires
        no_exact(table, query),
        0 <= i < table.len(),
        holds_ignoring_case(table[i].display_name, query),
        forall|j: int|
            0 <= j < table.len() && j != i ==> !holds_ignoring_case(
                #[trigger] table[j].display_name,
                query,
            ),
    ensures
        lookup_result(table, query) == LookupView::Single(station_of(table[i])),
{
    lemma_few_pass_filter(table, holds_query(query));
}

/// A query that no name equals and that two or more names contain, ignoring
/// case, resolves to all the entries that contain it, in table order: each
/// listed entry contains the query, every entry that contains it is listed,
/// and the list keeps the order of the table.
pub proof fn lemma_ambiguous_match(table: Seq<RecordView>, query: Seq<char>, i: int, j: int)
    requires
        no_exact(table, query),
        0 <= i < j < table.len(),
        holds_ignoring_case(table[i].display_name, query),
        holds_ignoring_case(table[j].display_name, query),
    ensures
        lookup_result(table, query) == LookupView::Multiple(partial_matches(table, query)),
        partial_matches(table, query).len() >= 2,
        forall|k: int|
            0 <= k < partial_matches(table, query).len() ==> holds_ignoring_case(
                (#[trigger] partial_matches(table, query)[k]).display_name,
                query,
            ),
        forall|k: int|
            0 <= k < table.len() && holds_ignoring_case(table[k].display_name, query)
                ==> partial_matches(table, query).contains(#[trigger] table[k]),
        forall|k1: int, k2: int|
            0 <= k1 < k2 < partial_matches(table, query).len() ==> #[trigger] in_table_order(
                table,
                partial_matches(table, query),
                k1,
                k2,
            ),
{
    let pred = holds_query(query);
    lemma_two_pass_filter(table, pred, i, j);
    lemma_filter_keeps_order(table, pred);
    assert forall|k: int| 0 <= k < table.filter(pred).len() implies holds_ignoring_case(
        (#[trigger] table.filter(pred)[k]).display_name,
        query,
    ) by {
        table.lemma_filter_pred(pred, k);
    }
    assert forall|k: int|
        0 <= k < table.len() && holds_ignoring_case(
            table[k].display_name,
            query,
        ) implies table.filter(pred).contains(#[trigger] table[k]) by {
        table.lemma_filter_contains(pred, k);
    }
}

/// Why a query did not resolve to one station.
#[derive(Debug)]
pub enum StationError {
    /// The query matched nothing.
    NoMatch,
    /// The query matched several stations; they are listed in the order found.
    AmbiguousMatch(Vec<Station>),
}

impl StationError {
    /// The message shown to the user for this error.
    pub fn message(&self) -> (r: String)
        ensures
            self is NoMatch ==> r@ == "❌ No stations found for your query"@,
            self is AmbiguousMatch ==> r@
                == "⚠️ Multiple stations matched. Please refine your query."@,
    {
        match self {
            StationError::NoMatch => String::from_str("❌ No stations found for your query"),
            StationError::AmbiguousMatch(_) => String::from_str(
                "⚠️ Multiple stations matched. Please refine your query.",
            ),
        }
    }
}

/// A list of stations as contracts see it.
pub open spec fn stations_view(stations: Seq<Station>) -> Seq<StationView> {
    stations.map_values(|s: Station| s@)
}

/// The outcome of picking one station, as contracts see it.
pub enum PickView {
    Picked(StationView),
    NoMatch,
    Ambiguous(Seq<StationView>),
}

/// The view of the outcome of picking one station.
pub open spec fn pick_view(r: Result<Station, StationError>) -> PickView {
    match r {
        Ok(s) => PickView::Picked(s@),
        Err(StationError::NoMatch) => PickView::NoMatch,
        Err(StationError::AmbiguousMatch(found)) => PickView::Ambiguous(stations_view(found@)),
    }
}

/// A lookup result read as the outcome of picking one station.
pub open spec fn pick_of_lookup(found: LookupView) -> PickView {
    match found {
        LookupView::Single(s) => PickView::Picked(s),
        LookupView::NoMatch => PickView::NoMatch,
        LookupView::Multiple(m) => PickView::Ambiguous(m.map_values(|r: RecordView| station_of(r))),
    }
}

/// Turns a lookup result into one station or the reason why there is none.
pub fn pick_from_lookup(found: StationLookupResult) -> (r: Result<Station, StationError>)
    ensures
        pick_view(r) == pick_of_lookup(found@),
{
    match found {
        StationLookupResult::Single(s) => Ok(s),
        StationLookupResult::NoMatch => Err(StationError::NoMatch),
        StationLookupResult::Multiple(candidates) => {
            let mut stations: Vec<Station> = Vec::new();
            let mut i: usize = 0;
            let ghost wanted = candidates_view(candidates@).map_values(
                |r: RecordView| station_of(r),
            );
            while i < candidates.len()
                invariant
                    i <= candidates.len(),
                    wanted == candidates_view(candidates@).map_values(
                        |r: RecordView| station_of(r),
                    ),
                    stations_view(stations@) == wanted.take(i as int),
                decreases candidates.len() - i,
            {
                let c = &candidates[i];
                let ghost before = stations_view(stations@);
                stations.push(Station::new(int_to_string(c.1 as i64), c.0.clone()));
                assert(stations_view(stations@) =~= before.push(wanted[i as int]));
                i += 1;
            }
            assert(wanted.take(candidates.len() as int) =~= wanted);
            Err(StationError::AmbiguousMatch(stations))
        },
    }
}

/// Resolves `query` in `table` to one station, or reports that nothing
/// matched or which stations did.
pub fn pick_station_in(table: &Vec<StationRecord>, query: &str) -> (r: Result<
    Station,
    StationError,
>)
    ensures
        pick_view(r) == pick_of_lookup(lookup_result(table_view(table@), query@)),
{
    pick_from_lookup(lookup(table, query))
}

/// Resolves `query` in the built-in station table to one station, or reports
/// that nothing matched or which stations did.
pub fn pick_station_local(query: &str) -> (r: Result<Station, StationError>)
    ensures
        pick_view(r) == pick_of_lookup(lookup_result(builtin_table(), query@)),
{
    let table = station_table();
    pick_station_in(&table, query)
}

/// Picks the station of a remote search response: the only one, or the reason
/// why there is none to pick.
pub fn select_station(payload: Vec<Station>) -> (r: Result<Station, StationError>)
    ensures
        payload.len() == 0 ==> pick_view(r) == PickView::NoMatch,
        payload.len() == 1 ==> pick_view(r) == PickView::Picked(payload[0]@),
        payload.len() >= 2 ==> pick_view(r) == PickView::Ambiguous(stations_view(payload@)),
{
    if payload.len() == 0 {
        Err(StationError::NoMatch)
    } else if payload.len() == 1 {
        Ok(payload[0].duplicate())
    } else {
        Err(StationError::AmbiguousMatch(payload))
    }
}

/// The address of the remote station search for `query`, with the query
/// percent-encoded.
pub fn station_search_url(query: &str) -> (r: String)
    ensures
        r@ == "https://gateway.apiportal.ns.nl/nsapp-stations/v3?q="@ + percent_encoded(
            vstd::utf8::encode_utf8(query@),
        ) + "&includeNonPlannableStations=false&limit=10"@,
{
    let encoded = url_encode(query);
    String::from_str("https://gateway.apiportal.ns.nl/nsapp-stations/v3?q=").concat(
        encoded.as_str(),
    ).concat("&includeNonPlannableStations=false&limit=10")
}

/// The line that lists a station among several matches: code, ` - `, name.
pub fn listing_line(station: &Station) -> (r: String)
    ensures
        r@ == station@.uic_code + " - "@ + station@.long,
{
    station.id.uic_code.clone().concat(" - ").concat(station.names.long.as_str())
}

} // verus!
