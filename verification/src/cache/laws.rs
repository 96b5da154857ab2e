//! What holds of the cache's keys and of its operations taken together.

use crate::cache::models::{lemma_fresh_entry_expiry, EntryView};
use crate::cache::service::{cache_key, expired_keys, stored_price, with_price, without_expired};
use crate::dates::{Date, MAX_PLAIN_YEAR};
use crate::text::{decimal_text, lemma_decimal_text_injective, lemma_precedes_total, precedes};
use vstd::prelude::*;

verus! {

/// A station pair and its reverse have the same key.
pub proof fn lemma_key_ignores_direction(a: Seq<char>, b: Seq<char>, travel_class: u8)
    ensures
        cache_key(a, b, travel_class) == cache_key(b, a, travel_class),
{
    lemma_precedes_total(a, b);
}

/// One station pair has different keys in different travel classes.
pub proof fn lemma_key_tells_classes_apart(a: Seq<char>, b: Seq<char>, c1: u8, c2: u8)
    requires
        c1 != c2,
    ensures
        cache_key(a, b, c1) != cache_key(a, b, c2),
{
    let head = if precedes(a, b) {
        a + seq!['-'] + b + seq!['-']
    } else {
        b + seq!['-'] + a + seq!['-']
    };
    let k1 = cache_key(a, b, c1);
    let k2 = cache_key(a, b, c2);
    if k1 == k2 {
        assert(decimal_text(c1 as int) =~= k1.subrange(head.len() as int, k1.len() as int));
        assert(decimal_text(c2 as int) =~= k2.subrange(head.len() as int, k2.len() as int));
        lemma_decimal_text_injective(c1 as int, c2 as int);
    }
}

/// A price stored on some day is found on that day, for the pair and for its
/// reverse, as long as the next year is one that reads back from its stored
/// form (a year up to 9999).
pub proof fn lemma_set_then_get(
    prices: Map<Seq<char>, EntryView>,
    a: Seq<char>,
    b: Seq<char>,
    travel_class: u8,
    price_cents: u32,
    today: Date,
)
    requires
        today.wf(),
        today.year < MAX_PLAIN_YEAR,
    ensures
        stored_price(
            with_price(prices, a, b, travel_class, price_cents, today),
            a,
            b,
            travel_class,
            today,
        ) == Some(price_cents),
        stored_price(
            with_price(prices, a, b, travel_class, price_cents, today),
            b,
            a,
            travel_class,
            today,
        ) == Some(price_cents),
{
    lemma_key_ignores_direction(a, b, travel_class);
    lemma_fresh_entry_expiry(price_cents, travel_class, today);
}

/// Storing a price in one travel class leaves what is found for the same pair
/// in another class as it was: absent, if it was absent.
pub proof fn lemma_classes_are_isolated(
    prices: Map<Seq<char>, EntryView>,
    a: Seq<char>,
    b: Seq<char>,
    stored_class: u8,
    other_class: u8,
    price_cents: u32,
    stored_on: Date,
    today: Date,
)
    requires
        stored_class != other_class,
    ensures
        stored_price(
            with_price(prices, a, b, stored_class, price_cents, stored_on),
            a,
            b,
            other_class,
            today,
        ) == stored_price(prices, a, b, other_class, today),
        !prices.contains_key(cache_key(a, b, other_class)) ==> stored_price(
            with_price(prices, a, b, stored_class, price_cents, stored_on),
            a,
            b,
            other_class,
            today,
        ) is None,
{
    lemma_key_tells_classes_apart(a, b, stored_class, other_class);
}

/// An entry whose expiry lies strictly before `today` is not found by a
/// lookup, is among the keys counted as expired, and is gone after a cleanup.
pub proof fn lemma_past_expiry(
    prices: Map<Seq<char>, EntryView>,
    a: Seq<char>,
    b: Seq<char>,
    travel_class: u8,
    today: Date,
)
    requires
        prices.contains_key(cache_key(a, b, travel_class)),
        prices[cache_key(a, b, travel_class)].expiry() is Some,
        prices[cache_key(a, b, travel_class)].expiry()->0.before(today),
    ensures
        stored_price(prices, a, b, travel_class, today) is None,
        expired_keys(prices, today).contains(cache_key(a, b, travel_class)),
        !without_expired(prices, today).contains_key(cache_key(a, b, travel_class)),
{
}

/// A cleanup removes the expired entries and nothing else: every other entry
/// stays as it was, and every lookup gives what it gave before.
pub proof fn lemma_cleanup_keeps_valid(
    prices: Map<Seq<char>, EntryView>,
    a: Seq<char>,
    b: Seq<char>,
    travel_class: u8,
    today: Date,
)
    ensures
        forall|key: Seq<char>|
            prices.contains_key(key) && !prices[key].expired_on(today) ==> without_expired(
                prices,
                today,
            ).contains_key(key) && without_expired(prices, today)[key] == prices[key],
        forall|key: Seq<char>| #[trigger]
            without_expired(prices, today).contains_key(key) ==> prices.contains_key(key)
                && !prices[key].expired_on(today),
        stored_price(without_expired(prices, today), a, b, travel_class, today) == stored_price(
            prices,
            a,
            b,
            travel_class,
            today,
        ),
        expired_keys(without_expired(prices, today), today) == Set::<Seq<char>>::empty(),
{
}

} // verus!
