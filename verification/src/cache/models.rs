//! One cached price and its expiry.

use crate::dates::{
    date_of_text, lemma_date_of_year_start_text, parse_date, today, year_start,
    year_start_string, year_start_text, Date, MAX_PLAIN_YEAR,
};
use vstd::prelude::*;

verus! {

/// A cached price with its expiry date.
#[derive(Debug, Clone)]
pub struct CacheEntry {
    /// The price in cents.
    pub price_cents: u32,
    /// The travel class, 1 or 2.
    pub travel_class: u8,
    /// The first day on which the price is no longer valid, as `YYYY-MM-DD`.
    pub expires_at: String,
}

/// A cache entry as contracts see it.
pub struct EntryView {
    pub price_cents: u32,
    pub travel_class: u8,
    pub expires_at: Seq<char>,
}

impl EntryView {
    /// The day the entry expires on, where its text stands for a date.
    pub open spec fn expiry(self) -> Option<Date> {
        date_of_text(self.expires_at)
    }

    /// The entry is no longer valid on `today`: its expiry is that day or an
    /// earlier one, or its expiry text stands for no date.
    pub open spec fn expired_on(self, today: Date) -> bool {
        match self.expiry() {
            Some(expiry) => !today.before(expiry),
            None => true,
        }
    }
}

/// The entry that is made on `today` for a price: it expires on January 1st
/// of the next year.
pub open spec fn fresh_entry(price_cents: u32, travel_class: u8, today: Date) -> EntryView {
    EntryView { price_cents, travel_class, expires_at: year_start_text(today.year + 1) }
}

impl View for CacheEntry {
    type V = EntryView;

    open spec fn view(&self) -> EntryView {
        EntryView {
            price_cents: self.price_cents,
            travel_class: self.travel_class,
            expires_at: self.expires_at@,
        }
    }
}

/// An entry made on a day of a year up to 9998 expires on January 1st of the
/// next year, and so is valid on the day it was made.
pub proof fn lemma_fresh_entry_expiry(price_cents: u32, travel_class: u8, today: Date)
    requires
        today.wf(),
        today.year < MAX_PLAIN_YEAR,
    ensures
        fresh_entry(price_cents, travel_class, today).expiry() == Some(
            year_start(today.year + 1),
        ),
        !fresh_entry(price_cents, travel_class, today).expired_on(today),
{
    lemma_date_of_year_start_text(today.year + 1);
}

impl CacheEntry {
    /// Makes an entry that expires on the next January 1st after today.
    pub fn new(price_cents: u32, travel_class: u8) -> (r: Self)
        ensures
            exists|day: Date| day.wf() && r@ == fresh_entry(price_cents, travel_class, day),
    {
        let day = today();
        Self::new_on(price_cents, travel_class, day)
    }

    /// Makes an entry on the day `today`: it expires on January 1st of the
    /// next year.
    pub fn new_on(price_cents: u32, travel_class: u8, today: Date) -> (r: Self)
        ensures
            r@ == fresh_entry(price_cents, travel_class, today),
    {
        CacheEntry { price_cents, travel_class, expires_at: Self::next_january_first(today) }
    }

    /// The stored form of the first January 1st after `today`.
    pub fn next_january_first(today: Date) -> (r: String)
        ensures
            r@ == year_start_text(today.year + 1),
    {
        year_start_string(today.year as i64 + 1)
    }

    /// Tests whether the entry has expired today.
    pub fn is_expired(&self) -> (r: bool)
        ensures
            exists|day: Date| day.wf() && r == self@.expired_on(day),
    {
        let day = today();
        self.is_expired_on(day)
    }

    /// Tests whether the entry has expired on the day `today`. An entry whose
    /// expiry text stands for no date counts as expired.
    pub fn is_expired_on(&self, today: Date) -> (r: bool)
        ensures
            r == self@.expired_on(today),
    {
        match parse_date(self.expires_at.as_str()) {
            Some(expiry) => !today.is_before(&expiry),
            None => true,
        }
    }

    /// A copy of this entry.
    pub fn duplicate(&self) -> (r: Self)
        ensures
            r@ == self@,
    {
        CacheEntry {
            price_cents: self.price_cents,
            travel_class: self.travel_class,
            expires_at: self.expires_at.clone(),
        }
    }
}

} // verus!
