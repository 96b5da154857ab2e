//! The cache itself: lookup, update, cleanup and statistics.

use crate::cache::models::{fresh_entry, CacheEntry, EntryView};
use crate::dates::{today, Date};
use crate::text::{decimal_text, nat_to_string, precedes, text_precedes};
use vstd::prelude::*;

verus! {

/// The key under which the price for a station pair and a travel class is
/// kept: the two names in lexicographic order, then the class in decimal,
/// joined by hyphens.
pub open spec fn cache_key(from: Seq<char>, to: Seq<char>, travel_class: u8) -> Seq<char> {
    if precedes(from, to) {
        from + seq!['-'] + to + seq!['-'] + decimal_text(travel_class as int)
    } else {
        to + seq!['-'] + from + seq!['-'] + decimal_text(travel_class as int)
    }
}

/// The mapping that a list of (key, entry) pairs stands for. Where a key
/// occurs more than once, the last pair with it counts.
pub open spec fn pairs_map(pairs: Seq<(Seq<char>, EntryView)>) -> Map<Seq<char>, EntryView>
    decreases pairs.len(),
{
    if pairs.len() == 0 {
        Map::empty()
    } else {
        pairs_map(pairs.drop_last()).insert(pairs.last().0, pairs.last().1)
    }
}

/// A list of keys and entries as contracts see it.
pub open spec fn pairs_view(pairs: Seq<(String, CacheEntry)>) -> Seq<(Seq<char>, EntryView)> {
    pairs.map_values(|p: (String, CacheEntry)| (p.0@, p.1@))
}

/// What a lookup of the pair and class gives on the day `today`: the stored
/// price, unless there is no entry or the entry has expired.
pub open spec fn stored_price(
    prices: Map<Seq<char>, EntryView>,
    from: Seq<char>,
    to: Seq<char>,
    travel_class: u8,
    today: Date,
) -> Option<u32> {
    let key = cache_key(from, to, travel_class);
    if prices.contains_key(key) && !prices[key].expired_on(today) {
        Some(prices[key].price_cents)
    } else {
        None
    }
}

/// The mapping after a price was stored on the day `today`.
pub open spec fn with_price(
    prices: Map<Seq<char>, EntryView>,
    from: Seq<char>,
    to: Seq<char>,
    travel_class: u8,
    price_cents: u32,
    today: Date,
) -> Map<Seq<char>, EntryView> {
    prices.insert(
        cache_key(from, to, travel_class),
        fresh_entry(price_cents, travel_class, today),
    )
}

/// The keys whose entries have expired on the day `today`.
pub open spec fn expired_keys(prices: Map<Seq<char>, EntryView>, today: Date) -> Set<Seq<char>> {
    Set::new(|key: Seq<char>| prices.contains_key(key) && prices[key].expired_on(today))
}

/// The mapping without the entries that have expired on the day `today`.
pub open spec fn without_expired(prices: Map<Seq<char>, EntryView>, today: Date) -> Map<
    Seq<char>,
    EntryView,
> {
    prices.remove_keys(expired_keys(prices, today))
}

/// What the holder of the cache has to do with the backing file after a call.
#[derive(Debug, Clone, Copy, PartialEq, Eq, Structural)]
pub enum FileAction {
    /// The file is still up to date.
    Leave,
    /// The whole file has to be written again from the cache's entries.
    Rewrite,
}

/// What a cleanup did.
#[derive(Debug)]
pub struct CleanupOutcome {
    /// The number of entries removed.
    pub removed: usize,
    /// Whether the backing file has to be written again.
    pub action: FileAction,
}

/// Counts of the entries of a cache.
#[derive(Debug)]
pub struct CacheStats {
    pub total_entries: usize,
    pub valid_entries: usize,
    pub expired_entries: usize,
}

/// What was found at the path of the backing file when the cache was opened.
#[derive(Debug)]
pub enum CacheFile {
    /// There is no file yet; the directory for it exists.
    Absent,
    /// The file holds these keys and entries.
    Entries(Vec<(String, CacheEntry)>),
    /// The file's content is not a mapping from keys to entries; the text
    /// says why.
    Malformed(String),
    /// The file could not be read, or the directory for it could not be
    /// made; the text says why.
    Unusable(String),
}

/// A failure of the cache.
#[derive(Debug)]
pub enum CacheError {
    /// Reading the backing file, writing it or making its directory failed.
    IoFailure(String),
}

impl CacheError {
    /// The reason, as text.
    pub fn message(&self) -> (r: String)
        ensures
            self matches CacheError::IoFailure(reason) && r@ == reason@,
    {
        match self {
            CacheError::IoFailure(reason) => reason.clone(),
        }
    }
}

/// One key with its entry.
struct Slot {
    key: String,
    entry: CacheEntry,
}

/// The keys and entries of a list of slots.
spec fn slot_pairs(slots: Seq<Slot>) -> Seq<(Seq<char>, EntryView)> {
    slots.map_values(|s: Slot| (s.key@, s.entry@))
}

/// No key occurs twice.
spec fn distinct_keys(pairs: Seq<(Seq<char>, EntryView)>) -> bool {
    forall|i: int, j: int|
        0 <= i < j < pairs.len() ==> (#[trigger] pairs[i]).0 != (#[trigger] pairs[j]).0
}

/// Some pair has the key.
spec fn has_key(pairs: Seq<(Seq<char>, EntryView)>, key: Seq<char>) -> bool {
    exists|i: int| 0 <= i < pairs.len() && (#[trigger] pairs[i]).0 == key
}

/// The number of pairs whose entry has expired on the day `today`.
spec fn expired_count(pairs: Seq<(Seq<char>, EntryView)>, today: Date) -> nat
    decreases pairs.len(),
{
    if pairs.len() == 0 {
        0
    } else if pairs.last().1.expired_on(today) {
        expired_count(pairs.drop_last(), today) + 1
    } else {
        expired_count(pairs.drop_last(), today)
    }
}

/// The pairs whose entry has not expired on the day `today`, in order.
spec fn live_pairs(pairs: Seq<(Seq<char>, EntryView)>, today: Date) -> Seq<(Seq<char>, EntryView)>
    decreases pairs.len(),
{
    if pairs.len() == 0 {
        pairs
    } else if pairs.last().1.expired_on(today) {
        live_pairs(pairs.drop_last(), today)
    } else {
        live_pairs(pairs.drop_last(), today).push(pairs.last())
    }
}

/// The mapping of a list of pairs holds the keys of the list and no others;
/// without repeated keys it has as many entries as the list, and each key
/// leads to the entry beside it.
proof fn lemma_pairs_map(pairs: Seq<(Seq<char>, EntryView)>)
    ensures
        pairs_map(pairs).dom().finite(),
        forall|key: Seq<char>| #[trigger] pairs_map(pairs).contains_key(key) <==> has_key(pairs, key),
        distinct_keys(pairs) ==> pairs_map(pairs).len() == pairs.len(),
        distinct_keys(pairs) ==> forall|i: int|
            0 <= i < pairs.len() ==> pairs_map(pairs)[(#[trigger] pairs[i]).0] == pairs[i].1,
    decreases pairs.len(),
{
    if pairs.len() > 0 {
        let front = pairs.drop_last();
        let last = pairs.last();
        lemma_pairs_map(front);
        assert forall|key: Seq<char>| #[trigger]
            pairs_map(pairs).contains_key(key) <==> has_key(pairs, key) by {
            if has_key(pairs, key) {
                let i = choose|i: int| 0 <= i < pairs.len() && (#[trigger] pairs[i]).0 == key;
                if i < front.len() {
                    assert(front[i] == pairs[i]);
                }
            }
        }
        if distinct_keys(pairs) {
            lemma_front_distinct(pairs);
            assert forall|i: int| 0 <= i < pairs.len() implies pairs_map(pairs)[(#[trigger] pairs[i]).0]
                == pairs[i].1 by {
                if i < front.len() {
                    assert(front[i] == pairs[i]);
                }
            }
        }
    }
}

/// Storing a pair over the one that has its key, or at the end where none
/// has it, keeps the keys apart and stands for an insertion in the mapping.
proof fn lemma_pairs_store(
    pairs: Seq<(Seq<char>, EntryView)>,
    at: int,
    key: Seq<char>,
    entry: EntryView,
)
    requires
        distinct_keys(pairs),
        0 <= at <= pairs.len(),
        at < pairs.len() ==> pairs[at].0 == key,
        at == pairs.len() ==> !has_key(pairs, key),
    ensures
        at < pairs.len() ==> distinct_keys(pairs.update(at, (key, entry))) && pairs_map(
            pairs.update(at, (key, entry)),
        ) == pairs_map(pairs).insert(key, entry),
        at == pairs.len() ==> distinct_keys(pairs.push((key, entry))) && pairs_map(
            pairs.push((key, entry)),
        ) == pairs_map(pairs).insert(key, entry),
{
    lemma_pairs_map(pairs);
    if at < pairs.len() {
        let stored = pairs.update(at, (key, entry));
        lemma_pairs_map(stored);
        let wanted = pairs_map(pairs).insert(key, entry);
        assert forall|k: Seq<char>| pairs_map(stored).contains_key(k) == wanted.contains_key(
            k,
        ) by {
            if has_key(pairs, k) {
                let i = choose|i: int| 0 <= i < pairs.len() && (#[trigger] pairs[i]).0 == k;
                assert(stored[i].0 == k);
            }
        }
    } else {
        let stored = pairs.push((key, entry));
        assert(stored.drop_last() =~= pairs);
    }
}

/// The expired entries of a list without repeated keys are as many as the
/// expired keys of its mapping.
proof fn lemma_expired_count(pairs: Seq<(Seq<char>, EntryView)>, today: Date)
    requires
        distinct_keys(pairs),
    ensures
        expired_keys(pairs_map(pairs), today).finite(),
        expired_keys(pairs_map(pairs), today).len() == expired_count(pairs, today),
        expired_count(pairs, today) <= pairs.len(),
    decreases pairs.len(),
{
    if pairs.len() == 0 {
        assert(expired_keys(pairs_map(pairs), today) =~= Set::empty());
    } else {
        let front = pairs.drop_last();
        let last = pairs.last();
        lemma_front_distinct(pairs);
        lemma_pairs_map(front);
        lemma_expired_count(front, today);
        let before = expired_keys(pairs_map(front), today);
        let after = expired_keys(pairs_map(pairs), today);
        if last.1.expired_on(today) {
            assert(after =~= before.insert(last.0));
        } else {
            assert(after =~= before);
        }
    }
}

/// A list without repeated keys stays so without its last pair, and the key
/// of the last pair is not among the others.
proof fn lemma_front_distinct(pairs: Seq<(Seq<char>, EntryView)>)
    requires
        distinct_keys(pairs),
        pairs.len() > 0,
    ensures
        distinct_keys(pairs.drop_last()),
        !has_key(pairs.drop_last(), pairs.last().0),
{
}

/// Dropping the expired pairs of a list without repeated keys keeps the keys
/// apart, removes the expired keys from the mapping, and removes as many
/// pairs as have expired.
proof fn lemma_live_pairs(pairs: Seq<(Seq<char>, EntryView)>, today: Date)
    requires
        distinct_keys(pairs),
    ensures
        distinct_keys(live_pairs(pairs, today)),
        pairs_map(live_pairs(pairs, today)) == without_expired(pairs_map(pairs), today),
        live_pairs(pairs, today).len() + expired_count(pairs, today) == pairs.len(),
    decreases pairs.len(),
{
    if pairs.len() > 0 {
        let front = pairs.drop_last();
        let last = pairs.last();
        lemma_front_distinct(pairs);
        lemma_pairs_map(front);
        lemma_live_pairs(front, today);
        let live = live_pairs(front, today);
        lemma_pairs_map(live);
        let all = pairs_map(front);
        if !last.1.expired_on(today) {
            assert(!all.contains_key(last.0));
            lemma_pairs_store(live, live.len() as int, last.0, last.1);
            assert(all.remove_keys(expired_keys(all, today)).insert(last.0, last.1) =~= all.insert(
                last.0,
                last.1,
            ).remove_keys(expired_keys(all.insert(last.0, last.1), today)));
        }
    }
}

/// The price cache: a mapping from keys to entries, held in memory, with the
/// path of the file that mirrors it.
pub struct PriceCache {
    path: String,
    slots: Vec<Slot>,
}

impl PriceCache {
    #[verifier::type_invariant]
    spec fn keys_apart(self) -> bool {
        distinct_keys(slot_pairs(self.slots@))
    }

    /// The mapping from keys to entries that the cache holds.
    pub closed spec fn view(&self) -> Map<Seq<char>, EntryView> {
        pairs_map(slot_pairs(self.slots@))
    }

    /// The path of the backing file.
    pub closed spec fn path_text(&self) -> Seq<char> {
        self.path@
    }

    /// An empty cache for the file at `path`.
    pub fn empty(path: &str) -> (cache: PriceCache)
        ensures
            cache@ == Map::<Seq<char>, EntryView>::empty(),
            cache.path_text() == path@,
    {
        PriceCache { path: String::from_str(path), slots: Vec::new() }
    }

    /// Opens the cache for the file at `path`, given what was found there.
    /// A file that is absent or malformed gives an empty cache; only a file
    /// or directory that cannot be used is an error.
    pub fn new(path: &str, file: CacheFile) -> (r: Result<PriceCache, CacheError>)
        ensures
            match file {
                CacheFile::Absent | CacheFile::Malformed(_) => r is Ok && r->Ok_0@ == Map::<
                    Seq<char>,
                    EntryView,
                >::empty() && r->Ok_0.path_text() == path@,
                CacheFile::Entries(loaded) => r is Ok && r->Ok_0@ == pairs_map(
                    pairs_view(loaded@),
                ) && r->Ok_0.path_text() == path@,
                CacheFile::Unusable(reason) => r matches Err(CacheError::IoFailure(why)) && why@
                    == reason@,
            },
    {
        match file {
            CacheFile::Absent => Ok(PriceCache::empty(path)),
            CacheFile::Malformed(_) => Ok(PriceCache::empty(path)),
            CacheFile::Entries(loaded) => Ok(PriceCache::from_entries(path, &loaded)),
            CacheFile::Unusable(reason) => Err(CacheError::IoFailure(reason)),
        }
    }

    /// The warning for a backing file whose content is malformed.
    pub fn malformed_warning(reason: &str) -> (r: String)
        ensures
            r@ == "⚠️  Failed to parse cache file, starting fresh: "@ + reason@,
    {
        String::from_str("⚠️  Failed to parse cache file, starting fresh: ").concat(reason)
    }

    /// A cache for the file at `path` that holds the given keys and entries.
    /// Where a key occurs more than once, the last entry with it counts.
    pub fn from_entries(path: &str, loaded: &Vec<(String, CacheEntry)>) -> (cache: PriceCache)
        ensures
            cache@ == pairs_map(pairs_view(loaded@)),
            cache.path_text() == path@,
    {
        let mut cache = PriceCache::empty(path);
        let ghost pairs = pairs_view(loaded@);
        let mut i: usize = 0;
        while i < loaded.len()
            invariant
                i <= loaded.len(),
                pairs == pairs_view(loaded@),
                cache@ == pairs_map(pairs.take(i as int)),
                cache.path_text() == path@,
            decreases loaded.len() - i,
        {
            proof {
                assert(pairs.take(i + 1).drop_last() =~= pairs.take(i as int));
            }
            cache.insert(loaded[i].0.clone(), loaded[i].1.duplicate());
            i += 1;
        }
        assert(pairs.take(loaded.len() as int) =~= pairs);
        cache
    }

    /// The keys and entries of the cache, each key once: what the backing
    /// file has to hold.
    pub fn entries(&self) -> (r: Vec<(String, CacheEntry)>)
        ensures
            pairs_map(pairs_view(r@)) == self@,
            self@.dom().finite(),
            r@.len() == self@.len(),
    {
        proof {
            use_type_invariant(self);
            lemma_pairs_map(slot_pairs(self.slots@));
        }
        let ghost pairs = slot_pairs(self.slots@);
        let mut out: Vec<(String, CacheEntry)> = Vec::new();
        let mut i: usize = 0;
        while i < self.slots.len()
            invariant
                i <= self.slots.len(),
                pairs == slot_pairs(self.slots@),
                pairs_view(out@) == pairs.take(i as int),
            decreases self.slots.len() - i,
        {
            let ghost before = pairs_view(out@);
            out.push((self.slots[i].key.clone(), self.slots[i].entry.duplicate()));
            assert(pairs_view(out@) =~= before.push(pairs[i as int]));
            i += 1;
        }
        assert(pairs.take(self.slots.len() as int) =~= pairs);
        out
    }

    /// The number of entries, expired ones included.
    pub fn len(&self) -> (n: usize)
        ensures
            self@.dom().finite(),
            n == self@.len(),
    {
        proof {
            use_type_invariant(self);
            lemma_pairs_map(slot_pairs(self.slots@));
        }
        self.slots.len()
    }

    /// The path of the backing file.
    pub fn path(&self) -> (r: &str)
        ensures
            r@ == self.path_text(),
    {
        self.path.as_str()
    }

    /// Builds the key for a station pair and a travel class. The two names
    /// are put in lexicographic order, so a pair and its reverse share a key.
    pub fn normalize_key(from: &str, to: &str, travel_class: u8) -> (key: String)
        ensures
            key@ == cache_key(from@, to@, travel_class),
    {
        let (first, second) = if text_precedes(from, to) {
            (from, to)
        } else {
            (to, from)
        };
        let digits = nat_to_string(travel_class as u64);
        let mut key = String::from_str(first);
        key.append("-");
        key.append(second);
        key.append("-");
        key.append(digits.as_str());
        proof {
            reveal_strlit("-");
        }
        key
    }

    /// The place of a key among the slots.
    fn position(&self, key: &String) -> (r: Option<usize>)
        ensures
            match r {
                Some(i) => i < self.slots.len() && self.slots[i as int].key@ == key@,
                None => !has_key(slot_pairs(self.slots@), key@),
            },
    {
        let mut i: usize = 0;
        while i < self.slots.len()
            invariant
                i <= self.slots.len(),
                forall|j: int| 0 <= j < i ==> (#[trigger] slot_pairs(self.slots@)[j]).0 != key@,
            decreases self.slots.len() - i,
        {
            if self.slots[i].key == *key {
                return Some(i);
            }
            i += 1;
        }
        None
    }

    /// Puts an entry under a key, in place of the entry that the key had.
    fn insert(&mut self, key: String, entry: CacheEntry)
        ensures
            final(self)@ == old(self)@.insert(key@, entry@),
            final(self).path_text() == old(self).path_text(),
    {
        proof {
            use_type_invariant(&*self);
        }
        let ghost pairs = slot_pairs(self.slots@);
        let found = self.position(&key);
        let mut slots: Vec<Slot> = Vec::new();
        core::mem::swap(&mut self.slots, &mut slots);
        match found {
            Some(i) => {
                proof {
                    lemma_pairs_store(pairs, i as int, key@, entry@);
                    assert(slot_pairs(slots@.update(i as int, Slot { key, entry })) =~= pairs.update(
                        i as int,
                        (key@, entry@),
                    ));
                }
                slots.set(i, Slot { key, entry });
            },
            None => {
                proof {
                    lemma_pairs_store(pairs, pairs.len() as int, key@, entry@);
                    assert(slot_pairs(slots@.push(Slot { key, entry })) =~= pairs.push(
                        (key@, entry@),
                    ));
                }
                slots.push(Slot { key, entry });
            },
        }
        self.slots = slots;
    }

    /// Looks up the price for a station pair and a travel class as of today.
    /// An expired entry counts as absent; it is not removed.
    pub fn get(&self, from: &str, to: &str, travel_class: u8) -> (r: Option<u32>)
        ensures
            exists|day: Date|
                day.wf() && r == stored_price(self@, from@, to@, travel_class, day),
    {
        let day = today();
        self.get_on(from, to, travel_class, day)
    }

    /// Looks up the price for a station pair and a travel class as of the day
    /// `today`. An expired entry counts as absent; it is not removed.
    pub fn get_on(&self, from: &str, to: &str, travel_class: u8, today: Date) -> (r: Option<u32>)
        ensures
            r == stored_price(self@, from@, to@, travel_class, today),
    {
        proof {
            use_type_invariant(self);
            lemma_pairs_map(slot_pairs(self.slots@));
        }
        let key = Self::normalize_key(from, to, travel_class);
        match self.position(&key) {
            Some(i) => {
                assert(slot_pairs(self.slots@)[i as int].0 == key@);
                let entry = &self.slots[i].entry;
                if entry.is_expired_on(today) {
                    None
                } else {
                    Some(entry.price_cents)
                }
            },
            None => None,
        }
    }

    /// Stores a price for a station pair and a travel class, made today: it
    /// expires on the next January 1st. The backing file has to be written
    /// again afterwards.
    pub fn set(&mut self, from: &str, to: &str, travel_class: u8, price_cents: u32) -> (action:
        FileAction)
        ensures
            exists|day: Date|
                day.wf() && final(self)@ == with_price(
                    old(self)@,
                    from@,
                    to@,
                    travel_class,
                    price_cents,
                    day,
                ),
            final(self).path_text() == old(self).path_text(),
            action == FileAction::Rewrite,
    {
        let day = today();
        self.set_on(from, to, travel_class, price_cents, day)
    }

    /// Stores a price for a station pair and a travel class, made on the day
    /// `today`: it expires on January 1st of the next year. An entry that the
    /// key already had is replaced. The backing file has to be written again
    /// afterwards.
    pub fn set_on(
        &mut self,
        from: &str,
        to: &str,
        travel_class: u8,
        price_cents: u32,
        today: Date,
    ) -> (action: FileAction)
        ensures
            final(self)@ == with_price(old(self)@, from@, to@, travel_class, price_cents, today),
            final(self).path_text() == old(self).path_text(),
            action == FileAction::Rewrite,
    {
        let key = Self::normalize_key(from, to, travel_class);
        let entry = CacheEntry::new_on(price_cents, travel_class, today);
        self.insert(key, entry);
        FileAction::Rewrite
    }
}

impl PriceCache {
    /// Counts the entries as of today, without changing the cache.
    pub fn stats(&self) -> (stats: CacheStats)
        ensures
            self@.dom().finite(),
            stats.total_entries == self@.len(),
            exists|day: Date|
                day.wf() && stats.expired_entries == expired_keys(self@, day).len(),
            stats.valid_entries == stats.total_entries - stats.expired_entries,
    {
        let day = today();
        self.stats_on(day)
    }

    /// Counts the entries as of the day `today`, without changing the cache:
    /// all of them, those that have expired, and the rest.
    pub fn stats_on(&self, today: Date) -> (stats: CacheStats)
        ensures
            self@.dom().finite(),
            stats.total_entries == self@.len(),
            stats.expired_entries == expired_keys(self@, today).len(),
            stats.valid_entries == stats.total_entries - stats.expired_entries,
    {
        proof {
            use_type_invariant(self);
            lemma_pairs_map(slot_pairs(self.slots@));
        }
        let ghost pairs = slot_pairs(self.slots@);
        let total = self.slots.len();
        let mut expired: usize = 0;
        let mut i: usize = 0;
        while i < total
            invariant
                total == self.slots.len(),
                i <= total,
                pairs == slot_pairs(self.slots@),
                expired == expired_count(pairs.take(i as int), today),
                expired <= i,
            decreases total - i,
        {
            proof {
                assert(pairs.take(i + 1).drop_last() =~= pairs.take(i as int));
            }
            if self.slots[i].entry.is_expired_on(today) {
                expired += 1;
            }
            i += 1;
        }
        proof {
            assert(pairs.take(total as int) =~= pairs);
            lemma_expired_count(pairs, today);
        }
        CacheStats {
            total_entries: total,
            valid_entries: total - expired,
            expired_entries: expired,
        }
    }

    /// Removes the entries that have expired as of today. The backing file
    /// has to be written again only if an entry was removed.
    pub fn cleanup(&mut self) -> (outcome: CleanupOutcome)
        ensures
            exists|day: Date|
                day.wf() && final(self)@ == without_expired(old(self)@, day) && outcome.removed
                    == expired_keys(old(self)@, day).len(),
            outcome.action == FileAction::Rewrite <==> outcome.removed > 0,
            final(self).path_text() == old(self).path_text(),
    {
        let day = today();
        self.cleanup_on(day)
    }

    /// Removes the entries that have expired as of the day `today`, and
    /// reports how many they were. The backing file has to be written again
    /// only if an entry was removed.
    pub fn cleanup_on(&mut self, today: Date) -> (outcome: CleanupOutcome)
        ensures
            final(self)@ == without_expired(old(self)@, today),
            outcome.removed == expired_keys(old(self)@, today).len(),
            outcome.action == FileAction::Rewrite <==> outcome.removed > 0,
            final(self).path_text() == old(self).path_text(),
    {
        proof {
            use_type_invariant(&*self);
        }
        let ghost pairs = slot_pairs(self.slots@);
        let mut kept: Vec<Slot> = Vec::new();
        let mut removed: usize = 0;
        let mut i: usize = 0;
        while i < self.slots.len()
            invariant
                i <= self.slots.len(),
                pairs == slot_pairs(self.slots@),
                slot_pairs(kept@) == live_pairs(pairs.take(i as int), today),
                removed == expired_count(pairs.take(i as int), today),
                removed <= i,
            decreases self.slots.len() - i,
        {
            proof {
                assert(pairs.take(i + 1).drop_last() =~= pairs.take(i as int));
            }
            let slot = &self.slots[i];
            if slot.entry.is_expired_on(today) {
                removed += 1;
            } else {
                kept.push(Slot { key: slot.key.clone(), entry: slot.entry.duplicate() });
            }
            i += 1;
        }
        proof {
            assert(pairs.take(self.slots.len() as int) =~= pairs);
            lemma_live_pairs(pairs, today);
            lemma_expired_count(pairs, today);
        }
        self.slots = kept;
        let action = if removed > 0 {
            FileAction::Rewrite
        } else {
            FileAction::Leave
        };
        CleanupOutcome { removed, action }
    }
}

} // verus!
