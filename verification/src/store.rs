//! A keyed store whose records expire: each record lives until a ledger of
//! its own and counts as absent after it, unless it was renewed in time.

use vstd::prelude::*;

verus! {

/// What a store holds under a key: a value and the last ledger at which the
/// record is alive.
pub ghost struct Record<T> {
    pub value: T,
    pub live_until: u32,
}

/// What a look under a key finds at a given ledger.
#[derive(Clone, Copy, Debug, PartialEq, Eq, Structural)]
pub enum Slot {
    /// There is no record: none was written, or it was removed.
    Absent,
    /// There is a record, and its lifetime has lapsed.
    Expired,
    /// There is a record and it is alive.
    Live,
}

/// What is found under `key` at ledger `now`.
pub open spec fn slot_of<T>(records: Map<Seq<char>, Record<T>>, key: Seq<char>, now: u32) -> Slot {
    if !records.contains_key(key) {
        Slot::Absent
    } else if records[key].live_until < now {
        Slot::Expired
    } else {
        Slot::Live
    }
}

/// Whether `key` holds a record that is alive at ledger `now`.
pub open spec fn is_live<T>(records: Map<Seq<char>, Record<T>>, key: Seq<char>, now: u32) -> bool {
    records.contains_key(key) && now <= records[key].live_until
}

/// The records after `value` was written under `key` at ledger `now`: a live
/// record keeps its lifetime, any other starts with the current ledger alone.
pub open spec fn after_set<T>(
    records: Map<Seq<char>, Record<T>>,
    key: Seq<char>,
    value: T,
    now: u32,
) -> Map<Seq<char>, Record<T>> {
    let live_until = if is_live(records, key, now) {
        records[key].live_until
    } else {
        now
    };
    records.insert(key, Record { value, live_until })
}

/// The last ledger of a record that lived until `live_until` and was renewed
/// at `now` for `window` ledgers: a lifetime is never shortened.
pub open spec fn renewed_until(live_until: u32, now: u32, window: u32) -> int {
    if live_until >= now + window {
        live_until as int
    } else {
        now + window
    }
}

/// The records after the one under `key` was renewed at ledger `now` for
/// `window` ledgers. Only a live record can be renewed.
pub open spec fn after_renew<T>(
    records: Map<Seq<char>, Record<T>>,
    key: Seq<char>,
    now: u32,
    window: u32,
) -> Map<Seq<char>, Record<T>> {
    if is_live(records, key, now) {
        records.insert(
            key,
            Record {
                value: records[key].value,
                live_until: renewed_until(records[key].live_until, now, window) as u32,
            },
        )
    } else {
        records
    }
}

/// The records after `value` was written under `key` and the record renewed
/// for `window` ledgers.
pub open spec fn written<T>(
    records: Map<Seq<char>, Record<T>>,
    key: Seq<char>,
    value: T,
    now: u32,
    window: u32,
) -> Map<Seq<char>, Record<T>> {
    after_renew(after_set(records, key, value, now), key, now, window)
}

/// The records that are alive at ledger `now`.
pub open spec fn live_part<T>(records: Map<Seq<char>, Record<T>>, now: u32) -> Map<
    Seq<char>,
    Record<T>,
> {
    Map::new(|key: Seq<char>| is_live(records, key, now), |key: Seq<char>| records[key])
}

/// One record as the store keeps it.
pub struct Entry<V> {
    pub key: String,
    pub value: V,
    pub live_until: u32,
}

/// The key and record that an entry stands for.
pub open spec fn row_of<V: View>(entry: Entry<V>) -> (Seq<char>, Record<V::V>) {
    (entry.key@, Record { value: entry.value@, live_until: entry.live_until })
}

/// Whether no key occurs in two rows.
pub open spec fn distinct_keys<T>(rows: Seq<(Seq<char>, Record<T>)>) -> bool {
    forall|i: int, j: int| 0 <= i < j < rows.len() ==> rows[i].0 != rows[j].0
}

/// Whether `i` is a row with the given key.
pub open spec fn is_row_of<T>(rows: Seq<(Seq<char>, Record<T>)>, key: Seq<char>, i: int) -> bool {
    0 <= i < rows.len() && rows[i].0 == key
}

/// The map from each key of the rows to its record.
pub open spec fn as_map<T>(rows: Seq<(Seq<char>, Record<T>)>) -> Map<Seq<char>, Record<T>> {
    Map::new(
        |key: Seq<char>| exists|i: int| is_row_of(rows, key, i),
        |key: Seq<char>| rows[choose|i: int| is_row_of(rows, key, i)].1,
    )
}

/// Row `i` is what the map holds under its key.
pub proof fn as_map_holds_row<T>(rows: Seq<(Seq<char>, Record<T>)>, i: int)
    requires
        distinct_keys(rows),
        0 <= i < rows.len(),
    ensures
        as_map(rows).contains_key(rows[i].0),
        as_map(rows)[rows[i].0] == rows[i].1,
{
    let key = rows[i].0;
    assert(is_row_of(rows, key, i));
    let j = choose|j: int| is_row_of(rows, key, j);
    assert(j == i) by {
        if j < i {
            assert(rows[j].0 != rows[i].0);
        } else if i < j {
            assert(rows[i].0 != rows[j].0);
        }
    }
}

/// A key that no row has is not in the map.
pub proof fn as_map_lacks_key<T>(rows: Seq<(Seq<char>, Record<T>)>, key: Seq<char>)
    requires
        forall|i: int| 0 <= i < rows.len() ==> rows[i].0 != key,
    ensures
        !as_map(rows).contains_key(key),
{
    if as_map(rows).contains_key(key) {
        let i = choose|i: int| is_row_of(rows, key, i);
        assert(is_row_of(rows, key, i));
        assert(false);
    }
}

/// A row with a new key adds its record to the map.
pub proof fn as_map_of_push<T>(rows: Seq<(Seq<char>, Record<T>)>, key: Seq<char>, record: Record<T>)
    requires
        distinct_keys(rows),
        forall|i: int| 0 <= i < rows.len() ==> rows[i].0 != key,
    ensures
        distinct_keys(rows.push((key, record))),
        as_map(rows.push((key, record))) == as_map(rows).insert(key, record),
{
    let longer = rows.push((key, record));
    assert(distinct_keys(longer));
    as_map_holds_row(longer, rows.len() as int);
    assert forall|k: Seq<char>| as_map(longer).contains_key(k) <==> as_map(rows).insert(
        key,
        record,
    ).contains_key(k) by {
        if as_map(longer).contains_key(k) {
            let i = choose|i: int| is_row_of(longer, k, i);
            if i < rows.len() {
                assert(is_row_of(rows, k, i));
            }
        }
        if as_map(rows).contains_key(k) {
            let i = choose|i: int| is_row_of(rows, k, i);
            assert(is_row_of(longer, k, i));
        }
        if k == key {
            assert(is_row_of(longer, k, rows.len() as int));
        }
    }
    assert forall|k: Seq<char>| as_map(longer).contains_key(k) implies as_map(longer)[k]
        == as_map(rows).insert(key, record)[k] by {
        if k != key {
            let i = choose|i: int| is_row_of(rows, k, i);
            assert(is_row_of(rows, k, i));
            as_map_holds_row(rows, i);
            as_map_holds_row(longer, i);
        }
    }
    assert(as_map(longer) =~= as_map(rows).insert(key, record));
}

/// Without row `i` the map lacks that row's key, and nothing else.
pub proof fn as_map_of_remove<T>(rows: Seq<(Seq<char>, Record<T>)>, i: int)
    requires
        distinct_keys(rows),
        0 <= i < rows.len(),
    ensures
        distinct_keys(rows.remove(i)),
        as_map(rows.remove(i)) == as_map(rows).remove(rows[i].0),
        forall|j: int| 0 <= j < rows.remove(i).len() ==> rows.remove(i)[j].0 != rows[i].0,
{
    let shorter = rows.remove(i);
    let key = rows[i].0;
    assert forall|a: int, b: int| 0 <= a < b < shorter.len() implies shorter[a].0
        != shorter[b].0 by {
        let a0 = if a < i { a } else { a + 1 };
        let b0 = if b < i { b } else { b + 1 };
        assert(shorter[a] == rows[a0]);
        assert(shorter[b] == rows[b0]);
        assert(rows[a0].0 != rows[b0].0);
    }
    assert forall|j: int| 0 <= j < shorter.len() implies shorter[j].0 != key by {
        let j0 = if j < i { j } else { j + 1 };
        assert(shorter[j] == rows[j0]);
        if j0 < i {
            assert(rows[j0].0 != rows[i].0);
        } else {
            assert(rows[i].0 != rows[j0].0);
        }
    }
    as_map_lacks_key(shorter, key);
    assert forall|k: Seq<char>| as_map(shorter).contains_key(k) <==> as_map(rows).remove(
        key,
    ).contains_key(k) by {
        if as_map(shorter).contains_key(k) {
            let j = choose|j: int| is_row_of(shorter, k, j);
            let j0 = if j < i { j } else { j + 1 };
            assert(shorter[j] == rows[j0]);
            assert(is_row_of(rows, k, j0));
        }
        if as_map(rows).contains_key(k) && k != key {
            let j0 = choose|j: int| is_row_of(rows, k, j);
            let j = if j0 < i { j0 } else { j0 - 1 };
            assert(shorter[j] == rows[j0]);
            assert(is_row_of(shorter, k, j));
        }
    }
    assert forall|k: Seq<char>| as_map(shorter).contains_key(k) implies as_map(shorter)[k]
        == as_map(rows).remove(key)[k] by {
        let j = choose|j: int| is_row_of(shorter, k, j);
        let j0 = if j < i { j } else { j + 1 };
        assert(shorter[j] == rows[j0]);
        as_map_holds_row(shorter, j);
        as_map_holds_row(rows, j0);
    }
    assert(as_map(shorter) =~= as_map(rows).remove(key));
}

/// A store of values of one kind, each under a key of text.
pub struct Store<V> {
    entries: Vec<Entry<V>>,
}

impl<V: View> Store<V> {
    /// The rows of the store, in the order in which it keeps them.
    pub closed spec fn rows(&self) -> Seq<(Seq<char>, Record<V::V>)> {
        self.entries@.map_values(|entry: Entry<V>| row_of(entry))
    }

    /// The store's invariant: no key is kept twice.
    pub closed spec fn well_formed(&self) -> bool {
        distinct_keys(self.rows())
    }

    /// The store with no record.
    pub fn new() -> (store: Store<V>)
        ensures
            store.well_formed(),
            store@ == Map::<Seq<char>, Record<V::V>>::empty(),
    {
        let store = Store { entries: Vec::new() };
        proof {
            assert(store.rows() =~= Seq::empty());
            assert(as_map(store.rows()) =~= Map::empty());
        }
        store
    }

    /// Where the record under `key` is kept, if there is one.
    fn position(&self, key: &String) -> (found: Option<usize>)
        ensures
            match found {
                Some(i) => is_row_of(self.rows(), key@, i as int),
                None => forall|i: int| 0 <= i < self.rows().len() ==> self.rows()[i].0 != key@,
            },
    {
        let mut i: usize = 0;
        while i < self.entries.len()
            invariant
                i <= self.entries.len(),
                self.rows().len() == self.entries.len(),
                forall|j: int| 0 <= j < i ==> self.rows()[j].0 != key@,
            decreases self.entries.len() - i,
        {
            if self.entries[i].key == *key {
                return Some(i);
            }
            i = i + 1;
        }
        None
    }

    /// What is found under `key` at ledger `now`.
    pub fn probe(&self, key: &String, now: u32) -> (slot: Slot)
        requires
            self.well_formed(),
        ensures
            slot == slot_of(self@, key@, now),
    {
        match self.position(key) {
            Some(i) => {
                proof {
                    as_map_holds_row(self.rows(), i as int);
                }
                if self.entries[i].live_until < now {
                    Slot::Expired
                } else {
                    Slot::Live
                }
            },
            None => {
                proof {
                    as_map_lacks_key(self.rows(), key@);
                }
                Slot::Absent
            },
        }
    }

    /// Whether `key` holds a record that is alive at ledger `now`.
    pub fn has(&self, key: &String, now: u32) -> (live: bool)
        requires
            self.well_formed(),
        ensures
            live == is_live(self@, key@, now),
    {
        match self.probe(key, now) {
            Slot::Live => true,
            _ => false,
        }
    }

    /// The value under `key`, if its record is alive at ledger `now`.
    pub fn get(&self, key: &String, now: u32) -> (value: Option<&V>)
        requires
            self.well_formed(),
        ensures
            value is Some <==> is_live(self@, key@, now),
            value is Some ==> value->Some_0@ == self@[key@].value,
    {
        match self.position(key) {
            Some(i) => {
                proof {
                    as_map_holds_row(self.rows(), i as int);
                }
                if self.entries[i].live_until < now {
                    None
                } else {
                    Some(&self.entries[i].value)
                }
            },
            None => {
                proof {
                    as_map_lacks_key(self.rows(), key@);
                }
                None
            },
        }
    }

    /// Puts a record under `key`, in place of any that was there.
    pub fn restore(&mut self, key: &String, value: V, live_until: u32)
        requires
            old(self).well_formed(),
        ensures
            final(self).well_formed(),
            final(self)@ == old(self)@.insert(
                key@,
                Record { value: value@, live_until },
            ),
    {
        let ghost before = self.rows();
        let ghost record = Record { value: value@, live_until };
        match self.position(key) {
            Some(i) => {
                let _ = self.entries.remove(i);
                proof {
                    as_map_of_remove(before, i as int);
                    assert(self.rows() =~= before.remove(i as int));
                }
            },
            None => {
                proof {
                    as_map_lacks_key(before, key@);
                    assert(as_map(before).remove(key@) =~= as_map(before));
                }
            },
        }
        let ghost between = self.rows();
        self.entries.push(Entry { key: key.clone(), value, live_until });
        proof {
            assert(self.rows() =~= between.push((key@, record)));
            as_map_of_push(between, key@, record);
            assert(as_map(before).remove(key@).insert(key@, record) =~= as_map(before).insert(
                key@,
                record,
            ));
        }
    }

    /// Writes `value` under `key` at ledger `now`. A record that is alive
    /// keeps its lifetime; a new one lives through the current ledger only,
    /// until it is renewed.
    pub fn set(&mut self, key: &String, value: V, now: u32)
        requires
            old(self).well_formed(),
        ensures
            final(self).well_formed(),
            final(self)@ == after_set(old(self)@, key@, value@, now),
    {
        let live_until: u32 = match self.position(key) {
            Some(i) => {
                proof {
                    as_map_holds_row(self.rows(), i as int);
                }
                if self.entries[i].live_until < now {
                    now
                } else {
                    self.entries[i].live_until
                }
            },
            None => {
                proof {
                    as_map_lacks_key(self.rows(), key@);
                }
                now
            },
        };
        self.restore(key, value, live_until);
    }

    /// Deletes the record under `key`, alive or not.
    pub fn remove(&mut self, key: &String)
        requires
            old(self).well_formed(),
        ensures
            final(self).well_formed(),
            final(self)@ == old(self)@.remove(key@),
    {
        let ghost before = self.rows();
        match self.position(key) {
            Some(i) => {
                let _ = self.entries.remove(i);
                proof {
                    as_map_of_remove(before, i as int);
                    assert(self.rows() =~= before.remove(i as int));
                }
            },
            None => {
                proof {
                    as_map_lacks_key(before, key@);
                    assert(as_map(before).remove(key@) =~= as_map(before));
                }
            },
        }
    }

    /// Renews the record under `key` at ledger `now`, so that it lives for
    /// at least `window` ledgers more. A record that is absent or has lapsed
    /// stays as it is.
    pub fn renew(&mut self, key: &String, now: u32, window: u32)
        requires
            old(self).well_formed(),
            now + window <= u32::MAX,
        ensures
            final(self).well_formed(),
            final(self)@ == after_renew(old(self)@, key@, now, window),
    {
        let ghost before = self.rows();
        match self.position(key) {
            Some(i) => {
                proof {
                    as_map_holds_row(before, i as int);
                }
                if self.entries[i].live_until >= now {
                    let entry = self.entries.remove(i);
                    let live_until: u32 = if entry.live_until >= now + window {
                        entry.live_until
                    } else {
                        now + window
                    };
                    proof {
                        as_map_of_remove(before, i as int);
                        assert(self.rows() =~= before.remove(i as int));
                    }
                    self.restore(key, entry.value, live_until);
                }
            },
            None => {
                proof {
                    as_map_lacks_key(before, key@);
                }
            },
        }
    }

    /// Evicts the records whose lifetime has lapsed at ledger `now`; those
    /// that are alive stay as they are.
    pub fn evict(&mut self, now: u32)
        requires
            old(self).well_formed(),
        ensures
            final(self).well_formed(),
            final(self)@ == live_part(old(self)@, now),
    {
        let ghost before = self@;
        let mut i: usize = 0;
        while i < self.entries.len()
            invariant
                self.well_formed(),
                i <= self.entries.len(),
                self.rows().len() == self.entries.len(),
                live_part(self@, now) == live_part(before, now),
                forall|j: int| 0 <= j < i ==> now <= self.rows()[j].1.live_until,
            decreases self.entries.len() - i,
        {
            if self.entries[i].live_until < now {
                let ghost rows = self.rows();
                let ghost records = self@;
                let _ = self.entries.remove(i);
                proof {
                    as_map_holds_row(rows, i as int);
                    as_map_of_remove(rows, i as int);
                    assert(self.rows() =~= rows.remove(i as int));
                    assert(live_part(records.remove(rows[i as int].0), now) =~= live_part(
                        records,
                        now,
                    ));
                }
            } else {
                i = i + 1;
            }
        }
        proof {
            let rows = self.rows();
            assert forall|key: Seq<char>| self@.contains_key(key) implies is_live(
                self@,
                key,
                now,
            ) by {
                let j = choose|j: int| is_row_of(rows, key, j);
                as_map_holds_row(rows, j);
            }
            assert(self@ =~= live_part(self@, now));
        }
    }

    /// The number of records kept, lapsed ones included.
    pub fn len(&self) -> (n: usize)
        ensures
            n == self.rows().len(),
    {
        self.entries.len()
    }

    /// The key of the record kept at place `i`.
    pub fn key_at(&self, i: usize) -> (key: &String)
        requires
            i < self.rows().len(),
        ensures
            key@ == self.rows()[i as int].0,
    {
        &self.entries[i].key
    }

    /// The value of the record kept at place `i`.
    pub fn value_at(&self, i: usize) -> (value: &V)
        requires
            i < self.rows().len(),
        ensures
            value@ == self.rows()[i as int].1.value,
    {
        &self.entries[i].value
    }

    /// The last ledger of the record kept at place `i`.
    pub fn live_until_at(&self, i: usize) -> (live_until: u32)
        requires
            i < self.rows().len(),
        ensures
            live_until == self.rows()[i as int].1.live_until,
    {
        self.entries[i].live_until
    }

    /// What is kept is what the view holds: each place keeps the record of
    /// its key, no key is kept at two places, and every key of the view is
    /// kept at some place.
    pub proof fn rows_are_the_records(&self)
        requires
            self.well_formed(),
        ensures
            distinct_keys(self.rows()),
            forall|i: int|
                0 <= i < self.rows().len() ==> self@.contains_key(#[trigger] self.rows()[i].0)
                    && self@[self.rows()[i].0] == self.rows()[i].1,
            forall|key: Seq<char>| #[trigger]
                self@.contains_key(key) ==> exists|i: int| is_row_of(self.rows(), key, i),
    {
        assert forall|i: int| 0 <= i < self.rows().len() implies self@.contains_key(
            #[trigger] self.rows()[i].0,
        ) && self@[self.rows()[i].0] == self.rows()[i].1 by {
            as_map_holds_row(self.rows(), i);
        }
    }
}

impl<V: View> View for Store<V> {
    type V = Map<Seq<char>, Record<V::V>>;

    closed spec fn view(&self) -> Map<Seq<char>, Record<V::V>> {
        as_map(self.rows())
    }
}

/// Whether the single record is alive at ledger `now`.
pub open spec fn kept_is_live<T>(record: Option<Record<T>>, now: u32) -> bool {
    record is Some && now <= record->Some_0.live_until
}

/// The single record after `value` was written at ledger `now`.
pub open spec fn kept_after_set<T>(record: Option<Record<T>>, value: T, now: u32) -> Option<
    Record<T>,
> {
    let live_until = if kept_is_live(record, now) {
        record->Some_0.live_until
    } else {
        now
    };
    Some(Record { value, live_until })
}

/// The single record after it was renewed at ledger `now` for `window` ledgers.
pub open spec fn kept_after_renew<T>(record: Option<Record<T>>, now: u32, window: u32) -> Option<
    Record<T>,
> {
    if kept_is_live(record, now) {
        Some(
            Record {
                value: record->Some_0.value,
                live_until: renewed_until(record->Some_0.live_until, now, window) as u32,
            },
        )
    } else {
        record
    }
}

/// A value with the last ledger at which its record is alive.
pub struct Lease<V> {
    pub value: V,
    pub live_until: u32,
}

/// A place for one record that expires like those of a [`Store`].
pub struct Kept<V> {
    pub content: Option<Lease<V>>,
}

impl<V: View> View for Kept<V> {
    type V = Option<Record<V::V>>;

    open spec fn view(&self) -> Option<Record<V::V>> {
        match self.content {
            Some(lease) => Some(Record { value: lease.value@, live_until: lease.live_until }),
            None => None,
        }
    }
}

impl<V: View> Kept<V> {
    /// The place with no record.
    pub fn new() -> (kept: Kept<V>)
        ensures
            kept@ is None,
    {
        Kept { content: None }
    }

    /// The place with the given record.
    pub fn restore(value: V, live_until: u32) -> (kept: Kept<V>)
        ensures
            kept@ == Some(Record { value: value@, live_until }),
    {
        Kept { content: Some(Lease { value, live_until }) }
    }

    /// Whether the record is there and alive at ledger `now`.
    pub fn has(&self, now: u32) -> (live: bool)
        ensures
            live == kept_is_live(self@, now),
    {
        match &self.content {
            Some(lease) => now <= lease.live_until,
            None => false,
        }
    }

    /// The last ledger of the record, if there is one, alive or not.
    pub fn live_until(&self) -> (live_until: Option<u32>)
        ensures
            live_until == match self@ {
                Some(record) => Some(record.live_until),
                None => None,
            },
    {
        match &self.content {
            Some(lease) => Some(lease.live_until),
            None => None,
        }
    }

    /// The value, if the record is alive at ledger `now`.
    pub fn get(&self, now: u32) -> (value: Option<&V>)
        ensures
            value is Some <==> kept_is_live(self@, now),
            value is Some ==> value->Some_0@ == self@->Some_0.value,
    {
        match &self.content {
            Some(lease) => {
                if now <= lease.live_until {
                    Some(&lease.value)
                } else {
                    None
                }
            },
            None => None,
        }
    }

    /// Writes `value` at ledger `now`: a live record keeps its lifetime, any
    /// other starts with the current ledger alone.
    pub fn set(&mut self, value: V, now: u32)
        ensures
            final(self)@ == kept_after_set(old(self)@, value@, now),
    {
        let live_until: u32 = match &self.content {
            Some(lease) => {
                if now <= lease.live_until {
                    lease.live_until
                } else {
                    now
                }
            },
            None => now,
        };
        self.content = Some(Lease { value, live_until });
    }

    /// Evicts the record if its lifetime has lapsed at ledger `now`.
    pub fn evict(&mut self, now: u32)
        ensures
            final(self)@ == if kept_is_live(old(self)@, now) {
                old(self)@
            } else {
                None
            },
    {
        if !self.has(now) {
            self.content = None;
        }
    }

    /// Renews the record at ledger `now` for at least `window` ledgers, if
    /// it is alive.
    pub fn renew(&mut self, now: u32, window: u32)
        requires
            now + window <= u32::MAX,
        ensures
            final(self)@ == kept_after_renew(old(self)@, now, window),
    {
        match self.content.take() {
            Some(lease) => {
                let live_until: u32 = if now <= lease.live_until && lease.live_until < now
                    + window {
                    now + window
                } else {
                    lease.live_until
                };
                self.content = Some(Lease { value: lease.value, live_until });
            },
            None => {},
        }
    }
}

} // verus!
