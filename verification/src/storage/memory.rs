//! The concurrent in-memory backend.
//!
//! A [`Memtable`] keeps every row of every table in one concurrent map keyed
//! by the (table, key) composite, so a table is a namespace of that map:
//! it exists exactly when it holds a row, its first write materializes it,
//! and creation cannot race with itself because every operation is a single
//! atomic call on the composite key.  Two writers to distinct keys never
//! block each other; writers to the same key serialize inside the map,
//! last-writer-wins.
//!
//! The map itself comes from the `dashmap` crate and is opaque to the
//! verifier; the handful of calls into it stand behind trusted wrappers
//! whose contracts speak of [`dash_view`], the name given to the map's
//! contents.

use vstd::prelude::*;
use vstd::string::StringExecFns;

use dashmap::DashMap;

use crate::error::KvError;
use crate::storage::{
    empty_store, lookup, opt_view, pairs_match_table, store_del, store_set, table_of, KvIter,
    Storage, StoreView,
};
use crate::types::{Kvpair, KvpairView, Value, ValueView};

verus! {

#[verifier::external_type_specification]
#[verifier::external_body]
#[verifier::reject_recursive_types(K)]
#[verifier::reject_recursive_types(V)]
#[verifier::reject_recursive_types(S)]
pub struct ExDashMap<K, V, S>(DashMap<K, V, S>);

/// The composite key of one row: its table's name and its key.
pub type TableKey = (String, String);

/// The backing concurrent map.
pub type TableMap = DashMap<TableKey, Value>;

/// One listed row of the backing map.
pub type Row = (TableKey, Value);

/// The contents of the backing concurrent map, as the abstract store state.
pub uninterp spec fn dash_view(m: TableMap) -> StoreView;

/// Relies on dashmap::DashMap::new: a freshly created map is empty.
#[verifier::external_body]
fn dash_new() -> (r: TableMap)
    ensures
        dash_view(r) == empty_store(),
{
    DashMap::new()
}

/// Relies on dashmap::DashMap::get: returns the value stored under the key,
/// if any.
#[verifier::external_body]
fn dash_get(m: &TableMap, table: &str, key: &str) -> (r: Option<Value>)
    ensures
        opt_view(r) == lookup(dash_view(*m), table@, key@),
{
    m.get(&(table.to_string(), key.to_string())).map(|e| e.value().clone())
}

/// Relies on dashmap::DashMap::insert: stores the value under the key and
/// returns the previous value, if any.
#[verifier::external_body]
fn dash_insert(
    m: &mut TableMap,
    table: &str,
    key: String,
    value: Value,
) -> (r: Option<Value>)
    ensures
        dash_view(*final(m)) == store_set(dash_view(*old(m)), table@, key@, value@),
        opt_view(r) == lookup(dash_view(*old(m)), table@, key@),
{
    m.insert((table.to_string(), key), value)
}

/// Relies on dashmap::DashMap::remove: takes the entry out and returns its
/// value, if it existed.
#[verifier::external_body]
fn dash_remove(m: &mut TableMap, table: &str, key: &str) -> (r: Option<Value>)
    ensures
        dash_view(*final(m)) == store_del(dash_view(*old(m)), table@, key@),
        opt_view(r) == lookup(dash_view(*old(m)), table@, key@),
{
    m.remove(&(table.to_string(), key.to_string())).map(|(_, v)| v)
}

/// Relies on dashmap::DashMap::contains_key.
#[verifier::external_body]
fn dash_contains(m: &TableMap, table: &str, key: &str) -> (r: bool)
    ensures
        r == dash_view(*m).contains_key((table@, key@)),
{
    m.contains_key(&(table.to_string(), key.to_string()))
}

/// The composite key of one listed entry.
pub open spec fn entry_key(e: Row) -> (Seq<char>, Seq<char>) {
    (e.0.0@, e.0.1@)
}

/// Relies on dashmap::DashMap::iter: visits each entry of the map exactly
/// once.  The order is left open: it depends on the map's hasher, which each
/// process seeds anew.
#[verifier::external_body]
fn dash_entries(m: &TableMap) -> (r: Vec<Row>)
    ensures
        forall|i: int, j: int|
            0 <= i < j < r@.len() ==> entry_key(#[trigger] r@[i]) != entry_key(#[trigger] r@[j]),
        forall|i: int|
            0 <= i < r@.len() ==> dash_view(*m).contains_pair(entry_key(#[trigger] r@[i]), r@[i].1@),
        forall|k: (Seq<char>, Seq<char>)|
            #[trigger] dash_view(*m).contains_key(k) ==> exists|i: int|
                0 <= i < r@.len() && entry_key(r@[i]) == k,
{
    m.iter().map(|e| (e.key().clone(), e.value().clone())).collect()
}

/// The concurrent in-memory backend: one sharded concurrent map holding
/// every (table, key) row.
pub struct Memtable {
    store: TableMap,
}

impl Memtable {
    /// An empty store.
    pub fn new() -> (r: Self)
        ensures
            r.contents() == empty_store(),
    {
        Memtable { store: dash_new() }
    }
}

impl Default for Memtable {
    /// The default store is empty.
    fn default() -> (r: Self)
        ensures
            r.contents() == empty_store(),
    {
        Memtable::new()
    }
}

impl Storage for Memtable {
    closed spec fn contents(&self) -> StoreView {
        dash_view(self.store)
    }

    fn get(&self, table: &str, key: &str) -> (r: Result<Option<Value>, KvError>) {
        Ok(dash_get(&self.store, table, key))
    }

    fn set(&mut self, table: &str, key: String, value: Value) -> (r: Result<
        Option<Value>,
        KvError,
    >) {
        Ok(dash_insert(&mut self.store, table, key, value))
    }

    fn contains(&self, table: &str, key: &str) -> (r: Result<bool, KvError>) {
        Ok(dash_contains(&self.store, table, key))
    }

    fn del(&mut self, table: &str, key: &str) -> (r: Result<Option<Value>, KvError>) {
        Ok(dash_remove(&mut self.store, table, key))
    }

    fn get_all(&self, table: &str) -> (r: Result<Vec<Kvpair>, KvError>) {
        let entries = dash_entries(&self.store);
        let tname = String::from_str(table);
        let mut pairs: Vec<Kvpair> = Vec::new();
        let mut idx: usize = 0;
        while idx < entries.len()
            invariant
                idx <= entries@.len(),
                tname@ == table@,
                forall|i: int, j: int|
                    0 <= i < j < entries@.len() ==> entry_key(#[trigger] entries@[i]) != entry_key(
                        #[trigger] entries@[j],
                    ),
                forall|i: int|
                    0 <= i < entries@.len() ==> self.contents().contains_pair(
                        entry_key(#[trigger] entries@[i]),
                        entries@[i].1@,
                    ),
                forall|k: (Seq<char>, Seq<char>)|
                    #[trigger] self.contents().contains_key(k) ==> exists|i: int|
                        0 <= i < entries@.len() && entry_key(entries@[i]) == k,
                forall|p: int|
                    0 <= p < pairs@.len() ==> exists|q: int|
                        0 <= q < idx && entry_key(entries@[q]) == (
                            table@,
                            (#[trigger] pairs@[p])@.key,
                        ) && pairs@[p]@.value == Some(entries@[q].1@),
                forall|q: int|
                    0 <= q < idx && (#[trigger] entries@[q]).0.0@ == table@ ==> exists|p: int|
                        0 <= p < pairs@.len() && pairs@[p]@.key == entries@[q].0.1@,
                forall|p1: int, p2: int|
                    0 <= p1 < p2 < pairs@.len() ==> (#[trigger] pairs@[p1])@.key != (
                    #[trigger] pairs@[p2])@.key,
            decreases entries@.len() - idx,
        {
            let e = &entries[idx];
            if e.0.0 == tname {
                let ghost prev_pairs = pairs@;
                let row = Kvpair { key: e.0.1.clone(), value: Some(e.1.dup()) };
                proof {
                    assert(entry_key(entries@[idx as int]) == (table@, row@.key));
                }
                pairs.push(row);
                proof {
                    assert forall|q: int|
                        0 <= q < idx + 1 && (#[trigger] entries@[q]).0.0@
                            == table@ implies exists|p: int|
                        0 <= p < pairs@.len() && pairs@[p]@.key == entries@[q].0.1@ by {
                        if q < idx {
                            let p = choose|p: int|
                                0 <= p < prev_pairs.len() && prev_pairs[p]@.key
                                    == entries@[q].0.1@;
                            assert(pairs@[p]@.key == entries@[q].0.1@);
                        } else {
                            assert(pairs@[prev_pairs.len() as int]@.key == entries@[q].0.1@);
                        }
                    }
                }
            }
            idx = idx + 1;
        }
        proof {
            let pv = pairs@.map_values(|p: Kvpair| p@);
            let tbl = table_of(self.contents(), table@);
            assert forall|i: int|
                0 <= i < pv.len() implies tbl.contains_key((#[trigger] pv[i]).key) && pv[i].value
                == Some(tbl[pv[i].key]) by {
                assert(pv[i] == pairs@[i]@);
                let q = choose|q: int|
                    0 <= q < idx && entry_key(entries@[q]) == (table@, pairs@[i]@.key)
                        && pairs@[i]@.value == Some(entries@[q].1@);
                assert(self.contents().contains_pair(entry_key(entries@[q]), entries@[q].1@));
            };
            assert forall|i: int, j: int|
                0 <= i < j < pv.len() implies (#[trigger] pv[i]).key != (#[trigger] pv[j]).key by {
                assert(pv[i] == pairs@[i]@);
                assert(pv[j] == pairs@[j]@);
            };
            assert forall|k: Seq<char>| #[trigger]
                tbl.contains_key(k) implies exists|i: int|
                0 <= i < pv.len() && (#[trigger] pv[i]).key == k by {
                assert(self.contents().contains_key((table@, k)));
                let q = choose|q: int|
                    0 <= q < entries@.len() && entry_key(entries@[q]) == (table@, k);
                assert(entries@[q].0.0@ == table@);
                let p = choose|p: int|
                    0 <= p < pairs@.len() && pairs@[p]@.key == entries@[q].0.1@;
                assert(pv[p] == pairs@[p]@);
            };
            assert(pairs_match_table(pv, tbl));
        }
        Ok(pairs)
    }

    fn get_iter(&self, table: &str) -> (r: Result<KvIter, KvError>) {
        match self.get_all(table) {
            Ok(pairs) => Ok(KvIter::new(pairs)),
            Err(e) => Err(e),
        }
    }
}

} // verus!
