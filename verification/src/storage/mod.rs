//! The storage abstraction: the capability contract every backend satisfies.
//!
//! The abstract state of a backend is a finite map from (table, key) to
//! value.  A table is a lazily materialized namespace: reading from a table
//! that was never touched behaves exactly like reading from an existing but
//! empty one, and the first write materializes it.  No method raises for an
//! unknown table.

pub mod memory;

use vstd::prelude::*;

use crate::error::KvError;
use crate::types::{Kvpair, KvpairView, Value, ValueView};

verus! {

/// The abstract contents of a backend: one flat map keyed by (table, key).
pub type StoreView = Map<(Seq<char>, Seq<char>), ValueView>;

/// The contents of a store holding nothing.
pub open spec fn empty_store() -> StoreView {
    Map::empty()
}

/// The value stored under `key` in `table`, if any.
pub open spec fn lookup(m: StoreView, table: Seq<char>, key: Seq<char>) -> Option<ValueView> {
    if m.contains_key((table, key)) {
        Some(m[(table, key)])
    } else {
        None
    }
}

/// The contents after writing `v` under `key` into `table`.
pub open spec fn store_set(
    m: StoreView,
    table: Seq<char>,
    key: Seq<char>,
    v: ValueView,
) -> StoreView {
    m.insert((table, key), v)
}

/// The contents after deleting `key` from `table`.
pub open spec fn store_del(m: StoreView, table: Seq<char>, key: Seq<char>) -> StoreView {
    m.remove((table, key))
}

/// The rows of one table: the sub-map of `m` under the table's name.
pub open spec fn table_of(m: StoreView, table: Seq<char>) -> Map<Seq<char>, ValueView> {
    Map::new(
        |k: Seq<char>| m.contains_key((table, k)),
        |k: Seq<char>| m[(table, k)],
    )
}

/// The image of an optional value.
pub open spec fn opt_view(o: Option<Value>) -> Option<ValueView> {
    match o {
        Some(v) => Some(v@),
        None => None,
    }
}

/// `pairs` lists exactly the rows of `tbl`: each listed row is a row of
/// `tbl` carrying its stored value, no key is listed twice, and every key of
/// `tbl` is listed.  The order is deliberately unconstrained: a snapshot's
/// order is unspecified and callers needing one must sort downstream.
pub open spec fn pairs_match_table(pairs: Seq<KvpairView>, tbl: Map<Seq<char>, ValueView>) -> bool {
    &&& forall|i: int|
        0 <= i < pairs.len() ==> tbl.contains_key((#[trigger] pairs[i]).key) && pairs[i].value
            == Some(tbl[pairs[i].key])
    &&& forall|i: int, j: int|
        0 <= i < j < pairs.len() ==> (#[trigger] pairs[i]).key != (#[trigger] pairs[j]).key
    &&& forall|k: Seq<char>|
        #[trigger] tbl.contains_key(k) ==> exists|i: int|
            0 <= i < pairs.len() && (#[trigger] pairs[i]).key == k
}

/// What a backend offers: single-key point operations and whole-table
/// snapshots, each relating the result to the backend's abstract contents.
/// Every method is total on its inputs: success is always owed, and the
/// `Result` shape is the room reserved for future backends with real failure
/// modes.
pub trait Storage {
    /// The backend's current contents.
    spec fn contents(&self) -> StoreView;

    /// The current value under `key` in `table`, or its absence.  Never an
    /// error, and never an observable change to the contents.
    fn get(&self, table: &str, key: &str) -> (r: Result<Option<Value>, KvError>)
        ensures
            r matches Ok(v) && opt_view(v) == lookup(self.contents(), table@, key@),
    ;

    /// Inserts or overwrites, returning the prior value if any.
    fn set(&mut self, table: &str, key: String, value: Value) -> (r: Result<
        Option<Value>,
        KvError,
    >)
        ensures
            final(self).contents() == store_set(old(self).contents(), table@, key@, value@),
            r matches Ok(prev) && opt_view(prev) == lookup(old(self).contents(), table@, key@),
    ;

    /// Whether `key` currently exists in `table`.
    fn contains(&self, table: &str, key: &str) -> (r: Result<bool, KvError>)
        ensures
            r matches Ok(b) && b == self.contents().contains_key((table@, key@)),
    ;

    /// Removes `key` from `table`, returning the removed value if it was
    /// present.
    fn del(&mut self, table: &str, key: &str) -> (r: Result<Option<Value>, KvError>)
        ensures
            final(self).contents() == store_del(old(self).contents(), table@, key@),
            r matches Ok(prev) && opt_view(prev) == lookup(old(self).contents(), table@, key@),
    ;

    /// A snapshot of all rows of `table` at call time, in unspecified order.
    /// Later mutations do not affect an already returned snapshot.
    fn get_all(&self, table: &str) -> (r: Result<Vec<Kvpair>, KvError>)
        ensures
            r matches Ok(pairs) && pairs_match_table(
                pairs@.map_values(|p: Kvpair| p@),
                table_of(self.contents(), table@),
            ),
    ;

    /// A snapshot-derived cursor over the rows of `table`: finite, owned by
    /// the caller, not shared across calls.
    fn get_iter(&self, table: &str) -> (r: Result<KvIter, KvError>)
        ensures
            r matches Ok(it) && it.position() == 0 && pairs_match_table(
                it.pairs_view(),
                table_of(self.contents(), table@),
            ),
    ;
}

/// A cursor over a snapshot of one table's rows.  It owns its copy: later
/// mutations of the backend do not reach it.
pub struct KvIter {
    pairs: Vec<Kvpair>,
    pos: usize,
}

impl KvIter {
    /// The snapshot the cursor walks.
    pub closed spec fn pairs_view(&self) -> Seq<KvpairView> {
        self.pairs@.map_values(|p: Kvpair| p@)
    }

    /// How many rows were already handed out.
    pub closed spec fn position(&self) -> int {
        self.pos as int
    }

    /// A cursor at the start of `pairs`.
    pub fn new(pairs: Vec<Kvpair>) -> (r: KvIter)
        ensures
            r.pairs_view() == pairs@.map_values(|p: Kvpair| p@),
            r.position() == 0,
    {
        KvIter { pairs, pos: 0 }
    }

    /// The next row of the snapshot, or `None` once it is exhausted.
    pub fn next(&mut self) -> (r: Option<Kvpair>)
        ensures
            final(self).pairs_view() == old(self).pairs_view(),
            old(self).position() < old(self).pairs_view().len() ==> {
                &&& final(self).position() == old(self).position() + 1
                &&& r matches Some(p) && p@ == old(self).pairs_view()[old(self).position()]
            },
            old(self).position() >= old(self).pairs_view().len() ==> {
                &&& final(self).position() == old(self).position()
                &&& r is None
            },
    {
        if self.pos < self.pairs.len() {
            let p = self.pairs[self.pos].dup();
            self.pos = self.pos + 1;
            Some(p)
        } else {
            None
        }
    }
}

} // verus!
