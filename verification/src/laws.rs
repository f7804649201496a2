//! The store's laws: properties relating several operations, stated over
//! the same spec functions the executable contracts use and proved once for
//! every input.
//!
//! Each law speaks of abstract contents (`StoreView`): the contracts of
//! `Storage::set`, `Storage::get` and the dispatcher tie those contents to
//! the executable operations, so the laws transfer to any backend
//! implementing the trait.

use vstd::prelude::*;

use crate::service::{hget_response_view, hset_post};
use crate::storage::{lookup, store_set, StoreView};
use crate::types::{not_found_message, value_response_view, CommandResponseView, ValueView};

verus! {

/// No write is lost: a set stores its own row and disturbs no other row,
/// whatever table or key the other row lives under.  In particular, any
/// number of writers filling distinct keys of one fresh table leave exactly
/// those rows behind, all in the same single logical table.
pub proof fn lemma_writes_not_lost(
    m: StoreView,
    table: Seq<char>,
    key: Seq<char>,
    v: ValueView,
    t2: Seq<char>,
    k2: Seq<char>,
)
    ensures
        lookup(store_set(m, table, key, v), table, key) == Some(v),
        (t2, k2) != (table, key) ==> lookup(store_set(m, table, key, v), t2, k2) == lookup(
            m,
            t2,
            k2,
        ),
{
}

/// Set returns the previous value: writing a fresh key reports no prior
/// value, overwriting it reports the value written first, and a read
/// afterwards sees the latest write.  `Storage::set` returns exactly
/// `lookup` of the contents before the call, so the three clauses are the
/// three reported values.
pub proof fn lemma_set_returns_previous(
    m: StoreView,
    table: Seq<char>,
    key: Seq<char>,
    v1: ValueView,
    v2: ValueView,
)
    requires
        !m.contains_key((table, key)),
    ensures
        lookup(m, table, key) is None,
        lookup(store_set(m, table, key, v1), table, key) == Some(v1),
        lookup(store_set(store_set(m, table, key, v1), table, key, v2), table, key) == Some(v2),
{
}

/// A miss is not an error: reading an untouched key of an untouched table
/// is a plain absence.  `Storage::get` promises the success outcome on every
/// input, so the absence arrives as `Ok(None)`, never as an error.
pub proof fn lemma_miss_is_not_error(m: StoreView, table: Seq<char>, key: Seq<char>)
    requires
        !m.contains_key((table, key)),
    ensures
        lookup(m, table, key) is None,
{
}

/// Reading a key never set is answered with status 404, a message that
/// names the absence and identifies table and key, and no values or pairs.
pub proof fn lemma_hget_absent_key(m: StoreView, table: Seq<char>, key: Seq<char>)
    requires
        !m.contains_key((table, key)),
    ensures
        hget_response_view(m, table, key).status == 404,
        hget_response_view(m, table, key).values == Seq::<ValueView>::empty(),
        hget_response_view(m, table, key).pairs.len() == 0,
        hget_response_view(m, table, key).message == not_found_message(table, key),
        hget_response_view(m, table, key).message.subrange(0, 9) == "Not found"@,
{
    reveal_strlit("Not found for table: ");
    reveal_strlit("Not found");
    assert(hget_response_view(m, table, key).message.subrange(0, 9) =~= "Not found"@);
}

/// A write request without a row is benign: it mutates nothing and is
/// answered with status 200 carrying the single empty value.
pub proof fn lemma_hset_without_pair(
    m: StoreView,
    table: Seq<char>,
    post_state: StoreView,
    resp: CommandResponseView,
)
    requires
        hset_post(m, table, None, post_state, resp),
    ensures
        post_state == m,
        resp.status == 200,
        resp.values == seq![ValueView::Empty],
        resp.pairs.len() == 0,
{
}

/// The contents after a batch of writes into one table, applied in order.
pub open spec fn apply_writes(
    m: StoreView,
    table: Seq<char>,
    writes: Seq<(Seq<char>, ValueView)>,
) -> StoreView
    decreases writes.len(),
{
    if writes.len() == 0 {
        m
    } else {
        store_set(
            apply_writes(m, table, writes.drop_last()),
            table,
            writes.last().0,
            writes.last().1,
        )
    }
}

/// Idempotent table creation, sequentialized: when each of N writers sets
/// its own key of one table, every row survives with its writer's value,
/// whatever order the writes landed in — none falls into a discarded
/// duplicate of the table.
pub proof fn lemma_batch_of_writes_all_kept(
    m: StoreView,
    table: Seq<char>,
    writes: Seq<(Seq<char>, ValueView)>,
    i: int,
)
    requires
        0 <= i < writes.len(),
        forall|a: int, b: int|
            0 <= a < b < writes.len() ==> (#[trigger] writes[a]).0 != (#[trigger] writes[b]).0,
    ensures
        lookup(apply_writes(m, table, writes), table, writes[i].0) == Some(writes[i].1),
    decreases writes.len(),
{
    if i < writes.len() - 1 {
        lemma_batch_of_writes_all_kept(m, table, writes.drop_last(), i);
        assert(writes.drop_last()[i] == writes[i]);
        assert(writes[i].0 != writes.last().0);
    }
}

/// A batch of writes into one table leaves every other table untouched.
pub proof fn lemma_batch_of_writes_isolated(
    m: StoreView,
    table: Seq<char>,
    writes: Seq<(Seq<char>, ValueView)>,
    t2: Seq<char>,
    k2: Seq<char>,
)
    requires
        t2 != table,
    ensures
        lookup(apply_writes(m, table, writes), t2, k2) == lookup(m, t2, k2),
    decreases writes.len(),
{
    if writes.len() > 0 {
        lemma_batch_of_writes_isolated(m, table, writes.drop_last(), t2, k2);
        assert((t2, k2) != (table, writes.last().0));
    }
}

/// Same-key writes resolve to the last one whole: after a write, a read of
/// that key observes exactly the value written, never a mixture.
pub proof fn lemma_last_writer_wins(m: StoreView, table: Seq<char>, key: Seq<char>, v: ValueView)
    ensures
        lookup(store_set(m, table, key, v), table, key) == Some(v),
{
}

/// Cross-table isolation: writing a key in one table affects neither reads
/// nor existence checks of the same key in any other table.
pub proof fn lemma_cross_table_isolation(
    m: StoreView,
    table_a: Seq<char>,
    table_b: Seq<char>,
    key: Seq<char>,
    v: ValueView,
)
    requires
        table_a != table_b,
    ensures
        lookup(store_set(m, table_a, key, v), table_b, key) == lookup(m, table_b, key),
        store_set(m, table_a, key, v).contains_key((table_b, key)) == m.contains_key(
            (table_b, key),
        ),
{
    assert((table_a, key) != (table_b, key));
}

} // verus!
