//! Core of a small networked key-value store.
//!
//! Clients send typed commands; the dispatcher routes each command to a
//! storage backend and turns the outcome into a [`CommandResponse`].  The
//! backend is anything implementing the `Storage` capability trait, and the
//! `Memtable` is the concurrent in-memory implementation.  Every failure is
//! encoded in the returned response, never raised across the service
//! boundary.

mod error;
mod types;
mod storage;
mod service;
mod parse;
mod laws;

pub use error::{KvError, KvErrorView};
pub use types::{
    Value, ValueView, Kvpair, KvpairView, Hget, HgetView, Hset, HsetView, Hgetall, HgetallView,
    Hdel, HdelView, Hexist, HexistView, RequestData, RequestDataView, CommandRequest,
    CommandRequestView, CommandResponse, CommandResponseView, value_response, pairs_response,
    error_response, value_response_view, error_response_view, error_status, error_message,
    not_found_message,
};
pub use storage::{
    Storage, StoreView, KvIter, empty_store, lookup, store_set, store_del, table_of, opt_view,
    pairs_match_table,
};
pub use storage::memory::Memtable;
pub use service::{
    CommandService, Service, ServiceInner, dispatch, dispatch_post, hget_response_view,
    hset_post, hset_stored_value, hgetall_post,
};
pub use parse::{
    numeric_prefix, numeric_prefix_spec, numeric_prefix_len, parse_u8, parse_u8_spec, parse_i32,
    parse_i32_spec, is_digit, all_digits, digit_run_end, digits_value, opt_str_view,
};
pub use laws::{
    apply_writes, lemma_batch_of_writes_all_kept, lemma_batch_of_writes_isolated,
    lemma_writes_not_lost, lemma_set_returns_previous, lemma_miss_is_not_error,
    lemma_hget_absent_key, lemma_hset_without_pair, lemma_last_writer_wins,
    lemma_cross_table_isolation,
};
