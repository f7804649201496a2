//! Command dispatch and the service façade.
//!
//! [`dispatch`] is a pure routing function: it selects the populated request
//! variant and invokes its execute behaviour against the store; every
//! failure, including a request with no variant at all, becomes an error
//! response rather than a fault of the caller.

mod command_service;

use vstd::prelude::*;
use vstd::string::StringExecFns;

use crate::error::{KvError, KvErrorView};
use crate::storage::{lookup, pairs_match_table, store_set, table_of, Storage, StoreView};
use crate::types::{
    error_response, error_response_view, value_response_view, CommandRequest,
    CommandRequestView, CommandResponse, CommandResponseView, KvpairView, RequestData,
    RequestDataView, ValueView,
};

verus! {

/// The execute behaviour of one request variant: a relation between the
/// store's contents before the call, its contents after, and the response.
pub trait CommandService {
    /// What executing this command guarantees.
    spec fn post(self, pre: StoreView, post_state: StoreView, resp: CommandResponseView) -> bool;

    /// Runs the command against `store` and reports the outcome as a
    /// response.
    fn execute<S: Storage>(self, store: &mut S) -> (r: CommandResponse)
        ensures
            self.post(old(store).contents(), final(store).contents(), r@),
    ;
}

/// The response to a read of one key: the value on a hit, a not-found error
/// response on a miss.
pub open spec fn hget_response_view(
    pre: StoreView,
    table: Seq<char>,
    key: Seq<char>,
) -> CommandResponseView {
    match lookup(pre, table, key) {
        Some(v) => value_response_view(v),
        None => error_response_view(KvErrorView::NotFound(table, key)),
    }
}

/// The value a write stores: the supplied one, or the empty value when the
/// row carries none.
pub open spec fn hset_stored_value(pair: KvpairView) -> ValueView {
    match pair.value {
        Some(v) => v,
        None => ValueView::Empty,
    }
}

/// The behaviour of a write.  Without a row it is a benign no-op answered
/// with the empty value; with a row it stores the row's value and answers
/// with the prior value, or with the empty value when there was none — both
/// success shapes, distinguished from failure only by status 200.
pub open spec fn hset_post(
    pre: StoreView,
    table: Seq<char>,
    pair: Option<KvpairView>,
    post_state: StoreView,
    resp: CommandResponseView,
) -> bool {
    match pair {
        None => post_state == pre && resp == value_response_view(ValueView::Empty),
        Some(p) => {
            &&& post_state == store_set(pre, table, p.key, hset_stored_value(p))
            &&& resp == value_response_view(
                match lookup(pre, table, p.key) {
                    Some(prev) => prev,
                    None => ValueView::Empty,
                },
            )
        },
    }
}

/// The behaviour of a whole-table read: the contents are untouched and the
/// response carries exactly the table's rows, in unspecified order.
pub open spec fn hgetall_post(
    pre: StoreView,
    table: Seq<char>,
    post_state: StoreView,
    resp: CommandResponseView,
) -> bool {
    &&& post_state == pre
    &&& resp.status == 200
    &&& resp.message == Seq::<char>::empty()
    &&& resp.values == Seq::<ValueView>::empty()
    &&& pairs_match_table(resp.pairs, table_of(pre, table))
}

/// The whole contract of [`dispatch`], one clause per request shape.
pub open spec fn dispatch_post(
    cmd: CommandRequestView,
    pre: StoreView,
    post_state: StoreView,
    resp: CommandResponseView,
) -> bool {
    match cmd.request_data {
        Some(RequestDataView::Hget(p)) => post_state == pre && resp == hget_response_view(
            pre,
            p.table,
            p.key,
        ),
        Some(RequestDataView::Hgetall(p)) => hgetall_post(pre, p.table, post_state, resp),
        Some(RequestDataView::Hset(p)) => hset_post(pre, p.table, p.pair, post_state, resp),
        Some(RequestDataView::Hdel(_)) => post_state == pre && resp == error_response_view(
            KvErrorView::InternalError("Not implemented"@),
        ),
        Some(RequestDataView::Hexist(_)) => post_state == pre && resp == error_response_view(
            KvErrorView::InternalError("Not implemented"@),
        ),
        None => post_state == pre && resp == error_response_view(
            KvErrorView::InvalidCommand("No request data"@),
        ),
    }
}

/// Routes a request to its execute behaviour against `store`.  Pure routing:
/// deterministic given the backend's state, no side effect beyond the one
/// backend call, and an error response — never a fault — for a request with
/// no populated or an unimplemented variant.
pub fn dispatch<S: Storage>(cmd: CommandRequest, store: &mut S) -> (r: CommandResponse)
    ensures
        dispatch_post(cmd@, old(store).contents(), final(store).contents(), r@),
{
    match cmd.request_data {
        Some(RequestData::Hget(param)) => param.execute(store),
        Some(RequestData::Hgetall(param)) => param.execute(store),
        Some(RequestData::Hset(param)) => param.execute(store),
        None => error_response(KvError::InvalidCommand(String::from_str("No request data"))),
        _ => error_response(KvError::InternalError(String::from_str("Not implemented"))),
    }
}

/// The service's inner state: the one storage backend it owns.
pub struct ServiceInner<Store> {
    store: Store,
}

/// The façade the transport layer talks to: it owns one backend for its
/// whole lifetime and exposes `execute` as the single entry point.  Sharing
/// the service between execution contexts is the transport layer's concern;
/// the core exposes its state change through `&mut`.
pub struct Service<Store> {
    inner: ServiceInner<Store>,
}

impl<Store: Storage> Service<Store> {
    /// The backend's current contents.
    pub closed spec fn contents(&self) -> StoreView {
        self.inner.store.contents()
    }

    /// A service over the given backend.
    pub fn new(store: Store) -> (r: Self)
        ensures
            r.contents() == store.contents(),
    {
        Service { inner: ServiceInner { store } }
    }

    /// The backend the service owns.
    pub fn store(&self) -> (r: &Store)
        ensures
            r.contents() == self.contents(),
    {
        &self.inner.store
    }

    /// The single public operation: forwards to [`dispatch`] and returns its
    /// response.  It never raises — every failure is encoded in the
    /// response.
    pub fn execute(&mut self, cmd: CommandRequest) -> (r: CommandResponse)
        ensures
            dispatch_post(cmd@, old(self).contents(), final(self).contents(), r@),
    {
        dispatch(cmd, &mut self.inner.store)
    }
}

} // verus!
