//! The execute behaviour of each implemented request variant.

use vstd::prelude::*;

use crate::error::KvError;
use crate::service::{
    hget_response_view, hgetall_post, hset_post, hset_stored_value, CommandService,
};
use crate::storage::{Storage, StoreView};
use crate::types::{
    error_response, pairs_response, value_response, CommandResponse, CommandResponseView, Hget,
    Hgetall, Hset, Value,
};

verus! {

impl CommandService for Hget {
    open spec fn post(self, pre: StoreView, post_state: StoreView, resp: CommandResponseView) -> bool {
        post_state == pre && resp == hget_response_view(pre, self@.table, self@.key)
    }

    fn execute<S: Storage>(self, store: &mut S) -> (r: CommandResponse) {
        match store.get(self.table.as_str(), self.key.as_str()) {
            Ok(Some(value)) => value_response(value),
            Ok(None) => error_response(KvError::NotFound(self.table, self.key)),
            Err(e) => error_response(e),
        }
    }
}

impl CommandService for Hgetall {
    open spec fn post(self, pre: StoreView, post_state: StoreView, resp: CommandResponseView) -> bool {
        hgetall_post(pre, self@.table, post_state, resp)
    }

    fn execute<S: Storage>(self, store: &mut S) -> (r: CommandResponse) {
        match store.get_all(self.table.as_str()) {
            Ok(kvs) => pairs_response(kvs),
            Err(e) => error_response(e),
        }
    }
}

impl CommandService for Hset {
    open spec fn post(self, pre: StoreView, post_state: StoreView, resp: CommandResponseView) -> bool {
        hset_post(pre, self@.table, self@.pair, post_state, resp)
    }

    fn execute<S: Storage>(self, store: &mut S) -> (r: CommandResponse) {
        match self.pair {
            Some(pair) => {
                let ghost pv = pair@;
                let value = match pair.value {
                    Some(v) => v,
                    None => Value::default(),
                };
                proof {
                    assert(value@ == hset_stored_value(pv));
                }
                match store.set(self.table.as_str(), pair.key, value) {
                    Ok(Some(v)) => value_response(v),
                    Ok(None) => value_response(Value::default()),
                    Err(e) => error_response(e),
                }
            },
            None => value_response(Value::default()),
        }
    }
}

} // verus!
