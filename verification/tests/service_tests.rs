//! Dispatch and the service façade seen from outside: each command's
//! response shape, and the error-to-response mapping.

use kvstore::{
    dispatch, error_response, value_response, CommandRequest, CommandResponse, Hset, Kvpair,
    KvError, Memtable, RequestData, Service, Storage, Value,
};

fn assert_res_ok(mut res: CommandResponse, values: &[Value], pairs: &[Kvpair]) {
    res.pairs.sort_by(|a, b| a.partial_cmp(b).unwrap());
    assert_eq!(res.status, 200);
    assert_eq!(res.message, "");
    assert_eq!(res.values, values);
    assert_eq!(res.pairs, pairs);
}

fn assert_res_err(res: CommandResponse, status: u32, message: &str) {
    assert_eq!(res.status, status);
    assert!(res.message.contains(message));
    assert_eq!(res.values, &[]);
    assert_eq!(res.pairs, &[]);
}

#[test]
fn hset_should_work() {
    let mut store = Memtable::new();
    let cmd = CommandRequest::new_hset("t1", "hello", Value::Str("world".to_string()));
    let res = dispatch(cmd.clone(), &mut store);
    assert_res_ok(res, &[Value::default()], &[]);

    let res = dispatch(cmd, &mut store);
    assert_res_ok(res, &[Value::Str("world".to_string())], &[]);
}

#[test]
fn hget_should_work() {
    let mut store = Memtable::new();
    let cmd = CommandRequest::new_hset("score", "u1", Value::Int(10));
    dispatch(cmd, &mut store);

    let cmd = CommandRequest::new_hget("score", "u1");
    let res = dispatch(cmd, &mut store);
    assert_res_ok(res, &[Value::Int(10)], &[]);
}

#[test]
fn hget_with_non_exist_key_should_return_404() {
    let mut store = Memtable::new();
    let cmd = CommandRequest::new_hget("score", "u1");
    let res = dispatch(cmd, &mut store);
    assert_res_err(res, 404, "Not found");
}

#[test]
fn hget_miss_message_names_table_and_key() {
    let mut store = Memtable::new();
    let res = dispatch(CommandRequest::new_hget("score", "u1"), &mut store);
    assert!(res.message.to_lowercase().contains("not found"));
    assert_eq!(res.message, "Not found for table: score, key: u1");
    assert!(res.values.is_empty());
    assert!(res.pairs.is_empty());
}

#[test]
fn hgetall_should_work() {
    let mut store = Memtable::new();
    let cmds = vec![
        CommandRequest::new_hset("score", "u1", Value::Int(10)),
        CommandRequest::new_hset("score", "u2", Value::Int(20)),
    ];
    for cmd in cmds {
        dispatch(cmd, &mut store);
    }

    let cmd = CommandRequest::new_hgetall("score");
    let res = dispatch(cmd, &mut store);
    let pairs = &[Kvpair::new("u1", Value::Int(10)), Kvpair::new("u2", Value::Int(20))];
    assert_res_ok(res, &[], pairs);
}

#[test]
fn service_should_work() {
    // A service holds one storage backend; a write through it is then
    // visible to a later read through the same service.
    let mut service = Service::new(Memtable::default());

    let cmd = CommandRequest::new_hset("t1", "hello", Value::Str("world".to_string()));
    let res = service.execute(cmd);
    assert_res_ok(res, &[Value::default()], &[]);

    let cmd = CommandRequest::new_hget("t1", "hello");
    let res = service.execute(cmd);
    assert_res_ok(res, &[Value::Str("world".to_string())], &[]);
}

#[test]
fn service_store_exposes_the_backend() {
    let mut service = Service::new(Memtable::default());
    service.execute(CommandRequest::new_hset("t", "k", Value::Int(1)));
    assert_eq!(service.store().get("t", "k"), Ok(Some(Value::Int(1))));
}

#[test]
fn hset_with_no_pair_is_benign() {
    let mut store = Memtable::new();
    let cmd = CommandRequest {
        request_data: Some(RequestData::Hset(Hset { table: "t".to_string(), pair: None })),
    };
    let res = dispatch(cmd, &mut store);
    assert_res_ok(res, &[Value::default()], &[]);
    // Nothing was written.
    assert_eq!(store.get_all("t").unwrap(), vec![]);
}

#[test]
fn request_without_data_maps_to_invalid_command() {
    let mut store = Memtable::new();
    let res = dispatch(CommandRequest { request_data: None }, &mut store);
    assert_res_err(res, 400, "No request data");
}

#[test]
fn unimplemented_variant_maps_to_internal_error() {
    let mut store = Memtable::new();
    let cmd = CommandRequest {
        request_data: Some(RequestData::Hdel(kvstore::Hdel {
            table: "t".to_string(),
            key: "k".to_string(),
        })),
    };
    let res = dispatch(cmd, &mut store);
    assert_res_err(res, 500, "Not implemented");

    let cmd = CommandRequest {
        request_data: Some(RequestData::Hexist(kvstore::Hexist {
            table: "t".to_string(),
            key: "k".to_string(),
        })),
    };
    let res = dispatch(cmd, &mut store);
    assert_res_err(res, 500, "Not implemented");
}

#[test]
fn lib_it_works() {
    let result: i32 = 2 + 2;
    assert_eq!(result, 4);
}

#[test]
fn response_builders_shape_the_response() {
    let res = value_response(Value::Int(3));
    assert_eq!(res.status, 200);
    assert_eq!(res.message, "");
    assert_eq!(res.values, vec![Value::Int(3)]);
    assert!(res.pairs.is_empty());

    let res = error_response(KvError::NotFound("a".to_string(), "b".to_string()));
    assert_eq!(res.status, 404);
    assert_eq!(res.message, "Not found for table: a, key: b");

    let res = error_response(KvError::InvalidCommand("oops".to_string()));
    assert_eq!(res.status, 400);
    assert_eq!(res.message, "oops");

    let res = error_response(KvError::InternalError("later".to_string()));
    assert_eq!(res.status, 500);
    assert_eq!(res.message, "later");
}
