use postit::dispatch::{
    load_value, not_found, plan_load, plan_save, route_of, save_value, ReplyBody, Route, Step,
    LOAD_VALUE_PATH, SAVE_VALUE_PATH,
};
use postit::models::{KeyValue, LoadValueRequest, SaveValueRequest};
use postit::store::{database_url, value_of, StorageCall, StoreError, SELECT_SQL, UPSERT_SQL};

fn save_req(key: &str, value: &str) -> SaveValueRequest {
    SaveValueRequest::new(key.to_string(), value.to_string())
}

fn load_req(key: &str) -> LoadValueRequest {
    LoadValueRequest::new(key.to_string())
}

fn upsert_args(step: Step) -> (String, String) {
    match step {
        Step::Call(StorageCall::Upsert { key, value }) => (key, value),
        _ => panic!("expected an upsert"),
    }
}

fn lookup_key(step: Step) -> String {
    match step {
        Step::Call(StorageCall::Lookup { key }) => key,
        _ => panic!("expected a lookup"),
    }
}

#[test]
fn routes_match_the_two_operations() {
    assert_eq!(route_of("POST", "/twirp/kv.KVService/SaveValue"), Some(Route::SaveValue));
    assert_eq!(route_of("POST", "/twirp/kv.KVService/LoadValue"), Some(Route::LoadValue));
    assert_eq!(route_of("POST", SAVE_VALUE_PATH), Some(Route::SaveValue));
    assert_eq!(route_of("POST", LOAD_VALUE_PATH), Some(Route::LoadValue));
}

#[test]
fn unmatched_routes_are_not_found() {
    assert_eq!(route_of("GET", "/twirp/kv.KVService/SaveValue"), None);
    assert_eq!(route_of("POST", "/twirp/kv.KVService/DeleteValue"), None);
    assert_eq!(route_of("POST", "/twirp/kv.KVService/SaveValu"), None);
    assert_eq!(route_of("POST", "/twirp/kv.KVService/LoadValueX"), None);
    assert_eq!(route_of("post", "/twirp/kv.KVService/LoadValue"), None);
    assert_eq!(route_of("POST", ""), None);
    assert_eq!(route_of("", ""), None);
    let reply = not_found();
    assert_eq!(reply.status, 404);
    assert!(matches!(reply.body, ReplyBody::Text(ref t) if t == "Not Found"));
}

#[test]
fn save_plans_one_upsert_of_key_and_value() {
    let (key, value) = upsert_args(plan_save(Ok(save_req("a", "1"))));
    assert_eq!(key, "a");
    assert_eq!(value, "1");
}

#[test]
fn load_plans_one_lookup_of_key() {
    assert_eq!(lookup_key(plan_load(Ok(load_req("a")))), "a");
}

#[test]
fn malformed_save_body_is_rejected_before_the_store() {
    let step = plan_save(Err("expected ident at line 1 column 2".to_string()));
    match step {
        Step::Respond(reply) => {
            assert_eq!(reply.status, 400);
            assert!(
                matches!(reply.body, ReplyBody::Text(ref t) if t == "expected ident at line 1 column 2")
            );
        }
        Step::Call(_) => panic!("a malformed body reached the store"),
    }
}

#[test]
fn malformed_load_body_is_rejected_before_the_store() {
    let step = plan_load(Err("missing field `key`".to_string()));
    match step {
        Step::Respond(reply) => assert_eq!(reply.status, 400),
        Step::Call(_) => panic!("a malformed body reached the store"),
    }
}

#[test]
fn committed_save_replies_success() {
    let reply = save_value(Ok(()));
    assert_eq!(reply.status, 200);
    assert!(matches!(reply.body, ReplyBody::Saved(ref r) if r.success));
}

#[test]
fn failed_save_replies_server_error() {
    let reply = save_value(Err(StoreError::Write("disk I/O error".to_string())));
    assert_eq!(reply.status, 500);
    assert!(matches!(reply.body, ReplyBody::Saved(ref r) if !r.success));
}

#[test]
fn load_of_stored_value_is_found() {
    let reply = load_value(Ok(Some("1".to_string())));
    assert_eq!(reply.status, 200);
    match reply.body {
        ReplyBody::Loaded(r) => {
            assert!(r.found);
            assert_eq!(r.value.as_deref(), Some("1"));
        }
        _ => panic!("expected a load body"),
    }
}

#[test]
fn load_of_absent_key_is_not_an_error() {
    let reply = load_value(Ok(None));
    assert_eq!(reply.status, 200);
    match reply.body {
        ReplyBody::Loaded(r) => {
            assert!(!r.found);
            assert_eq!(r.value, None);
        }
        _ => panic!("expected a load body"),
    }
}

#[test]
fn failed_load_replies_generic_server_error() {
    let reply = load_value(Err(StoreError::Read("database is locked".to_string())));
    assert_eq!(reply.status, 500);
    match reply.body {
        ReplyBody::Text(t) => {
            assert_eq!(t, "Failed to load value");
            assert!(!t.contains("locked"));
        }
        _ => panic!("expected a text body"),
    }
}

#[test]
fn round_trip_of_one_key() {
    let (key, value) = upsert_args(plan_save(Ok(save_req("a", "1"))));
    let looked_up = lookup_key(plan_load(Ok(load_req("a"))));
    assert_eq!(looked_up, key);
    let record = Some(KeyValue::new(key, value));
    match load_value(Ok(value_of(record))).body {
        ReplyBody::Loaded(r) => {
            assert!(r.found);
            assert_eq!(r.value.as_deref(), Some("1"));
        }
        _ => panic!("expected a load body"),
    }
}

#[test]
fn second_save_of_a_key_overwrites() {
    let (k1, v1) = upsert_args(plan_save(Ok(save_req("a", "1"))));
    let (k2, v2) = upsert_args(plan_save(Ok(save_req("a", "2"))));
    assert_eq!(k1, k2);
    assert_eq!(v1, "1");
    assert_eq!(v2, "2");
}

#[test]
fn distinct_keys_plan_distinct_upserts() {
    let (kp, vp) = upsert_args(plan_save(Ok(save_req("p", "left"))));
    let (kq, vq) = upsert_args(plan_save(Ok(save_req("q", "right"))));
    assert_ne!(kp, kq);
    assert_eq!((kp.as_str(), vp.as_str()), ("p", "left"));
    assert_eq!((kq.as_str(), vq.as_str()), ("q", "right"));
}

#[test]
fn empty_key_and_value_are_stored_as_given() {
    let (key, value) = upsert_args(plan_save(Ok(save_req("", ""))));
    assert_eq!(key, "");
    assert_eq!(value, "");
}

#[test]
fn value_of_takes_the_record_value() {
    assert_eq!(value_of(Some(KeyValue::new("k".to_string(), "v".to_string()))), Some("v".to_string()));
    assert_eq!(value_of(None), None);
}

#[test]
fn database_url_prefixes_the_path() {
    assert_eq!(database_url("example.db"), "sqlite:example.db");
    assert_eq!(database_url(""), "sqlite:");
}

#[test]
fn statements_match_the_call() {
    let upsert = StorageCall::Upsert { key: "a".to_string(), value: "1".to_string() };
    let lookup = StorageCall::Lookup { key: "a".to_string() };
    assert_eq!(upsert.statement(), UPSERT_SQL);
    assert_eq!(lookup.statement(), SELECT_SQL);
    assert!(UPSERT_SQL.contains("ON CONFLICT(key) DO UPDATE"));
}

#[test]
fn store_errors_describe_context_and_detail() {
    let e = StoreError::Connection("unable to open database file".to_string());
    assert!(e.is_fatal());
    assert_eq!(e.describe(), "Failed to connect to the database: unable to open database file");
    let e = StoreError::Migration("syntax error".to_string());
    assert!(e.is_fatal());
    assert_eq!(e.describe(), "Failed to migrate the database: syntax error");
    let e = StoreError::Write("x".to_string());
    assert!(!e.is_fatal());
    assert_eq!(e.describe(), "Failed to save the key-value pair: x");
    let e = StoreError::Read("y".to_string());
    assert!(!e.is_fatal());
    assert_eq!(e.describe(), "Failed to load the key-value pair: y");
}
