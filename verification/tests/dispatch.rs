use bytes::Bytes;
use sharded_store::command::{Command, Reply};
use sharded_store::dispatch::{apply, dispatch, lookup_reply, unsupported_message};
use sharded_store::shard::Shard;
use sharded_store::store::new_sharded_db;

fn set(key: &str, value: &str) -> Command {
    Command::SetValue { key: key.to_string(), value: Bytes::from(value.to_string()) }
}

fn get(key: &str) -> Command {
    Command::Get { key: key.to_string() }
}

#[test]
fn shard_starts_empty() {
    let shard = Shard::new();
    assert_eq!(shard.get("a"), None);
}

#[test]
fn shard_set_then_get() {
    let mut shard = Shard::new();
    shard.set("a".to_string(), Bytes::from("1"));
    assert_eq!(shard.get("a"), Some(Bytes::from("1")));
    assert_eq!(shard.get("b"), None);
    shard.set("a".to_string(), Bytes::from("2"));
    assert_eq!(shard.get("a"), Some(Bytes::from("2")));
}

#[test]
fn unsupported_message_names_the_request() {
    assert_eq!(unsupported_message("ping"), "unimplemented: ping");
    assert_eq!(unsupported_message(""), "unimplemented: ");
}

#[test]
fn lookup_reply_is_bulk_for_a_value_and_nil_for_none() {
    assert_eq!(lookup_reply(Some(Bytes::from("v"))), Reply::BulkValue(Bytes::from("v")));
    assert_eq!(lookup_reply(None), Reply::Nil);
}

#[test]
fn apply_set_answers_okay_and_stores() {
    let mut shard = Shard::new();
    assert_eq!(apply(set("a", "1"), &mut shard), Reply::Okay);
    assert_eq!(shard.get("a"), Some(Bytes::from("1")));
}

#[test]
fn apply_get_answers_with_the_value_or_nil() {
    let mut shard = Shard::new();
    assert_eq!(apply(get("a"), &mut shard), Reply::Nil);
    assert_eq!(apply(set("a", "1"), &mut shard), Reply::Okay);
    assert_eq!(apply(get("a"), &mut shard), Reply::BulkValue(Bytes::from("1")));
    assert_eq!(apply(get("b"), &mut shard), Reply::Nil);
}

#[test]
fn apply_overwrite_reads_the_second_value() {
    let mut shard = Shard::new();
    assert_eq!(apply(set("k", "v1"), &mut shard), Reply::Okay);
    assert_eq!(apply(set("k", "v2"), &mut shard), Reply::Okay);
    assert_eq!(apply(get("k"), &mut shard), Reply::BulkValue(Bytes::from("v2")));
}

#[test]
fn apply_unsupported_answers_with_an_error_and_changes_nothing() {
    let mut shard = Shard::new();
    assert_eq!(apply(set("a", "1"), &mut shard), Reply::Okay);
    assert_eq!(
        apply(Command::Unsupported { name: "ping".to_string() }, &mut shard),
        Reply::ProtocolError("unimplemented: ping".to_string())
    );
    assert_eq!(shard.get("a"), Some(Bytes::from("1")));
    assert_eq!(shard.get("ping"), None);
}

#[test]
fn dispatch_set_then_get_round_trip() {
    let db = new_sharded_db(4);
    assert_eq!(dispatch(set("a", "1"), &db), Reply::Okay);
    assert_eq!(dispatch(get("a"), &db), Reply::BulkValue(Bytes::from("1")));
}

#[test]
fn dispatch_get_of_absent_key_is_nil() {
    let db = new_sharded_db(4);
    assert_eq!(dispatch(get("b"), &db), Reply::Nil);
}

#[test]
fn dispatch_overwrite_reads_the_second_value() {
    let db = new_sharded_db(4);
    assert_eq!(dispatch(set("k", "v1"), &db), Reply::Okay);
    assert_eq!(dispatch(set("k", "v2"), &db), Reply::Okay);
    assert_eq!(dispatch(get("k"), &db), Reply::BulkValue(Bytes::from("v2")));
}

#[test]
fn dispatch_unsupported_is_an_error_reply_and_the_store_goes_on() {
    let db = new_sharded_db(4);
    assert_eq!(
        dispatch(Command::Unsupported { name: "flushall".to_string() }, &db),
        Reply::ProtocolError("unimplemented: flushall".to_string())
    );
    assert_eq!(dispatch(set("a", "1"), &db), Reply::Okay);
    assert_eq!(dispatch(get("a"), &db), Reply::BulkValue(Bytes::from("1")));
    assert_eq!(db.get("flushall"), None);
}

#[test]
fn dispatch_and_the_store_see_the_same_values() {
    let db = new_sharded_db(4);
    db.set("x".to_string(), Bytes::from("direct"));
    assert_eq!(dispatch(get("x"), &db), Reply::BulkValue(Bytes::from("direct")));
    assert_eq!(dispatch(set("y", "through"), &db), Reply::Okay);
    assert_eq!(db.get("y"), Some(Bytes::from("through")));
}
