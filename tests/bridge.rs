use hash_gateway::error::BridgeError;
use hash_gateway::gateway::{
    after_publish, after_wait, bad_request_reply, expired_outcome, front_door_reply, on_response_message, request_data, start_call, ListenerOutcome,
    WaitResult,
};
use hash_gateway::message::{HashRequest, HashResponse};
use tokio::sync::oneshot::channel as new_slot;
use hash_gateway::table::CorrelationTable;
use hash_gateway::worker::reply_to;
use std::collections::HashSet;
use std::time::{Duration, Instant};

const HELLO_DIGEST: &str = "2cf24dba5fb0a30e26e83b2ac5b9e29e1b161e5c1fa7425e73043362938b9824";

#[test]
fn generated_ids_are_pairwise_distinct() {
    let mut seen = HashSet::new();
    for _ in 0..10_000 {
        let request = HashRequest::new("x".to_string());
        assert_eq!(request.id.len(), 36);
        assert_eq!(request.id.as_bytes()[14], b'4');
        assert!(seen.insert(request.id));
    }
    assert_eq!(seen.len(), 10_000);
}

#[test]
fn register_then_resolve_delivers_payload_once() {
    let mut table = CorrelationTable::new();
    let (tx, mut rx) = new_slot();
    assert!(table.register("x".to_string(), 1, tx).is_ok());
    assert!(table.contains("x"));
    assert_eq!(table.len(), 1);
    assert!(table.resolve("x", "P".to_string()));
    assert_eq!(rx.try_recv().unwrap(), "P");
    assert!(!table.resolve("x", "Q".to_string()));
    assert_eq!(table.len(), 0);
}

#[test]
fn resolve_before_cancel_wins_race() {
    let mut table = CorrelationTable::new();
    let (tx, mut rx) = new_slot();
    table.register("x".to_string(), 1, tx).unwrap();
    assert!(table.resolve("x", "P".to_string()));
    assert!(!table.cancel("x"));
    assert_eq!(table.len(), 0);
    assert_eq!(rx.try_recv().unwrap(), "P");
    assert!(rx.try_recv().is_err());
}

#[test]
fn cancel_before_resolve_wins_race() {
    let mut table = CorrelationTable::new();
    let (tx, mut rx) = new_slot();
    table.register("x".to_string(), 1, tx).unwrap();
    assert!(table.cancel("x"));
    assert!(!table.resolve("x", "P".to_string()));
    assert_eq!(table.len(), 0);
    assert!(rx.try_recv().is_err());
}

#[test]
fn duplicate_id_is_refused() {
    let mut table = CorrelationTable::new();
    let (tx1, mut rx1) = new_slot();
    let (tx2, mut rx2) = new_slot();
    assert_eq!(table.register("x".to_string(), 1, tx1), Ok(()));
    assert_eq!(table.register("x".to_string(), 2, tx2), Err(BridgeError::DuplicateId));
    assert_eq!(table.len(), 1);
    assert!(table.resolve("x", "P".to_string()));
    assert_eq!(rx1.try_recv().unwrap(), "P");
    assert!(rx2.try_recv().is_err());
}

#[test]
fn timeout_without_response_removes_entry() {
    let budget = Duration::from_millis(50);
    let mut table = CorrelationTable::new();
    let mut call = start_call(&mut table, "hello".to_string(), 7).unwrap();
    assert!(table.contains(&call.request.id));
    assert_eq!(after_publish(&mut table, &call.request.id, true), Ok(()));
    let runtime = tokio::runtime::Builder::new_current_thread().enable_time().build().unwrap();
    let started = Instant::now();
    let waited = runtime.block_on(async { tokio::time::timeout(budget, &mut call.receiver).await });
    assert!(waited.is_err());
    assert!(started.elapsed() >= budget);
    let outcome = after_wait(&mut table, &call.request.id, WaitResult::Expired, &mut call.receiver);
    assert_eq!(outcome, Err(BridgeError::CorrelationTimeout));
    assert!(!table.contains(&call.request.id));
    assert_eq!(table.len(), 0);
}

#[test]
fn late_response_after_timeout_is_dropped() {
    let mut table = CorrelationTable::new();
    let mut call = start_call(&mut table, "hello".to_string(), 7).unwrap();
    let outcome = after_wait(&mut table, &call.request.id, WaitResult::Expired, &mut call.receiver);
    assert_eq!(outcome, Err(BridgeError::CorrelationTimeout));
    let late = HashResponse { id: call.request.id.clone(), hash: "h".to_string() }.to_json();
    assert_eq!(on_response_message(&mut table, Some(&late)), ListenerOutcome::Unmatched);
    assert!(!table.contains(&call.request.id));
    assert_eq!(table.len(), 0);
}

#[test]
fn expiry_after_delivery_keeps_delivered_value() {
    let mut table = CorrelationTable::new();
    let mut call = start_call(&mut table, "hello".to_string(), 7).unwrap();
    assert!(table.resolve(&call.request.id, "late but first".to_string()));
    let outcome = after_wait(&mut table, &call.request.id, WaitResult::Expired, &mut call.receiver);
    assert_eq!(outcome, Ok("late but first".to_string()));
    assert_eq!(table.len(), 0);
}

#[test]
fn delivered_and_closed_waits() {
    let mut table = CorrelationTable::new();
    let mut call = start_call(&mut table, "a".to_string(), 1).unwrap();
    let delivered = after_wait(&mut table, &call.request.id, WaitResult::Delivered("v".to_string()), &mut call.receiver);
    assert_eq!(delivered, Ok("v".to_string()));
    assert_eq!(table.len(), 0);
    let mut other = start_call(&mut table, "b".to_string(), 2).unwrap();
    let closed = after_wait(&mut table, &other.request.id, WaitResult::Closed, &mut other.receiver);
    assert_eq!(closed, Err(BridgeError::CorrelationTimeout));
    assert_eq!(table.len(), 0);
}

#[test]
fn publish_failure_removes_waiter() {
    let mut table = CorrelationTable::new();
    let mut call = start_call(&mut table, "hello".to_string(), 3).unwrap();
    assert_eq!(call.request.data, "hello");
    assert_eq!(call.message, format!("{{\"id\":\"{}\",\"data\":\"hello\"}}", call.request.id));
    assert_eq!(after_publish(&mut table, &call.request.id, false), Err(BridgeError::PublishFailure));
    assert_eq!(table.len(), 0);
    assert!(call.receiver.try_recv().is_err());
}

#[test]
fn end_to_end_hello() {
    let mut table = CorrelationTable::new();
    let (tx, mut rx) = new_slot();
    let request = HashRequest { id: "a1".to_string(), data: "hello".to_string() };
    table.register(request.id.clone(), 0, tx).unwrap();
    let message = request.to_json();
    assert_eq!(message, "{\"id\":\"a1\",\"data\":\"hello\"}");
    let response = reply_to(&message).unwrap();
    assert_eq!(response.id, "a1");
    assert_eq!(response.hash, HELLO_DIGEST);
    let published = response.to_json();
    assert_eq!(published, format!("{{\"id\":\"a1\",\"hash\":\"{}\"}}", HELLO_DIGEST));
    assert_eq!(on_response_message(&mut table, Some(&published)), ListenerOutcome::Resolved);
    let hash = rx.try_recv().unwrap();
    let (status, body) = front_door_reply("a1", Ok(hash));
    assert_eq!(status, 200);
    assert_eq!(body, format!("{{\"id\":\"a1\",\"hash\":\"{}\"}}", HELLO_DIGEST));
}

#[test]
fn malformed_response_is_dropped_and_others_resolve() {
    let mut table = CorrelationTable::new();
    let (tx1, mut rx1) = new_slot();
    let (tx2, mut rx2) = new_slot();
    table.register("one".to_string(), 0, tx1).unwrap();
    table.register("two".to_string(), 0, tx2).unwrap();
    assert_eq!(on_response_message(&mut table, Some("not json")), ListenerOutcome::Malformed);
    assert_eq!(on_response_message(&mut table, Some("{\"id\":1,\"hash\":\"h\"}")), ListenerOutcome::Malformed);
    assert_eq!(on_response_message(&mut table, Some("{\"id\":\"one\"}")), ListenerOutcome::Malformed);
    assert_eq!(on_response_message(&mut table, None), ListenerOutcome::Malformed);
    assert_eq!(table.len(), 2);
    assert_eq!(on_response_message(&mut table, Some("{\"id\":\"two\",\"hash\":\"h2\"}")), ListenerOutcome::Resolved);
    assert_eq!(rx2.try_recv().unwrap(), "h2");
    assert!(table.contains("one"));
    assert!(!table.contains("two"));
    assert!(rx1.try_recv().is_err());
    assert_eq!(on_response_message(&mut table, Some("{\"id\":\"two\",\"hash\":\"again\"}")), ListenerOutcome::Unmatched);
    assert_eq!(table.len(), 1);
}

#[test]
fn front_door_statuses() {
    assert_eq!(front_door_reply("a1", Err(BridgeError::CorrelationTimeout)), (408, String::new()));
    assert_eq!(front_door_reply("a1", Err(BridgeError::PublishFailure)), (500, String::new()));
    assert_eq!(front_door_reply("a1", Err(BridgeError::DuplicateId)), (500, String::new()));
    assert_eq!(bad_request_reply(), (400, String::new()));
}

#[test]
fn front_door_request_data() {
    assert_eq!(request_data("{\"data\":\"hello\"}"), Some("hello".to_string()));
    assert_eq!(request_data("{\"data\":\"hello\",\"other\":1}"), Some("hello".to_string()));
    assert_eq!(request_data("{\"data\":5}"), None);
    assert_eq!(request_data("{}"), None);
    assert_eq!(request_data("nope"), None);
}

#[test]
fn expired_outcome_prefers_recorded_value() {
    assert_eq!(expired_outcome(true, None), Err(BridgeError::CorrelationTimeout));
    assert_eq!(expired_outcome(true, Some("v".to_string())), Err(BridgeError::CorrelationTimeout));
    assert_eq!(expired_outcome(false, Some("v".to_string())), Ok("v".to_string()));
    assert_eq!(expired_outcome(false, None), Err(BridgeError::CorrelationTimeout));
}
