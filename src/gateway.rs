//! The gateway's decisions: starting a call, what follows its publish and its
//! wait, what the response listener does with each message, and the reply
//! the front door gives. The broker, the timer and the HTTP transport stay
//! with the caller, which hands their outcomes in.
use vstd::prelude::*;

use crate::error::BridgeError;
use crate::message::{
    decoded_response, is_uuid_v4_text, json_string_field, request_json, response_json, string_field, HashRequest,
    HashResponse,
};
use crate::slot::{new_slot, take_recorded, SlotReceiver};
use crate::table::{cancel_model, register_model, resolve_model, CorrelationTable};

verus! {

/// A call that was registered and is ready to be published.
pub struct OutboundCall {
    /// The request; its id is the broker key of the message.
    pub request: HashRequest,
    /// The encoded request message.
    pub message: String,
    /// The consuming end of the caller's delivery slot.
    pub receiver: SlotReceiver,
}

/// How the caller's wait on its delivery slot ended.
pub enum WaitResult {
    /// A value was delivered.
    Delivered(String),
    /// The producing end went away without a value.
    Closed,
    /// The wait budget elapsed first.
    Expired,
}

/// What the response listener did with one message.
#[derive(Debug, Clone, Copy, PartialEq, Eq, Structural)]
pub enum ListenerOutcome {
    /// A waiter for the message's id was found and given the result.
    Resolved,
    /// No waiter for the id: a late or duplicate response, dropped.
    Unmatched,
    /// The message could not be read, and was dropped.
    Malformed,
}

/// Starts a call for `data` at time `now`: a fresh correlation id, a waiter
/// registered under it, and the request message to publish. The waiter is
/// registered before the message exists, so no reply can come before it.
pub fn start_call(table: &mut CorrelationTable, data: String, now: u64) -> (r: Result<OutboundCall, BridgeError>)
    ensures
        match r {
            Ok(call) => {
                &&& call.request.data@ == data@
                &&& is_uuid_v4_text(call.request.id@)
                &&& call.message@ == request_json(call.request.id@, data@)
                &&& !old(table)@.waiting.contains_key(call.request.id@)
                &&& final(table)@ == register_model(old(table)@, call.request.id@, now)
            },
            Err(e) => {
                &&& e == BridgeError::DuplicateId
                &&& final(table)@ == old(table)@
                &&& exists|k: Seq<char>| is_uuid_v4_text(k) && #[trigger] old(table)@.waiting.contains_key(k)
            },
        },
{
    let request = HashRequest::new(data);
    let (sender, receiver) = new_slot();
    match table.register(request.id.clone(), now, sender) {
        Ok(()) => {
            let message = request.to_json();
            Ok(OutboundCall { request, message, receiver })
        },
        Err(e) => Err(e),
    }
}

/// What follows the publish of the request for `id`: nothing when it was
/// acknowledged; otherwise the waiter is removed at once and the call fails
/// with `PublishFailure`.
pub fn after_publish(table: &mut CorrelationTable, id: &str, published: bool) -> (r: Result<(), BridgeError>)
    ensures
        published ==> r is Ok && final(table)@ == old(table)@,
        !published ==> r == Err::<(), BridgeError>(BridgeError::PublishFailure)
            && final(table)@ == cancel_model(old(table)@, id@),
{
    if published {
        Ok(())
    } else {
        let _ = table.cancel(id);
        Err(BridgeError::PublishFailure)
    }
}

/// The result of a call whose wait budget elapsed: a timeout when the expiry
/// removed the entry itself (`removed`); otherwise a response claimed the
/// entry first, and the value that it recorded in the slot is the result.
pub fn expired_outcome(removed: bool, recorded: Option<String>) -> (r: Result<String, BridgeError>)
    ensures
        removed ==> r == Err::<String, BridgeError>(BridgeError::CorrelationTimeout),
        !removed ==> match recorded {
            Some(p) => r is Ok && r.unwrap()@ == p@,
            None => r == Err::<String, BridgeError>(BridgeError::CorrelationTimeout),
        },
{
    if removed {
        Err(BridgeError::CorrelationTimeout)
    } else {
        match recorded {
            Some(p) => Ok(p),
            None => Err(BridgeError::CorrelationTimeout),
        }
    }
}

/// What follows the wait for `id`. The entry for `id` is gone afterwards in
/// every case. A delivered value is the result. When the budget elapsed, the
/// entry is cancelled first and then the slot is read, and `expired_outcome`
/// decides: so a value recorded before the entry was claimed is never lost.
pub fn after_wait(table: &mut CorrelationTable, id: &str, waited: WaitResult, receiver: &mut SlotReceiver) -> (r: Result<String, BridgeError>)
    ensures
        final(table)@ == cancel_model(old(table)@, id@),
        !final(table)@.waiting.contains_key(id@),
        match waited {
            WaitResult::Delivered(p) => r is Ok && r.unwrap()@ == p@,
            WaitResult::Closed => r == Err::<String, BridgeError>(BridgeError::CorrelationTimeout),
            WaitResult::Expired => {
                &&& old(table)@.waiting.contains_key(id@) ==> r == Err::<String, BridgeError>(BridgeError::CorrelationTimeout)
                &&& r is Err ==> r == Err::<String, BridgeError>(BridgeError::CorrelationTimeout)
            },
        },
{
    let removed = table.cancel(id);
    match waited {
        WaitResult::Delivered(p) => Ok(p),
        WaitResult::Closed => Err(BridgeError::CorrelationTimeout),
        WaitResult::Expired => {
            let recorded = if removed {
                None
            } else {
                take_recorded(receiver)
            };
            expired_outcome(removed, recorded)
        },
    }
}

/// Applies one decoded response message to the table; `None` stands for a
/// message that could not be read.
pub fn apply_response(table: &mut CorrelationTable, response: Option<HashResponse>) -> (r: ListenerOutcome)
    ensures
        match response {
            None => r == ListenerOutcome::Malformed && final(table)@ == old(table)@,
            Some(m) => {
                &&& final(table)@ == resolve_model(old(table)@, m.id@, m.hash@)
                &&& r == (if old(table)@.waiting.contains_key(m.id@) {
                    ListenerOutcome::Resolved
                } else {
                    ListenerOutcome::Unmatched
                })
            },
        },
{
    match response {
        None => ListenerOutcome::Malformed,
        Some(m) => {
            if table.resolve(m.id.as_str(), m.hash) {
                ListenerOutcome::Resolved
            } else {
                ListenerOutcome::Unmatched
            }
        },
    }
}

/// Handles one message from the response channel, given as its text (`None`
/// when it has no readable text). A malformed message changes nothing;
/// any other resolves at most the one waiter named in it.
pub fn on_response_message(table: &mut CorrelationTable, payload: Option<&str>) -> (r: ListenerOutcome)
    ensures
        match payload {
            Some(t) => match decoded_response(t@) {
                Some((id, hash)) => {
                    &&& final(table)@ == resolve_model(old(table)@, id, hash)
                    &&& r == (if old(table)@.waiting.contains_key(id) {
                        ListenerOutcome::Resolved
                    } else {
                        ListenerOutcome::Unmatched
                    })
                },
                None => r == ListenerOutcome::Malformed && final(table)@ == old(table)@,
            },
            None => r == ListenerOutcome::Malformed && final(table)@ == old(table)@,
        },
{
    let response = match payload {
        Some(text) => HashResponse::from_json(text),
        None => None,
    };
    apply_response(table, response)
}

/// The payload of a front-door call: the string member `data` of the JSON
/// object in `body`; none (a bad request) otherwise.
pub fn request_data(body: &str) -> (r: Option<String>)
    ensures
        match json_string_field(body@, seq!['d', 'a', 't', 'a']) {
            Some(d) => r is Some && r.unwrap()@ == d,
            None => r is None,
        },
{
    proof {
        reveal_strlit("data");
        assert("data"@ =~= seq!['d', 'a', 't', 'a']);
    }
    string_field(body, "data")
}

/// The front door's reply to a call whose body holds no string `data`:
/// status 400 with no body.
pub fn bad_request_reply() -> (r: (u16, String))
    ensures
        r.0 == 400,
        r.1@.len() == 0,
{
    (400, String::new())
}

/// The front door's reply to a call with correlation id `id`: status 200 and
/// `{"id":...,"hash":...}` for a result, 408 with no body for a timeout, and
/// 500 with no body for any other failure.
pub fn front_door_reply(id: &str, outcome: Result<String, BridgeError>) -> (r: (u16, String))
    ensures
        match outcome {
            Ok(hash) => r.0 == 200 && r.1@ == response_json(id@, hash@),
            Err(BridgeError::CorrelationTimeout) => r.0 == 408 && r.1@.len() == 0,
            Err(_) => r.0 == 500 && r.1@.len() == 0,
        },
{
    match outcome {
        Ok(hash) => {
            let body = HashResponse { id: id.to_owned(), hash };
            (200, body.to_json())
        },
        Err(BridgeError::CorrelationTimeout) => (408, String::new()),
        Err(_) => (500, String::new()),
    }
}

} // verus!
