//! The streaming delivery channel and the delivery decision.
//!
//! One bounded broadcast channel is created per server. When a caller asks
//! for streaming delivery and at least one subscription is active, the
//! computed response is published to the channel and the caller gets a bare
//! acknowledgment; with no subscribers the response falls back to the
//! caller's own connection. Notifications never produce a body at all.
//!
//! Producers are never blocked by slow consumers: a subscriber that falls
//! more than the channel's capacity behind receives an explicit gap signal
//! from the channel (the receive end reports how many messages were
//! skipped) rather than silently losing data.

use vstd::prelude::*;
use vstd::string::*;

use crate::json::{json_text, JsonValue};
use crate::jsonrpc::JsonRpcRequest;
use crate::jsonrpc::JsonRpcResponse;

verus! {

/// How many responses the delivery channel buffers per subscriber.
pub const RESPONSE_CHANNEL_CAPACITY: usize = 100;

/// Declares `tokio::sync::broadcast::Sender` so the channel's send end can
/// stand in signatures and fields; the value itself is opaque here.
#[verifier::external_type_specification]
#[verifier::external_body]
#[verifier::reject_recursive_types(T)]
pub struct ExSender<T>(tokio::sync::broadcast::Sender<T>);

/// Declares `tokio::sync::broadcast::Receiver`, the handle one streaming
/// connection holds; receiving happens outside the library (it awaits).
#[verifier::external_type_specification]
#[verifier::external_body]
#[verifier::reject_recursive_types(T)]
pub struct ExReceiver<T>(tokio::sync::broadcast::Receiver<T>);

/// Relies on `tokio::sync::broadcast::channel`: creates the shared channel
/// with the given buffer capacity. The capacity bounds are the ones the
/// channel itself asserts; inside them the call does not panic. The
/// receiver created alongside the sender is dropped: subscriptions are
/// opened later, one per streaming connection.
#[verifier::external_body]
pub fn response_channel(capacity: usize) -> tokio::sync::broadcast::Sender<JsonRpcResponse>
    requires
        0 < capacity <= usize::MAX / 2,
{
    let (tx, _rx) = tokio::sync::broadcast::channel(capacity);
    tx
}

/// Relies on `tokio::sync::broadcast::Sender::subscribe`: opens one new
/// subscription that will see every message published after this call.
#[verifier::external_body]
pub fn subscribe_to(
    tx: &tokio::sync::broadcast::Sender<JsonRpcResponse>,
) -> tokio::sync::broadcast::Receiver<JsonRpcResponse> {
    tx.subscribe()
}

/// Relies on `tokio::sync::broadcast::Sender::receiver_count`: the number
/// of active subscriptions at some moment during the call. Concurrent
/// subscribes and drops can change it at any time, so nothing more is
/// promised.
#[verifier::external_body]
pub fn receiver_count(tx: &tokio::sync::broadcast::Sender<JsonRpcResponse>) -> usize {
    tx.receiver_count()
}

/// Relies on `tokio::sync::broadcast::Sender::send`: publishes one message
/// to every active subscription; the call fails only when none is active,
/// and never blocks.
#[verifier::external_body]
pub fn broadcast_send(
    tx: &tokio::sync::broadcast::Sender<JsonRpcResponse>,
    message: JsonRpcResponse,
) -> bool {
    tx.send(message).is_ok()
}

/// What the transport should do with a computed response.
#[derive(Debug, Clone, Copy, PartialEq, Eq, Structural)]
pub enum DeliveryMode {
    /// The message was a notification: no response body at all.
    Suppress,
    /// Publish to the streaming channel and acknowledge the caller.
    Publish,
    /// Write the response directly on the caller's connection.
    Direct,
}

/// The pure delivery decision: notifications are suppressed; a streaming
/// preference publishes exactly when at least one subscription is active
/// and otherwise falls back to direct delivery; without the preference the
/// response is always delivered directly.
pub fn decide_delivery(is_notification: bool, wants_stream: bool, subscribers: usize) -> (r:
    DeliveryMode)
    ensures
        is_notification ==> r == DeliveryMode::Suppress,
        !is_notification && wants_stream && subscribers > 0 ==> r == DeliveryMode::Publish,
        !is_notification && wants_stream && subscribers == 0 ==> r == DeliveryMode::Direct,
        !is_notification && !wants_stream ==> r == DeliveryMode::Direct,
{
    if is_notification {
        DeliveryMode::Suppress
    } else if wants_stream && subscribers > 0 {
        DeliveryMode::Publish
    } else {
        DeliveryMode::Direct
    }
}

/// What actually happened to a response.
#[derive(Debug, PartialEq, Eq)]
pub enum DeliveryOutcome {
    /// A notification: no body, only an empty acknowledgment.
    NoBody,
    /// Published to the streaming channel; the caller gets an empty
    /// "accepted" acknowledgment.
    Accepted,
    /// The full response goes back on the caller's own connection.
    Direct(JsonRpcResponse),
}

/// Delivers one computed response. A notification is suppressed whatever
/// else holds; without a streaming preference the caller always receives
/// the full response; with one, the response is either published (when a
/// subscription was active at the moment of the check) or handed back
/// whole — it is never discarded. The response is published only on the
/// `Accepted` outcome.
pub fn deliver_response(
    tx: &tokio::sync::broadcast::Sender<JsonRpcResponse>,
    response: JsonRpcResponse,
    is_notification: bool,
    wants_stream: bool,
) -> (r: DeliveryOutcome)
    ensures
        is_notification ==> r == DeliveryOutcome::NoBody,
        !is_notification && !wants_stream ==> r == DeliveryOutcome::Direct(response),
        !is_notification && wants_stream ==> r == DeliveryOutcome::Accepted || r
            == DeliveryOutcome::Direct(response),
{
    if is_notification {
        return DeliveryOutcome::NoBody;
    }
    if wants_stream {
        let subscribers = receiver_count(tx);
        match decide_delivery(false, true, subscribers) {
            DeliveryMode::Publish => {
                broadcast_send(tx, response);
                return DeliveryOutcome::Accepted;
            },
            _ => {
                return DeliveryOutcome::Direct(response);
            },
        }
    }
    DeliveryOutcome::Direct(response)
}

/// Delivers the response computed for `req`: a message without an
/// identifier never produces a response body, under any method, success or
/// failure.
pub fn respond(
    req: &JsonRpcRequest,
    response: JsonRpcResponse,
    wants_stream: bool,
    tx: &tokio::sync::broadcast::Sender<JsonRpcResponse>,
) -> (r: DeliveryOutcome)
    ensures
        req@.id is None ==> r == DeliveryOutcome::NoBody,
        req@.id is Some && !wants_stream ==> r == DeliveryOutcome::Direct(response),
        req@.id is Some && wants_stream ==> r == DeliveryOutcome::Accepted || r
            == DeliveryOutcome::Direct(response),
{
    let is_notification = req.is_notification();
    deliver_response(tx, response, is_notification, wants_stream)
}

/// One server-sent event, as the streaming connection frames it.
#[derive(Debug, Clone, PartialEq, Eq)]
pub struct SseEvent {
    pub id: Option<String>,
    pub event: Option<String>,
    pub data: String,
}

/// The wire text of one event: an `id:` line when an identifier is set, an
/// `event:` line when an event name is set, then the `data:` line and the
/// blank line that ends the frame.
pub open spec fn sse_text(id: Option<Seq<char>>, event: Option<Seq<char>>, data: Seq<char>) -> Seq<
    char,
> {
    let head = match id {
        Some(i) => "id: "@ + i + "\n"@,
        None => Seq::empty(),
    };
    let head2 = match event {
        Some(e) => head + "event: "@ + e + "\n"@,
        None => head,
    };
    head2 + "data: "@ + data + "\n\n"@
}

impl SseEvent {
    /// A fresh `message` event with a newly generated identifier.
    pub fn new(data: String) -> (r: Self)
        ensures
            r.id matches Some(i) && i@.len() == 36,
            r.event matches Some(e) && e@ == "message"@,
            r.data == data,
    {
        SseEvent {
            id: Some(crate::context::fresh_uuid_string()),
            event: Some("message".to_owned()),
            data,
        }
    }

    /// The same event under another event name.
    pub fn with_event(self, event: &str) -> (r: Self)
        ensures
            r.id == self.id,
            r.event matches Some(e) && e@ == event@,
            r.data == self.data,
    {
        SseEvent { event: Some(event.to_owned()), ..self }
    }

    /// A fresh `message` event whose data is the compact JSON text of the
    /// given document.
    pub fn from_json(value: &JsonValue) -> (r: Self)
        ensures
            r.id matches Some(i) && i@.len() == 36,
            r.event matches Some(e) && e@ == "message"@,
            r.data@ == json_text(value@),
    {
        SseEvent::new(crate::json::to_text(value))
    }

    /// The wire text of this event.
    pub fn to_bytes(&self) -> (r: String)
        ensures
            r@ == sse_text(self.id.deep_view(), self.event.deep_view(), self.data@),
    {
        let mut out = String::new();
        match &self.id {
            Some(i) => {
                out.append("id: ");
                out.append(i.as_str());
                out.append("\n");
            },
            None => {},
        }
        match &self.event {
            Some(e) => {
                out.append("event: ");
                out.append(e.as_str());
                out.append("\n");
            },
            None => {},
        }
        out.append("data: ");
        out.append(self.data.as_str());
        out.append("\n\n");
        proof {
            assert(out@ =~= sse_text(self.id.deep_view(), self.event.deep_view(), self.data@));
        }
        out
    }
}

} // verus!
