//! Translation of native callback invocations into typed events for the
//! observers, and of the observers' replies into the answers the native
//! layer expects.
//!
//! The native codes below are the enumeration values of the native hub SDK.
use crate::json::{decode_text, json_accepts, json_string_literal, json_text, parse_json, quote_json};
use crate::message::has_nul;
use crate::message::contains_nul;
use vstd::prelude::*;
use vstd::utf8::{decode_utf8, valid_utf8};

verus! {

/// Native connection status: authenticated.
pub const CONNECTION_AUTHENTICATED: u32 = 0;
/// Native connection status: unauthenticated.
pub const CONNECTION_UNAUTHENTICATED: u32 = 1;

/// Native unauthenticated reason: the SAS token expired.
pub const REASON_EXPIRED_SAS_TOKEN: u32 = 0;
/// Native unauthenticated reason: the device is disabled.
pub const REASON_DEVICE_DISABLED: u32 = 1;
/// Native unauthenticated reason: bad credential.
pub const REASON_BAD_CREDENTIAL: u32 = 2;
/// Native unauthenticated reason: the retry policy expired.
pub const REASON_RETRY_EXPIRED: u32 = 3;
/// Native unauthenticated reason: no network.
pub const REASON_NO_NETWORK: u32 = 4;
/// Native unauthenticated reason: other communication error.
pub const REASON_COMMUNICATION_ERROR: u32 = 5;

/// Native confirmation result of a telemetry message: delivered.
pub const CONFIRMATION_OK: u32 = 0;

/// Status code with which the hub acknowledges a reported state.
pub const REPORTED_STATE_ACCEPTED: i32 = 204;

/// Native twin update state: complete document.
pub const TWIN_UPDATE_COMPLETE: u32 = 0;
/// Native twin update state: partial document.
pub const TWIN_UPDATE_PARTIAL: u32 = 1;

/// Native disposition: accepted.
pub const DISPOSITION_ACCEPTED: u32 = 0;
/// Native disposition: rejected.
pub const DISPOSITION_REJECTED: u32 = 1;
/// Native disposition: abandoned.
pub const DISPOSITION_ABANDONED: u32 = 2;
/// Native disposition: acknowledged asynchronously.
pub const DISPOSITION_ASYNC_ACK: u32 = 3;

/// Direct method status: success.
pub const METHOD_RESPONSE_SUCCESS: i32 = 200;
/// Direct method status: error.
pub const METHOD_RESPONSE_ERROR: i32 = 401;

/// Reason of an unauthenticated connection.
#[derive(Clone, Copy, Debug, PartialEq, Eq, Structural)]
pub enum UnauthenticatedReason {
    /// SAS token expired
    ExpiredSasToken,
    /// device is disabled in the hub
    DeviceDisabled,
    /// invalid credentials
    BadCredential,
    /// connection retry expired
    RetryExpired,
    /// no network
    NoNetwork,
    /// other communication error
    CommunicationError,
    /// a reason this library does not know
    Unknown,
}

/// Authentication status of the connection.
#[derive(Clone, Copy, Debug, PartialEq, Eq, Structural)]
pub enum AuthenticationStatus {
    /// authenticated
    Authenticated,
    /// not authenticated, for the given reason
    Unauthenticated(UnauthenticatedReason),
}

/// The reason for a native reason code; unknown codes map to `Unknown`.
pub open spec fn spec_reason(reason: u32) -> UnauthenticatedReason {
    if reason == REASON_EXPIRED_SAS_TOKEN {
        UnauthenticatedReason::ExpiredSasToken
    } else if reason == REASON_DEVICE_DISABLED {
        UnauthenticatedReason::DeviceDisabled
    } else if reason == REASON_BAD_CREDENTIAL {
        UnauthenticatedReason::BadCredential
    } else if reason == REASON_RETRY_EXPIRED {
        UnauthenticatedReason::RetryExpired
    } else if reason == REASON_NO_NETWORK {
        UnauthenticatedReason::NoNetwork
    } else if reason == REASON_COMMUNICATION_ERROR {
        UnauthenticatedReason::CommunicationError
    } else {
        UnauthenticatedReason::Unknown
    }
}

/// The status for a native (status, reason) pair; `None` for an unknown status.
pub open spec fn spec_authentication_status(status: u32, reason: u32) -> Option<AuthenticationStatus> {
    if status == CONNECTION_AUTHENTICATED {
        Some(AuthenticationStatus::Authenticated)
    } else if status == CONNECTION_UNAUTHENTICATED {
        Some(AuthenticationStatus::Unauthenticated(spec_reason(reason)))
    } else {
        None
    }
}

/// Maps a native connection-status callback's (status, reason) pair to the
/// event for the connection observer. An unknown reason maps to `Unknown`;
/// an unknown status gives `None` (the event is dropped).
pub fn authentication_status(status: u32, reason: u32) -> (r: Option<AuthenticationStatus>)
    ensures
        r == spec_authentication_status(status, reason),
{
    if status == CONNECTION_AUTHENTICATED {
        Some(AuthenticationStatus::Authenticated)
    } else if status == CONNECTION_UNAUTHENTICATED {
        let why = if reason == REASON_EXPIRED_SAS_TOKEN {
            UnauthenticatedReason::ExpiredSasToken
        } else if reason == REASON_DEVICE_DISABLED {
            UnauthenticatedReason::DeviceDisabled
        } else if reason == REASON_BAD_CREDENTIAL {
            UnauthenticatedReason::BadCredential
        } else if reason == REASON_RETRY_EXPIRED {
            UnauthenticatedReason::RetryExpired
        } else if reason == REASON_NO_NETWORK {
            UnauthenticatedReason::NoNetwork
        } else if reason == REASON_COMMUNICATION_ERROR {
            UnauthenticatedReason::CommunicationError
        } else {
            UnauthenticatedReason::Unknown
        };
        Some(AuthenticationStatus::Unauthenticated(why))
    } else {
        None
    }
}

/// Whether a native telemetry confirmation result means delivered.
pub fn d2c_confirmed(result: u32) -> (r: bool)
    ensures
        r == (result == CONFIRMATION_OK),
{
    result == CONFIRMATION_OK
}

/// Whether a reported-state confirmation's status code means accepted;
/// any other code is a failure.
pub fn reported_state_confirmed(status_code: i32) -> (r: bool)
    ensures
        r == (status_code == REPORTED_STATE_ACCEPTED),
{
    status_code == REPORTED_STATE_ACCEPTED
}

/// Kind of a desired-properties update.
#[derive(Clone, Copy, Debug, PartialEq, Eq, Structural)]
pub enum TwinUpdateState {
    /// the complete desired document
    Complete,
    /// a partial update of the desired document
    Partial,
}

/// The update kind for a native update state; `None` for any other value.
pub open spec fn spec_twin_update_state(raw: u32) -> Option<TwinUpdateState> {
    if raw == TWIN_UPDATE_COMPLETE {
        Some(TwinUpdateState::Complete)
    } else if raw == TWIN_UPDATE_PARTIAL {
        Some(TwinUpdateState::Partial)
    } else {
        None
    }
}

impl TwinUpdateState {
    /// Checked mapping of a native update state.
    pub fn from_native(raw: u32) -> (r: Option<TwinUpdateState>)
        ensures
            r == spec_twin_update_state(raw),
    {
        if raw == TWIN_UPDATE_COMPLETE {
            Some(TwinUpdateState::Complete)
        } else if raw == TWIN_UPDATE_PARTIAL {
            Some(TwinUpdateState::Partial)
        } else {
            None
        }
    }
}

/// A desired-properties update for the twin observer.
#[derive(Debug)]
pub struct TwinUpdate {
    /// kind of update
    pub state: TwinUpdateState,
    /// the desired properties
    pub value: serde_json::Value,
}

/// Whether a twin payload is UTF-8 text holding one JSON document.
pub open spec fn twin_payload_valid(payload: Seq<u8>) -> bool {
    valid_utf8(payload) && json_accepts(decode_utf8(payload))
}

/// Decodes a native twin callback into the update for the twin observer.
/// `None` (the event is dropped) when the payload is not UTF-8, not JSON, or
/// the state is not a known update kind.
pub fn twin_update(state: u32, payload: &[u8]) -> (r: Option<TwinUpdate>)
    ensures
        r is Some <==> twin_payload_valid(payload@) && spec_twin_update_state(state) is Some,
        r matches Some(u) ==> Some(u.state) == spec_twin_update_state(state),
{
    let text = match decode_text(payload) {
        Some(t) => t,
        None => return None,
    };
    let value = match parse_json(text.as_str()) {
        Ok(v) => v,
        Err(_) => return None,
    };
    match TwinUpdateState::from_native(state) {
        Some(s) => Some(TwinUpdate { state: s, value }),
        None => None,
    }
}

/// The consumer's verdict on an incoming message.
#[derive(Clone, Copy, Debug, PartialEq, Eq, Structural)]
pub enum DispositionResult {
    /// accepted
    Accepted,
    /// rejected
    Rejected,
    /// abandoned
    Abandoned,
    /// acknowledged asynchronously
    AsyncAck,
}

/// The native code of a disposition.
pub open spec fn spec_disposition_code(d: DispositionResult) -> u32 {
    match d {
        DispositionResult::Accepted => DISPOSITION_ACCEPTED,
        DispositionResult::Rejected => DISPOSITION_REJECTED,
        DispositionResult::Abandoned => DISPOSITION_ABANDONED,
        DispositionResult::AsyncAck => DISPOSITION_ASYNC_ACK,
    }
}

impl DispositionResult {
    /// The native code of this disposition (one to one).
    pub fn native_code(&self) -> (r: u32)
        ensures
            r == spec_disposition_code(*self),
    {
        match self {
            DispositionResult::Accepted => DISPOSITION_ACCEPTED,
            DispositionResult::Rejected => DISPOSITION_REJECTED,
            DispositionResult::Abandoned => DISPOSITION_ABANDONED,
            DispositionResult::AsyncAck => DISPOSITION_ASYNC_ACK,
        }
    }
}

/// What to do with an incoming message.
#[derive(Clone, Copy, Debug, PartialEq, Eq, Structural)]
pub enum IncomingRoute {
    /// read it with the observer's property keys and hand it to the observer
    Forward,
    /// answer the native layer at once with this disposition
    Answer(DispositionResult),
}

/// True when no key of the list holds a NUL character.
pub open spec fn keys_nul_free(keys: Seq<String>) -> bool {
    forall|i: int| 0 <= i < keys.len() ==> !has_nul(#[trigger] keys[i]@)
}

/// Decides how an incoming message is handled. Without an observer it is
/// rejected; it is rejected too when one of the observer's property keys
/// `keys` holds a NUL character; otherwise it is forwarded.
pub fn incoming_route(has_observer: bool, keys: &Vec<String>) -> (r: IncomingRoute)
    ensures
        !has_observer ==> r == IncomingRoute::Answer(DispositionResult::Rejected),
        has_observer && keys_nul_free(keys@) ==> r == IncomingRoute::Forward,
        has_observer && !keys_nul_free(keys@) ==> r == IncomingRoute::Answer(
            DispositionResult::Rejected,
        ),
{
    if !has_observer {
        return IncomingRoute::Answer(DispositionResult::Rejected);
    }
    let mut i: usize = 0;
    while i < keys.len()
        invariant
            0 <= i <= keys@.len(),
            forall|k: int| 0 <= k < i ==> !has_nul(#[trigger] keys@[k]@),
        decreases keys@.len() - i,
    {
        let key = &keys[i];
        if contains_nul(key.as_str()) {
            proof {
                assert(keys@[i as int] == *key);
                assert(has_nul(keys@[i as int]@));
            }
            return IncomingRoute::Answer(DispositionResult::Rejected);
        }
        i = i + 1;
    }
    IncomingRoute::Forward
}

/// What came back from the observer of incoming messages.
#[derive(Clone, Copy, Debug, PartialEq, Eq, Structural)]
pub enum MessageReply {
    /// the observer decided on a disposition
    Disposition(DispositionResult),
    /// the observer reported an error
    Failed,
    /// the reply channel closed without an answer
    Closed,
}

/// The disposition handed to the native layer for the observer's reply: its
/// own verdict, or `Rejected` on an error or a closed reply channel.
pub fn disposition_for(reply: MessageReply) -> (r: DispositionResult)
    ensures
        reply matches MessageReply::Disposition(d) ==> r == d,
        !(reply is Disposition) ==> r == DispositionResult::Rejected,
{
    match reply {
        MessageReply::Disposition(d) => d,
        MessageReply::Failed => DispositionResult::Rejected,
        MessageReply::Closed => DispositionResult::Rejected,
    }
}

/// The answer to a direct method: a status and a JSON body.
#[derive(Debug)]
pub struct MethodResponse {
    /// the status code
    pub status: i32,
    /// the JSON text of the body
    pub body: String,
}

/// A direct method invocation for the observer.
#[derive(Debug)]
pub struct MethodCall {
    /// method name
    pub name: String,
    /// method payload
    pub payload: serde_json::Value,
}

/// What to do with a direct method invocation.
#[derive(Debug)]
pub enum MethodRoute {
    /// hand the call to the observer and wait for its reply
    Forward(MethodCall),
    /// answer the native layer at once
    Answer(MethodResponse),
}

/// What came back from the observer of direct methods.
#[derive(Debug)]
pub enum MethodReply {
    /// success without a result
    NoResult,
    /// success with a result document
    Value(serde_json::Value),
    /// failure with a message
    Error(String),
    /// the reply channel closed without an answer
    Closed,
}

/// The body of an answer without content.
pub open spec fn empty_body() -> Seq<char> {
    "{ }"@
}

/// The body of the answer when no observer handles direct methods.
pub open spec fn not_implemented_body() -> Seq<char> {
    "\"method not implemented\""@
}

/// The answer for status `status` with body text `text`: a text the native
/// layer cannot carry (one holding a NUL character) gives the error status
/// with an empty body.
pub open spec fn spec_response(status: i32, text: Seq<char>) -> (i32, Seq<char>) {
    if has_nul(text) {
        (METHOD_RESPONSE_ERROR, empty_body())
    } else {
        (status, text)
    }
}

fn empty_response(status: i32) -> (r: MethodResponse)
    ensures
        r.status == status,
        r.body@ == empty_body(),
{
    MethodResponse { status, body: String::from_str("{ }") }
}

/// Decides how a direct method invocation is handled. Without an observer
/// the answer is the error status with a "method not implemented" body; a
/// name that is not UTF-8 or a payload that is not UTF-8 JSON gives the
/// error status with an empty body; otherwise the call goes to the observer.
pub fn method_route(has_observer: bool, name: &[u8], payload: &[u8]) -> (r: MethodRoute)
    ensures
        !has_observer ==> (r matches MethodRoute::Answer(a) && a.status == METHOD_RESPONSE_ERROR
            && a.body@ == not_implemented_body()),
        has_observer && !(valid_utf8(name@) && twin_payload_valid(payload@)) ==> (r matches MethodRoute::Answer(a)
            && a.status == METHOD_RESPONSE_ERROR && a.body@ == empty_body()),
        has_observer && valid_utf8(name@) && twin_payload_valid(payload@) ==> (r matches MethodRoute::Forward(c)
            && c.name@ == decode_utf8(name@)),
{
    if !has_observer {
        return MethodRoute::Answer(
            MethodResponse {
                status: METHOD_RESPONSE_ERROR,
                body: String::from_str("\"method not implemented\""),
            },
        );
    }
    let method_name = match decode_text(name) {
        Some(n) => n,
        None => return MethodRoute::Answer(empty_response(METHOD_RESPONSE_ERROR)),
    };
    let text = match decode_text(payload) {
        Some(t) => t,
        None => return MethodRoute::Answer(empty_response(METHOD_RESPONSE_ERROR)),
    };
    match parse_json(text.as_str()) {
        Ok(value) => MethodRoute::Forward(MethodCall { name: method_name, payload: value }),
        Err(_) => MethodRoute::Answer(empty_response(METHOD_RESPONSE_ERROR)),
    }
}

/// The answer with status `status` and body `text` (see `spec_response`).
pub fn finish_response(status: i32, text: String) -> (r: MethodResponse)
    ensures
        (r.status, r.body@) == spec_response(status, text@),
{
    if contains_nul(text.as_str()) {
        empty_response(METHOD_RESPONSE_ERROR)
    } else {
        MethodResponse { status, body: text }
    }
}

/// The answer for the observer's reply: no result gives success with an
/// empty body; a result gives success with its JSON text; an error gives the
/// error status with its message as a JSON string; a closed reply channel
/// gives the error status with an empty body.
pub fn method_response(reply: MethodReply) -> (r: MethodResponse)
    ensures
        reply is NoResult ==> r.status == METHOD_RESPONSE_SUCCESS && r.body@ == empty_body(),
        reply is Closed ==> r.status == METHOD_RESPONSE_ERROR && r.body@ == empty_body(),
        reply is Value ==> r.status == METHOD_RESPONSE_SUCCESS && !has_nul(r.body@),
        reply matches MethodReply::Error(m) ==> r.status == METHOD_RESPONSE_ERROR && r.body@
            == json_string_literal(m@),
{
    match reply {
        MethodReply::NoResult => empty_response(METHOD_RESPONSE_SUCCESS),
        MethodReply::Value(v) => finish_response(METHOD_RESPONSE_SUCCESS, json_text(&v)),
        MethodReply::Error(m) => match quote_json(m.as_str()) {
            Ok(q) => {
                proof {
                    crate::json::lemma_string_literal_nul_free(m@);
                }
                finish_response(METHOD_RESPONSE_ERROR, q)
            },
            Err(_) => empty_response(METHOD_RESPONSE_ERROR),
        },
        MethodReply::Closed => empty_response(METHOD_RESPONSE_ERROR),
    }
}

/// What a native callback does with an event for a full observer channel.
#[derive(Clone, Copy, Debug, PartialEq, Eq, Structural)]
pub enum OverflowPolicy {
    /// wait until the consumer makes room (backpressure on the native thread)
    Block,
    /// drop the event
    DropNewest,
}

/// How an event is handed to an observer channel.
#[derive(Clone, Copy, Debug, PartialEq, Eq, Structural)]
pub enum Delivery {
    /// there is room: queue it now
    Send,
    /// the channel is full: wait for room, then queue it
    WaitForSpace,
    /// the channel is full: drop it
    Drop,
}

/// Decides how an event reaches an observer channel with `free_slots` free
/// places. With room it is sent; on a full channel the `Block` policy waits
/// for room, so an event is never dropped under it, and `DropNewest` drops.
pub fn delivery(policy: OverflowPolicy, free_slots: usize) -> (r: Delivery)
    ensures
        free_slots > 0 ==> r == Delivery::Send,
        free_slots == 0 && policy == OverflowPolicy::Block ==> r == Delivery::WaitForSpace,
        free_slots == 0 && policy == OverflowPolicy::DropNewest ==> r == Delivery::Drop,
        policy == OverflowPolicy::Block ==> r != Delivery::Drop,
{
    if free_slots > 0 {
        Delivery::Send
    } else {
        match policy {
            OverflowPolicy::Block => Delivery::WaitForSpace,
            OverflowPolicy::DropNewest => Delivery::Drop,
        }
    }
}

} // verus!
