//! The data model of the dispatch core: wire messages, handler results,
//! the failure taxonomy, and the capability traits that payload types
//! provide.

use vstd::prelude::*;

use crate::json::Json;

verus! {

/// A wire message: a correlation id, a method name and a JSON body.
/// Requests carry their payload in `data` as a one-element array; each
/// response carries one array-wrapped result value there.
#[derive(Debug, PartialEq, Eq)]
pub struct Message {
    pub id: u32,
    pub method: String,
    pub data: Json,
}

/// What a handler produced: one response message, or a fan-out to any
/// number of them (for example a list operation paging results).
#[derive(Debug, PartialEq, Eq)]
pub enum HandlerResponse {
    Message(Message),
    Messages(Vec<Message>),
}

impl HandlerResponse {
    /// The wire messages of this response, in the order the handler
    /// produced them.
    pub open spec fn message_list(self) -> Seq<Message> {
        match self {
            HandlerResponse::Message(m) => seq![m],
            HandlerResponse::Messages(v) => v@,
        }
    }

    /// Flatten the response into its list of wire messages, keeping the
    /// handler's order.
    pub fn into_messages(self) -> (r: Vec<Message>)
        ensures
            r@ == self.message_list(),
    {
        match self {
            HandlerResponse::Message(m) => {
                let ghost gm = m;
                let mut v: Vec<Message> = Vec::new();
                v.push(m);
                proof {
                    assert(v@ =~= seq![gm]);
                }
                v
            },
            HandlerResponse::Messages(v) => v,
        }
    }
}

impl From<Message> for HandlerResponse {
    /// A single message is a one-message response.
    fn from(fm: Message) -> (r: Self) {
        HandlerResponse::Message(fm)
    }
}

impl vstd::std_specs::convert::FromSpecImpl<Message> for HandlerResponse {
    open spec fn obeys_from_spec() -> bool {
        true
    }

    open spec fn from_spec(fm: Message) -> Self {
        HandlerResponse::Message(fm)
    }
}

impl From<Vec<Message>> for HandlerResponse {
    /// A list of messages is a fan-out response.
    fn from(fms: Vec<Message>) -> (r: Self) {
        HandlerResponse::Messages(fms)
    }
}

impl vstd::std_specs::convert::FromSpecImpl<Vec<Message>> for HandlerResponse {
    open spec fn obeys_from_spec() -> bool {
        true
    }

    open spec fn from_spec(fms: Vec<Message>) -> Self {
        HandlerResponse::Messages(fms)
    }
}

/// Why a connection claim failed: the pool's own claim timeout, which
/// dispatch treats as an overload signal, or any other pool failure,
/// which is fatal to the request. Each variant carries the pool's
/// message text.
#[derive(Debug, PartialEq, Eq)]
pub enum PoolError {
    ClaimTimeout(String),
    Other(String),
}

/// The message text a pool error carries.
pub open spec fn pool_error_text(e: PoolError) -> Seq<char> {
    match e {
        PoolError::ClaimTimeout(s) => s@,
        PoolError::Other(s) => s@,
    }
}

/// The one error type that crosses the handler-adapter boundary: a pool
/// failure propagated from the claim step, or a request failure (decode,
/// envelope or action) carrying a human-readable message.
#[derive(Debug, PartialEq, Eq)]
pub enum HandlerError {
    PoolError(PoolError),
    RequestError(String),
}

/// The message text a handler error collapses to at the dispatch
/// boundary.
pub open spec fn handler_error_text(e: HandlerError) -> Seq<char> {
    match e {
        HandlerError::PoolError(pe) => pool_error_text(pe),
        HandlerError::RequestError(s) => s@,
    }
}

/// The single externally visible failure kind of the dispatch entry
/// point: every fatal error collapses into one of these, carrying only
/// the originating message text.
#[derive(Debug, PartialEq, Eq)]
pub struct DispatchError {
    pub message: String,
}

impl View for DispatchError {
    type V = Seq<char>;

    open spec fn view(&self) -> Seq<char> {
        self.message@
    }
}

impl DispatchError {
    /// The originating message text.
    pub fn message(&self) -> (r: &str)
        ensures
            r@ == self@,
    {
        self.message.as_str()
    }
}

/// Create a dispatch failure carrying the given message text.
pub fn other_error(msg: &str) -> (r: DispatchError)
    ensures
        r@ == msg@,
{
    DispatchError { message: msg.to_owned() }
}

/// A decoded request payload exposes a request identifier, used only to
/// tag log output for the rest of the call.
pub trait HasRequestId {
    /// The identifier this payload carries. The default stands for
    /// types that state nothing of it; a payload type that proves
    /// contracts overrides it with the text its `request_id` returns.
    open spec fn request_id_spec(&self) -> Seq<char> {
        Seq::empty()
    }

    /// The request identifier carried by the payload, in textual form.
    fn request_id(&self) -> (r: String)
        ensures
            r@ == self.request_id_spec(),
    ;
}

} // verus!
