//! Verified fixed-behaviour collaborators: a pool with a set outcome,
//! a decoder with a set script, a payload that carries its identifier
//! as plain text, and simple actions. Each one proves the abstract
//! postcondition of its trait, so what the dispatch engine is proved
//! to do with them is pinned end to end. Tests drive the engine with
//! them, and a service can boot on them before its real operations
//! are wired.

use vstd::prelude::*;

use crate::json::Json;
use crate::log::LogSink;
use crate::methods::{method_name, Method};
use crate::metrics::MetricsSink;
use crate::table::{AdapterEntry, Decoder, MethodHandler};
use crate::types::{HandlerError, HandlerResponse, HasRequestId, Message, PoolError};
use crate::util::{adapter_result, envelope_failure_text, Action, Pool};

verus! {

/// A pool whose claim always yields the same outcome: the stored
/// connection, or the stored failure.
pub struct FixedPool<C: Copy> {
    pub connection: C,
    pub failure: Option<PoolError>,
}

impl<C: Copy> Pool for FixedPool<C> {
    type Connection = C;

    open spec fn claim_post(&self, r: Result<C, PoolError>) -> bool {
        match self.failure {
            Some(e) => r == Err::<C, PoolError>(e),
            None => r == Ok::<C, PoolError>(self.connection),
        }
    }

    fn claim(&self) -> (r: Result<C, PoolError>) {
        match &self.failure {
            Some(PoolError::ClaimTimeout(s)) => Err(PoolError::ClaimTimeout(s.clone())),
            Some(PoolError::Other(s)) => Err(PoolError::Other(s.clone())),
            None => Ok(self.connection),
        }
    }
}

/// A payload that carries its request identifier as plain text.
pub struct StubPayload {
    pub request_id: String,
}

impl HasRequestId for StubPayload {
    open spec fn request_id_spec(&self) -> Seq<char> {
        self.request_id@
    }

    fn request_id(&self) -> (r: String) {
        self.request_id.clone()
    }
}

/// What a scripted decoder does: produce one payload per stored
/// identifier, or reject with the stored failure text.
pub enum DecodeScript {
    Produce(Vec<String>),
    Reject(String),
}

/// A decoder that ignores its input and follows its script.
pub struct ScriptedDecoder {
    pub script: DecodeScript,
}

impl Decoder<StubPayload> for ScriptedDecoder {
    open spec fn decode_post(&self, data: Json, r: Result<Vec<StubPayload>, String>) -> bool {
        match self.script {
            DecodeScript::Produce(ids) => r matches Ok(out) && out@.len() == ids@.len() && forall|
                i: int,
            |
                0 <= i < out@.len() ==> (#[trigger] out@[i]).request_id@ == ids@[i]@,
            DecodeScript::Reject(s) => r matches Err(e) && e@ == s@,
        }
    }

    fn decode(&self, data: &Json) -> (r: Result<Vec<StubPayload>, String>) {
        match &self.script {
            DecodeScript::Produce(ids) => {
                let mut out: Vec<StubPayload> = Vec::new();
                let mut i: usize = 0;
                while i < ids.len()
                    invariant
                        i <= ids.len(),
                        out@.len() == i,
                        forall|k: int|
                            0 <= k < i as int ==> (#[trigger] out@[k]).request_id@ == ids@[k]@,
                    decreases ids.len() - i,
                {
                    out.push(StubPayload { request_id: ids[i].clone() });
                    i = i + 1;
                }
                Ok(out)
            },
            DecodeScript::Reject(s) => Err(s.clone()),
        }
    }
}

/// Through an adapter entry whose decoder produces an empty envelope,
/// the handler record is always the envelope failure with the fixed
/// message naming the method — whatever action the entry holds, it
/// cannot influence the outcome.
pub proof fn lemma_empty_script_rejects<C, M: MetricsSink, L: LogSink, A: Action<StubPayload, C, M, L>>(
    entry: AdapterEntry<StubPayload, ScriptedDecoder, A>,
    method: Method,
    msg_id: u32,
    data: Json,
    ctx: Seq<(Seq<char>, Seq<char>)>,
    r: Result<HandlerResponse, HandlerError>,
)
    requires
        entry.decoder.script matches DecodeScript::Produce(ids) && ids@.len() == 0,
        entry.handle_post(method, msg_id, data, ctx, r),
    ensures
        r matches Err(he) && he matches HandlerError::RequestError(s) && s@
            == envelope_failure_text(method_name(method)),
{
    let dr = choose|dr: Result<Vec<StubPayload>, String>|
        #[trigger] entry.decoder.decode_post(data, dr) && adapter_result(
            entry.action,
            msg_id,
            method_name(method),
            ctx,
            dr,
            r,
        );
    match dr {
        Ok(arr) => {
            assert(arr@.len() == 0);
        },
        Err(_) => {
            assert(false);
        },
    }
}

/// Through an adapter entry whose decoder rejects, the handler record
/// always carries the decoder's own message — whatever action the
/// entry holds.
pub proof fn lemma_reject_script_propagates<C, M: MetricsSink, L: LogSink, A: Action<StubPayload, C, M, L>>(
    entry: AdapterEntry<StubPayload, ScriptedDecoder, A>,
    method: Method,
    msg_id: u32,
    data: Json,
    ctx: Seq<(Seq<char>, Seq<char>)>,
    r: Result<HandlerResponse, HandlerError>,
)
    requires
        entry.decoder.script matches DecodeScript::Reject(t),
        entry.handle_post(method, msg_id, data, ctx, r),
    ensures
        r matches Err(he) && he matches HandlerError::RequestError(s) && s@
            == entry.decoder.script->Reject_0@,
{
    let dr = choose|dr: Result<Vec<StubPayload>, String>|
        #[trigger] entry.decoder.decode_post(data, dr) && adapter_result(
            entry.action,
            msg_id,
            method_name(method),
            ctx,
            dr,
            r,
        );
    match dr {
        Ok(_) => {
            assert(false);
        },
        Err(_) => {
        },
    }
}

/// An action that answers with one message: the request's correlation
/// id, the method's wire name, and a body naming the payload's
/// request identifier — so a response shows which payload reached
/// which entry.
pub struct EchoAction;

impl<C, M: MetricsSink, L: LogSink> Action<StubPayload, C, M, L> for EchoAction {
    open spec fn call_post(
        &self,
        msg_id: u32,
        method: Seq<char>,
        ctx: Seq<(Seq<char>, Seq<char>)>,
        payload: StubPayload,
        r: Result<HandlerResponse, String>,
    ) -> bool {
        &&& r matches Ok(resp)
        &&& resp matches HandlerResponse::Message(m)
        &&& m.id == msg_id
        &&& m.method@ == method
        &&& (m.data matches Json::Text(t) && t@ == payload.request_id_spec())
    }

    fn call(
        &self,
        msg_id: u32,
        method: &str,
        metrics: &mut M,
        log: &mut L,
        payload: StubPayload,
        conn: &mut C,
    ) -> (r: Result<HandlerResponse, String>) {
        let out = Message { id: msg_id, method: method.to_owned(), data: Json::Text(
            payload.request_id(),
        ) };
        Ok(HandlerResponse::Message(out))
    }
}

/// An action that always fails with its stored text.
pub struct FixedErrorAction {
    pub text: String,
}

impl<X: HasRequestId, C, M: MetricsSink, L: LogSink> Action<X, C, M, L> for FixedErrorAction {
    open spec fn call_post(
        &self,
        msg_id: u32,
        method: Seq<char>,
        ctx: Seq<(Seq<char>, Seq<char>)>,
        payload: X,
        r: Result<HandlerResponse, String>,
    ) -> bool {
        r matches Err(s) && s@ == self.text@
    }

    fn call(
        &self,
        msg_id: u32,
        method: &str,
        metrics: &mut M,
        log: &mut L,
        payload: X,
        conn: &mut C,
    ) -> (r: Result<HandlerResponse, String>) {
        Err(self.text.clone())
    }
}

/// Does `m` label one page of a fan-out answer: correlation id
/// echoed, wire method kept, and the page's text as its body?
pub open spec fn is_page_message(m: Message, msg_id: u32, method: Seq<char>, page: Seq<char>) -> bool {
    &&& m.id == msg_id
    &&& m.method@ == method
    &&& (m.data matches Json::Text(t) && t@ == page)
}

/// An action that fans out: one message per stored page label, in
/// order, each echoing the correlation id.
pub struct FanOutAction {
    pub pages: Vec<String>,
}

impl<X: HasRequestId, C, M: MetricsSink, L: LogSink> Action<X, C, M, L> for FanOutAction {
    open spec fn call_post(
        &self,
        msg_id: u32,
        method: Seq<char>,
        ctx: Seq<(Seq<char>, Seq<char>)>,
        payload: X,
        r: Result<HandlerResponse, String>,
    ) -> bool {
        &&& r matches Ok(resp)
        &&& resp matches HandlerResponse::Messages(v)
        &&& v@.len() == self.pages@.len()
        &&& forall|i: int|
            0 <= i < v@.len() ==> is_page_message(#[trigger] v@[i], msg_id, method, self.pages@[i]@)
    }

    fn call(
        &self,
        msg_id: u32,
        method: &str,
        metrics: &mut M,
        log: &mut L,
        payload: X,
        conn: &mut C,
    ) -> (r: Result<HandlerResponse, String>) {
        let mut msgs: Vec<Message> = Vec::new();
        let mut i: usize = 0;
        while i < self.pages.len()
            invariant
                i <= self.pages.len(),
                msgs@.len() == i,
                forall|k: int|
                    0 <= k < i as int ==> is_page_message(
                        #[trigger] msgs@[k],
                        msg_id,
                        method@,
                        self.pages@[k]@,
                    ),
            decreases self.pages.len() - i,
        {
            msgs.push(
                Message {
                    id: msg_id,
                    method: method.to_owned(),
                    data: Json::Text(self.pages[i].clone()),
                },
            );
            i = i + 1;
        }
        Ok(HandlerResponse::Messages(msgs))
    }
}

} // verus!
