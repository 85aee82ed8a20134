//! The dispatch core: claim a pool connection with timing, look the
//! wire method up, run the per-operation adapter, shape the response
//! list, classify claim failures, and record metrics.
//!
//! A claim timeout is the one non-fatal failure: it turns into a
//! *successful* response carrying an overload error body, so the
//! calling application sees backpressure as ordinary protocol data.
//! Every other failure collapses into a single [`DispatchError`]
//! carrying the originating message text.

use vstd::prelude::*;
use vstd::string::StringExecFns;

use crate::clock::{instant_elapsed, instant_now};
use crate::json::Json;
use crate::log::{LogLevel, LogSink};
use crate::metrics::MetricsSink;
use crate::methods::{parse_method, parse_method_spec, Method};
use crate::types::{
    handler_error_text, other_error, DispatchError, HandlerError, HandlerResponse, HasRequestId,
    Message, PoolError,
};

verus! {

/// A bounded pool of backend connections. One claim attempt either
/// hands out a connection within the pool's own internal wait bound or
/// fails with a [`PoolError`], whose `ClaimTimeout` variant is the
/// distinguished overload signal. What a claim returns depends on the
/// pool's state, so nothing is promised about the outcome.
pub trait Pool {
    /// The connection handle the pool lends out; exclusively owned by
    /// one request and returned when it is dropped.
    type Connection;

    /// What one claim attempt against this pool may return. The
    /// claimant passes exactly one such outcome through. The default
    /// admits every outcome; an implementation that proves contracts
    /// refines it.
    open spec fn claim_post(&self, r: Result<Self::Connection, PoolError>) -> bool {
        true
    }

    /// Attempt to claim one connection.
    fn claim(&self) -> (r: Result<Self::Connection, PoolError>)
        ensures
            self.claim_post(r),
    ;
}

/// One operation's action: invoked with the decoded payload and the
/// claimed connection, it returns a response or a failure message.
/// Implementations may record their own metrics and log their own
/// lines, but must leave the dispatcher's request counter and label
/// sequences alone, and must not touch the logger's context.
pub trait Action<X, C, M: MetricsSink, L: LogSink> {
    /// What one invocation may produce from these arguments, given the
    /// log context it was handed. The default admits every result; an
    /// implementation that proves contracts refines it. The adapter's
    /// own contract cites it, which ties the adapter's result to a
    /// real invocation with the first envelope element.
    open spec fn call_post(
        &self,
        msg_id: u32,
        method: Seq<char>,
        ctx: Seq<(Seq<char>, Seq<char>)>,
        payload: X,
        r: Result<HandlerResponse, String>,
    ) -> bool {
        true
    }

    /// Run the operation. A successful response echoes the request's
    /// correlation id in every message.
    fn call(
        &self,
        msg_id: u32,
        method: &str,
        metrics: &mut M,
        log: &mut L,
        payload: X,
        conn: &mut C,
    ) -> (r: Result<HandlerResponse, String>)
        ensures
            final(metrics).counted_requests() == old(metrics).counted_requests(),
            final(metrics).claim_labels() == old(metrics).claim_labels(),
            final(metrics).request_labels() == old(metrics).request_labels(),
            final(log).context() == old(log).context(),
            old(log).entries().is_prefix_of(final(log).entries()),
            r matches Ok(resp) ==> forall|i: int|
                0 <= i < resp.message_list().len() ==> (#[trigger] resp.message_list()[i]).id
                    == msg_id,
            self.call_post(msg_id, method@, old(log).context(), payload, r),
    ;
}

/// The method table: one decode/action pair per registered method,
/// supplied by the caller. `run` is invoked only for a parsed
/// [`Method`], so an unregistered name never reaches it. The same
/// frame rules as for [`Action`] apply.
pub trait Registry<C, M: MetricsSink, L: LogSink> {
    /// What serving `method` on `data` may produce, given the log
    /// context handed in. The default admits every result; a table
    /// that proves contracts refines it per method, and the dispatch
    /// engine's contract cites it for the method it routed, which ties
    /// the routing to a real `run` invocation with that method.
    open spec fn run_post(
        &self,
        method: Method,
        msg_id: u32,
        data: Json,
        ctx: Seq<(Seq<char>, Seq<char>)>,
        r: Result<HandlerResponse, HandlerError>,
    ) -> bool {
        true
    }

    /// Decode the payload of `data` and run the action of `method`. A
    /// successful response echoes the request's correlation id in
    /// every message.
    fn run(
        &self,
        method: Method,
        msg_id: u32,
        data: &Json,
        metrics: &mut M,
        log: &mut L,
        conn: &mut C,
    ) -> (r: Result<HandlerResponse, HandlerError>)
        ensures
            final(metrics).counted_requests() == old(metrics).counted_requests(),
            final(metrics).claim_labels() == old(metrics).claim_labels(),
            final(metrics).request_labels() == old(metrics).request_labels(),
            final(log).context() == old(log).context(),
            old(log).entries().is_prefix_of(final(log).entries()),
            r matches Ok(resp) ==> forall|i: int|
                0 <= i < resp.message_list().len() ==> (#[trigger] resp.message_list()[i]).id
                    == msg_id,
            self.run_post(method, msg_id, *data, old(log).context(), r),
    ;
}

/// The failure text for a wire name outside the registry.
pub open spec fn unsupported_text(method: Seq<char>) -> Seq<char> {
    "Unsupported function: "@ + method
}

/// The failure text for a payload envelope with no element.
pub open spec fn envelope_failure_text(method: Seq<char>) -> Seq<char> {
    "Failed to parse JSON data as payload for "@ + method + " function"@
}

fn unsupported_message(method: &str) -> (r: String)
    ensures
        r@ == unsupported_text(method@),
{
    let mut s = "Unsupported function: ".to_owned();
    s.append(method);
    s
}

fn envelope_failure_message(method: &str) -> (r: String)
    ensures
        r@ == envelope_failure_text(method@),
{
    let mut s = "Failed to parse JSON data as payload for ".to_owned();
    s.append(method);
    s.append(" function");
    s
}

/// Wrap a value in a one-element JSON array, as every response body is
/// wrapped on the wire.
pub(crate) fn array_wrap(v: Json) -> (r: Json)
    ensures
        r matches Json::Array(items) && items@ == seq![v],
{
    let ghost gv = v;
    let mut items: Vec<Json> = Vec::new();
    items.push(v);
    proof {
        assert(items@ =~= seq![gv]);
    }
    Json::Array(items)
}

/// Does `j` hold the error object
/// `{"error": {"name": <name>, "message": <message>}}`, the shape
/// every application-level error takes before a response body wraps
/// it?
pub open spec fn is_error_object(j: Json, name: Seq<char>, message: Seq<char>) -> bool {
    &&& j matches Json::Object(fields)
    &&& fields@.len() == 1
    &&& fields@[0].0@ == "error"@
    &&& fields@[0].1 matches Json::Object(inner)
    &&& inner@.len() == 2
    &&& inner@[0].0@ == "name"@
    &&& (inner@[0].1 matches Json::Text(n) && n@ == name)
    &&& inner@[1].0@ == "message"@
    &&& (inner@[1].1 matches Json::Text(t) && t@ == message)
}

/// Does `j` hold the array-wrapped error object, the shape an error
/// takes as a full response body on the wire?
pub open spec fn is_error_body(j: Json, name: Seq<char>, message: Seq<char>) -> bool {
    &&& j matches Json::Array(items)
    &&& items@.len() == 1
    &&& is_error_object(items@[0], name, message)
}

/// Does `j` hold the overload error body carrying `message`?
pub open spec fn is_overload_body(j: Json, message: Seq<char>) -> bool {
    is_error_body(j, "OverloadedError"@, message)
}

/// Is `out` the overload response for request `req`: same correlation
/// id, same method name, and the overload error body carrying `text`?
pub open spec fn is_overload_response(out: Message, req: Message, text: Seq<char>) -> bool {
    &&& out.id == req.id
    &&& out.method@ == req.method@
    &&& is_overload_body(out.data, text)
}

/// Build the error object with the given error name and message
/// text. Wrapping it into a response body is the call site's step.
fn error_object(name: &str, message: &str) -> (r: Json)
    ensures
        is_error_object(r, name@, message@),
{
    let mut inner: Vec<(String, Json)> = Vec::new();
    inner.push(("name".to_owned(), Json::Text(name.to_owned())));
    inner.push(("message".to_owned(), Json::Text(message.to_owned())));
    let mut outer: Vec<(String, Json)> = Vec::new();
    outer.push(("error".to_owned(), Json::Object(inner)));
    Json::Object(outer)
}

/// Build the array-wrapped overload error body carrying the pool's
/// message text.
fn overload_body(message: &str) -> (r: Json)
    ensures
        is_overload_body(r, message@),
{
    array_wrap(error_object("OverloadedError", message))
}

/// The error object for a limit-constraint failure: the bare
/// `{"error": ...}` value, not yet array-wrapped; a call site that
/// assembles a response body wraps it there.
pub fn limit_constraint_error(msg: String) -> (r: Json)
    ensures
        is_error_object(r, "LimitConstraintError"@, msg@),
{
    error_object("LimitConstraintError", msg.as_str())
}

/// The thread-name fallback used for log context: a missing name
/// reads as "unnamed".
pub fn thread_display_name<'a>(name: Option<&'a str>) -> (r: &'a str)
    ensures
        match name {
            Some(n) => r@ == n@,
            None => r@ == "unnamed"@,
        },
{
    match name {
        Some(n) => n,
        None => "unnamed",
    }
}

/// Remove the outer one-element array that the wire protocol requires
/// around a request payload. An empty array is a failure with the
/// fixed envelope message, logged as a warning; otherwise the first
/// element is the payload and any extras are dropped.
pub fn unwrap_fast_message<X, L: LogSink>(operation: &str, log: &mut L, arr: Vec<X>) -> (r: Result<
    X,
    String,
>)
    ensures
        arr@.len() == 0 ==> (r matches Err(e) && e@ == envelope_failure_text(operation@)
            && final(log).entries() == old(log).entries().push(
            (old(log).context(), LogLevel::Warn, envelope_failure_text(operation@)),
        ) && final(log).context() == old(log).context()),
        arr@.len() > 0 ==> (r matches Ok(x) && x == arr@[0] && *final(log) == *old(log)),
{
    let mut arr = arr;
    if arr.len() == 0 {
        let err_msg = envelope_failure_message(operation);
        log.log(LogLevel::Warn, err_msg.as_str());
        Err(err_msg)
    } else {
        Ok(arr.remove(0))
    }
}

/// A sequence is a prefix of itself extended by one element.
proof fn lemma_prefix_of_push<T>(s: Seq<T>, x: T)
    ensures
        s.is_prefix_of(s.push(x)),
{
    assert(s =~= s.push(x).subrange(0, s.len() as int));
}

/// A prefix of a sequence is still a prefix after the sequence grows
/// by one element.
proof fn lemma_prefix_extend<T>(a: Seq<T>, b: Seq<T>, x: T)
    requires
        a.is_prefix_of(b),
    ensures
        a.is_prefix_of(b.push(x)),
{
    assert(a =~= b.push(x).subrange(0, a.len() as int)) by {
        assert forall|i: int| 0 <= i < a.len() implies a[i] == b.push(x).subrange(
            0,
            a.len() as int,
        )[i] by {
            assert(a[i] == b.subrange(0, a.len() as int)[i]);
        }
    }
}

/// Prefixes compose: a prefix of a prefix is a prefix.
proof fn lemma_prefix_transitive<T>(a: Seq<T>, b: Seq<T>, c: Seq<T>)
    requires
        a.is_prefix_of(b),
        b.is_prefix_of(c),
    ensures
        a.is_prefix_of(c),
{
    assert(a =~= c.subrange(0, a.len() as int)) by {
        assert forall|i: int| 0 <= i < a.len() implies a[i] == c.subrange(0, a.len() as int)[i] by {
            assert(a[i] == b.subrange(0, a.len() as int)[i]);
            assert(b[i] == c.subrange(0, b.len() as int)[i]);
        }
    }
}

/// The adapter's result relation: from the decode result, either the
/// exact pre-action failure, or the mapped result of one action
/// invocation on the first envelope element, made with the child log
/// context carrying the method and the payload's request id.
pub open spec fn adapter_result<X: HasRequestId, C, M: MetricsSink, L: LogSink, A: Action<X, C, M, L>>(
    action: A,
    msg_id: u32,
    method: Seq<char>,
    ctx: Seq<(Seq<char>, Seq<char>)>,
    data: Result<Vec<X>, String>,
    r: Result<HandlerResponse, HandlerError>,
) -> bool {
    match data {
        Err(e) => r matches Err(he) && he matches HandlerError::RequestError(s) && s == e,
        Ok(arr) => if arr@.len() == 0 {
            r matches Err(he) && he matches HandlerError::RequestError(s) && s@
                == envelope_failure_text(method)
        } else {
            exists|ar: Result<HandlerResponse, String>|
                #[trigger] action.call_post(
                    msg_id,
                    method,
                    ctx.push(("method"@, method)).push(("req_id"@, arr@[0].request_id_spec())),
                    arr@[0],
                    ar,
                ) && match ar {
                    Ok(resp) => r matches Ok(resp2) && resp2 == resp,
                    Err(s) => r matches Err(he) && he matches HandlerError::RequestError(s2) && s2
                        == s,
                }
        },
    }
}

/// Handle one valid RPC function request: turn the decode result into
/// a payload via the envelope rule, tag the log with the method and
/// the payload's request id for the nested work, and run the action.
/// The caller's log context is exactly restored; every line written
/// in between stays in the caller's log. A decode, envelope or action
/// failure becomes a `RequestError` carrying the message text; the
/// dispatcher's own metrics are left untouched.
pub fn handle_request<X, C, M, L, A>(
    msg_id: u32,
    method: &str,
    data: Result<Vec<X>, String>,
    conn: &mut C,
    action: &A,
    metrics: &mut M,
    log: &mut L,
) -> (r: Result<HandlerResponse, HandlerError>) where
    X: HasRequestId,
    M: MetricsSink,
    L: LogSink,
    A: Action<X, C, M, L>,

    ensures
        final(metrics).counted_requests() == old(metrics).counted_requests(),
        final(metrics).claim_labels() == old(metrics).claim_labels(),
        final(metrics).request_labels() == old(metrics).request_labels(),
        final(log).context() == old(log).context(),
        old(log).entries().is_prefix_of(final(log).entries()),
        data matches Err(e) ==> (r matches Err(he) && he matches HandlerError::RequestError(s)
            && s == e),
        (data matches Ok(arr) && arr@.len() == 0) ==> (r matches Err(he) && he matches
            HandlerError::RequestError(s) && s@ == envelope_failure_text(method@)),
        r matches Err(he) ==> he matches HandlerError::RequestError(_),
        r matches Ok(resp) ==> forall|i: int|
            0 <= i < resp.message_list().len() ==> (#[trigger] resp.message_list()[i]).id
                == msg_id,
        adapter_result(*action, msg_id, method@, old(log).context(), data, r),
{
    log.push_context("method", method);
    log.log(LogLevel::Debug, "handling request");
    let ghost logged_in = log.entries();
    proof {
        lemma_prefix_of_push(old(log).entries(), (old(log).context().push(("method"@, method@)), LogLevel::Debug, "handling request"@));
        assert(old(log).context().push(("method"@, method@)).drop_last() =~= old(log).context());
    }

    let r = match data {
        Err(e) => Err(HandlerError::RequestError(e)),
        Ok(arr) => match unwrap_fast_message(method, log, arr) {
            Err(e) => {
                proof {
                    lemma_prefix_extend(
                        old(log).entries(),
                        logged_in,
                        (old(log).context().push(("method"@, method@)), LogLevel::Warn,
                        envelope_failure_text(method@)),
                    );
                }
                Err(HandlerError::RequestError(e))
            },
            Ok(payload) => {
                let ghost gpayload = payload;
                let req_id = payload.request_id();
                log.push_context("req_id", req_id.as_str());
                log.log(LogLevel::Debug, "parsed payload");
                let ghost logged_deep = log.entries();
                let ghost ctx_deep = log.context();
                let ar = action.call(msg_id, method, metrics, log, payload, conn);
                let ghost gar = ar;
                log.pop_context();
                proof {
                    lemma_prefix_extend(
                        old(log).entries(),
                        logged_in,
                        (ctx_deep, LogLevel::Debug, "parsed payload"@),
                    );
                    lemma_prefix_transitive(old(log).entries(), logged_deep, log.entries());
                    assert(ctx_deep.drop_last() =~= old(log).context().push(("method"@, method@)));
                    assert(action.call_post(
                        msg_id,
                        method@,
                        old(log).context().push(("method"@, method@)).push(
                            ("req_id"@, gpayload.request_id_spec()),
                        ),
                        gpayload,
                        gar,
                    ));
                }
                match ar {
                    Ok(resp) => Ok(resp),
                    Err(e) => Err(HandlerError::RequestError(e)),
                }
            },
        },
    };
    log.pop_context();
    proof {
        assert(old(log).context().push(("method"@, method@)).drop_last() =~= old(log).context());
    }
    r
}

/// Claim a connection from the pool and track the time spent waiting:
/// whatever the outcome, exactly one observation labeled by its
/// success lands in the claim-latency histogram.
pub fn claim_pool_connection<P: Pool, M: MetricsSink>(pool: &P, metrics: &mut M) -> (r: Result<
    P::Connection,
    PoolError,
>)
    ensures
        final(metrics).counted_requests() == old(metrics).counted_requests(),
        final(metrics).claim_labels() == old(metrics).claim_labels().push(r is Ok),
        final(metrics).request_labels() == old(metrics).request_labels(),
        pool.claim_post(r),
{
    let now = instant_now();
    let claim_result = pool.claim();

    let duration = instant_elapsed(&now);
    let success = claim_result.is_ok();

    metrics.observe_claim(success, duration);

    claim_result
}

/// What the environment did during one dispatch call: the claim
/// succeeded, timed out with the pool's message text, or failed some
/// other way with that text.
pub enum ClaimOutcome {
    Acquired,
    TimedOut(Seq<char>),
    Failed(Seq<char>),
}

/// Does the claim outcome describe this result of a real claim
/// attempt: acquired on success, and on failure the matching variant
/// with the pool's own text?
pub open spec fn claim_matches<C>(claim: ClaimOutcome, cr: Result<C, PoolError>) -> bool {
    match claim {
        ClaimOutcome::Acquired => cr is Ok,
        ClaimOutcome::TimedOut(t) => cr matches Err(PoolError::ClaimTimeout(s)) && s@ == t,
        ClaimOutcome::Failed(t) => cr matches Err(PoolError::Other(s)) && s@ == t,
    }
}

/// The full relation between one dispatch call's request, the
/// environment's behaviour (claim outcome and, when a handler ran,
/// which method it served and what it returned), the metrics and
/// logger before and after, and the call's result. [`handle_msg`]
/// guarantees it for some claim outcome and handler record.
pub open spec fn dispatch_post<M: MetricsSink, L: LogSink>(
    req: Message,
    claim: ClaimOutcome,
    handled: Option<(Method, Result<HandlerResponse, HandlerError>)>,
    m0: M,
    m1: M,
    l0: L,
    l1: L,
    r: Result<Vec<Message>, DispatchError>,
) -> bool {
    &&& match handled {
        Some((m, _)) => claim is Acquired && parse_method_spec(req.method@) == Some(m),
        None => !(claim is Acquired && parse_method_spec(req.method@) is Some),
    }
    &&& m1.counted_requests() == m0.counted_requests() + 1
    &&& m1.claim_labels() == m0.claim_labels().push(claim is Acquired)
    &&& m1.request_labels() == m0.request_labels().push(
        (req.method@, claim is Acquired && r is Ok),
    )
    &&& match claim {
        ClaimOutcome::Acquired => {
            &&& l1.context() == l0.context()
            &&& match handled {
                Some((_, Ok(resp))) => r matches Ok(out) && out@ == resp.message_list() && (
                forall|i: int| 0 <= i < out@.len() ==> (#[trigger] out@[i]).id == req.id)
                    && l0.entries().is_prefix_of(l1.entries()),
                Some((_, Err(e))) => r matches Err(d) && d@ == handler_error_text(e)
                    && l0.entries().is_prefix_of(l1.entries()),
                None => r matches Err(d) && d@ == unsupported_text(req.method@) && l1.entries()
                    == l0.entries(),
            }
        },
        ClaimOutcome::TimedOut(text) => {
            &&& l1.context() == l0.context()
            &&& l1.entries() == l0.entries().push(
                (l0.context(), LogLevel::Warn, "timed out claiming connection"@),
            )
            &&& (r matches Ok(out) && out@.len() == 1 && is_overload_response(out@[0], req, text))
        },
        ClaimOutcome::Failed(text) => {
            &&& l1.context() == l0.context()
            &&& l1.entries() == l0.entries().push(
                (l0.context(), LogLevel::Error, "unexpected error claiming connection"@),
            )
            &&& (r matches Err(d) && d@ == text)
        },
    }
}

/// Dispatch one request: count it, claim a connection, route the wire
/// name through the registry, shape the response list, and record one
/// per-request observation whose outcome label is `true` exactly when
/// a connection was acquired and the call returns success. A claim
/// timeout returns a *successful* overload response; every other
/// failure returns a [`DispatchError`] carrying the originating text.
pub fn handle_msg<P, M, L, R>(
    msg: &Message,
    pool: &P,
    metrics: &mut M,
    log: &mut L,
    registry: &R,
) -> (r: Result<Vec<Message>, DispatchError>) where
    P: Pool,
    M: MetricsSink,
    L: LogSink,
    R: Registry<P::Connection, M, L>,

    ensures
        final(metrics).counted_requests() == old(metrics).counted_requests() + 1,
        exists|claim: ClaimOutcome, handled: Option<(Method, Result<HandlerResponse, HandlerError>)>|
            dispatch_post(
                *msg,
                claim,
                handled,
                *old(metrics),
                *final(metrics),
                *old(log),
                *final(log),
                r,
            ) && (handled matches Some((m, hr)) ==> registry.run_post(
                m,
                msg.id,
                msg.data,
                old(log).context(),
                hr,
            )) && (exists|cr: Result<P::Connection, PoolError>|
                #[trigger] pool.claim_post(cr) && claim_matches(claim, cr)),
{
    let now = instant_now();

    metrics.incr_request_count();

    let claimed = claim_pool_connection(pool, metrics);
    let ghost gclaimed = claimed;

    match claimed {
        Ok(mut conn) => match parse_method(msg.method.as_str()) {
            Some(m) => {
                let ghost gm = m;
                match registry.run(m, msg.id, &msg.data, metrics, log, &mut conn) {
                    Ok(resp) => {
                        let ghost gresp = resp;
                        let response = resp.into_messages();
                        let duration = instant_elapsed(&now);
                        metrics.observe_request(msg.method.as_str(), true, duration);
                        let r = Ok(response);
                        proof {
                            assert(dispatch_post(
                                *msg,
                                ClaimOutcome::Acquired,
                                Some((gm, Ok(gresp))),
                                *old(metrics),
                                *metrics,
                                *old(log),
                                *log,
                                r,
                            ) && registry.run_post(
                                gm,
                                msg.id,
                                msg.data,
                                old(log).context(),
                                Ok(gresp),
                            ) && pool.claim_post(gclaimed) && claim_matches(
                                ClaimOutcome::Acquired,
                                gclaimed,
                            ));
                        }
                        r
                    },
                    Err(e) => {
                        let duration = instant_elapsed(&now);
                        metrics.observe_request(msg.method.as_str(), false, duration);
                        let ghost ge = e;
                        let d = match e {
                            HandlerError::PoolError(PoolError::ClaimTimeout(s)) => other_error(
                                s.as_str(),
                            ),
                            HandlerError::PoolError(PoolError::Other(s)) => other_error(s.as_str()),
                            HandlerError::RequestError(s) => other_error(s.as_str()),
                        };
                        let r = Err(d);
                        proof {
                            assert(dispatch_post(
                                *msg,
                                ClaimOutcome::Acquired,
                                Some((gm, Err(ge))),
                                *old(metrics),
                                *metrics,
                                *old(log),
                                *log,
                                r,
                            ) && registry.run_post(
                                gm,
                                msg.id,
                                msg.data,
                                old(log).context(),
                                Err(ge),
                            ) && pool.claim_post(gclaimed) && claim_matches(
                                ClaimOutcome::Acquired,
                                gclaimed,
                            ));
                        }
                        r
                    },
                }
            },
            None => {
                let duration = instant_elapsed(&now);
                metrics.observe_request(msg.method.as_str(), false, duration);
                let r = Err(other_error(unsupported_message(msg.method.as_str()).as_str()));
                proof {
                    assert(dispatch_post(
                        *msg,
                        ClaimOutcome::Acquired,
                        None,
                        *old(metrics),
                        *metrics,
                        *old(log),
                        *log,
                        r,
                    ) && pool.claim_post(gclaimed) && claim_matches(
                        ClaimOutcome::Acquired,
                        gclaimed,
                    ));
                }
                r
            },
        },
        Err(PoolError::ClaimTimeout(s)) => {
            log.log(LogLevel::Warn, "timed out claiming connection");
            let body = overload_body(s.as_str());
            let out = Message { id: msg.id, method: msg.method.clone(), data: body };
            let mut response: Vec<Message> = Vec::new();
            response.push(out);
            let duration = instant_elapsed(&now);
            metrics.observe_request(msg.method.as_str(), false, duration);
            let r = Ok(response);
            proof {
                assert(dispatch_post(
                    *msg,
                    ClaimOutcome::TimedOut(s@),
                    None,
                    *old(metrics),
                    *metrics,
                    *old(log),
                    *log,
                    r,
                ) && pool.claim_post(gclaimed) && claim_matches(
                    ClaimOutcome::TimedOut(s@),
                    gclaimed,
                ));
            }
            r
        },
        Err(PoolError::Other(s)) => {
            log.log(LogLevel::Error, "unexpected error claiming connection");
            let duration = instant_elapsed(&now);
            metrics.observe_request(msg.method.as_str(), false, duration);
            let r = Err(other_error(s.as_str()));
            proof {
                assert(dispatch_post(
                    *msg,
                    ClaimOutcome::Failed(s@),
                    None,
                    *old(metrics),
                    *metrics,
                    *old(log),
                    *log,
                    r,
                ) && pool.claim_post(gclaimed) && claim_matches(
                    ClaimOutcome::Failed(s@),
                    gclaimed,
                ));
            }
            r
        },
    }
}

/// A claim timeout always yields a successful call with exactly one
/// response message: correlation id echoed from the request, the
/// overload error body carrying the pool's text, a warning logged, and
/// an outcome label of `false` recorded for the method.
pub proof fn lemma_timeout_is_overload<M: MetricsSink, L: LogSink>(
    req: Message,
    text: Seq<char>,
    m0: M,
    m1: M,
    l0: L,
    l1: L,
    r: Result<Vec<Message>, DispatchError>,
)
    requires
        dispatch_post(req, ClaimOutcome::TimedOut(text), None, m0, m1, l0, l1, r),
    ensures
        r matches Ok(out) && out@.len() == 1 && out@[0].id == req.id && is_overload_body(
            out@[0].data,
            text,
        ),
        m1.request_labels() == m0.request_labels().push((req.method@, false)),
        l1.entries() == l0.entries().push(
            (l0.context(), LogLevel::Warn, "timed out claiming connection"@),
        ),
{
}

/// A non-timeout pool failure always yields a failed call carrying the
/// pool's text, zero response messages, an error-level log entry, and
/// an outcome label of `false` recorded for the method.
pub proof fn lemma_pool_failure_is_fatal<M: MetricsSink, L: LogSink>(
    req: Message,
    text: Seq<char>,
    m0: M,
    m1: M,
    l0: L,
    l1: L,
    r: Result<Vec<Message>, DispatchError>,
)
    requires
        dispatch_post(req, ClaimOutcome::Failed(text), None, m0, m1, l0, l1, r),
    ensures
        r matches Err(d) && d@ == text,
        m1.request_labels() == m0.request_labels().push((req.method@, false)),
        l1.entries() == l0.entries().push(
            (l0.context(), LogLevel::Error, "unexpected error claiming connection"@),
        ),
{
}

/// A wire name outside the registry is rejected after a successful
/// claim: the call fails with a message naming the method, no response
/// messages exist, and an outcome label of `false` is recorded.
pub proof fn lemma_unknown_method_is_rejected<M: MetricsSink, L: LogSink>(
    req: Message,
    m0: M,
    m1: M,
    l0: L,
    l1: L,
    r: Result<Vec<Message>, DispatchError>,
)
    requires
        parse_method_spec(req.method@) is None,
        dispatch_post(req, ClaimOutcome::Acquired, None, m0, m1, l0, l1, r),
    ensures
        r matches Err(d) && d@ == unsupported_text(req.method@),
        m1.request_labels() == m0.request_labels().push((req.method@, false)),
{
}

/// Whatever action an entry holds, an envelope with no element makes
/// the adapter fail with the fixed message naming the method: the
/// action's outcome cannot matter.
pub proof fn lemma_empty_envelope_fails_adapter<
    X: HasRequestId,
    C,
    M: MetricsSink,
    L: LogSink,
    A: Action<X, C, M, L>,
>(
    action: A,
    msg_id: u32,
    method: Seq<char>,
    ctx: Seq<(Seq<char>, Seq<char>)>,
    arr: Vec<X>,
    r: Result<HandlerResponse, HandlerError>,
)
    requires
        arr@.len() == 0,
        adapter_result(action, msg_id, method, ctx, Ok(arr), r),
    ensures
        r matches Err(he) && he matches HandlerError::RequestError(s) && s@
            == envelope_failure_text(method),
{
}

/// A decode failure's own message, and not a generic text, is what
/// the adapter returns, whatever action the entry holds.
pub proof fn lemma_decode_failure_fails_adapter<
    X: HasRequestId,
    C,
    M: MetricsSink,
    L: LogSink,
    A: Action<X, C, M, L>,
>(
    action: A,
    msg_id: u32,
    method: Seq<char>,
    ctx: Seq<(Seq<char>, Seq<char>)>,
    e: String,
    r: Result<HandlerResponse, HandlerError>,
)
    requires
        adapter_result(action, msg_id, method, ctx, Err(e), r),
    ensures
        r matches Err(he) && he matches HandlerError::RequestError(s) && s == e,
{
}

/// On the handler path, every returned response message echoes the
/// request's correlation id, and in the handler's own order.
pub proof fn lemma_handler_response_ids<M: MetricsSink, L: LogSink>(
    req: Message,
    m: Method,
    resp: HandlerResponse,
    m0: M,
    m1: M,
    l0: L,
    l1: L,
    r: Result<Vec<Message>, DispatchError>,
)
    requires
        dispatch_post(req, ClaimOutcome::Acquired, Some((m, Ok(resp))), m0, m1, l0, l1, r),
    ensures
        r matches Ok(out) && out@ == resp.message_list() && forall|i: int|
            0 <= i < out@.len() ==> (#[trigger] out@[i]).id == req.id,
{
}

/// With a connection acquired, the handler machinery runs exactly for
/// the names the registry holds, and always for the method that owns
/// the request's wire name.
pub proof fn lemma_registered_method_reaches_handler<M: MetricsSink, L: LogSink>(
    req: Message,
    handled: Option<(Method, Result<HandlerResponse, HandlerError>)>,
    m0: M,
    m1: M,
    l0: L,
    l1: L,
    r: Result<Vec<Message>, DispatchError>,
)
    requires
        dispatch_post(req, ClaimOutcome::Acquired, handled, m0, m1, l0, l1, r),
    ensures
        handled is Some <==> parse_method_spec(req.method@) is Some,
        handled matches Some((m, _)) ==> parse_method_spec(req.method@) == Some(m),
{
}

} // verus!
