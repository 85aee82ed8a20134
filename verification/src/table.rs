//! The verified method table: one handler entry per registered
//! method, with the generic adapter entry that binds one operation's
//! decode capability to its action.
//!
//! [`MethodTable`] implements [`Registry`] by routing each [`Method`]
//! to its own entry and to no other; its `run_post` says so, method by
//! method, so the routing is checked rather than owed by every
//! implementation.

use vstd::prelude::*;

use core::marker::PhantomData;

use crate::json::Json;
use crate::log::LogSink;
use crate::methods::{method_name, Method};
use crate::metrics::MetricsSink;
use crate::types::{HandlerError, HandlerResponse, HasRequestId};
use crate::util::{adapter_result, handle_request, Action, Registry};

verus! {

/// The decode capability of one operation: raw JSON in, the envelope
/// list of that operation's payload type out, or the decoder's own
/// failure text.
pub trait Decoder<X> {
    /// What decoding `data` may produce. The default admits every
    /// result; an implementation that proves contracts refines it.
    open spec fn decode_post(&self, data: Json, r: Result<Vec<X>, String>) -> bool {
        true
    }

    /// Decode one request payload.
    fn decode(&self, data: &Json) -> (r: Result<Vec<X>, String>)
        ensures
            self.decode_post(*data, r),
    ;
}

/// One method's bound handler: everything the table does for one
/// registered method.
pub trait MethodHandler<C, M: MetricsSink, L: LogSink> {
    /// What serving one request may produce, given the log context
    /// handed in. The default admits every result.
    open spec fn handle_post(
        &self,
        method: Method,
        msg_id: u32,
        data: Json,
        ctx: Seq<(Seq<char>, Seq<char>)>,
        r: Result<HandlerResponse, HandlerError>,
    ) -> bool {
        true
    }

    /// Serve one request for `method`.
    fn handle(
        &self,
        method: Method,
        msg_id: u32,
        data: &Json,
        metrics: &mut M,
        log: &mut L,
        conn: &mut C,
    ) -> (r: Result<HandlerResponse, HandlerError>)
        ensures
            final(metrics).counted_requests() == old(metrics).counted_requests(),
            final(metrics).claim_labels() == old(metrics).claim_labels(),
            final(metrics).request_labels() == old(metrics).request_labels(),
            final(log).context() == old(log).context(),
            old(log).entries().is_prefix_of(final(log).entries()),
            r matches Ok(resp) ==> forall|i: int|
                0 <= i < resp.message_list().len() ==> (#[trigger] resp.message_list()[i]).id
                    == msg_id,
            self.handle_post(method, msg_id, *data, old(log).context(), r),
    ;
}

/// One operation's decode/action pair, served through the generic
/// adapter: decode, apply the envelope rule, run the action.
pub struct AdapterEntry<X, D, A> {
    pub decoder: D,
    pub action: A,
    pub payload: PhantomData<X>,
}

impl<X, C, M, L, D, A> MethodHandler<C, M, L> for AdapterEntry<X, D, A> where
    X: HasRequestId,
    M: MetricsSink,
    L: LogSink,
    D: Decoder<X>,
    A: Action<X, C, M, L>,
 {
    /// The result came from the adapter run on some outcome of this
    /// entry's decoder.
    open spec fn handle_post(
        &self,
        method: Method,
        msg_id: u32,
        data: Json,
        ctx: Seq<(Seq<char>, Seq<char>)>,
        r: Result<HandlerResponse, HandlerError>,
    ) -> bool {
        exists|dr: Result<Vec<X>, String>|
            #[trigger] self.decoder.decode_post(data, dr) && adapter_result(
                self.action,
                msg_id,
                method_name(method),
                ctx,
                dr,
                r,
            )
    }

    fn handle(
        &self,
        method: Method,
        msg_id: u32,
        data: &Json,
        metrics: &mut M,
        log: &mut L,
        conn: &mut C,
    ) -> (r: Result<HandlerResponse, HandlerError>) {
        let decoded = self.decoder.decode(data);
        let ghost gdecoded = decoded;
        let name = method.name();
        let r = handle_request(msg_id, name, decoded, conn, &self.action, metrics, log);
        proof {
            assert(self.decoder.decode_post(*data, gdecoded));
        }
        r
    }
}

/// The method table: the decode/action pair of every registered
/// method, routed by exact [`Method`] match. Its `run_post` ties each
/// method's result to that method's own entry.
pub struct MethodTable<GO, CO, UO, DO, LO, GB, CB, DB, LB, GG, DG> {
    pub getobject: GO,
    pub createobject: CO,
    pub updateobject: UO,
    pub deleteobject: DO,
    pub listobjects: LO,
    pub getbucket: GB,
    pub createbucket: CB,
    pub deletebucket: DB,
    pub listbuckets: LB,
    pub getgcbatch: GG,
    pub deletegcbatch: DG,
}

impl<C, M, L, GO, CO, UO, DO, LO, GB, CB, DB, LB, GG, DG> Registry<C, M, L> for MethodTable<
    GO,
    CO,
    UO,
    DO,
    LO,
    GB,
    CB,
    DB,
    LB,
    GG,
    DG,
> where
    M: MetricsSink,
    L: LogSink,
    GO: MethodHandler<C, M, L>,
    CO: MethodHandler<C, M, L>,
    UO: MethodHandler<C, M, L>,
    DO: MethodHandler<C, M, L>,
    LO: MethodHandler<C, M, L>,
    GB: MethodHandler<C, M, L>,
    CB: MethodHandler<C, M, L>,
    DB: MethodHandler<C, M, L>,
    LB: MethodHandler<C, M, L>,
    GG: MethodHandler<C, M, L>,
    DG: MethodHandler<C, M, L>,
 {
    open spec fn run_post(
        &self,
        method: Method,
        msg_id: u32,
        data: Json,
        ctx: Seq<(Seq<char>, Seq<char>)>,
        r: Result<HandlerResponse, HandlerError>,
    ) -> bool {
        match method {
            Method::GetObject => self.getobject.handle_post(method, msg_id, data, ctx, r),
            Method::CreateObject => self.createobject.handle_post(method, msg_id, data, ctx, r),
            Method::UpdateObject => self.updateobject.handle_post(method, msg_id, data, ctx, r),
            Method::DeleteObject => self.deleteobject.handle_post(method, msg_id, data, ctx, r),
            Method::ListObjects => self.listobjects.handle_post(method, msg_id, data, ctx, r),
            Method::GetBucket => self.getbucket.handle_post(method, msg_id, data, ctx, r),
            Method::CreateBucket => self.createbucket.handle_post(method, msg_id, data, ctx, r),
            Method::DeleteBucket => self.deletebucket.handle_post(method, msg_id, data, ctx, r),
            Method::ListBuckets => self.listbuckets.handle_post(method, msg_id, data, ctx, r),
            Method::GetGcBatch => self.getgcbatch.handle_post(method, msg_id, data, ctx, r),
            Method::DeleteGcBatch => self.deletegcbatch.handle_post(method, msg_id, data, ctx, r),
        }
    }

    fn run(
        &self,
        method: Method,
        msg_id: u32,
        data: &Json,
        metrics: &mut M,
        log: &mut L,
        conn: &mut C,
    ) -> (r: Result<HandlerResponse, HandlerError>) {
        match method {
            Method::GetObject => self.getobject.handle(method, msg_id, data, metrics, log, conn),
            Method::CreateObject => self.createobject.handle(
                method,
                msg_id,
                data,
                metrics,
                log,
                conn,
            ),
            Method::UpdateObject => self.updateobject.handle(
                method,
                msg_id,
                data,
                metrics,
                log,
                conn,
            ),
            Method::DeleteObject => self.deleteobject.handle(
                method,
                msg_id,
                data,
                metrics,
                log,
                conn,
            ),
            Method::ListObjects => self.listobjects.handle(method, msg_id, data, metrics, log, conn),
            Method::GetBucket => self.getbucket.handle(method, msg_id, data, metrics, log, conn),
            Method::CreateBucket => self.createbucket.handle(
                method,
                msg_id,
                data,
                metrics,
                log,
                conn,
            ),
            Method::DeleteBucket => self.deletebucket.handle(
                method,
                msg_id,
                data,
                metrics,
                log,
                conn,
            ),
            Method::ListBuckets => self.listbuckets.handle(method, msg_id, data, metrics, log, conn),
            Method::GetGcBatch => self.getgcbatch.handle(method, msg_id, data, metrics, log, conn),
            Method::DeleteGcBatch => self.deletegcbatch.handle(
                method,
                msg_id,
                data,
                metrics,
                log,
                conn,
            ),
        }
    }
}

} // verus!
