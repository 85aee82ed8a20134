//! The metrics sink consumed by the dispatch core.
//!
//! Dispatch records three things: a request counter bumped once per
//! call, a claim-latency histogram labeled by whether the claim
//! succeeded, and a per-request latency histogram labeled by method and
//! outcome. The sink is a trait so a process can plug in its real
//! registry while tests substitute the recording sink below.

use vstd::prelude::*;

use core::time::Duration;

verus! {

/// Where dispatch records its observations. The three spec functions
/// give the sink's abstract state: how often the request counter was
/// bumped, and the label sequences of the two histograms, in
/// observation order.
pub trait MetricsSink: Sized {
    /// How many requests have been counted.
    spec fn counted_requests(&self) -> nat;

    /// The success labels of the claim-latency histogram, one per claim
    /// attempt, in order.
    spec fn claim_labels(&self) -> Seq<bool>;

    /// The (method, outcome) labels of the per-request latency
    /// histogram, one per finished dispatch, in order.
    spec fn request_labels(&self) -> Seq<(Seq<char>, bool)>;

    /// Count one request.
    fn incr_request_count(&mut self)
        ensures
            final(self).counted_requests() == old(self).counted_requests() + 1,
            final(self).claim_labels() == old(self).claim_labels(),
            final(self).request_labels() == old(self).request_labels(),
    ;

    /// Record one claim attempt that took `duration`, labeled by
    /// whether it succeeded.
    fn observe_claim(&mut self, success: bool, duration: Duration)
        ensures
            final(self).counted_requests() == old(self).counted_requests(),
            final(self).claim_labels() == old(self).claim_labels().push(success),
            final(self).request_labels() == old(self).request_labels(),
    ;

    /// Record one finished request that took `duration`, labeled by its
    /// method name and outcome.
    fn observe_request(&mut self, method: &str, success: bool, duration: Duration)
        ensures
            final(self).counted_requests() == old(self).counted_requests(),
            final(self).claim_labels() == old(self).claim_labels(),
            final(self).request_labels() == old(self).request_labels().push((method@, success)),
    ;
}

/// A metrics sink that keeps every observation in memory, for tests and
/// for any caller that wants to inspect what dispatch recorded.
pub struct RecordingMetrics {
    /// One entry per counted request.
    pub requests: Vec<bool>,
    /// One entry per claim attempt: its success label.
    pub claims: Vec<bool>,
    /// One entry per finished dispatch: its method and outcome labels.
    pub observations: Vec<(String, bool)>,
}

impl RecordingMetrics {
    /// A sink with nothing recorded yet.
    pub fn new() -> (r: RecordingMetrics)
        ensures
            r.counted_requests() == 0,
            r.claim_labels() == Seq::<bool>::empty(),
            r.request_labels() == Seq::<(Seq<char>, bool)>::empty(),
    {
        let r = RecordingMetrics { requests: Vec::new(), claims: Vec::new(), observations: Vec::new() };
        proof {
            assert(r.request_labels() =~= Seq::<(Seq<char>, bool)>::empty());
        }
        r
    }

    /// How many requests were counted.
    pub fn request_count(&self) -> (r: usize)
        ensures
            r == self.counted_requests(),
    {
        self.requests.len()
    }
}

impl MetricsSink for RecordingMetrics {
    open spec fn counted_requests(&self) -> nat {
        self.requests@.len()
    }

    open spec fn claim_labels(&self) -> Seq<bool> {
        self.claims@
    }

    open spec fn request_labels(&self) -> Seq<(Seq<char>, bool)> {
        self.observations@.map_values(|p: (String, bool)| (p.0@, p.1))
    }

    fn incr_request_count(&mut self) {
        self.requests.push(true);
    }

    fn observe_claim(&mut self, success: bool, duration: Duration) {
        self.claims.push(success);
    }

    fn observe_request(&mut self, method: &str, success: bool, duration: Duration) {
        let ghost before = self.observations@;
        self.observations.push((method.to_owned(), success));
        proof {
            assert(self.request_labels() =~= before.map_values(|p: (String, bool)| (p.0@, p.1)).push(
                (method@, success),
            ));
        }
    }
}

} // verus!
