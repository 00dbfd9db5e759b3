//! The per-request context and the clock it is timed by.
use vstd::prelude::*;
use crate::catalog::Demand;
use crate::openrtb::BidRequest;
use crate::placements::{DspPlacement, Ssp, SspPlacement};

verus! {

#[verifier::external_type_specification]
#[verifier::external_body]
pub struct ExInstant(std::time::Instant);

/// Relies on `Instant::now`: a reading of the monotonic clock.
#[verifier::external_body]
pub fn default_instant() -> std::time::Instant {
    std::time::Instant::now()
}

/// Relies on `Instant::elapsed`: the time since `start` on the monotonic clock.
#[verifier::external_body]
fn time_since(start: &std::time::Instant) -> std::time::Duration {
    start.elapsed()
}

/// Relies on `Duration::as_millis`: the whole milliseconds of `d`.
#[verifier::external_body]
fn whole_millis(d: &std::time::Duration) -> u128 {
    d.as_millis()
}

/// Whole milliseconds since `start`, saturating at `u64::MAX`.
pub fn elapsed_ms(start: &std::time::Instant) -> u64 {
    let ms = whole_millis(&time_since(start));
    if ms > u64::MAX as u128 {
        u64::MAX
    } else {
        ms as u64
    }
}

/// What one request carries through the pipeline.
pub struct Context {
    pub bid_request: BidRequest,
    /// The SSP the request came from.
    pub ssp: Ssp,
    /// The SSP's placement for the request.
    pub ssp_placement: SspPlacement,
    /// The DSP calls with their placements.
    pub dsp_requests: Vec<(Demand, DspPlacement)>,
    /// When the request arrived.
    pub start_time: std::time::Instant,
}

impl Context {
    /// A context for a request that arrives now, with no DSP calls yet.
    pub fn new(bid_request: BidRequest, ssp: Ssp, ssp_placement: SspPlacement) -> (r: Context)
        ensures
            r.bid_request == bid_request,
            r.ssp == ssp,
            r.ssp_placement == ssp_placement,
            r.dsp_requests@.len() == 0,
    {
        Context { bid_request, ssp, ssp_placement, dsp_requests: Vec::new(), start_time: default_instant() }
    }

    /// Whole milliseconds since the request arrived.
    pub fn elapsed_ms(&self) -> u64 {
        elapsed_ms(&self.start_time)
    }
}

} // verus!
