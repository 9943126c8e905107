//! The rate-gated transport: the global minimum-interval gate and the
//! classification of HTTP responses into typed outcomes.
//!
//! A client family (a client and its clones) shares one slot, and every
//! call passes through it alone: compute the leftover wait since the
//! previous completion, sleep it out while still holding the slot,
//! perform the call, classify what came back, and only then record a
//! completion tick — all inside one critical section. The waiting, the
//! network call and the clock belong to the driver; every decision is
//! here.

use vstd::prelude::*;

use crate::error::Error;
use crate::error::TransportFailure;

verus! {

/// The Rate Slot: the single piece of shared mutable state of a client
/// family. Times are ticks of a monotonic clock supplied by the driver.
pub struct RateGate {
    /// Configured minimum spacing between request completions.
    pub min_interval: u64,
    /// Tick recorded by the most recent response-bearing request, if any.
    pub last_completion: Option<u64>,
}

/// How long a request beginning at tick `now` must still wait: the part
/// of `min_interval` that has not yet elapsed since the last completion.
pub open spec fn wait_amount(min_interval: u64, last: Option<u64>, now: u64) -> int {
    match last {
        Some(t) => if now < t + min_interval {
            t + min_interval - now
        } else {
            0
        },
        None => 0,
    }
}

/// One gate passage as the driver performs it: the clock is monotonic
/// (`prev <= now`), and the completion stamp is taken only after the
/// computed wait has elapsed.
pub open spec fn spaced_step(min_interval: u64, prev: u64, now: u64, stamp: u64) -> bool {
    &&& prev <= now
    &&& stamp >= now + wait_amount(min_interval, Some(prev), now)
}

impl RateGate {
    /// A fresh gate: no request has completed yet, so the first request
    /// waits for nothing.
    pub fn new(min_interval: u64) -> (gate: RateGate)
        ensures
            gate.min_interval == min_interval,
            gate.last_completion is None,
    {
        RateGate { min_interval, last_completion: None }
    }

    /// The wait owed at tick `now`. The clock being monotonic, `now` is
    /// at least the recorded completion tick.
    pub fn wait_needed(&self, now: u64) -> (wait: u64)
        requires
            self.last_completion matches Some(t) ==> t <= now,
        ensures
            wait == wait_amount(self.min_interval, self.last_completion, now),
            self.last_completion matches Some(t) ==> now + wait >= t + self.min_interval,
            self.last_completion is None ==> wait == 0,
    {
        match self.last_completion {
            None => 0,
            Some(t) => {
                let elapsed = now - t;
                if elapsed < self.min_interval {
                    self.min_interval - elapsed
                } else {
                    0
                }
            },
        }
    }
}

/// A stamp taken after one gate passage lies at least `min_interval`
/// past the previous completion.
pub proof fn lemma_step_spacing(min_interval: u64, prev: u64, now: u64, stamp: u64)
    requires
        spaced_step(min_interval, prev, now, stamp),
    ensures
        stamp >= prev + min_interval,
{
}

/// Spacing law over a whole history: when every passage follows its
/// predecessor's completion, each recorded stamp lies at least
/// `min_interval` past the stamp before it.
pub proof fn lemma_completion_spacing(min_interval: u64, nows: Seq<u64>, stamps: Seq<u64>)
    requires
        nows.len() == stamps.len(),
        forall|i: int|
            1 <= i < stamps.len() ==> spaced_step(
                min_interval,
                stamps[i - 1],
                nows[i],
                #[trigger] stamps[i],
            ),
    ensures
        forall|i: int| 1 <= i < stamps.len() ==> #[trigger] stamps[i] - stamps[i - 1] >= min_interval,
{
}

/// The tagged envelope every response body carries: a success payload or
/// a server-reported domain error, never both.
#[derive(Debug, Clone)]
pub enum Envelope<T> {
    /// The success payload.
    Success(T),
    /// The server-reported domain error message.
    Failure { message: String },
}

/// Everything the driver observed of one network call, as plain values.
/// For a success status the driver also hands over the envelope decode
/// outcome; for any other status that field is ignored here.
#[derive(Debug)]
pub enum FetchOutcome<T> {
    /// The call failed before any response was obtained.
    NoResponse { detail: String },
    /// A response arrived: its status, its raw body text, and — for a
    /// success status — the result of decoding the body as the envelope
    /// (`Err` holds the decoder's description of the failure).
    Response { status: u16, body: String, decoded: Result<Envelope<T>, String> },
}

/// Whether a status is a success (2xx) status.
pub open spec fn is_success_spec(status: u16) -> bool {
    200 <= status < 300
}

/// Executable form of [`is_success_spec`], for drivers that must decide
/// whether to run the decoder at all.
pub fn is_success_status(status: u16) -> (r: bool)
    ensures
        r == is_success_spec(status),
{
    200 <= status && status < 300
}

/// The exact status-code mapping: 404 carries the requested URL, 403 the
/// raw body text, any other non-2xx the status itself; a 2xx body is the
/// envelope, whose domain-error arm surfaces as an `Api` error.
pub open spec fn classified<T>(url: String, outcome: FetchOutcome<T>) -> Result<T, Error> {
    match outcome {
        FetchOutcome::NoResponse { detail } => Err(
            Error::Transport { failure: TransportFailure::NoResponse { detail } },
        ),
        FetchOutcome::Response { status, body, decoded } => {
            if status == 404 {
                Err(Error::NotFound { url })
            } else if status == 403 {
                Err(Error::PermissionDenied { reason: body })
            } else if !is_success_spec(status) {
                Err(Error::Transport { failure: TransportFailure::Status { status } })
            } else {
                match decoded {
                    Err(detail) => Err(
                        Error::Transport { failure: TransportFailure::Decode { detail } },
                    ),
                    Ok(Envelope::Failure { message }) => Err(Error::Api { message }),
                    Ok(Envelope::Success(t)) => Ok(t),
                }
            }
        },
    }
}

/// Conclude one request: classify what the call produced and settle the
/// Rate Slot. A pre-response failure never advances the slot — an attempt
/// that got no response does not count as a request for spacing purposes —
/// while every response-bearing outcome (404 and 403 included) records
/// `completion`.
pub fn finish_request<T>(
    gate: &mut RateGate,
    url: String,
    outcome: FetchOutcome<T>,
    completion: u64,
) -> (r: Result<T, Error>)
    ensures
        r == classified(url, outcome),
        final(gate).min_interval == old(gate).min_interval,
        outcome matches FetchOutcome::NoResponse { .. } ==> final(gate).last_completion == old(
            gate,
        ).last_completion,
        outcome matches FetchOutcome::Response { .. } ==> final(gate).last_completion == Some(
            completion,
        ),
{
    match outcome {
        FetchOutcome::NoResponse { detail } => Err(
            Error::Transport { failure: TransportFailure::NoResponse { detail } },
        ),
        FetchOutcome::Response { status, body, decoded } => {
            gate.last_completion = Some(completion);
            if status == 404 {
                Err(Error::NotFound { url })
            } else if status == 403 {
                Err(Error::PermissionDenied { reason: body })
            } else if !is_success_status(status) {
                Err(Error::Transport { failure: TransportFailure::Status { status } })
            } else {
                match decoded {
                    Err(detail) => Err(
                        Error::Transport { failure: TransportFailure::Decode { detail } },
                    ),
                    Ok(Envelope::Failure { message }) => Err(Error::Api { message }),
                    Ok(Envelope::Success(t)) => Ok(t),
                }
            }
        },
    }
}

} // verus!
