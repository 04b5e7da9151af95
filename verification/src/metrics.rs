//! Counters the responder keeps about its own work.

use vstd::prelude::*;

verus! {

/// Mathematical model of the counters: four natural numbers.
pub struct Counters {
    /// Datagrams received, well formed or not.
    pub requests_received: nat,
    /// Responses handed to the transport and accepted by it.
    pub responses_sent: nat,
    /// Datagrams that did not decode as a request.
    pub decode_errors: nat,
    /// Responses the transport failed to send.
    pub send_errors: nat,
}

/// `count` raised by `by`, held at the largest value a counter can store.
pub open spec fn raised(count: nat, by: nat) -> nat {
    if count + by <= u64::MAX {
        count + by
    } else if count <= u64::MAX {
        u64::MAX as nat
    } else {
        count
    }
}

impl Counters {
    /// All counters at zero.
    pub open spec fn zero() -> Counters {
        Counters { requests_received: 0, responses_sent: 0, decode_errors: 0, send_errors: 0 }
    }

    /// Every counter fits the 64 bits it is stored in.
    pub open spec fn wf(self) -> bool {
        &&& self.requests_received <= u64::MAX
        &&& self.responses_sent <= u64::MAX
        &&& self.decode_errors <= u64::MAX
        &&& self.send_errors <= u64::MAX
    }

    /// No counter of `self` is below the same counter of `earlier`.
    pub open spec fn no_less_than(self, earlier: Counters) -> bool {
        &&& self.requests_received >= earlier.requests_received
        &&& self.responses_sent >= earlier.responses_sent
        &&& self.decode_errors >= earlier.decode_errors
        &&& self.send_errors >= earlier.send_errors
    }

    /// The counters after one more datagram was received.
    pub open spec fn request_received(self) -> Counters {
        Counters { requests_received: raised(self.requests_received, 1), ..self }
    }

    /// The counters after one more response was sent.
    pub open spec fn response_sent(self) -> Counters {
        Counters { responses_sent: raised(self.responses_sent, 1), ..self }
    }

    /// The counters after one more datagram failed to decode.
    pub open spec fn decode_failed(self) -> Counters {
        Counters { decode_errors: raised(self.decode_errors, 1), ..self }
    }

    /// The counters after one more response failed to be sent.
    pub open spec fn send_failed(self) -> Counters {
        Counters { send_errors: raised(self.send_errors, 1), ..self }
    }
}

/// A copy of the counters as they stood at one moment.
#[derive(Clone, Copy, Debug, PartialEq, Eq, Structural, Hash)]
pub struct MetricsSnapshot {
    pub requests_received: u64,
    pub responses_sent: u64,
    pub decode_errors: u64,
    pub send_errors: u64,
}

impl View for MetricsSnapshot {
    type V = Counters;

    open spec fn view(&self) -> Counters {
        Counters {
            requests_received: self.requests_received as nat,
            responses_sent: self.responses_sent as nat,
            decode_errors: self.decode_errors as nat,
            send_errors: self.send_errors as nat,
        }
    }
}

/// The live counters. They only ever grow, and stop at `u64::MAX`.
///
/// Only the responder raises them; everyone else reads a [`MetricsSnapshot`].
#[derive(Debug)]
pub struct Metrics {
    requests_received: u64,
    responses_sent: u64,
    decode_errors: u64,
    send_errors: u64,
}

impl View for Metrics {
    type V = Counters;

    closed spec fn view(&self) -> Counters {
        Counters {
            requests_received: self.requests_received as nat,
            responses_sent: self.responses_sent as nat,
            decode_errors: self.decode_errors as nat,
            send_errors: self.send_errors as nat,
        }
    }
}

/// One more, unless the counter is full.
fn raise(count: u64) -> (next: u64)
    ensures
        next == raised(count as nat, 1),
{
    if count < u64::MAX {
        count + 1
    } else {
        count
    }
}

impl Metrics {
    /// Fresh counters, all at zero.
    pub fn new() -> (metrics: Metrics)
        ensures
            metrics@ == Counters::zero(),
    {
        Metrics { requests_received: 0, responses_sent: 0, decode_errors: 0, send_errors: 0 }
    }

    /// Copies all four counters at once.
    pub fn snapshot(&self) -> (snapshot: MetricsSnapshot)
        ensures
            snapshot@ == self@,
    {
        MetricsSnapshot {
            requests_received: self.requests_received,
            responses_sent: self.responses_sent,
            decode_errors: self.decode_errors,
            send_errors: self.send_errors,
        }
    }

    /// What is stored always fits its counter.
    pub proof fn counters_fit(self)
        ensures
            self@.wf(),
    {
    }

    pub(crate) fn count_request(&mut self)
        ensures
            final(self)@ == old(self)@.request_received(),
    {
        self.requests_received = raise(self.requests_received);
    }

    pub(crate) fn count_response(&mut self)
        ensures
            final(self)@ == old(self)@.response_sent(),
    {
        self.responses_sent = raise(self.responses_sent);
    }

    pub(crate) fn count_decode_error(&mut self)
        ensures
            final(self)@ == old(self)@.decode_failed(),
    {
        self.decode_errors = raise(self.decode_errors);
    }

    pub(crate) fn count_send_error(&mut self)
        ensures
            final(self)@ == old(self)@.send_failed(),
    {
        self.send_errors = raise(self.send_errors);
    }
}

impl Default for Metrics {
    fn default() -> (metrics: Metrics)
        ensures
            metrics@ == Counters::zero(),
    {
        Metrics::new()
    }
}

/// Raising a counter never lowers it.
pub proof fn counters_never_decrease(before: Counters)
    ensures
        before.request_received().no_less_than(before),
        before.response_sent().no_less_than(before),
        before.decode_failed().no_less_than(before),
        before.send_failed().no_less_than(before),
{
}

} // verus!
