//! The client side: one query, from the request frame to its result.
//!
//! The requester owns no socket and no clock. Its caller sends the request,
//! waits, and reports what happened together with the time on a monotonic
//! clock, in nanoseconds; the requester decides whether the query is over and
//! with what result. Nothing is retried.

use vstd::prelude::*;
use crate::codec::{decode_response, encode_request, parse_response, request_frame};
use crate::error::{DecodeError, QueryError, TransportFault};
use crate::record::{StatusRecord, StatusRecordView};

verus! {

/// Time between sending a request and receiving its response.
#[derive(Clone, Copy, Debug, PartialEq, Eq, Structural, Hash)]
pub struct RoundTrip {
    pub nanos: u64,
}

impl RoundTrip {
    /// The round trip in whole milliseconds, rounded down.
    pub fn as_millis(&self) -> (millis: u64)
        ensures
            millis == self.nanos / 1_000_000,
    {
        self.nanos / 1_000_000
    }
}

/// Something that happened while a query waited for its response.
#[derive(Debug, PartialEq, Eq, Hash)]
pub enum ReplyEvent {
    /// A datagram arrived from the address the request was sent to.
    FromServer(Vec<u8>),
    /// A datagram arrived from some other address.
    FromStranger,
    /// The wait ended with nothing received.
    WaitElapsed,
    /// Sending or receiving failed.
    Failed(TransportFault),
}

/// Mathematical model of a [`ReplyEvent`].
pub enum ReplyEventView {
    FromServer(Seq<u8>),
    FromStranger,
    WaitElapsed,
    Failed(TransportFault),
}

impl View for ReplyEvent {
    type V = ReplyEventView;

    open spec fn view(&self) -> ReplyEventView {
        match self {
            ReplyEvent::FromServer(bytes) => ReplyEventView::FromServer(bytes@),
            ReplyEvent::FromStranger => ReplyEventView::FromStranger,
            ReplyEvent::WaitElapsed => ReplyEventView::WaitElapsed,
            ReplyEvent::Failed(fault) => ReplyEventView::Failed(*fault),
        }
    }
}

/// Where a query stands after an event.
#[derive(Clone, Copy, Debug, PartialEq, Eq, Hash)]
pub enum QueryStep {
    /// Not over: wait for the next event, at most this many nanoseconds.
    Wait(u64),
    /// Over, with this result.
    Done(Result<(StatusRecord, RoundTrip), QueryError>),
}

/// Mathematical model of a [`QueryStep`].
pub enum QueryStepView {
    Wait(nat),
    Answered(StatusRecordView, nat),
    Failed(QueryError),
}

impl View for QueryStep {
    type V = QueryStepView;

    open spec fn view(&self) -> QueryStepView {
        match self {
            QueryStep::Wait(nanos) => QueryStepView::Wait(*nanos as nat),
            QueryStep::Done(Ok((record, round_trip))) => QueryStepView::Answered(
                record@,
                round_trip.nanos as nat,
            ),
            QueryStep::Done(Err(error)) => QueryStepView::Failed(*error),
        }
    }
}

/// Time from `sent_at` to `now`; zero if the clock reads earlier than `sent_at`.
pub open spec fn elapsed(sent_at: nat, now: nat) -> nat {
    if now >= sent_at {
        (now - sent_at) as nat
    } else {
        0
    }
}

/// Where a query sent at `sent_at` with `timeout` stands after `event` was
/// observed at `now`.
///
/// A response from the server ends the query if it came within the timeout:
/// with its record and the elapsed time if it decodes, with the decode error if
/// not. A fatal fault ends it. Anything else leaves it waiting for what is left
/// of the timeout, and ends it with `Timeout` when nothing is left.
pub open spec fn query_step(sent_at: nat, timeout: nat, event: ReplyEventView, now: nat) -> QueryStepView {
    let taken = elapsed(sent_at, now);
    match event {
        ReplyEventView::Failed(fault) if fault.fatal() => QueryStepView::Failed(
            QueryError::TransportFatal(fault),
        ),
        ReplyEventView::FromServer(bytes) if taken <= timeout => match parse_response(bytes) {
            Ok(record) => QueryStepView::Answered(record, taken),
            Err(why) => QueryStepView::Failed(QueryError::MalformedMessage(why)),
        },
        _ => if taken < timeout {
            QueryStepView::Wait((timeout - taken) as nat)
        } else {
            QueryStepView::Failed(QueryError::Timeout)
        },
    }
}

/// A query that was sent and waits for its response.
#[derive(Clone, Copy, Debug, PartialEq, Eq, Structural, Hash)]
pub struct PendingQuery {
    sent_at: u64,
    timeout: u64,
}

impl PendingQuery {
    /// The time the request was sent at.
    pub closed spec fn sent_at(self) -> nat {
        self.sent_at as nat
    }

    /// The longest the response may take.
    pub closed spec fn timeout(self) -> nat {
        self.timeout as nat
    }

    /// Starts a query at `now` that may take `timeout` nanoseconds, and
    /// returns it with the request frame to send.
    pub fn begin(now: u64, timeout: u64) -> (started: (PendingQuery, Vec<u8>))
        ensures
            started.0.sent_at() == now,
            started.0.timeout() == timeout,
            started.1@ == request_frame(),
    {
        (PendingQuery { sent_at: now, timeout }, encode_request())
    }

    /// Decides, from `event` observed at `now`, whether the query is over.
    pub fn on_event(&self, event: ReplyEvent, now: u64) -> (step: QueryStep)
        ensures
            step@ == query_step(self.sent_at(), self.timeout(), event@, now as nat),
    {
        let taken: u64 = if now >= self.sent_at {
            now - self.sent_at
        } else {
            0
        };
        match event {
            ReplyEvent::Failed(fault) => {
                if fault.is_fatal() {
                    return QueryStep::Done(Err(QueryError::TransportFatal(fault)));
                }
            },
            ReplyEvent::FromServer(bytes) => {
                if taken <= self.timeout {
                    return match decode_response(bytes.as_slice()) {
                        Ok(record) => QueryStep::Done(Ok((record, RoundTrip { nanos: taken }))),
                        Err(DecodeError::MalformedMessage(why)) => QueryStep::Done(
                            Err(QueryError::MalformedMessage(why)),
                        ),
                    };
                }
            },
            _ => {},
        }
        if taken < self.timeout {
            QueryStep::Wait(self.timeout - taken)
        } else {
            QueryStep::Done(Err(QueryError::Timeout))
        }
    }
}

/// A query that hears nothing from its server by the end of its timeout ends
/// with `Timeout`, whatever else arrived meanwhile.
pub proof fn silence_times_out(query: PendingQuery, event: ReplyEventView, now: nat)
    requires
        elapsed(query.sent_at(), now) >= query.timeout(),
        !(event is FromServer),
        !(event matches ReplyEventView::Failed(fault) && fault.fatal()),
    ensures
        query_step(query.sent_at(), query.timeout(), event, now) == QueryStepView::Failed(
            QueryError::Timeout,
        ),
{
}

} // verus!
