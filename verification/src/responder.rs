//! The server side: what to do about each thing the transport reports.
//!
//! The responder owns no socket. Its caller receives and sends, and tells the
//! responder what happened, one [`ResponderEvent`] at a time; the responder
//! answers with the next [`ResponderAction`] and keeps the [`Metrics`]. It keeps
//! nothing about any peer, so events that belong to different requests may
//! arrive in any order.

use vstd::prelude::*;
use crate::codec::{decode_request, encode_response, parse_request, response_frame};
use crate::error::TransportFault;
use crate::metrics::{raised, Counters, Metrics};
use crate::record::StatusRecordView;
use crate::source::LiveStatusSource;

verus! {

/// Why a responder stopped.
#[derive(Clone, Copy, Debug, PartialEq, Eq, Structural, Hash)]
pub enum StopReason {
    /// The caller asked it to stop.
    Cancelled,
    /// The transport became unusable.
    Fatal(TransportFault),
}

/// Whether a responder still serves.
#[derive(Clone, Copy, Debug, PartialEq, Eq, Structural, Hash)]
pub enum ResponderState {
    Listening,
    Stopped(StopReason),
}

/// Something the transport, or the caller, reports to the responder.
#[derive(Debug, PartialEq, Eq, Hash)]
pub enum ResponderEvent {
    /// A datagram arrived.
    Datagram(Vec<u8>),
    /// Receiving failed.
    ReceiveFailed(TransportFault),
    /// A reply was handed to the transport.
    ReplySent,
    /// A reply could not be sent.
    ReplyFailed(TransportFault),
    /// The caller wants the responder to stop.
    Cancelled,
}

/// Mathematical model of a [`ResponderEvent`].
pub enum EventView {
    Datagram(Seq<u8>),
    ReceiveFailed(TransportFault),
    ReplySent,
    ReplyFailed(TransportFault),
    Cancelled,
}

impl View for ResponderEvent {
    type V = EventView;

    open spec fn view(&self) -> EventView {
        match self {
            ResponderEvent::Datagram(bytes) => EventView::Datagram(bytes@),
            ResponderEvent::ReceiveFailed(fault) => EventView::ReceiveFailed(*fault),
            ResponderEvent::ReplySent => EventView::ReplySent,
            ResponderEvent::ReplyFailed(fault) => EventView::ReplyFailed(*fault),
            ResponderEvent::Cancelled => EventView::Cancelled,
        }
    }
}

/// What the caller is to do next.
#[derive(Debug, PartialEq, Eq, Hash)]
pub enum ResponderAction {
    /// Send these bytes to the peer whose datagram was just reported, then
    /// report how sending went.
    Reply(Vec<u8>),
    /// Send nothing; receive the next datagram.
    Receive,
    /// Close the transport and return.
    Stop(StopReason),
}

/// Mathematical model of a [`ResponderAction`].
pub enum ActionView {
    Reply(Seq<u8>),
    Receive,
    Stop(StopReason),
}

impl View for ResponderAction {
    type V = ActionView;

    open spec fn view(&self) -> ActionView {
        match self {
            ResponderAction::Reply(bytes) => ActionView::Reply(bytes@),
            ResponderAction::Receive => ActionView::Receive,
            ResponderAction::Stop(reason) => ActionView::Stop(*reason),
        }
    }
}

/// Whether `event` ends the service: a cancellation, or a fault that leaves the
/// transport unusable.
pub open spec fn stops(event: EventView) -> bool {
    match event {
        EventView::Cancelled => true,
        EventView::ReceiveFailed(fault) => fault.fatal(),
        EventView::ReplyFailed(fault) => fault.fatal(),
        _ => false,
    }
}

/// The reason with which `event` ends the service, where it does.
pub open spec fn stop_reason(event: EventView) -> StopReason {
    match event {
        EventView::ReceiveFailed(fault) => StopReason::Fatal(fault),
        EventView::ReplyFailed(fault) => StopReason::Fatal(fault),
        _ => StopReason::Cancelled,
    }
}

/// Whether `event` is a datagram that decodes as a request.
pub open spec fn is_request(event: EventView) -> bool {
    event matches EventView::Datagram(bytes) && parse_request(bytes) is Ok
}

/// The state after `event`. A stopped responder stays stopped, for the reason
/// it stopped with.
pub open spec fn next_state(state: ResponderState, event: EventView) -> ResponderState {
    if state is Listening && stops(event) {
        ResponderState::Stopped(stop_reason(event))
    } else {
        state
    }
}

/// The counters after `event`. A stopped responder counts nothing.
pub open spec fn next_counters(state: ResponderState, counters: Counters, event: EventView) -> Counters {
    if state is Stopped {
        counters
    } else {
        match event {
            EventView::Datagram(bytes) => if parse_request(bytes) is Ok {
                counters.request_received()
            } else {
                counters.request_received().decode_failed()
            },
            EventView::ReplySent => counters.response_sent(),
            EventView::ReplyFailed(_) => counters.send_failed(),
            EventView::ReceiveFailed(_) => counters,
            EventView::Cancelled => counters,
        }
    }
}

/// The action that answers `event` while the current status is `status`.
///
/// Only a well-formed request is replied to; a datagram that does not decode
/// is dropped in silence.
pub open spec fn action_for(
    state: ResponderState,
    status: StatusRecordView,
    event: EventView,
) -> ActionView {
    match state {
        ResponderState::Stopped(reason) => ActionView::Stop(reason),
        ResponderState::Listening => if stops(event) {
            ActionView::Stop(stop_reason(event))
        } else if is_request(event) {
            ActionView::Reply(response_frame(status))
        } else {
            ActionView::Receive
        },
    }
}

/// The server side of the protocol, without its socket.
#[derive(Debug)]
pub struct Responder {
    state: ResponderState,
}

impl View for Responder {
    type V = ResponderState;

    closed spec fn view(&self) -> ResponderState {
        self.state
    }
}

impl Responder {
    /// A responder that is listening.
    pub fn new() -> (responder: Responder)
        ensures
            responder@ == ResponderState::Listening,
    {
        Responder { state: ResponderState::Listening }
    }

    /// Whether the responder still serves, and if not, why.
    pub fn state(&self) -> (state: ResponderState)
        ensures
            state == self@,
    {
        self.state
    }

    /// Takes note of `event` and says what to do next.
    ///
    /// A datagram is counted, then decoded. If it is a request, the reply is
    /// the record that `source` holds at this moment; if not, it is counted as
    /// a decode error and nothing is sent. A sent reply and a failed one are
    /// counted. A fault that leaves the transport unusable, or a cancellation,
    /// stops the responder; any other fault costs one datagram and no more.
    pub fn step(
        &mut self,
        event: ResponderEvent,
        source: &LiveStatusSource,
        metrics: &mut Metrics,
    ) -> (action: ResponderAction)
        ensures
            final(self)@ == next_state(old(self)@, event@),
            final(metrics)@ == next_counters(old(self)@, old(metrics)@, event@),
            final(metrics)@.no_less_than(old(metrics)@),
            action@ == action_for(old(self)@, source@.current, event@),
    {
        if let ResponderState::Stopped(reason) = self.state {
            return ResponderAction::Stop(reason);
        }
        match event {
            ResponderEvent::Datagram(bytes) => {
                metrics.count_request();
                match decode_request(bytes.as_slice()) {
                    Ok(_) => {
                        let record = source.latest();
                        ResponderAction::Reply(encode_response(&record))
                    },
                    Err(_) => {
                        metrics.count_decode_error();
                        ResponderAction::Receive
                    },
                }
            },
            ResponderEvent::ReplySent => {
                metrics.count_response();
                ResponderAction::Receive
            },
            ResponderEvent::ReplyFailed(fault) => {
                metrics.count_send_error();
                self.after_fault(fault)
            },
            ResponderEvent::ReceiveFailed(fault) => self.after_fault(fault),
            ResponderEvent::Cancelled => {
                self.state = ResponderState::Stopped(StopReason::Cancelled);
                ResponderAction::Stop(StopReason::Cancelled)
            },
        }
    }

    /// Stops on a fatal fault, goes on after any other.
    fn after_fault(&mut self, fault: TransportFault) -> (action: ResponderAction)
        requires
            old(self)@ is Listening,
        ensures
            fault.fatal() ==> final(self)@ == ResponderState::Stopped(StopReason::Fatal(fault))
                && action@ == ActionView::Stop(StopReason::Fatal(fault)),
            !fault.fatal() ==> final(self)@ == old(self)@ && action@ == ActionView::Receive,
    {
        if fault.is_fatal() {
            self.state = ResponderState::Stopped(StopReason::Fatal(fault));
            ResponderAction::Stop(StopReason::Fatal(fault))
        } else {
            ResponderAction::Receive
        }
    }
}

/// The state after each of `events` was reported, first to last.
pub open spec fn state_after(state: ResponderState, events: Seq<EventView>) -> ResponderState
    decreases events.len(),
{
    if events.len() == 0 {
        state
    } else {
        next_state(state_after(state, events.drop_last()), events.last())
    }
}

/// The counters after each of `events` was reported, first to last.
pub open spec fn counters_after(
    state: ResponderState,
    counters: Counters,
    events: Seq<EventView>,
) -> Counters
    decreases events.len(),
{
    if events.len() == 0 {
        counters
    } else {
        next_counters(
            state_after(state, events.drop_last()),
            counters_after(state, counters, events.drop_last()),
            events.last(),
        )
    }
}

/// How many of `events` were answered with a reply.
pub open spec fn replies_to(state: ResponderState, events: Seq<EventView>) -> nat
    decreases events.len(),
{
    if events.len() == 0 {
        0
    } else {
        let before = events.drop_last();
        let replied = state_after(state, before) is Listening && !stops(events.last())
            && is_request(events.last());
        replies_to(state, before) + if replied { 1nat } else { 0nat }
    }
}

/// No event of `events` ends the service.
pub open spec fn quiet(events: Seq<EventView>) -> bool {
    forall|i: int| 0 <= i < events.len() ==> !stops(#[trigger] events[i])
}

/// How many of `events` satisfy `wanted`.
pub open spec fn count(events: Seq<EventView>, wanted: spec_fn(EventView) -> bool) -> nat
    decreases events.len(),
{
    if events.len() == 0 {
        0
    } else {
        count(events.drop_last(), wanted) + if wanted(events.last()) { 1nat } else { 0nat }
    }
}

/// The datagrams among `events`.
pub open spec fn datagrams(events: Seq<EventView>) -> nat {
    count(events, |e: EventView| e is Datagram)
}

/// The datagrams among `events` that decode as a request.
pub open spec fn requests(events: Seq<EventView>) -> nat {
    count(events, |e: EventView| is_request(e))
}

/// The datagrams among `events` that do not decode as a request.
pub open spec fn malformed(events: Seq<EventView>) -> nat {
    count(events, |e: EventView| e is Datagram && !is_request(e))
}

/// The replies among `events` that were sent.
pub open spec fn sent(events: Seq<EventView>) -> nat {
    count(events, |e: EventView| e is ReplySent)
}

/// The replies among `events` that could not be sent.
pub open spec fn unsent(events: Seq<EventView>) -> nat {
    count(events, |e: EventView| e is ReplyFailed)
}

/// While nothing stops it, a listening responder keeps listening, replies to
/// the well-formed requests and to nothing else, and its counters say how many
/// events of each kind were reported, in whatever order they came.
pub proof fn counters_tally_events(metrics: Metrics, events: Seq<EventView>)
    requires
        quiet(events),
    ensures
        state_after(ResponderState::Listening, events) == ResponderState::Listening,
        replies_to(ResponderState::Listening, events) == requests(events),
        datagrams(events) == requests(events) + malformed(events),
        counters_after(ResponderState::Listening, metrics@, events) == (Counters {
            requests_received: raised(metrics@.requests_received, datagrams(events)),
            responses_sent: raised(metrics@.responses_sent, sent(events)),
            decode_errors: raised(metrics@.decode_errors, malformed(events)),
            send_errors: raised(metrics@.send_errors, unsent(events)),
        }),
    decreases events.len(),
{
    metrics.counters_fit();
    if events.len() > 0 {
        counters_tally_events(metrics, events.drop_last());
    }
}

/// Every event of `events` is a datagram that arrived or a reply that was sent:
/// the transport works and nobody cancels.
pub open spec fn traffic_only(events: Seq<EventView>) -> bool {
    forall|i: int|
        0 <= i < events.len() ==> (#[trigger] events[i]) is Datagram || events[i] is ReplySent
}

/// `m` well-formed requests mixed with `k` malformed datagrams, in any order:
/// the responder replies exactly `m` times, counts `k` decode errors, and keeps
/// listening.
pub proof fn malformed_input_is_isolated(metrics: Metrics, events: Seq<EventView>, m: nat, k: nat)
    requires
        traffic_only(events),
        requests(events) == m,
        malformed(events) == k,
    ensures
        state_after(ResponderState::Listening, events) == ResponderState::Listening,
        replies_to(ResponderState::Listening, events) == m,
        counters_after(ResponderState::Listening, metrics@, events).decode_errors == raised(
            metrics@.decode_errors,
            k,
        ),
        counters_after(ResponderState::Listening, metrics@, events).requests_received == raised(
            metrics@.requests_received,
            m + k,
        ),
        counters_after(ResponderState::Listening, metrics@, events).responses_sent == raised(
            metrics@.responses_sent,
            sent(events),
        ),
{
    counters_tally_events(metrics, events);
}

/// `n` requesters with `m` requests each, all well formed and every reply
/// sent: both counters rise by `n * m`, however the events interleave.
pub proof fn no_request_is_lost(metrics: Metrics, events: Seq<EventView>, n: nat, m: nat)
    requires
        traffic_only(events),
        malformed(events) == 0,
        requests(events) == n * m,
        sent(events) == n * m,
    ensures
        counters_after(ResponderState::Listening, metrics@, events).requests_received == raised(
            metrics@.requests_received,
            n * m,
        ),
        counters_after(ResponderState::Listening, metrics@, events).responses_sent == raised(
            metrics@.responses_sent,
            n * m,
        ),
        metrics@ == Counters::zero() && n * m <= u64::MAX ==> {
            &&& counters_after(ResponderState::Listening, metrics@, events).requests_received == n
                * m
            &&& counters_after(ResponderState::Listening, metrics@, events).responses_sent == n
                * m
        },
{
    counters_tally_events(metrics, events);
}

} // verus!
