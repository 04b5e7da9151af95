use query_server::codec::{decode_request, encode_request, encode_response, Request};
use query_server::error::{Malformed, QueryError, TransportFault};
use query_server::metrics::Metrics;
use query_server::record::{BattleMode, StatusRecord};
use query_server::requester::{PendingQuery, QueryStep, ReplyEvent, RoundTrip};
use query_server::responder::{Responder, ResponderAction, ResponderEvent};
use query_server::source::LiveStatusSource;

const MILLISECOND: u64 = 1_000_000;
const SECOND: u64 = 1_000_000_000;

fn record() -> StatusRecord {
    StatusRecord { build_id: [0; 8], players_count: 5, player_cap: 100, battle_mode: BattleMode::GlobalPvE }
}

#[test]
fn status_returns_the_record_and_the_round_trip() {
    let source = LiveStatusSource::new(record());
    let mut metrics = Metrics::new();
    let mut responder = Responder::new();

    let (query, request) = PendingQuery::begin(40 * MILLISECOND, SECOND);
    let reply = match responder.step(ResponderEvent::Datagram(request), &source, &mut metrics) {
        ResponderAction::Reply(bytes) => bytes,
        other => panic!("no reply: {:?}", other),
    };
    let step = query.on_event(ReplyEvent::FromServer(reply), 40 * MILLISECOND + 250_000);
    match step {
        QueryStep::Done(Ok((status, round_trip))) => {
            assert_eq!(status, record());
            assert_eq!(round_trip, RoundTrip { nanos: 250_000 });
            assert!(round_trip.nanos > 0 && round_trip.nanos < SECOND);
        },
        other => panic!("not answered: {:?}", other),
    }
}

#[test]
fn status_times_out_without_a_listener() {
    let (query, _request) = PendingQuery::begin(7, 10 * MILLISECOND);
    assert_eq!(
        query.on_event(ReplyEvent::WaitElapsed, 7 + 10 * MILLISECOND),
        QueryStep::Done(Err(QueryError::Timeout))
    );
}

#[test]
fn begin_hands_out_the_request_frame() {
    let (_query, request) = PendingQuery::begin(0, SECOND);
    assert_eq!(request, encode_request());
    assert_eq!(decode_request(&request), Ok(Request { version: 1 }));
}

#[test]
fn an_early_wake_up_keeps_waiting_for_the_rest() {
    let (query, _request) = PendingQuery::begin(1_000, 10 * MILLISECOND);
    assert_eq!(
        query.on_event(ReplyEvent::WaitElapsed, 1_000 + 4 * MILLISECOND),
        QueryStep::Wait(6 * MILLISECOND)
    );
    assert_eq!(query.on_event(ReplyEvent::WaitElapsed, 1_000), QueryStep::Wait(10 * MILLISECOND));
}

#[test]
fn a_stranger_is_ignored() {
    let (query, _request) = PendingQuery::begin(0, 10 * MILLISECOND);
    assert_eq!(query.on_event(ReplyEvent::FromStranger, MILLISECOND), QueryStep::Wait(9 * MILLISECOND));
    assert_eq!(
        query.on_event(ReplyEvent::FromStranger, 10 * MILLISECOND),
        QueryStep::Done(Err(QueryError::Timeout))
    );
}

#[test]
fn a_reply_at_the_deadline_counts_and_a_later_one_does_not() {
    let (query, _request) = PendingQuery::begin(500, SECOND);
    let reply = encode_response(&record());
    assert_eq!(
        query.on_event(ReplyEvent::FromServer(reply.clone()), 500 + SECOND),
        QueryStep::Done(Ok((record(), RoundTrip { nanos: SECOND })))
    );
    assert_eq!(
        query.on_event(ReplyEvent::FromServer(reply), 501 + SECOND),
        QueryStep::Done(Err(QueryError::Timeout))
    );
}

#[test]
fn a_reply_that_does_not_decode_is_malformed() {
    let (query, _request) = PendingQuery::begin(0, SECOND);
    assert_eq!(
        query.on_event(ReplyEvent::FromServer(vec![1, 2, 3]), 10),
        QueryStep::Done(Err(QueryError::MalformedMessage(Malformed::Truncated)))
    );
    let mut reply = encode_response(&record());
    reply[0] = 2;
    assert_eq!(
        query.on_event(ReplyEvent::FromServer(reply), 10),
        QueryStep::Done(Err(QueryError::MalformedMessage(Malformed::UnknownVersion)))
    );
    let mut reply = encode_response(&record());
    reply[13] = 77;
    assert_eq!(
        query.on_event(ReplyEvent::FromServer(reply), 10),
        QueryStep::Done(Err(QueryError::MalformedMessage(Malformed::UnknownBattleMode)))
    );
    let mut reply = encode_response(&StatusRecord::new(
        [0; 8],
        5,
        100,
        BattleMode::PerPlayer { pvp_by_default: true },
    ));
    reply[14] = 2;
    assert_eq!(
        query.on_event(ReplyEvent::FromServer(reply), 10),
        QueryStep::Done(Err(QueryError::MalformedMessage(Malformed::FieldOutOfRange)))
    );
}

#[test]
fn an_unusable_transport_ends_the_query() {
    let (query, _request) = PendingQuery::begin(0, SECOND);
    for fault in [
        TransportFault::NotConnected,
        TransportFault::BrokenPipe,
        TransportFault::ConnectionAborted,
        TransportFault::Other,
    ] {
        assert_eq!(
            query.on_event(ReplyEvent::Failed(fault), 5),
            QueryStep::Done(Err(QueryError::TransportFatal(fault)))
        );
        assert_eq!(
            query.on_event(ReplyEvent::Failed(fault), 2 * SECOND),
            QueryStep::Done(Err(QueryError::TransportFatal(fault)))
        );
    }
}

#[test]
fn a_passing_fault_keeps_the_query_waiting() {
    let (query, _request) = PendingQuery::begin(0, SECOND);
    for fault in [
        TransportFault::InvalidInput,
        TransportFault::AddrNotAvailable,
        TransportFault::Interrupted,
        TransportFault::WouldBlock,
        TransportFault::TimedOut,
        TransportFault::ConnectionRefused,
        TransportFault::ConnectionReset,
    ] {
        assert_eq!(query.on_event(ReplyEvent::Failed(fault), 5), QueryStep::Wait(SECOND - 5));
        assert_eq!(
            query.on_event(ReplyEvent::Failed(fault), SECOND),
            QueryStep::Done(Err(QueryError::Timeout))
        );
    }
}

#[test]
fn a_clock_that_reads_early_gives_a_zero_round_trip() {
    let (query, _request) = PendingQuery::begin(1_000, SECOND);
    assert_eq!(
        query.on_event(ReplyEvent::FromServer(encode_response(&record())), 999),
        QueryStep::Done(Ok((record(), RoundTrip { nanos: 0 })))
    );
}

#[test]
fn a_zero_timeout_accepts_only_an_immediate_reply() {
    let (query, _request) = PendingQuery::begin(50, 0);
    assert_eq!(
        query.on_event(ReplyEvent::FromServer(encode_response(&record())), 50),
        QueryStep::Done(Ok((record(), RoundTrip { nanos: 0 })))
    );
    assert_eq!(query.on_event(ReplyEvent::WaitElapsed, 50), QueryStep::Done(Err(QueryError::Timeout)));
}

#[test]
fn round_trip_in_milliseconds_rounds_down() {
    assert_eq!(RoundTrip { nanos: 0 }.as_millis(), 0);
    assert_eq!(RoundTrip { nanos: 999_999 }.as_millis(), 0);
    assert_eq!(RoundTrip { nanos: 1_000_000 }.as_millis(), 1);
    assert_eq!(RoundTrip { nanos: 2_500_000 }.as_millis(), 2);
    assert_eq!(RoundTrip { nanos: u64::MAX }.as_millis(), 18_446_744_073_709);
}

#[test]
fn thirty_three_queries_in_a_row() {
    let initial = StatusRecord {
        build_id: [0; 8],
        players_count: 100,
        player_cap: 300,
        battle_mode: BattleMode::GlobalPvE,
    };
    let source = LiveStatusSource::new(initial);
    let mut metrics = Metrics::new();
    let mut responder = Responder::new();
    let mut clock = 0u64;
    for _ in 0..33 {
        let (query, request) = PendingQuery::begin(clock, SECOND);
        clock += 20_000;
        let reply = match responder.step(ResponderEvent::Datagram(request), &source, &mut metrics) {
            ResponderAction::Reply(bytes) => bytes,
            other => panic!("no reply: {:?}", other),
        };
        responder.step(ResponderEvent::ReplySent, &source, &mut metrics);
        clock += 20_000;
        assert_eq!(
            query.on_event(ReplyEvent::FromServer(reply), clock),
            QueryStep::Done(Ok((initial, RoundTrip { nanos: 40_000 })))
        );
    }
    let counted = metrics.snapshot();
    assert_eq!(counted.requests_received, 33);
    assert_eq!(counted.responses_sent, 33);
    assert_eq!(counted.decode_errors, 0);
    assert_eq!(counted.send_errors, 0);
}
