use query_server::error::TransportFault;
use query_server::metrics::{Metrics, MetricsSnapshot};
use query_server::record::{BattleMode, StatusRecord};
use query_server::source::LiveStatusSource;

fn record(players: u16) -> StatusRecord {
    StatusRecord::new([0; 8], players, 100, BattleMode::GlobalPvE)
}

#[test]
fn new_source_holds_the_initial_record() {
    let source = LiveStatusSource::new(record(5));
    assert_eq!(source.latest(), record(5));
    assert_eq!(source.version(), 0);
    assert!(!source.changed_since(0));
}

#[test]
fn read_returns_what_was_published_last() {
    let mut source = LiveStatusSource::new(record(1));
    source.publish(record(2));
    assert_eq!(source.latest(), record(2));
    assert_eq!(source.latest(), record(2));
    source.publish(record(3));
    source.publish(record(4));
    assert_eq!(source.latest(), record(4));
}

#[test]
fn every_publication_changes_the_version() {
    let mut source = LiveStatusSource::new(record(1));
    let seen = source.version();
    assert!(!source.changed_since(seen));
    source.publish(record(1));
    assert!(source.changed_since(seen));
    assert_eq!(source.version(), 1);
    let seen = source.version();
    source.publish(record(9));
    assert!(source.changed_since(seen));
    assert_eq!(source.version(), 2);
}

#[test]
fn fresh_metrics_are_zero() {
    let zero = MetricsSnapshot {
        requests_received: 0,
        responses_sent: 0,
        decode_errors: 0,
        send_errors: 0,
    };
    assert_eq!(Metrics::new().snapshot(), zero);
    assert_eq!(Metrics::default().snapshot(), zero);
}

#[test]
fn faults_are_fatal_or_not() {
    let passing = [
        TransportFault::InvalidInput,
        TransportFault::AddrNotAvailable,
        TransportFault::Interrupted,
        TransportFault::WouldBlock,
        TransportFault::TimedOut,
        TransportFault::ConnectionRefused,
        TransportFault::ConnectionReset,
    ];
    for fault in passing {
        assert!(!fault.is_fatal());
    }
    let fatal = [
        TransportFault::NotConnected,
        TransportFault::BrokenPipe,
        TransportFault::ConnectionAborted,
        TransportFault::Other,
    ];
    for fault in fatal {
        assert!(fault.is_fatal());
    }
}
