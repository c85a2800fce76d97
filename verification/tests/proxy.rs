use edgewarden::proxy::{
    connection_permits, counter_delta, default_connect_timeout_secs, default_idle_timeout_secs,
    default_max_connections, ConnectionCounters, ConnectionEvent, ProxyStats,
};
use std::sync::atomic::Ordering;

#[test]
fn defaults() {
    assert_eq!(default_max_connections(), 512);
    assert_eq!(default_connect_timeout_secs(), 5);
    assert_eq!(default_idle_timeout_secs(), 300);
    assert_eq!(connection_permits(0), 1);
    assert_eq!(connection_permits(64), 64);
}

#[test]
fn tracks_byte_counters() {
    let counters = ConnectionCounters::new();
    counters.record(ConnectionEvent::Accepted);
    assert_eq!(counters.active.load(Ordering::Relaxed), 1);
    counters.record(ConnectionEvent::RelayCompleted { bytes_in: 5, bytes_out: 5 });
    assert!(counters.bytes_in.load(Ordering::Relaxed) >= 5 && counters.bytes_out.load(Ordering::Relaxed) >= 5);
    let s = counters.snapshot();
    assert_eq!((s.total, s.active, s.bytes_in, s.bytes_out, s.errors), (1, 0, 5, 5, 0));
}

#[test]
fn upstream_failure_counts_error() {
    let counters = ConnectionCounters::new();
    counters.record(ConnectionEvent::Accepted);
    counters.record(ConnectionEvent::UpstreamFailed);
    assert!(counters.errors.load(Ordering::Relaxed) >= 1);
    assert_eq!(counters.active.load(Ordering::Relaxed), 0);
    counters.record(ConnectionEvent::RefusedOverLimit);
    let s = counters.snapshot();
    assert_eq!((s.total, s.active, s.errors, s.refused_over_limit), (1, 0, 2, 1));
}

#[test]
fn stats_track_byte_counters() {
    let mut s = ProxyStats::zero();
    s.record(ConnectionEvent::Accepted);
    assert_eq!(s.active, 1);
    s.record(ConnectionEvent::RelayCompleted { bytes_in: 5, bytes_out: 5 });
    assert_eq!((s.total, s.active, s.bytes_in, s.bytes_out, s.errors), (1, 0, 5, 5, 0));
}

#[test]
fn stats_count_failures() {
    let mut s = ProxyStats::zero();
    s.record(ConnectionEvent::Accepted);
    s.record(ConnectionEvent::UpstreamFailed);
    assert_eq!((s.total, s.active, s.errors), (1, 0, 1));
    s.record(ConnectionEvent::RefusedOverLimit);
    assert_eq!((s.refused_over_limit, s.errors, s.active), (1, 2, 0));
    s.record(ConnectionEvent::Accepted);
    s.record(ConnectionEvent::RelayFailed);
    assert_eq!(s.errors, 3);
    s.record(ConnectionEvent::Accepted);
    s.record(ConnectionEvent::RelayIdleTimeout);
    assert_eq!((s.total, s.active, s.errors), (3, 0, 3));
}

#[test]
fn deltas() {
    let d = counter_delta(ConnectionEvent::RelayCompleted { bytes_in: 7, bytes_out: 9 });
    assert_eq!((d.active, d.bytes_in, d.bytes_out, d.total), (-1, 7, 9, 0));
    assert_eq!(counter_delta(ConnectionEvent::Accepted).active, 1);
}
