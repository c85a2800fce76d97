//! Proxy dataplane bookkeeping: configuration defaults, the concurrency
//! bound, and how each connection event moves the counters that telemetry
//! and health read.
//!
//! Over-limit connections are refused fast and counted; an accepted
//! connection is active until its upstream connect fails or its relay
//! ends; failures are errors. The counters are shared lock-free
//! ([`ConnectionCounters`]); the sockets themselves belong to the caller.

use std::sync::atomic::AtomicU64;
use vstd::prelude::*;

verus! {

pub fn default_max_connections() -> (r: usize)
    ensures
        r == 512,
{
    512
}

pub fn default_connect_timeout_secs() -> (r: u64)
    ensures
        r == 5,
{
    5
}

pub fn default_idle_timeout_secs() -> (r: u64)
    ensures
        r == 300,
{
    300
}

/// Concurrency permits for a configured connection limit: the limit, but
/// at least one.
pub fn connection_permits(max_connections: usize) -> (r: usize)
    ensures
        r == if max_connections > 1 { max_connections } else { 1 },
{
    if max_connections > 1 { max_connections } else { 1 }
}

/// What happens to one client connection.
#[derive(Debug, Clone, Copy, PartialEq, Eq, Structural)]
pub enum ConnectionEvent {
    /// At capacity: refused without being served.
    RefusedOverLimit,
    /// A permit was taken; the connection is now active.
    Accepted,
    /// The upstream connect failed or timed out.
    UpstreamFailed,
    /// The relay ended with both directions drained; bytes client →
    /// upstream and upstream → client.
    RelayCompleted { bytes_in: u64, bytes_out: u64 },
    /// The whole relay ran into the idle timeout.
    RelayIdleTimeout,
    /// The relay failed with an I/O error.
    RelayFailed,
}

/// Counter changes for one event. `active` moves by `+1`, `-1` or not at
/// all; the others only grow.
#[derive(Debug, Clone, Copy, PartialEq, Eq, Structural)]
pub struct CounterDelta {
    pub total: u64,
    pub active: i8,
    pub refused_over_limit: u64,
    pub errors: u64,
    pub bytes_in: u64,
    pub bytes_out: u64,
}

pub open spec fn delta_of(e: ConnectionEvent) -> CounterDelta {
    let zero = CounterDelta { total: 0, active: 0i8, refused_over_limit: 0, errors: 0, bytes_in: 0, bytes_out: 0 };
    match e {
        ConnectionEvent::RefusedOverLimit => CounterDelta { refused_over_limit: 1, errors: 1, ..zero },
        ConnectionEvent::Accepted => CounterDelta { total: 1, active: 1i8, ..zero },
        ConnectionEvent::UpstreamFailed => CounterDelta { errors: 1, active: -1i8, ..zero },
        ConnectionEvent::RelayCompleted { bytes_in, bytes_out } => CounterDelta {
            active: -1i8,
            bytes_in,
            bytes_out,
            ..zero
        },
        ConnectionEvent::RelayIdleTimeout => CounterDelta { active: -1i8, ..zero },
        ConnectionEvent::RelayFailed => CounterDelta { errors: 1, active: -1i8, ..zero },
    }
}

pub fn counter_delta(e: ConnectionEvent) -> (d: CounterDelta)
    ensures
        d == delta_of(e),
{
    let zero = CounterDelta { total: 0, active: 0, refused_over_limit: 0, errors: 0, bytes_in: 0, bytes_out: 0 };
    match e {
        ConnectionEvent::RefusedOverLimit => CounterDelta { refused_over_limit: 1, errors: 1, ..zero },
        ConnectionEvent::Accepted => CounterDelta { total: 1, active: 1, ..zero },
        ConnectionEvent::UpstreamFailed => CounterDelta { errors: 1, active: -1, ..zero },
        ConnectionEvent::RelayCompleted { bytes_in, bytes_out } => CounterDelta {
            active: -1,
            bytes_in,
            bytes_out,
            ..zero
        },
        ConnectionEvent::RelayIdleTimeout => CounterDelta { active: -1, ..zero },
        ConnectionEvent::RelayFailed => CounterDelta { errors: 1, active: -1, ..zero },
    }
}

/// A snapshot of the connection counters.
#[derive(Debug, Clone, Copy, PartialEq, Eq, Structural)]
pub struct ProxyStats {
    pub total: u64,
    pub active: u64,
    pub refused_over_limit: u64,
    pub errors: u64,
    pub bytes_in: u64,
    pub bytes_out: u64,
}

/// Counters after a delta, wrapping on overflow as atomic counters do.
pub open spec fn stats_after(s: ProxyStats, d: CounterDelta) -> ProxyStats {
    ProxyStats {
        total: ((s.total + d.total) % 0x1_0000_0000_0000_0000) as u64,
        active: ((s.active + d.active + 0x1_0000_0000_0000_0000) % 0x1_0000_0000_0000_0000) as u64,
        refused_over_limit: ((s.refused_over_limit + d.refused_over_limit) % 0x1_0000_0000_0000_0000) as u64,
        errors: ((s.errors + d.errors) % 0x1_0000_0000_0000_0000) as u64,
        bytes_in: ((s.bytes_in + d.bytes_in) % 0x1_0000_0000_0000_0000) as u64,
        bytes_out: ((s.bytes_out + d.bytes_out) % 0x1_0000_0000_0000_0000) as u64,
    }
}

fn wrapping_add_u64(a: u64, b: u64) -> (r: u64)
    ensures
        r == (a + b) % 0x1_0000_0000_0000_0000,
{
    if a <= u64::MAX - b {
        a + b
    } else {
        (a - (u64::MAX - b) - 1) as u64
    }
}

impl ProxyStats {
    pub fn zero() -> (r: Self)
        ensures
            r == (ProxyStats { total: 0, active: 0, refused_over_limit: 0, errors: 0, bytes_in: 0, bytes_out: 0 }),
    {
        ProxyStats { total: 0, active: 0, refused_over_limit: 0, errors: 0, bytes_in: 0, bytes_out: 0 }
    }

    /// Apply one event's delta.
    pub fn record(&mut self, e: ConnectionEvent)
        ensures
            *final(self) == stats_after(*old(self), delta_of(e)),
    {
        let d = counter_delta(e);
        self.total = wrapping_add_u64(self.total, d.total);
        self.active = if d.active > 0 {
            wrapping_add_u64(self.active, 1)
        } else if d.active < 0 {
            if self.active > 0 { self.active - 1 } else { u64::MAX }
        } else {
            self.active
        };
        self.refused_over_limit = wrapping_add_u64(self.refused_over_limit, d.refused_over_limit);
        self.errors = wrapping_add_u64(self.errors, d.errors);
        self.bytes_in = wrapping_add_u64(self.bytes_in, d.bytes_in);
        self.bytes_out = wrapping_add_u64(self.bytes_out, d.bytes_out);
    }
}

/// Lock-free connection counters, shared between the connection tasks
/// and telemetry. Each event adds its [`counter_delta`]; the counters wrap
/// on overflow. What the atomics hold is not modelled: other tasks may move
/// them between any two reads.
#[derive(Debug)]
pub struct ConnectionCounters {
    pub total: AtomicU64,
    pub active: AtomicU64,
    pub refused_over_limit: AtomicU64,
    pub errors: AtomicU64,
    pub bytes_in: AtomicU64,
    pub bytes_out: AtomicU64,
}

impl ConnectionCounters {
    /// All counters at zero.
    pub fn new() -> Self {
        ConnectionCounters {
            total: AtomicU64::new(0),
            active: AtomicU64::new(0),
            refused_over_limit: AtomicU64::new(0),
            errors: AtomicU64::new(0),
            bytes_in: AtomicU64::new(0),
            bytes_out: AtomicU64::new(0),
        }
    }

    /// Add one event's delta to the shared counters.
    pub fn record(&self, e: ConnectionEvent) {
        let d = counter_delta(e);
        let relaxed = std::sync::atomic::Ordering::Relaxed;
        if d.total > 0 {
            self.total.fetch_add(d.total, relaxed);
        }
        if d.active > 0 {
            self.active.fetch_add(1, relaxed);
        } else if d.active < 0 {
            self.active.fetch_sub(1, relaxed);
        }
        if d.refused_over_limit > 0 {
            self.refused_over_limit.fetch_add(d.refused_over_limit, relaxed);
        }
        if d.errors > 0 {
            self.errors.fetch_add(d.errors, relaxed);
        }
        self.bytes_in.fetch_add(d.bytes_in, relaxed);
        self.bytes_out.fetch_add(d.bytes_out, relaxed);
    }

    /// Read every counter once.
    pub fn snapshot(&self) -> ProxyStats {
        let relaxed = std::sync::atomic::Ordering::Relaxed;
        ProxyStats {
            total: self.total.load(relaxed),
            active: self.active.load(relaxed),
            refused_over_limit: self.refused_over_limit.load(relaxed),
            errors: self.errors.load(relaxed),
            bytes_in: self.bytes_in.load(relaxed),
            bytes_out: self.bytes_out.load(relaxed),
        }
    }
}

/// Whether an event ends an accepted connection.
pub open spec fn ends_connection(e: ConnectionEvent) -> bool {
    match e {
        ConnectionEvent::UpstreamFailed | ConnectionEvent::RelayCompleted { .. }
        | ConnectionEvent::RelayIdleTimeout | ConnectionEvent::RelayFailed => true,
        _ => false,
    }
}

/// Every accepted connection leaves the active count where it found it
/// once it ends, counts once in the total, and counts as an error exactly
/// when its upstream connect or relay failed.
pub proof fn lemma_connection_lifecycle_balances(s: ProxyStats, end: ConnectionEvent)
    requires
        ends_connection(end),
        s.active < u64::MAX,
        s.total < u64::MAX,
        s.errors < u64::MAX,
    ensures
        stats_after(stats_after(s, delta_of(ConnectionEvent::Accepted)), delta_of(end)).active == s.active,
        stats_after(stats_after(s, delta_of(ConnectionEvent::Accepted)), delta_of(end)).total == s.total + 1,
        stats_after(stats_after(s, delta_of(ConnectionEvent::Accepted)), delta_of(end)).errors == s.errors + (
        if end == ConnectionEvent::UpstreamFailed || end == ConnectionEvent::RelayFailed {
            1int
        } else {
            0int
        }),
        stats_after(stats_after(s, delta_of(ConnectionEvent::Accepted)), delta_of(end)).refused_over_limit
            == s.refused_over_limit,
{
}

/// A refused connection is never active, never in the total, and counts
/// both as refused and as an error.
pub proof fn lemma_refusal_is_counted(s: ProxyStats)
    requires
        s.refused_over_limit < u64::MAX,
        s.errors < u64::MAX,
    ensures
        stats_after(s, delta_of(ConnectionEvent::RefusedOverLimit)).active == s.active,
        stats_after(s, delta_of(ConnectionEvent::RefusedOverLimit)).total == s.total,
        stats_after(s, delta_of(ConnectionEvent::RefusedOverLimit)).refused_over_limit == s.refused_over_limit + 1,
        stats_after(s, delta_of(ConnectionEvent::RefusedOverLimit)).errors == s.errors + 1,
{
}

} // verus!
