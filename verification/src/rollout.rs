//! Canary rollout orchestration with health gates.
//!
//! Rings (default: internal → 0.1% → 1% → 5% → 25% → 100%) are
//! configurable. Promotion requires every gate to pass on the current
//! ring; a bad ring PAUSES the rollout and it never continues past a
//! failing gate on its own: an operator has to resume it.
//!
//! The rates (crash rate, proxy error rate, connection success rate, CPU
//! p95) are binary64 values, held here by their IEEE-754 bits and compared
//! as IEEE-754 orders them ([`first_rate_breach`]). The message of a failed
//! rate gate prints the rates, which the caller formats; this module
//! receives it in a [`GateReport`] and keeps every decision and all the
//! state.

use crate::ieee::{f64_bits_lt, f64_lt};
use crate::text::{decimal, u64_decimal};
use vstd::prelude::*;

verus! {

#[derive(Debug)]
pub struct Ring {
    pub name: String,
    /// IEEE-754 bits of the fraction of the fleet in this ring,
    /// 0.0..=1.0 (cumulative target). Only reported, never computed with.
    pub fraction_bits: u64,
}

pub struct RingView {
    pub name: Seq<char>,
    pub fraction_bits: u64,
}

impl View for Ring {
    type V = RingView;

    open spec fn view(&self) -> RingView {
        RingView { name: self.name@, fraction_bits: self.fraction_bits }
    }
}

impl Clone for Ring {
    fn clone(&self) -> (r: Self)
        ensures
            r@ == self@,
    {
        Ring { name: self.name.clone(), fraction_bits: self.fraction_bits }
    }
}

impl Ring {
    pub fn new(name: String, fraction_bits: u64) -> (r: Self)
        ensures
            r@ == (RingView { name: name@, fraction_bits }),
    {
        Ring { name, fraction_bits }
    }
}

fn ring(name: &str, fraction_bits: u64) -> (r: Ring)
    ensures
        r@ == (RingView { name: name@, fraction_bits }),
{
    Ring::new(String::from_str(name), fraction_bits)
}

/// internal (0.0), canary-0.1pct (0.001), canary-1pct (0.01), canary-5pct
/// (0.05), canary-25pct (0.25), stable-100pct (1.0).
pub fn default_rings() -> (r: Vec<Ring>)
    ensures
        r@.len() == 6,
        r@[0]@ == (RingView { name: "internal"@, fraction_bits: 0 }),
        r@[1]@ == (RingView { name: "canary-0.1pct"@, fraction_bits: 0x3f50624dd2f1a9fc }),
        r@[2]@ == (RingView { name: "canary-1pct"@, fraction_bits: 0x3f847ae147ae147b }),
        r@[3]@ == (RingView { name: "canary-5pct"@, fraction_bits: 0x3fa999999999999a }),
        r@[4]@ == (RingView { name: "canary-25pct"@, fraction_bits: 0x3fd0000000000000 }),
        r@[5]@ == (RingView { name: "stable-100pct"@, fraction_bits: 0x3ff0000000000000 }),
{
    let mut v: Vec<Ring> = Vec::new();
    v.push(ring("internal", 0));
    v.push(ring("canary-0.1pct", 0x3f50624dd2f1a9fc));
    v.push(ring("canary-1pct", 0x3f847ae147ae147b));
    v.push(ring("canary-5pct", 0x3fa999999999999a));
    v.push(ring("canary-25pct", 0x3fd0000000000000));
    v.push(ring("stable-100pct", 0x3ff0000000000000));
    v
}

/// Gate thresholds. The rate thresholds are IEEE-754 bits, read by the
/// caller that compares the rates.
#[derive(Debug, Clone, Copy, PartialEq, Eq, Structural)]
pub struct GateThresholds {
    pub max_crash_rate_bits: u64,
    pub max_proxy_error_rate_bits: u64,
    pub min_connection_success_rate_bits: u64,
    pub max_cpu_p95_bits: u64,
    pub max_health_check_failures: u64,
    pub min_sample_size: u64,
}

impl Default for GateThresholds {
    /// Crash rate ≤ 0.01, proxy error rate ≤ 0.02, connection success rate
    /// ≥ 0.99, CPU p95 ≤ 0.85, no health-check failures, at least 5
    /// samples.
    fn default() -> (r: Self)
        ensures
            r == (GateThresholds {
                max_crash_rate_bits: 0x3f847ae147ae147b,
                max_proxy_error_rate_bits: 0x3f947ae147ae147b,
                min_connection_success_rate_bits: 0x3fefae147ae147ae,
                max_cpu_p95_bits: 0x3feb333333333333,
                max_health_check_failures: 0,
                min_sample_size: 5,
            }),
    {
        GateThresholds {
            max_crash_rate_bits: 0x3f847ae147ae147b,
            max_proxy_error_rate_bits: 0x3f947ae147ae147b,
            min_connection_success_rate_bits: 0x3fefae147ae147ae,
            max_cpu_p95_bits: 0x3feb333333333333,
            max_health_check_failures: 0,
            min_sample_size: 5,
        }
    }
}

/// A health snapshot of the current ring. The rates are binary64 values,
/// held by their IEEE-754 bits.
#[derive(Debug, Clone, Copy, PartialEq, Eq, Structural)]
pub struct HealthSnapshot {
    pub crash_rate_bits: u64,
    pub proxy_error_rate_bits: u64,
    pub connection_success_rate_bits: u64,
    pub cpu_p95_bits: u64,
    pub mem_bytes_p95: u64,
    pub mem_limit_bytes: u64,
    pub health_check_failures: u64,
    pub sample_size: u64,
}

impl Default for HealthSnapshot {
    /// All rates 0.0, all counts 0.
    fn default() -> (r: Self)
        ensures
            r == (HealthSnapshot {
                crash_rate_bits: 0,
                proxy_error_rate_bits: 0,
                connection_success_rate_bits: 0,
                cpu_p95_bits: 0,
                mem_bytes_p95: 0,
                mem_limit_bytes: 0,
                health_check_failures: 0,
                sample_size: 0,
            }),
    {
        HealthSnapshot {
            crash_rate_bits: 0,
            proxy_error_rate_bits: 0,
            connection_success_rate_bits: 0,
            cpu_p95_bits: 0,
            mem_bytes_p95: 0,
            mem_limit_bytes: 0,
            health_check_failures: 0,
            sample_size: 0,
        }
    }
}

/// The rate gates, in the order they are checked.
#[derive(Debug, Clone, Copy, PartialEq, Eq, Structural)]
pub enum RateGate {
    /// Crash rate above its maximum.
    CrashRate,
    /// Proxy error rate above its maximum.
    ProxyErrorRate,
    /// Connection success rate below its minimum.
    ConnectionSuccessRate,
    /// CPU p95 above its maximum.
    CpuP95,
}

/// A failed rate gate with the observed rate and the threshold, as bits.
#[derive(Debug, Clone, Copy, PartialEq, Eq, Structural)]
pub struct RateBreach {
    pub gate: RateGate,
    pub observed_bits: u64,
    pub threshold_bits: u64,
}

/// The first rate gate that fails, if any: crash rate above its maximum,
/// proxy error rate above its maximum, connection success rate below its
/// minimum, CPU p95 above its maximum.
pub open spec fn rate_breach_of(t: GateThresholds, s: HealthSnapshot) -> Option<RateBreach> {
    if f64_lt(t.max_crash_rate_bits, s.crash_rate_bits) {
        Some(RateBreach { gate: RateGate::CrashRate, observed_bits: s.crash_rate_bits, threshold_bits: t.max_crash_rate_bits })
    } else if f64_lt(t.max_proxy_error_rate_bits, s.proxy_error_rate_bits) {
        Some(
            RateBreach {
                gate: RateGate::ProxyErrorRate,
                observed_bits: s.proxy_error_rate_bits,
                threshold_bits: t.max_proxy_error_rate_bits,
            },
        )
    } else if f64_lt(s.connection_success_rate_bits, t.min_connection_success_rate_bits) {
        Some(
            RateBreach {
                gate: RateGate::ConnectionSuccessRate,
                observed_bits: s.connection_success_rate_bits,
                threshold_bits: t.min_connection_success_rate_bits,
            },
        )
    } else if f64_lt(t.max_cpu_p95_bits, s.cpu_p95_bits) {
        Some(RateBreach { gate: RateGate::CpuP95, observed_bits: s.cpu_p95_bits, threshold_bits: t.max_cpu_p95_bits })
    } else {
        None
    }
}

/// Check the rate gates of a snapshot in order; the first that fails.
pub fn first_rate_breach(t: &GateThresholds, s: &HealthSnapshot) -> (r: Option<RateBreach>)
    ensures
        r == rate_breach_of(*t, *s),
{
    if f64_bits_lt(t.max_crash_rate_bits, s.crash_rate_bits) {
        Some(RateBreach { gate: RateGate::CrashRate, observed_bits: s.crash_rate_bits, threshold_bits: t.max_crash_rate_bits })
    } else if f64_bits_lt(t.max_proxy_error_rate_bits, s.proxy_error_rate_bits) {
        Some(
            RateBreach {
                gate: RateGate::ProxyErrorRate,
                observed_bits: s.proxy_error_rate_bits,
                threshold_bits: t.max_proxy_error_rate_bits,
            },
        )
    } else if f64_bits_lt(s.connection_success_rate_bits, t.min_connection_success_rate_bits) {
        Some(
            RateBreach {
                gate: RateGate::ConnectionSuccessRate,
                observed_bits: s.connection_success_rate_bits,
                threshold_bits: t.min_connection_success_rate_bits,
            },
        )
    } else if f64_bits_lt(t.max_cpu_p95_bits, s.cpu_p95_bits) {
        Some(RateBreach { gate: RateGate::CpuP95, observed_bits: s.cpu_p95_bits, threshold_bits: t.max_cpu_p95_bits })
    } else {
        None
    }
}

/// What the gates read of a health snapshot of the current ring: the
/// sample size, the health-check failures, and the message of the first
/// rate gate that failed ([`first_rate_breach`]), if any.
#[derive(Debug)]
pub struct GateReport {
    pub sample_size: u64,
    pub health_check_failures: u64,
    pub rate_breach: Option<String>,
}

#[derive(Debug)]
pub enum RolloutDecision {
    /// All gates pass; the caller may promote to the next ring.
    Promote { from: String, to: String },
    /// Hold at the current ring (too few samples, or no next ring).
    /// Distinct from `Paused`: nothing is wrong.
    Hold { ring: String },
    /// A gate failed: the rollout is frozen until an operator resumes it.
    Paused { ring: String, reason: String },
}

pub enum RolloutDecisionView {
    Promote { from: Seq<char>, to: Seq<char> },
    Hold { ring: Seq<char> },
    Paused { ring: Seq<char>, reason: Seq<char> },
}

impl View for RolloutDecision {
    type V = RolloutDecisionView;

    open spec fn view(&self) -> RolloutDecisionView {
        match self {
            RolloutDecision::Promote { from, to } => RolloutDecisionView::Promote { from: from@, to: to@ },
            RolloutDecision::Hold { ring } => RolloutDecisionView::Hold { ring: ring@ },
            RolloutDecision::Paused { ring, reason } => RolloutDecisionView::Paused {
                ring: ring@,
                reason: reason@,
            },
        }
    }
}

impl PartialEq for RolloutDecision {
    fn eq(&self, other: &Self) -> (r: bool) {
        match self {
            RolloutDecision::Promote { from: a, to: b } => match other {
                RolloutDecision::Promote { from: c, to: d } => a.eq(c) && b.eq(d),
                _ => false,
            },
            RolloutDecision::Hold { ring: a } => match other {
                RolloutDecision::Hold { ring: c } => a.eq(c),
                _ => false,
            },
            RolloutDecision::Paused { ring: a, reason: b } => match other {
                RolloutDecision::Paused { ring: c, reason: d } => a.eq(c) && b.eq(d),
                _ => false,
            },
        }
    }
}

impl vstd::std_specs::cmp::PartialEqSpecImpl for RolloutDecision {
    open spec fn obeys_eq_spec() -> bool {
        true
    }

    open spec fn eq_spec(&self, other: &RolloutDecision) -> bool {
        self@ == other@
    }
}

impl Eq for RolloutDecision {}

#[derive(Debug)]
pub struct RolloutManager {
    pub rings: Vec<Ring>,
    pub current: usize,
    pub paused: bool,
    pub pause_reason: Option<String>,
    pub thresholds: GateThresholds,
}

pub struct RolloutView {
    pub rings: Seq<RingView>,
    pub current: usize,
    pub paused: bool,
    pub pause_reason: Option<Seq<char>>,
    pub thresholds: GateThresholds,
}

pub open spec fn reason_view(o: Option<String>) -> Option<Seq<char>> {
    match o {
        Some(s) => Some(s@),
        None => None,
    }
}

impl View for RolloutManager {
    type V = RolloutView;

    open spec fn view(&self) -> RolloutView {
        RolloutView {
            rings: self.rings@.map_values(|r: Ring| r@),
            current: self.current,
            paused: self.paused,
            pause_reason: reason_view(self.pause_reason),
            thresholds: self.thresholds,
        }
    }
}

/// The index of the ring in effect: `current`, clamped to the last ring.
pub open spec fn ring_index(m: RolloutView) -> int {
    if m.current < m.rings.len() {
        m.current as int
    } else {
        m.rings.len() - 1
    }
}

/// The name of the ring in effect.
pub open spec fn ring_name(m: RolloutView) -> Seq<char> {
    m.rings[ring_index(m)].name
}

/// The reason given when the health-check failure gate fails.
pub open spec fn health_check_reason(failures: u64, max: u64) -> Seq<char> {
    "health_check_failures "@ + decimal(failures as nat) + " > "@ + decimal(max as nat)
}

/// Why the rollout pauses on a sufficient sample, if it does: the failed
/// rate gate first, then the health-check failure gate.
pub open spec fn gate_failure(t: GateThresholds, sample_size: u64, failures: u64, rate_breach: Option<Seq<char>>) -> Option<Seq<char>> {
    match rate_breach {
        Some(r) => Some(r),
        None => if failures > t.max_health_check_failures {
            Some(health_check_reason(failures, t.max_health_check_failures))
        } else {
            None
        },
    }
}

/// Paused with a reason.
pub open spec fn paused_with(m: RolloutView, reason: Seq<char>) -> RolloutView {
    RolloutView { paused: true, pause_reason: Some(reason), ..m }
}

/// One gate evaluation: the decision and the manager afterwards.
///
/// A paused rollout stays paused whatever the report; too few samples
/// hold without pausing; a failing gate latches the pause; with every gate
/// passing the rollout may promote to the next ring, or holds at the last.
pub open spec fn evaluate_step(m: RolloutView, sample_size: u64, failures: u64, rate_breach: Option<Seq<char>>) -> (RolloutView, RolloutDecisionView) {
    if m.paused {
        (
            m,
            RolloutDecisionView::Paused {
                ring: ring_name(m),
                reason: match m.pause_reason {
                    Some(r) => r,
                    None => "manually paused"@,
                },
            },
        )
    } else if sample_size < m.thresholds.min_sample_size {
        (m, RolloutDecisionView::Hold { ring: ring_name(m) })
    } else if gate_failure(m.thresholds, sample_size, failures, rate_breach) is Some {
        let reason = gate_failure(m.thresholds, sample_size, failures, rate_breach)->0;
        (paused_with(m, reason), RolloutDecisionView::Paused { ring: ring_name(m), reason })
    } else if m.current + 1 < m.rings.len() {
        (m, RolloutDecisionView::Promote { from: ring_name(m), to: m.rings[m.current + 1].name })
    } else {
        (m, RolloutDecisionView::Hold { ring: ring_name(m) })
    }
}

/// Promotion moves to the next ring unless paused or at the last ring.
pub open spec fn promote_step(m: RolloutView) -> RolloutView {
    if !m.paused && m.current + 1 < m.rings.len() {
        RolloutView { current: (m.current + 1) as usize, ..m }
    } else {
        m
    }
}

impl RolloutManager {
    pub fn new(rings: Vec<Ring>, thresholds: GateThresholds) -> (r: Self)
        ensures
            r@ == (RolloutView {
                rings: rings@.map_values(|x: Ring| x@),
                current: 0,
                paused: false,
                pause_reason: None,
                thresholds,
            }),
            r.rings@.len() == rings@.len(),
    {
        RolloutManager { rings, current: 0, paused: false, pause_reason: None, thresholds }
    }

    /// The ring in effect (`current`, clamped to the last ring).
    pub fn current_ring(&self) -> (r: &Ring)
        requires
            self.rings@.len() > 0,
        ensures
            r@ == self@.rings[ring_index(self@)],
    {
        let last = self.rings.len() - 1;
        let i = if self.current < last { self.current } else { last };
        &self.rings[i]
    }

    pub fn pause(&mut self, reason: String)
        ensures
            final(self)@ == paused_with(old(self)@, reason@),
    {
        self.paused = true;
        self.pause_reason = Some(reason);
    }

    pub fn resume(&mut self)
        ensures
            final(self)@ == (RolloutView { paused: false, pause_reason: None, ..old(self)@ }),
    {
        self.paused = false;
        self.pause_reason = None;
    }

    /// Evaluate the gates for the current ring. On failure the manager
    /// latches `paused` and returns `Paused`; only [`RolloutManager::resume`]
    /// clears it.
    pub fn evaluate(&mut self, report: &GateReport) -> (d: RolloutDecision)
        requires
            old(self).rings@.len() > 0,
        ensures
            (final(self)@, d@) == evaluate_step(
                old(self)@,
                report.sample_size,
                report.health_check_failures,
                reason_view(report.rate_breach),
            ),
    {
        let name = self.current_ring().name.clone();
        if self.paused {
            let reason = match &self.pause_reason {
                Some(r) => r.clone(),
                None => String::from_str("manually paused"),
            };
            return RolloutDecision::Paused { ring: name, reason };
        }
        if report.sample_size < self.thresholds.min_sample_size {
            return RolloutDecision::Hold { ring: name };
        }
        if let Some(breach) = &report.rate_breach {
            let r = breach.clone();
            self.pause(r.clone());
            return RolloutDecision::Paused { ring: name, reason: r };
        }
        if report.health_check_failures > self.thresholds.max_health_check_failures {
            let mut r = String::from_str("health_check_failures ");
            r.append(u64_decimal(report.health_check_failures).as_str());
            r.append(" > ");
            r.append(u64_decimal(self.thresholds.max_health_check_failures).as_str());
            self.pause(r.clone());
            return RolloutDecision::Paused { ring: name, reason: r };
        }
        if self.current < self.rings.len() - 1 {
            let to = self.rings[self.current + 1].name.clone();
            RolloutDecision::Promote { from: name, to }
        } else {
            RolloutDecision::Hold { ring: name }
        }
    }

    /// Evaluate the gates on a health snapshot of the current ring.
    /// `breach_message` is the message of the first rate gate that fails
    /// ([`first_rate_breach`]), formatted by the caller; it is given exactly
    /// when a rate gate fails.
    pub fn evaluate_snapshot(&mut self, snap: &HealthSnapshot, breach_message: Option<String>) -> (d: RolloutDecision)
        requires
            old(self).rings@.len() > 0,
            breach_message is Some <==> rate_breach_of(old(self).thresholds, *snap) is Some,
        ensures
            (final(self)@, d@) == evaluate_step(
                old(self)@,
                snap.sample_size,
                snap.health_check_failures,
                reason_view(breach_message),
            ),
    {
        let report = GateReport {
            sample_size: snap.sample_size,
            health_check_failures: snap.health_check_failures,
            rate_breach: breach_message,
        };
        self.evaluate(&report)
    }

    pub fn promote(&mut self)
        ensures
            final(self)@ == promote_step(old(self)@),
    {
        if !self.paused && self.rings.len() > 0 && self.current < self.rings.len() - 1 {
            self.current = self.current + 1;
        }
    }
}

/// A paused rollout stays paused, unchanged, whatever the health data: it
/// never resumes on its own.
pub proof fn lemma_pause_latches(m: RolloutView, sample_size: u64, failures: u64, rate_breach: Option<Seq<char>>)
    requires
        m.paused,
    ensures
        evaluate_step(m, sample_size, failures, rate_breach).0 == m,
        evaluate_step(m, sample_size, failures, rate_breach).1 is Paused,
        promote_step(m) == m,
{
}

/// A failing gate on a sufficient sample pauses the rollout.
pub proof fn lemma_failing_gate_pauses(m: RolloutView, sample_size: u64, failures: u64, rate_breach: Option<Seq<char>>)
    requires
        !m.paused,
        sample_size >= m.thresholds.min_sample_size,
        rate_breach is Some || failures > m.thresholds.max_health_check_failures,
    ensures
        evaluate_step(m, sample_size, failures, rate_breach).0.paused,
        evaluate_step(m, sample_size, failures, rate_breach).1 is Paused,
        promote_step(evaluate_step(m, sample_size, failures, rate_breach).0).current == m.current,
{
}

/// A snapshot of a sufficient sample that breaches a rate gate or the
/// health-check failure gate pauses the rollout, and it stays where it is.
pub proof fn lemma_breaching_snapshot_pauses(m: RolloutView, s: HealthSnapshot, message: Option<Seq<char>>)
    requires
        !m.paused,
        s.sample_size >= m.thresholds.min_sample_size,
        message is Some <==> rate_breach_of(m.thresholds, s) is Some,
        rate_breach_of(m.thresholds, s) is Some || s.health_check_failures > m.thresholds.max_health_check_failures,
    ensures
        evaluate_step(m, s.sample_size, s.health_check_failures, message).0.paused,
        evaluate_step(m, s.sample_size, s.health_check_failures, message).1 is Paused,
        evaluate_step(m, s.sample_size, s.health_check_failures, message).0.current == m.current,
{
}

/// A promotion goes from the ring in effect to the next ring, and only
/// when the rollout is not paused, the sample suffices, no rate gate
/// failed and the health-check failures are within bounds.
pub proof fn lemma_promote_names_next_ring(m: RolloutView, sample_size: u64, failures: u64, rate_breach: Option<Seq<char>>)
    ensures
        evaluate_step(m, sample_size, failures, rate_breach).1 matches RolloutDecisionView::Promote { from, to } ==> {
            &&& m.current + 1 < m.rings.len()
            &&& from == m.rings[m.current as int].name
            &&& to == m.rings[m.current + 1].name
            &&& !m.paused
            &&& sample_size >= m.thresholds.min_sample_size
            &&& rate_breach is None
            &&& failures <= m.thresholds.max_health_check_failures
        },
{
}

/// Too small a sample holds without pausing.
pub proof fn lemma_small_sample_holds(m: RolloutView, sample_size: u64, failures: u64, rate_breach: Option<Seq<char>>)
    requires
        !m.paused,
        sample_size < m.thresholds.min_sample_size,
    ensures
        evaluate_step(m, sample_size, failures, rate_breach).0 == m,
        evaluate_step(m, sample_size, failures, rate_breach).1 is Hold,
{
}

/// Evaluation never moves the rollout to another ring; only an explicit
/// promotion does, one ring at a time and never past the last.
pub proof fn lemma_evaluate_never_advances(m: RolloutView, sample_size: u64, failures: u64, rate_breach: Option<Seq<char>>)
    requires
        m.rings.len() <= usize::MAX,
    ensures
        evaluate_step(m, sample_size, failures, rate_breach).0.current == m.current,
        evaluate_step(m, sample_size, failures, rate_breach).0.rings == m.rings,
        promote_step(m).current == m.current || promote_step(m).current == m.current + 1,
        m.current < m.rings.len() ==> promote_step(m).current < m.rings.len(),
{
}

/// After an operator resumes, healthy data on a non-final ring allows
/// promotion again.
pub proof fn lemma_resume_allows_promotion(m: RolloutView, sample_size: u64, failures: u64)
    requires
        sample_size >= m.thresholds.min_sample_size,
        failures <= m.thresholds.max_health_check_failures,
        m.current + 1 < m.rings.len(),
    ensures
        evaluate_step(RolloutView { paused: false, pause_reason: None, ..m }, sample_size, failures, None).1 is Promote,
{
}

} // verus!
