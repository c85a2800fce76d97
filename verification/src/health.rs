//! Health supervision: the health assessment and the fail-open bypass policy.
//!
//! Scope discipline: software cannot implement physical fail-to-wire. The
//! library only *decides* when to request hardware bypass; the relay
//! itself is hardware, driven by whoever performs the [`BypassAction`].
//! Loss of the control plane alone never marks the edge unhealthy, because
//! local forwarding continues on the last-known-good policy.

use crate::ieee::{f64_bits_lt, f64_lt};
use std::time::Duration;
use vstd::prelude::*;

verus! {

#[derive(Debug)]
pub enum HealthError {
    Probe(String),
    Bypass(String),
}

#[derive(Debug, Clone, Copy, PartialEq, Eq, Structural)]
pub enum HealthState {
    Unknown,
    Healthy,
    Degraded,
    Unhealthy,
}

impl Default for HealthState {
    fn default() -> (r: Self)
        ensures
            r == HealthState::Unknown,
    {
        HealthState::Unknown
    }
}

impl HealthState {
    pub fn is_healthy(self) -> (r: bool)
        ensures
            r == (self == HealthState::Healthy),
    {
        match self {
            HealthState::Healthy => true,
            _ => false,
        }
    }
}

/// Physical fail-open bypass. Software can only *request* bypass; the
/// relay itself is hardware, and its driver implements this trait. A
/// request that returns `Ok` has taken effect; one that fails leaves the
/// relay as it was, so the supervisor can retry. Every request is recorded,
/// with its outcome, in the relay's request log.
pub trait BypassController {
    /// Whether bypass is currently requested.
    spec fn bypass_requested(&self) -> bool;

    /// The enable and disable requests made of this relay, in order, each
    /// with what it returned.
    spec fn requests(&self) -> Seq<(BypassAction, Result<(), HealthError>)>;

    fn enable_bypass(&mut self) -> (r: Result<(), HealthError>)
        ensures
            r is Ok ==> final(self).bypass_requested(),
            r is Err ==> final(self).bypass_requested() == old(self).bypass_requested(),
            final(self).requests() == old(self).requests().push((BypassAction::Enable, r)),
    ;

    fn disable_bypass(&mut self) -> (r: Result<(), HealthError>)
        ensures
            r is Ok ==> !final(self).bypass_requested(),
            r is Err ==> final(self).bypass_requested() == old(self).bypass_requested(),
            final(self).requests() == old(self).requests().push((BypassAction::Disable, r)),
    ;

    fn bypass_enabled(&self) -> (r: bool)
        ensures
            r == self.bypass_requested(),
    ;
}

/// Development stand-in for a hardware bypass relay: it only remembers
/// whether bypass was requested, and every request succeeds.
pub struct MockBypassController {
    enabled: bool,
    history: Ghost<Seq<(BypassAction, Result<(), HealthError>)>>,
}

impl MockBypassController {
    pub closed spec fn is_enabled(&self) -> bool {
        self.enabled
    }

    pub fn new() -> (r: Self)
        ensures
            !r.is_enabled(),
            r.requests() == Seq::<(BypassAction, Result<(), HealthError>)>::empty(),
    {
        MockBypassController { enabled: false, history: Ghost(Seq::empty()) }
    }
}

impl BypassController for MockBypassController {
    closed spec fn bypass_requested(&self) -> bool {
        self.enabled
    }

    closed spec fn requests(&self) -> Seq<(BypassAction, Result<(), HealthError>)> {
        self.history@
    }

    fn enable_bypass(&mut self) -> (r: Result<(), HealthError>)
        ensures
            r is Ok,
            final(self).is_enabled(),
    {
        self.enabled = true;
        self.history = Ghost(self.history@.push((BypassAction::Enable, Ok(()))));
        Ok(())
    }

    fn disable_bypass(&mut self) -> (r: Result<(), HealthError>)
        ensures
            r is Ok,
            !final(self).is_enabled(),
    {
        self.enabled = false;
        self.history = Ghost(self.history@.push((BypassAction::Disable, Ok(()))));
        Ok(())
    }

    fn bypass_enabled(&self) -> (r: bool)
        ensures
            r == self.is_enabled(),
    {
        self.enabled
    }
}

impl Default for MockBypassController {
    fn default() -> (r: Self)
        ensures
            !r.is_enabled(),
            r.requests() == Seq::<(BypassAction, Result<(), HealthError>)>::empty(),
    {
        MockBypassController::new()
    }
}

/// Everything health depends on, as the probes report it. The CPU usage
/// is a binary64 value in `0..=1`, held by its IEEE-754 bits.
#[derive(Debug)]
pub struct SupervisorInput {
    pub proxy_alive: bool,
    pub control_plane_connected: bool,
    pub cpu_usage_bits: u64,
    pub memory_bytes: u64,
    pub memory_limit_bytes: u64,
    pub active_connections: u64,
    pub software_version: String,
    pub policy_version: u64,
    pub consecutive_proxy_failures: u32,
}

impl Default for SupervisorInput {
    /// Proxy not alive, control plane not connected, everything else zero
    /// or empty.
    fn default() -> (r: Self)
        ensures
            !r.proxy_alive,
            !r.control_plane_connected,
            r.cpu_usage_bits == 0,
            r.memory_bytes == 0,
            r.memory_limit_bytes == 0,
            r.active_connections == 0,
            r.software_version@ == Seq::<char>::empty(),
            r.policy_version == 0,
            r.consecutive_proxy_failures == 0,
    {
        SupervisorInput {
            proxy_alive: false,
            control_plane_connected: false,
            cpu_usage_bits: 0,
            memory_bytes: 0,
            memory_limit_bytes: 0,
            active_connections: 0,
            software_version: String::new(),
            policy_version: 0,
            consecutive_proxy_failures: 0,
        }
    }
}

/// Consecutive proxy failures at which the edge counts as unhealthy.
pub const MAX_PROXY_FAILURES: u32 = 5;

/// The health assessment: a dead or repeatedly failing proxy is unhealthy;
/// CPU over its limit, or memory over a configured (non-zero) limit, is
/// degraded; anything else is healthy.
pub open spec fn health_outcome(
    proxy_alive: bool,
    consecutive_proxy_failures: u32,
    cpu_over_limit: bool,
    memory_bytes: u64,
    memory_limit_bytes: u64,
) -> HealthState {
    if !proxy_alive || consecutive_proxy_failures >= MAX_PROXY_FAILURES {
        HealthState::Unhealthy
    } else if cpu_over_limit {
        HealthState::Degraded
    } else if memory_limit_bytes > 0 && memory_bytes > memory_limit_bytes {
        HealthState::Degraded
    } else {
        HealthState::Healthy
    }
}

/// The assessment of an input against a CPU limit (both CPU values as
/// binary64 bits, compared as `f64`).
pub open spec fn assessment(input: &SupervisorInput, max_cpu_bits: u64) -> HealthState {
    health_outcome(
        input.proxy_alive,
        input.consecutive_proxy_failures,
        f64_lt(max_cpu_bits, input.cpu_usage_bits),
        input.memory_bytes,
        input.memory_limit_bytes,
    )
}

/// What to do with the hardware bypass.
#[derive(Debug, Clone, Copy, PartialEq, Eq, Structural)]
pub enum BypassAction {
    Enable,
    Disable,
    Keep,
}

/// Fail-open policy: request hardware bypass only when the proxy itself is
/// dead, the edge is unhealthy, fail-open is configured and bypass is not
/// on yet; release it once healthy again.
pub open spec fn bypass_decision(state: HealthState, proxy_alive: bool, fail_open_on_proxy_death: bool, bypass_enabled: bool) -> BypassAction {
    if state == HealthState::Unhealthy && !proxy_alive && fail_open_on_proxy_death && !bypass_enabled {
        BypassAction::Enable
    } else if state == HealthState::Healthy && bypass_enabled {
        BypassAction::Disable
    } else {
        BypassAction::Keep
    }
}

pub fn bypass_action(state: HealthState, proxy_alive: bool, fail_open_on_proxy_death: bool, bypass_enabled: bool) -> (r: BypassAction)
    ensures
        r == bypass_decision(state, proxy_alive, fail_open_on_proxy_death, bypass_enabled),
{
    if state == HealthState::Unhealthy && !proxy_alive && fail_open_on_proxy_death && !bypass_enabled {
        BypassAction::Enable
    } else if state == HealthState::Healthy && bypass_enabled {
        BypassAction::Disable
    } else {
        BypassAction::Keep
    }
}

/// Health evaluation plus bypass actuation on one relay.
#[derive(Debug)]
pub struct Supervisor<B: BypassController> {
    bypass: B,
    max_cpu_bits: u64,
    watchdog_timeout: Duration,
}

impl<B: BypassController> Supervisor<B> {
    pub closed spec fn relay(&self) -> B {
        self.bypass
    }

    pub closed spec fn max_cpu(&self) -> u64 {
        self.max_cpu_bits
    }

    pub closed spec fn timeout(&self) -> Duration {
        self.watchdog_timeout
    }

    /// A supervisor of `bypass` that counts CPU usage above `max_cpu_bits`
    /// (binary64 bits) as degraded.
    pub fn new(bypass: B, max_cpu_bits: u64, watchdog_timeout: Duration) -> (r: Self)
        ensures
            r.relay() == bypass,
            r.max_cpu() == max_cpu_bits,
            r.timeout() == watchdog_timeout,
    {
        Supervisor { bypass, max_cpu_bits, watchdog_timeout }
    }

    pub fn evaluate(&self, input: &SupervisorInput) -> (r: HealthState)
        ensures
            r == assessment(input, self.max_cpu()),
    {
        if !input.proxy_alive || input.consecutive_proxy_failures >= MAX_PROXY_FAILURES {
            return HealthState::Unhealthy;
        }
        if f64_bits_lt(self.max_cpu_bits, input.cpu_usage_bits) {
            return HealthState::Degraded;
        }
        if input.memory_limit_bytes > 0 && input.memory_bytes > input.memory_limit_bytes {
            return HealthState::Degraded;
        }
        HealthState::Healthy
    }

    /// Fail-open actuation: decide on the relay's current state and perform
    /// the action. Control-plane loss alone never requests bypass. The relay
    /// is asked exactly once to enable bypass when the decision is to enable
    /// it, exactly once to disable it when the decision is to disable it,
    /// and not at all otherwise; what that request returns is returned.
    /// When it returns `Ok`, bypass is on exactly when the decision was to
    /// enable it, off when it was to disable it, and unchanged when there
    /// was nothing to do.
    pub fn maybe_actuate(&mut self, state: HealthState, input: &SupervisorInput, fail_open_on_proxy_death: bool) -> (r: Result<(), HealthError>)
        ensures
            r is Ok ==> match bypass_decision(
                state,
                input.proxy_alive,
                fail_open_on_proxy_death,
                old(self).relay().bypass_requested(),
            ) {
                BypassAction::Enable => final(self).relay().bypass_requested(),
                BypassAction::Disable => !final(self).relay().bypass_requested(),
                BypassAction::Keep => final(self).relay().bypass_requested() == old(self).relay().bypass_requested(),
            },
            bypass_decision(state, input.proxy_alive, fail_open_on_proxy_death, old(self).relay().bypass_requested())
                == BypassAction::Keep ==> r is Ok && final(self).relay() == old(self).relay(),
            final(self).relay().requests() == match bypass_decision(
                state,
                input.proxy_alive,
                fail_open_on_proxy_death,
                old(self).relay().bypass_requested(),
            ) {
                BypassAction::Enable => old(self).relay().requests().push((BypassAction::Enable, r)),
                BypassAction::Disable => old(self).relay().requests().push((BypassAction::Disable, r)),
                BypassAction::Keep => old(self).relay().requests(),
            },
            final(self).max_cpu() == old(self).max_cpu(),
            final(self).timeout() == old(self).timeout(),
    {
        let enabled = self.bypass.bypass_enabled();
        match bypass_action(state, input.proxy_alive, fail_open_on_proxy_death, enabled) {
            BypassAction::Enable => self.bypass.enable_bypass(),
            BypassAction::Disable => self.bypass.disable_bypass(),
            BypassAction::Keep => Ok(()),
        }
    }

    /// Whether bypass is currently requested of the relay.
    pub fn bypass_enabled(&self) -> (r: bool)
        ensures
            r == self.relay().bypass_requested(),
    {
        self.bypass.bypass_enabled()
    }

    pub fn watchdog_timeout(&self) -> (r: Duration)
        ensures
            r == self.timeout(),
    {
        self.watchdog_timeout
    }
}

/// Loss of the control plane alone never changes the health assessment,
/// and a live proxy below the failure threshold is never unhealthy,
/// whatever the control plane does.
pub proof fn lemma_control_plane_loss_keeps_health(input: SupervisorInput, max_cpu_bits: u64)
    ensures
        assessment(&SupervisorInput { control_plane_connected: false, ..input }, max_cpu_bits) == assessment(
            &input,
            max_cpu_bits,
        ),
        input.proxy_alive && input.consecutive_proxy_failures < MAX_PROXY_FAILURES ==> assessment(
            &input,
            max_cpu_bits,
        ) != HealthState::Unhealthy,
        assessment(&input, max_cpu_bits) == HealthState::Unhealthy <==> (!input.proxy_alive
            || input.consecutive_proxy_failures >= MAX_PROXY_FAILURES),
{
}

/// Bypass is requested only for a dead proxy with fail-open configured: a
/// live proxy (whatever the control plane does) never triggers it.
pub proof fn lemma_bypass_only_for_dead_proxy(state: HealthState, proxy_alive: bool, fail_open_on_proxy_death: bool, bypass_enabled: bool)
    ensures
        bypass_decision(state, proxy_alive, fail_open_on_proxy_death, bypass_enabled) == BypassAction::Enable
            ==> !proxy_alive && fail_open_on_proxy_death && state == HealthState::Unhealthy && !bypass_enabled,
        proxy_alive ==> bypass_decision(state, proxy_alive, fail_open_on_proxy_death, bypass_enabled) != BypassAction::Enable,
        !fail_open_on_proxy_death ==> bypass_decision(state, proxy_alive, fail_open_on_proxy_death, bypass_enabled) != BypassAction::Enable,
{
}

/// A healthy edge with bypass on releases it; a healthy edge never keeps
/// bypass requested.
pub proof fn lemma_healthy_releases_bypass(proxy_alive: bool, fail_open_on_proxy_death: bool)
    ensures
        bypass_decision(HealthState::Healthy, proxy_alive, fail_open_on_proxy_death, true) == BypassAction::Disable,
        bypass_decision(HealthState::Healthy, proxy_alive, fail_open_on_proxy_death, false) == BypassAction::Keep,
{
}

} // verus!
