//! Edge fleet agent: what it does with the control plane's answers.
//!
//! Invariant: loss of cloud connectivity must not stop local forwarding.
//! The agent keeps the last-known-good policy in its [`StateStore`], and
//! cloud sync only *updates* that policy. Talking to the control plane,
//! persisting the store and exporting metrics are the caller's; this
//! module decides what every answer changes.

use crate::backoff::{capped_delay_ms, jitter_bound, jittered_delay_ms, Backoff};
use crate::clock::{duration_from_secs, duration_millis, whole_secs};
use crate::state::{
    deliver, DesiredState, DesiredStateView, Policy, PolicyView, ReconcileAction, StateStore, StateStoreView,
};
use crate::text::{decimal, u64_decimal};
use std::path::PathBuf;
use std::time::{Duration, Instant};
use vstd::prelude::*;

verus! {

#[verifier::external_type_specification]
#[verifier::external_body]
pub struct ExPathBuf(PathBuf);

#[verifier::external_type_specification]
#[verifier::external_body]
pub struct ExInstant(Instant);

/// `PathBuf::from` a string; nothing is stated of the opaque path.
#[verifier::external_body]
fn path_from(s: &str) -> PathBuf {
    PathBuf::from(s)
}

/// `Instant::now`; a reading of the monotonic clock.
#[verifier::external_body]
fn instant_now() -> Instant {
    Instant::now()
}

/// `Instant::elapsed`; it rests on the clock, so nothing is stated of it.
#[verifier::external_body]
fn elapsed(start: &Instant) -> Duration {
    start.elapsed()
}

#[derive(Debug)]
pub struct AgentConfig {
    pub device_id: String,
    pub hardware_id: String,
    pub software_version: String,
    pub control_plane: String,
    pub state_path: PathBuf,
    pub heartbeat_interval: Duration,
    pub tls_ca: Option<String>,
}

impl Default for AgentConfig {
    /// Device `edge-01` on `dev-hw` running 0.1.0, talking to the local
    /// control plane in plaintext every 5 s, with its state in
    /// `edge-state.json`.
    fn default() -> (r: Self)
        ensures
            r.device_id@ == "edge-01"@,
            r.hardware_id@ == "dev-hw"@,
            r.software_version@ == "0.1.0"@,
            r.control_plane@ == "http://127.0.0.1:50051"@,
            crate::clock::duration_millis(r.heartbeat_interval) == 5000,
            r.tls_ca is None,
    {
        AgentConfig {
            device_id: String::from_str("edge-01"),
            hardware_id: String::from_str("dev-hw"),
            software_version: String::from_str("0.1.0"),
            control_plane: String::from_str("http://127.0.0.1:50051"),
            state_path: path_from("edge-state.json"),
            heartbeat_interval: duration_from_secs(5),
            tls_ca: None,
        }
    }
}

/// Where the agent reports connectivity and applied policy versions
/// (Prometheus gauges and counters in the binaries).
pub trait MetricsSink {
    fn set_control_plane_connected(&self, connected: bool);

    fn count_reconnect(&self);

    fn set_policy_version(&self, version: u64);
}

/// The control plane's answer to a heartbeat, as far as the agent reads it.
#[derive(Debug)]
pub struct HeartbeatReply {
    pub desired_policy_version: u64,
    pub policy: Option<Policy>,
    pub has_policy: bool,
    pub desired_software_version: String,
    pub desired_seq: u64,
}

/// The desired state a heartbeat carries: its sequence (at least 1), its
/// policy with an empty upstream replaced by the last-known-good one, and
/// its desired software version.
pub open spec fn heartbeat_desired(p: PolicyView, desired_seq: u64, software: Seq<char>, fallback_upstream: Seq<char>) -> DesiredStateView {
    DesiredStateView {
        seq: if desired_seq > 1 { desired_seq } else { 1 },
        policy: PolicyView {
            default_upstream: if p.default_upstream.len() == 0 { fallback_upstream } else { p.default_upstream },
            ..p
        },
        software_version: software,
    }
}

/// What a heartbeat answer does to the store, and whether a policy was
/// applied: nothing without a policy; otherwise the carried desired state
/// is delivered.
pub open spec fn sync_step(s: StateStoreView, has_policy: bool, policy: Option<PolicyView>, desired_seq: u64, software: Seq<char>) -> (StateStoreView, bool) {
    if has_policy && policy is Some {
        let d = heartbeat_desired(policy->0, desired_seq, software, s.last_good_policy.default_upstream);
        (deliver(s, d), crate::state::reconcile(s.reported, d) is ApplyPolicy)
    } else {
        (s, false)
    }
}

/// What a pushed policy update does: it is delivered under its sequence
/// (at least 1), with no software target.
pub open spec fn update_step(s: StateStoreView, seq: u64, p: PolicyView) -> (StateStoreView, bool) {
    let d = DesiredStateView { seq: if seq > 1 { seq } else { 1 }, policy: p, software_version: Seq::empty() };
    (deliver(s, d), crate::state::reconcile(s.reported, d) is ApplyPolicy)
}

/// Resource usage as the edge reports it to the control plane. The CPU
/// usage is a binary64 value in `0..=1`, held by its IEEE-754 bits.
#[derive(Debug, Clone, Copy, PartialEq, Eq, Structural)]
pub struct ResourceUsage {
    pub cpu_usage_bits: u64,
    pub memory_bytes: u64,
    pub active_connections: u64,
    pub uptime_secs: u64,
}

pub open spec fn opt_policy_view(p: Option<Policy>) -> Option<PolicyView> {
    match p {
        Some(p) => Some(p@),
        None => None,
    }
}

pub struct EdgeAgent<M: MetricsSink> {
    config: AgentConfig,
    store: StateStore,
    metrics: std::sync::Arc<M>,
    start: Instant,
}

impl<M: MetricsSink> EdgeAgent<M> {
    pub closed spec fn store_view(&self) -> StateStoreView {
        self.store@
    }

    pub closed spec fn config_view(&self) -> &AgentConfig {
        &self.config
    }

    /// An agent over a store the caller opened from `config.state_path`.
    pub fn new(config: AgentConfig, store: StateStore, metrics: std::sync::Arc<M>) -> (r: Self)
        ensures
            r.store_view() == store@,
            r.config_view() == &config,
    {
        EdgeAgent { config, store, metrics, start: instant_now() }
    }

    pub fn config(&self) -> (r: &AgentConfig)
        ensures
            r == self.config_view(),
    {
        &self.config
    }

    /// The store, for persisting it.
    pub fn store(&self) -> (r: &StateStore)
        ensures
            r@ == self.store_view(),
    {
        &self.store
    }

    pub fn reported_policy_version(&self) -> (r: u64)
        ensures
            r == self.store_view().reported.policy_version,
    {
        self.store.reported.policy_version
    }

    /// The reported policy version as the control plane receives it.
    pub fn reported_policy_text(&self) -> (r: String)
        ensures
            r@ == decimal(self.store_view().reported.policy_version as nat),
    {
        u64_decimal(self.store.reported.policy_version)
    }

    pub fn reported_software_version(&self) -> (r: String)
        ensures
            r@ == self.store_view().reported.software_version,
    {
        self.store.reported.software_version.clone()
    }

    pub fn applied_seq(&self) -> (r: u64)
        ensures
            r == self.store_view().reported.applied_seq,
    {
        self.store.reported.applied_seq
    }

    pub fn last_good_policy(&self) -> (r: Policy)
        ensures
            r@ == self.store_view().last_good_policy,
    {
        self.store.last_good_policy.clone()
    }

    /// Whole seconds since the agent started.
    pub fn uptime_secs(&self) -> u64 {
        whole_secs(&elapsed(&self.start))
    }

    /// The usage report for a resource sample and the active connection
    /// count, with the agent's uptime.
    pub fn usage(&self, cpu_usage_bits: u64, memory_bytes: u64, active_connections: u64) -> (r: ResourceUsage)
        ensures
            r.cpu_usage_bits == cpu_usage_bits,
            r.memory_bytes == memory_bytes,
            r.active_connections == active_connections,
    {
        ResourceUsage { cpu_usage_bits, memory_bytes, active_connections, uptime_secs: self.uptime_secs() }
    }

    /// Record a lost control plane: not connected, one more reconnect.
    pub fn note_disconnected(&self) {
        self.metrics.set_control_plane_connected(false);
        self.metrics.count_reconnect();
    }

    /// The reconnect decision after one sync attempt. A successful sync
    /// resets the backoff and the loop goes on at the heartbeat interval
    /// (`None`). A failed one records the lost control plane and the loop
    /// waits the backoff's next jittered delay before trying again; the
    /// dataplane keeps serving last-known-good meanwhile.
    pub fn after_sync(&self, backoff: &mut Backoff, synced: bool) -> (wait: Option<Duration>)
        ensures
            synced ==> wait is None && final(backoff).attempt_count() == 0,
            !synced ==> wait is Some && final(backoff).attempt_count() == if old(backoff).attempt_count() < u32::MAX {
                (old(backoff).attempt_count() + 1) as u32
            } else {
                u32::MAX
            } && exists|jitter: u128|
                jitter <= jitter_bound(capped_delay_ms(old(backoff).base_ms(), old(backoff).cap_ms(), old(backoff).attempt_count()))
                && duration_millis(wait->0) == jittered_delay_ms(
                    capped_delay_ms(old(backoff).base_ms(), old(backoff).cap_ms(), old(backoff).attempt_count()),
                    jitter,
                ) as u128,
            final(backoff).base_ms() == old(backoff).base_ms(),
            final(backoff).cap_ms() == old(backoff).cap_ms(),
    {
        if synced {
            backoff.reset();
            None
        } else {
            self.note_disconnected();
            Some(backoff.next_delay())
        }
    }

    fn deliver_desired(&mut self, desired: DesiredState) -> (applied: bool)
        ensures
            final(self).store_view() == deliver(old(self).store_view(), desired@),
            applied == (crate::state::reconcile(old(self).store_view().reported, desired@) is ApplyPolicy),
            final(self).config_view() == old(self).config_view(),
    {
        let seq = desired.seq;
        let (action, _) = self.store.ingest(desired);
        match action {
            ReconcileAction::ApplyPolicy(policy) => {
                self.store.mark_policy_applied(&policy, seq);
                true
            },
            _ => false,
        }
    }

    /// Handle a heartbeat answer: the control plane is reachable; when the
    /// answer carries a policy, its desired state is ingested and, if the
    /// policy is to be applied, recorded as applied and last-known-good.
    /// Returns whether a policy was applied. The caller persists the store.
    pub fn apply_heartbeat(&mut self, hb: HeartbeatReply) -> (applied: bool)
        ensures
            (final(self).store_view(), applied) == sync_step(
                old(self).store_view(),
                hb.has_policy,
                opt_policy_view(hb.policy),
                hb.desired_seq,
                hb.desired_software_version@,
            ),
            final(self).config_view() == old(self).config_view(),
    {
        self.metrics.set_control_plane_connected(true);
        if !hb.has_policy {
            return false;
        }
        match hb.policy {
            Some(p) => {
                let seq = if hb.desired_seq > 1 { hb.desired_seq } else { 1 };
                let default_upstream = if p.default_upstream.as_str().is_empty() {
                    self.store.last_good_policy.default_upstream.clone()
                } else {
                    p.default_upstream
                };
                let desired = DesiredState {
                    seq,
                    policy: Policy {
                        version: p.version,
                        max_connections: p.max_connections,
                        idle_timeout_secs: p.idle_timeout_secs,
                        default_upstream,
                        rules_json: p.rules_json,
                    },
                    software_version: hb.desired_software_version,
                };
                let applied = self.deliver_desired(desired);
                if applied {
                    self.metrics.set_policy_version(self.store.reported.policy_version);
                }
                applied
            },
            None => false,
        }
    }

    /// Handle a policy pushed down the watch stream under `seq`. Returns
    /// whether it was applied. The caller persists the store.
    pub fn apply_policy_update(&mut self, seq: u64, policy: Policy) -> (applied: bool)
        ensures
            (final(self).store_view(), applied) == update_step(old(self).store_view(), seq, policy@),
            final(self).config_view() == old(self).config_view(),
    {
        let desired = DesiredState {
            seq: if seq > 1 { seq } else { 1 },
            policy,
            software_version: String::new(),
        };
        self.deliver_desired(desired)
    }
}

/// Syncing again with the same answer changes nothing and applies nothing:
/// the agent has converged.
pub proof fn lemma_repeated_sync_is_noop(s: StateStoreView, has_policy: bool, policy: Option<PolicyView>, desired_seq: u64, software: Seq<char>)
    ensures
        ({
            let first = sync_step(s, has_policy, policy, desired_seq, software);
            first.1 ==> sync_step(first.0, has_policy, policy, desired_seq, software) == (first.0, false)
        }),
{
    let first = sync_step(s, has_policy, policy, desired_seq, software);
    if first.1 {
        let d = heartbeat_desired(policy->0, desired_seq, software, s.last_good_policy.default_upstream);
        crate::state::lemma_apply_then_converged(s.reported, d);
        let d2 = heartbeat_desired(policy->0, desired_seq, software, first.0.last_good_policy.default_upstream);
        assert(d2.policy == d.policy || policy->0.default_upstream.len() == 0);
        if policy->0.default_upstream.len() == 0 {
            assert(first.0.last_good_policy == d.policy);
            assert(d2 == d);
        }
        crate::state::lemma_duplicate_delivery_is_noop(s, d);
    }
}

/// An answer without a policy leaves the store, and so the last-known-good
/// policy the dataplane serves, exactly as it was.
pub proof fn lemma_no_policy_keeps_last_good(s: StateStoreView, policy: Option<PolicyView>, desired_seq: u64, software: Seq<char>)
    ensures
        sync_step(s, false, policy, desired_seq, software) == (s, false),
        sync_step(s, true, None, desired_seq, software) == (s, false),
{
}

} // verus!

verus! {

/// A (valid, non-zero) policy pushed to the control plane converges on an
/// edge at its next heartbeat: whatever the edge had, once the push's sequence is newer
/// than what the edge applied, the heartbeat answer (see
/// `FleetRegistry::serve_heartbeat`) leaves the edge reporting the pushed
/// version, and answering it again changes nothing.
pub proof fn lemma_pushed_policy_converges(
    r: crate::registry::FleetRegistryView,
    p: PolicyView,
    s: StateStoreView,
)
    requires
        r.policy_seq < u64::MAX,
        p.version != 0,
        s.reported.applied_seq < crate::registry::set_policy_step(r, p).policy_seq,
    ensures
        ({
            let r1 = crate::registry::set_policy_step(r, p);
            let first = sync_step(s, true, r1.policy, r1.policy_seq, r1.desired_software);
            let again = sync_step(first.0, true, r1.policy, r1.policy_seq, r1.desired_software);
            &&& first.0.reported.policy_version == p.version
            &&& again.0.reported == first.0.reported
            &&& again.0.last_good_policy == first.0.last_good_policy
            &&& !again.1
        }),
{
    let r1 = crate::registry::set_policy_step(r, p);
    let first = sync_step(s, true, r1.policy, r1.policy_seq, r1.desired_software);
    let q = r1.policy->0;
    let d = heartbeat_desired(q, r1.policy_seq, r1.desired_software, s.last_good_policy.default_upstream);
    assert(q.version == p.version);
    assert(d.seq == r1.policy_seq);
    if first.1 {
        lemma_repeated_sync_is_noop(s, true, r1.policy, r1.policy_seq, r1.desired_software);
    } else {
        let d2 = heartbeat_desired(q, r1.policy_seq, r1.desired_software, first.0.last_good_policy.default_upstream);
        assert(first.0.reported == s.reported);
        assert(d2.seq == d.seq && d2.policy.version == d.policy.version && d2.software_version == d.software_version);
    }
}

} // verus!
