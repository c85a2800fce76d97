//! Device registry with desired-state tracking.
//!
//! The control plane keeps the fleet roster and the desired state: one
//! policy with a monotonic sequence number and a desired software version.
//! Membership and desired state are what the caller snapshots to disk
//! after every change ([`FleetRegistry::snapshot`], and back with
//! [`FleetRegistry::restore`]); per-heartbeat liveness fields age out on a
//! restart. What the fleet service answers to `Register`, `Heartbeat` and
//! each `Watch` report is decided here too.

use crate::agent::HeartbeatReply;
use crate::clock::now_secs;
use crate::state::{Policy, PolicyView};
use crate::text::{parse_decimal_u64, parse_u64, str_eq};
use vstd::prelude::*;

verus! {

#[derive(Debug)]
pub struct DeviceRecord {
    pub device_id: String,
    pub hardware_id: String,
    pub software_version: String,
    pub reported_policy_version: String,
    pub reported_software_version: String,
    pub desired_policy_version: u64,
    pub desired_software_version: String,
    pub desired_seq: u64,
    pub health: i32,
    pub last_seen_secs: u64,
    pub uptime_secs: u64,
    /// IEEE-754 bits of the reported CPU usage (0..1); stored, never
    /// computed with.
    pub cpu_usage_bits: u64,
    pub memory_bytes: u64,
    pub active_connections: u64,
}

pub struct DeviceRecordView {
    pub device_id: Seq<char>,
    pub hardware_id: Seq<char>,
    pub software_version: Seq<char>,
    pub reported_policy_version: Seq<char>,
    pub reported_software_version: Seq<char>,
    pub desired_policy_version: u64,
    pub desired_software_version: Seq<char>,
    pub desired_seq: u64,
    pub health: i32,
    pub last_seen_secs: u64,
    pub uptime_secs: u64,
    pub cpu_usage_bits: u64,
    pub memory_bytes: u64,
    pub active_connections: u64,
}

impl View for DeviceRecord {
    type V = DeviceRecordView;

    open spec fn view(&self) -> DeviceRecordView {
        DeviceRecordView {
            device_id: self.device_id@,
            hardware_id: self.hardware_id@,
            software_version: self.software_version@,
            reported_policy_version: self.reported_policy_version@,
            reported_software_version: self.reported_software_version@,
            desired_policy_version: self.desired_policy_version,
            desired_software_version: self.desired_software_version@,
            desired_seq: self.desired_seq,
            health: self.health,
            last_seen_secs: self.last_seen_secs,
            uptime_secs: self.uptime_secs,
            cpu_usage_bits: self.cpu_usage_bits,
            memory_bytes: self.memory_bytes,
            active_connections: self.active_connections,
        }
    }
}

impl Clone for DeviceRecord {
    fn clone(&self) -> (r: Self)
        ensures
            r@ == self@,
    {
        DeviceRecord {
            device_id: self.device_id.clone(),
            hardware_id: self.hardware_id.clone(),
            software_version: self.software_version.clone(),
            reported_policy_version: self.reported_policy_version.clone(),
            reported_software_version: self.reported_software_version.clone(),
            desired_policy_version: self.desired_policy_version,
            desired_software_version: self.desired_software_version.clone(),
            desired_seq: self.desired_seq,
            health: self.health,
            last_seen_secs: self.last_seen_secs,
            uptime_secs: self.uptime_secs,
            cpu_usage_bits: self.cpu_usage_bits,
            memory_bytes: self.memory_bytes,
            active_connections: self.active_connections,
        }
    }
}

/// Seconds from `last_seen` to `now`, or 0 when the clock reads earlier.
pub open spec fn age_since(last_seen: u64, now: u64) -> u64 {
    if now >= last_seen {
        (now - last_seen) as u64
    } else {
        0
    }
}

impl DeviceRecord {
    /// Seconds since the device was last seen at time `now` (0 when the
    /// clock reads earlier).
    pub fn age_at(&self, now: u64) -> (r: u64)
        ensures
            r == age_since(self.last_seen_secs, now),
    {
        now.saturating_sub(self.last_seen_secs)
    }

    /// Seconds since the device was last seen, by the wall clock: its age
    /// at some reading of the clock, in seconds since the Unix epoch.
    pub fn last_seen_age_secs(&self) -> (r: u64)
        ensures
            exists|now: u64| r == #[trigger] age_since(self.last_seen_secs, now),
    {
        let now = now_secs();
        let r = self.age_at(now);
        assert(r == age_since(self.last_seen_secs, now));
        r
    }
}

/// Heartbeat fields from the edge, grouped to keep the API stable.
#[derive(Debug, Clone, Copy)]
pub struct HeartbeatUpdate<'a> {
    pub device_id: &'a str,
    pub reported_policy: &'a str,
    pub reported_software: &'a str,
    pub health: i32,
    /// IEEE-754 bits of the reported CPU usage.
    pub cpu_bits: u64,
    pub mem: u64,
    pub active: u64,
    pub uptime: u64,
}

/// What a heartbeat answers: desired policy version, desired policy,
/// desired software version and desired sequence number.
pub type DesiredReply = (u64, Option<Policy>, String, u64);

/// Index of the record of `id` (the last one, searching from the end), or
/// -1 when there is none.
pub open spec fn find_device(devs: Seq<DeviceRecordView>, id: Seq<char>) -> int
    decreases devs.len(),
{
    if devs.len() == 0 {
        -1
    } else if devs.last().device_id == id {
        devs.len() - 1
    } else {
        find_device(devs.drop_last(), id)
    }
}

/// Insert a record, replacing the record of the same device if there is
/// one.
pub open spec fn upsert(devs: Seq<DeviceRecordView>, rec: DeviceRecordView) -> Seq<DeviceRecordView> {
    if find_device(devs, rec.device_id) >= 0 {
        devs.update(find_device(devs, rec.device_id), rec)
    } else {
        devs.push(rec)
    }
}

/// No device occurs twice.
pub open spec fn ids_unique(devs: Seq<DeviceRecordView>) -> bool {
    forall|i: int, j: int| 0 <= i < j < devs.len() ==> devs[i].device_id != devs[j].device_id
}

pub struct FleetRegistryView {
    pub devices: Seq<DeviceRecordView>,
    pub policy: Option<PolicyView>,
    pub policy_seq: u64,
    pub desired_software: Seq<char>,
}

pub open spec fn policy_opt_view(p: Option<Policy>) -> Option<PolicyView> {
    match p {
        Some(p) => Some(p@),
        None => None,
    }
}

/// The desired policy version: that of the current policy, or 0.
pub open spec fn desired_version(r: FleetRegistryView) -> u64 {
    match r.policy {
        Some(p) => p.version,
        None => 0,
    }
}

/// The record a registration creates at time `now`.
pub open spec fn registered_record(
    r: FleetRegistryView,
    device_id: Seq<char>,
    hardware_id: Seq<char>,
    software_version: Seq<char>,
    reported_policy: Seq<char>,
    reported_software: Seq<char>,
    now: u64,
) -> DeviceRecordView {
    DeviceRecordView {
        device_id,
        hardware_id,
        software_version,
        reported_policy_version: reported_policy,
        reported_software_version: reported_software,
        desired_policy_version: desired_version(r),
        desired_software_version: r.desired_software,
        desired_seq: r.policy_seq,
        health: 1,
        last_seen_secs: now,
        uptime_secs: 0,
        cpu_usage_bits: 0,
        memory_bytes: 0,
        active_connections: 0,
    }
}

pub struct HeartbeatView {
    pub device_id: Seq<char>,
    pub reported_policy: Seq<char>,
    pub reported_software: Seq<char>,
    pub health: i32,
    pub cpu_bits: u64,
    pub mem: u64,
    pub active: u64,
    pub uptime: u64,
}

pub open spec fn heartbeat_view(u: HeartbeatUpdate) -> HeartbeatView {
    HeartbeatView {
        device_id: u.device_id@,
        reported_policy: u.reported_policy@,
        reported_software: u.reported_software@,
        health: u.health,
        cpu_bits: u.cpu_bits,
        mem: u.mem,
        active: u.active,
        uptime: u.uptime,
    }
}

/// A record refreshed by a heartbeat at time `now`: the reported and
/// liveness fields come from the heartbeat, the desired ones from the
/// registry.
pub open spec fn refreshed_record(rec: DeviceRecordView, r: FleetRegistryView, u: HeartbeatView, now: u64) -> DeviceRecordView {
    DeviceRecordView {
        reported_policy_version: u.reported_policy,
        reported_software_version: u.reported_software,
        health: u.health,
        cpu_usage_bits: u.cpu_bits,
        memory_bytes: u.mem,
        active_connections: u.active,
        uptime_secs: u.uptime,
        last_seen_secs: now,
        desired_policy_version: desired_version(r),
        desired_software_version: r.desired_software,
        desired_seq: r.policy_seq,
        ..rec
    }
}

/// The record as reloaded from a snapshot: liveness ages out, so it reads
/// as never seen.
pub open spec fn reloaded_record(rec: DeviceRecordView) -> DeviceRecordView {
    DeviceRecordView { last_seen_secs: 0, ..rec }
}

/// The roster rebuilt from snapshot records, in order; a later record of
/// the same device replaces an earlier one.
pub open spec fn reloaded_roster(records: Seq<DeviceRecordView>) -> Seq<DeviceRecordView>
    decreases records.len(),
{
    if records.len() == 0 {
        Seq::empty()
    } else {
        upsert(reloaded_roster(records.drop_last()), reloaded_record(records.last()))
    }
}

/// Push a policy: identical version is a no-op (no sequence bump);
/// anything else replaces the policy and bumps the sequence.
pub open spec fn set_policy_step(r: FleetRegistryView, p: PolicyView) -> FleetRegistryView {
    if r.policy is Some && r.policy->0.version == p.version {
        r
    } else {
        FleetRegistryView { policy: Some(p), policy_seq: (r.policy_seq + 1) as u64, ..r }
    }
}

/// Set the desired software version, with the same rule.
pub open spec fn set_software_step(r: FleetRegistryView, version: Seq<char>) -> FleetRegistryView {
    if r.desired_software == version {
        r
    } else {
        FleetRegistryView { desired_software: version, policy_seq: (r.policy_seq + 1) as u64, ..r }
    }
}

/// A policy as the registry snapshot stores it.
#[derive(Debug)]
pub struct PolicySnapshot {
    pub version: u64,
    pub max_connections: u32,
    pub idle_timeout_secs: u64,
    pub default_upstream: String,
    pub rules_json: String,
}

impl View for PolicySnapshot {
    type V = PolicyView;

    open spec fn view(&self) -> PolicyView {
        PolicyView {
            version: self.version,
            max_connections: self.max_connections,
            idle_timeout_secs: self.idle_timeout_secs,
            default_upstream: self.default_upstream@,
            rules_json: self.rules_json@,
        }
    }
}

pub fn policy_to_snapshot(p: &Policy) -> (s: PolicySnapshot)
    ensures
        s@ == p@,
{
    PolicySnapshot {
        version: p.version,
        max_connections: p.max_connections,
        idle_timeout_secs: p.idle_timeout_secs,
        default_upstream: p.default_upstream.clone(),
        rules_json: p.rules_json.clone(),
    }
}

pub fn policy_from_snapshot(s: &PolicySnapshot) -> (p: Policy)
    ensures
        p@ == s@,
{
    Policy {
        version: s.version,
        max_connections: s.max_connections,
        idle_timeout_secs: s.idle_timeout_secs,
        default_upstream: s.default_upstream.clone(),
        rules_json: s.rules_json.clone(),
    }
}

pub open spec fn snapshot_policy_view(p: Option<PolicySnapshot>) -> Option<PolicyView> {
    match p {
        Some(p) => Some(p@),
        None => None,
    }
}

/// What the control plane persists: membership and desired state.
#[derive(Debug)]
pub struct RegistrySnapshot {
    pub devices: Vec<DeviceRecord>,
    pub policy: Option<PolicySnapshot>,
    pub policy_seq: u64,
    pub desired_software: String,
}

impl View for RegistrySnapshot {
    type V = FleetRegistryView;

    open spec fn view(&self) -> FleetRegistryView {
        FleetRegistryView {
            devices: self.devices@.map_values(|d: DeviceRecord| d@),
            policy: snapshot_policy_view(self.policy),
            policy_seq: self.policy_seq,
            desired_software: self.desired_software@,
        }
    }
}

/// Thread-unaware registry state; the caller shares it behind a lock.
#[derive(Debug)]
pub struct FleetRegistry {
    devices: Vec<DeviceRecord>,
    policy: Option<Policy>,
    policy_seq: u64,
    desired_software: String,
}

impl View for FleetRegistry {
    type V = FleetRegistryView;

    closed spec fn view(&self) -> FleetRegistryView {
        FleetRegistryView {
            devices: self.devices@.map_values(|d: DeviceRecord| d@),
            policy: policy_opt_view(self.policy),
            policy_seq: self.policy_seq,
            desired_software: self.desired_software@,
        }
    }
}

/// The index [`find_device`] gives is -1 or the index of a record of the
/// device, and -1 only when no record is of that device.
pub proof fn lemma_find_device_bounds(devs: Seq<DeviceRecordView>, id: Seq<char>)
    ensures
        -1 <= find_device(devs, id) < devs.len(),
        find_device(devs, id) >= 0 ==> devs[find_device(devs, id)].device_id == id,
        find_device(devs, id) == -1 ==> forall|k: int| 0 <= k < devs.len() ==> devs[k].device_id != id,
    decreases devs.len(),
{
    if devs.len() > 0 {
        lemma_find_device_bounds(devs.drop_last(), id);
        if find_device(devs, id) == -1 {
            assert forall|k: int| 0 <= k < devs.len() implies devs[k].device_id != id by {
                if k < devs.len() - 1 {
                    assert(devs.drop_last()[k] == devs[k]);
                }
            }
        }
    }
}

fn opt_policy_clone(p: &Option<Policy>) -> (r: Option<Policy>)
    ensures
        r == *p,
{
    match p {
        Some(p) => Some(p.clone()),
        None => None,
    }
}

impl FleetRegistry {
    /// No device is registered twice.
    #[verifier::type_invariant]
    spec fn ids_are_unique(self) -> bool {
        ids_unique(self@.devices)
    }

    pub fn new() -> (r: Self)
        ensures
            r@ == (FleetRegistryView { devices: Seq::empty(), policy: None, policy_seq: 0, desired_software: Seq::empty() }),
    {
        let r = FleetRegistry { devices: Vec::new(), policy: None, policy_seq: 0, desired_software: String::new() };
        assert(r@.devices =~= Seq::empty());
        r
    }

    fn position(&self, id: &str) -> (r: Option<usize>)
        ensures
            r is None ==> find_device(self@.devices, id@) == -1,
            r is Some ==> r->0 == find_device(self@.devices, id@) && r->0 < self@.devices.len(),
    {
        let ghost devs = self@.devices;
        let mut i = self.devices.len();
        assert(devs.subrange(0, i as int) == devs);
        while i > 0
            invariant
                i <= self.devices@.len(),
                devs == self@.devices,
                devs.len() == self.devices@.len(),
                find_device(devs, id@) == find_device(devs.subrange(0, i as int), id@),
            decreases i,
        {
            proof {
                let sub = devs.subrange(0, i as int);
                assert(sub.drop_last() == devs.subrange(0, i - 1));
                assert(sub.last() == self.devices@[i - 1]@);
            }
            if str_eq(self.devices[i - 1].device_id.as_str(), id) {
                return Some(i - 1);
            }
            i = i - 1;
        }
        None
    }

    fn upsert_record(&mut self, rec: DeviceRecord)
        ensures
            final(self)@ == (FleetRegistryView { devices: upsert(old(self)@.devices, rec@), ..old(self)@ }),
    {
        proof {
            use_type_invariant(&*self);
            lemma_find_device_bounds(self@.devices, rec@.device_id);
            lemma_upsert_keeps_ids_unique(self@.devices, rec@);
        }
        let pos = self.position(rec.device_id.as_str());
        let mut devs: Vec<DeviceRecord> = Vec::new();
        std::mem::swap(&mut devs, &mut self.devices);
        match pos {
            Some(i) => {
                devs.set(i, rec);
            },
            None => {
                devs.push(rec);
            },
        }
        assert(devs@.map_values(|d: DeviceRecord| d@) =~= upsert(old(self)@.devices, rec@));
        self.devices = devs;
    }

    /// Rebuild a registry from a persisted snapshot. A restart must not
    /// present stale devices as fresh, so every record reads as never seen
    /// until its edge checks in again.
    pub fn from_snapshot(records: Vec<DeviceRecord>, policy: Option<Policy>, policy_seq: u64, desired_software: String) -> (r: Self)
        ensures
            r@ == (FleetRegistryView {
                devices: reloaded_roster(records@.map_values(|d: DeviceRecord| d@)),
                policy: policy_opt_view(policy),
                policy_seq,
                desired_software: desired_software@,
            }),
            ids_unique(r@.devices),
    {
        proof {
            lemma_reloaded_roster(records@.map_values(|d: DeviceRecord| d@));
        }
        let mut reg = FleetRegistry { devices: Vec::new(), policy, policy_seq, desired_software };
        let ghost input = records@.map_values(|d: DeviceRecord| d@);
        assert(reg@.devices =~= Seq::empty());
        assert(input.subrange(0, 0) =~= Seq::<DeviceRecordView>::empty());
        let mut i: usize = 0;
        while i < records.len()
            invariant
                i <= records@.len(),
                input == records@.map_values(|d: DeviceRecord| d@),
                reg@ == (FleetRegistryView {
                    devices: reloaded_roster(input.subrange(0, i as int)),
                    policy: policy_opt_view(policy),
                    policy_seq,
                    desired_software: desired_software@,
                }),
            decreases records@.len() - i,
        {
            let mut rec = records[i].clone();
            rec.last_seen_secs = 0;
            reg.upsert_record(rec);
            proof {
                let sub = input.subrange(0, i + 1);
                assert(sub.drop_last() == input.subrange(0, i as int));
                assert(sub.last() == input[i as int]);
            }
            i = i + 1;
        }
        assert(input.subrange(0, records@.len() as int) == input);
        reg
    }

    /// The snapshot of membership and desired state, devices in
    /// registration order.
    pub fn snapshot(&self) -> (s: RegistrySnapshot)
        ensures
            s@ == self@,
            ids_unique(s@.devices),
    {
        proof {
            use_type_invariant(self);
        }
        let policy = match &self.policy {
            Some(p) => Some(policy_to_snapshot(p)),
            None => None,
        };
        RegistrySnapshot {
            devices: self.devices(),
            policy,
            policy_seq: self.policy_seq,
            desired_software: self.desired_software.clone(),
        }
    }

    /// Rebuild a registry from a snapshot, as after a restart: see
    /// [`FleetRegistry::from_snapshot`].
    pub fn restore(snap: RegistrySnapshot) -> (r: Self)
        ensures
            r@ == (FleetRegistryView { devices: reloaded_roster(snap@.devices), ..snap@ }),
            ids_unique(r@.devices),
    {
        let policy = match &snap.policy {
            Some(p) => Some(policy_from_snapshot(p)),
            None => None,
        };
        FleetRegistry::from_snapshot(snap.devices, policy, snap.policy_seq, snap.desired_software)
    }

    /// Register (or re-register) a device at time `now`; the record carries
    /// the current desired state. Registering again replaces the record.
    pub fn register_at(
        &mut self,
        device_id: String,
        hardware_id: String,
        software_version: String,
        reported_policy: String,
        reported_software: String,
        now: u64,
    ) -> (rec: DeviceRecord)
        ensures
            rec@ == registered_record(
                old(self)@,
                device_id@,
                hardware_id@,
                software_version@,
                reported_policy@,
                reported_software@,
                now,
            ),
            final(self)@ == (FleetRegistryView { devices: upsert(old(self)@.devices, rec@), ..old(self)@ }),
            ids_unique(old(self)@.devices) ==> ids_unique(final(self)@.devices),
    {
        let desired_policy_version = match &self.policy {
            Some(p) => p.version,
            None => 0,
        };
        let rec = DeviceRecord {
            device_id,
            hardware_id,
            software_version,
            reported_policy_version: reported_policy,
            reported_software_version: reported_software,
            desired_policy_version,
            desired_software_version: self.desired_software.clone(),
            desired_seq: self.policy_seq,
            health: 1,
            last_seen_secs: now,
            uptime_secs: 0,
            cpu_usage_bits: 0,
            memory_bytes: 0,
            active_connections: 0,
        };
        let out = rec.clone();
        proof {
            if ids_unique(self@.devices) {
                lemma_upsert_keeps_ids_unique(self@.devices, rec@);
            }
        }
        self.upsert_record(rec);
        out
    }

    /// Register a device, stamped with the wall clock.
    pub fn register(
        &mut self,
        device_id: String,
        hardware_id: String,
        software_version: String,
        reported_policy: String,
        reported_software: String,
    ) -> (rec: DeviceRecord)
        ensures
            exists|now: u64|
                rec@ == registered_record(
                    old(self)@,
                    device_id@,
                    hardware_id@,
                    software_version@,
                    reported_policy@,
                    reported_software@,
                    now,
                ) && final(self)@ == (FleetRegistryView { devices: upsert(old(self)@.devices, rec@), ..old(self)@ }),
            ids_unique(old(self)@.devices) ==> ids_unique(final(self)@.devices),
    {
        let now = now_secs();
        self.register_at(device_id, hardware_id, software_version, reported_policy, reported_software, now)
    }

    /// Record a heartbeat at time `now`. An unknown device gets `None` and
    /// changes nothing; a known one is refreshed and gets the desired
    /// state.
    pub fn heartbeat_at(&mut self, u: HeartbeatUpdate, now: u64) -> (r: Option<DesiredReply>)
        ensures
            find_device(old(self)@.devices, u.device_id@) == -1 ==> r is None && final(self)@ == old(self)@,
            find_device(old(self)@.devices, u.device_id@) >= 0 ==> {
                let i = find_device(old(self)@.devices, u.device_id@);
                &&& r is Some
                &&& r.unwrap().0 == desired_version(old(self)@)
                &&& policy_opt_view(r.unwrap().1) == old(self)@.policy
                &&& r.unwrap().2@ == old(self)@.desired_software
                &&& r.unwrap().3 == old(self)@.policy_seq
                &&& final(self)@ == (FleetRegistryView {
                    devices: old(self)@.devices.update(
                        i,
                        refreshed_record(old(self)@.devices[i], old(self)@, heartbeat_view(u), now),
                    ),
                    ..old(self)@
                })
            },
            ids_unique(old(self)@.devices) ==> ids_unique(final(self)@.devices),
    {
        proof {
            use_type_invariant(&*self);
            lemma_find_device_bounds(self@.devices, u.device_id@);
        }
        let desired_policy_version = match &self.policy {
            Some(p) => p.version,
            None => 0,
        };
        let i = match self.position(u.device_id) {
            Some(i) => i,
            None => {
                return None;
            },
        };
        let mut rec = self.devices[i].clone();
        rec.reported_policy_version = u.reported_policy.to_owned();
        rec.reported_software_version = u.reported_software.to_owned();
        rec.health = u.health;
        rec.cpu_usage_bits = u.cpu_bits;
        rec.memory_bytes = u.mem;
        rec.active_connections = u.active;
        rec.uptime_secs = u.uptime;
        rec.last_seen_secs = now;
        rec.desired_policy_version = desired_policy_version;
        rec.desired_software_version = self.desired_software.clone();
        rec.desired_seq = self.policy_seq;
        proof {
            let d = self@.devices.update(i as int, rec@);
            assert forall|a: int, b: int| 0 <= a < b < d.len() implies d[a].device_id != d[b].device_id by {
                assert(d[a].device_id == old(self)@.devices[a].device_id);
                assert(d[b].device_id == old(self)@.devices[b].device_id);
            }
        }
        let mut devs: Vec<DeviceRecord> = Vec::new();
        std::mem::swap(&mut devs, &mut self.devices);
        devs.set(i, rec);
        assert(devs@.map_values(|d: DeviceRecord| d@) =~= old(self)@.devices.update(i as int, rec@));
        self.devices = devs;
        assert(self@.devices =~= old(self)@.devices.update(
            i as int,
            refreshed_record(old(self)@.devices[i as int], old(self)@, heartbeat_view(u), now),
        ));
        Some((desired_policy_version, opt_policy_clone(&self.policy), self.desired_software.clone(), self.policy_seq))
    }

    /// Record a heartbeat, stamped with the wall clock.
    pub fn heartbeat_update(&mut self, u: HeartbeatUpdate) -> (r: Option<DesiredReply>)
        ensures
            find_device(old(self)@.devices, u.device_id@) == -1 ==> r is None && final(self)@ == old(self)@,
            find_device(old(self)@.devices, u.device_id@) >= 0 ==> {
                let i = find_device(old(self)@.devices, u.device_id@);
                &&& r is Some
                &&& r.unwrap().0 == desired_version(old(self)@)
                &&& policy_opt_view(r.unwrap().1) == old(self)@.policy
                &&& r.unwrap().2@ == old(self)@.desired_software
                &&& r.unwrap().3 == old(self)@.policy_seq
                &&& exists|now: u64|
                    final(self)@ == (FleetRegistryView {
                        devices: old(self)@.devices.update(
                            i,
                            #[trigger] refreshed_record(old(self)@.devices[i], old(self)@, heartbeat_view(u), now),
                        ),
                        ..old(self)@
                    })
            },
            ids_unique(old(self)@.devices) ==> ids_unique(final(self)@.devices),
    {
        let now = now_secs();
        self.heartbeat_at(u, now)
    }

    /// Operator pushes a new desired policy. Monotonic sequence;
    /// idempotent on an identical version (no bump, no duplicate rollout).
    /// Returns the sequence number in effect.
    pub fn set_policy(&mut self, policy: Policy) -> (seq: u64)
        requires
            old(self)@.policy_seq < u64::MAX,
        ensures
            final(self)@ == set_policy_step(old(self)@, policy@),
            seq == final(self)@.policy_seq,
    {
        proof {
            use_type_invariant(&*self);
        }
        if let Some(p) = &self.policy {
            if p.version == policy.version {
                return self.policy_seq;
            }
        }
        self.policy_seq = self.policy_seq + 1;
        self.policy = Some(policy);
        self.policy_seq
    }

    /// Set the desired software version, with the same rule as policies.
    pub fn set_desired_software(&mut self, version: String) -> (seq: u64)
        requires
            old(self)@.policy_seq < u64::MAX,
        ensures
            final(self)@ == set_software_step(old(self)@, version@),
            seq == final(self)@.policy_seq,
    {
        proof {
            use_type_invariant(&*self);
        }
        if self.desired_software == version {
            return self.policy_seq;
        }
        self.policy_seq = self.policy_seq + 1;
        self.desired_software = version;
        self.policy_seq
    }

    /// The desired policy and the sequence number in effect.
    pub fn current_policy(&self) -> (r: (Option<Policy>, u64))
        ensures
            policy_opt_view(r.0) == self@.policy,
            r.1 == self@.policy_seq,
    {
        (opt_policy_clone(&self.policy), self.policy_seq)
    }

    pub fn desired_software(&self) -> (r: String)
        ensures
            r@ == self@.desired_software,
    {
        self.desired_software.clone()
    }

    /// All device records, in registration order.
    pub fn devices(&self) -> (r: Vec<DeviceRecord>)
        ensures
            r@.map_values(|d: DeviceRecord| d@) == self@.devices,
            ids_unique(self@.devices),
    {
        proof {
            use_type_invariant(self);
        }
        let mut out: Vec<DeviceRecord> = Vec::new();
        let mut i: usize = 0;
        while i < self.devices.len()
            invariant
                i <= self.devices@.len(),
                out@.map_values(|d: DeviceRecord| d@) == self@.devices.subrange(0, i as int),
            decreases self.devices@.len() - i,
        {
            let c = self.devices[i].clone();
            let ghost prev = out@;
            out.push(c);
            assert(out@.map_values(|d: DeviceRecord| d@) =~= prev.map_values(|d: DeviceRecord| d@).push(c@));
            assert(self@.devices.subrange(0, i + 1) =~= self@.devices.subrange(0, i as int).push(self@.devices[i as int]));
            i = i + 1;
        }
        assert(self@.devices.subrange(0, i as int) == self@.devices);
        out
    }

    pub fn get(&self, device_id: &str) -> (r: Option<DeviceRecord>)
        ensures
            find_device(self@.devices, device_id@) == -1 ==> r is None,
            find_device(self@.devices, device_id@) >= 0 ==> r is Some && r->0@ == self@.devices[find_device(self@.devices, device_id@)],
    {
        proof {
            lemma_find_device_bounds(self@.devices, device_id@);
        }
        match self.position(device_id) {
            Some(i) => Some(self.devices[i].clone()),
            None => None,
        }
    }

    /// Serve a `Register` request: enrol (or re-enrol) the device and answer
    /// with the desired state in effect.
    pub fn serve_register(
        &mut self,
        device_id: String,
        hardware_id: String,
        software_version: String,
        reported_policy: String,
        reported_software: String,
    ) -> (reply: RegisterReply)
        ensures
            reply.accepted,
            !reply.has_pending_ota,
            reply.desired_policy_version == desired_version(old(self)@),
            policy_opt_view(reply.policy) == old(self)@.policy,
            reply.desired_software_version@ == old(self)@.desired_software,
            exists|now: u64|
                final(self)@ == (FleetRegistryView {
                    devices: upsert(
                        old(self)@.devices,
                        #[trigger] registered_record(
                            old(self)@,
                            device_id@,
                            hardware_id@,
                            software_version@,
                            reported_policy@,
                            reported_software@,
                            now,
                        ),
                    ),
                    ..old(self)@
                }),
            find_device(final(self)@.devices, device_id@) >= 0,
            ids_unique(old(self)@.devices) ==> ids_unique(final(self)@.devices),
    {
        let ghost id = device_id@;
        let rec = self.register(device_id, hardware_id, software_version, reported_policy, reported_software);
        proof {
            lemma_find_device_bounds(old(self)@.devices, id);
            let u = upsert(old(self)@.devices, rec@);
            lemma_find_device_bounds(u, id);
            if find_device(old(self)@.devices, id) >= 0 {
                assert(u[find_device(old(self)@.devices, id)].device_id == id);
            } else {
                assert(u[old(self)@.devices.len() as int].device_id == id);
            }
        }
        let (policy, _seq) = self.current_policy();
        RegisterReply {
            accepted: true,
            desired_policy_version: rec.desired_policy_version,
            policy,
            desired_software_version: rec.desired_software_version,
            has_pending_ota: false,
        }
    }

    /// Serve a `Heartbeat` request: `None` (not found: register first) for
    /// an unknown device; otherwise the record is refreshed and the answer
    /// carries the desired state.
    pub fn serve_heartbeat(&mut self, u: HeartbeatUpdate) -> (reply: Option<HeartbeatReply>)
        ensures
            find_device(old(self)@.devices, u.device_id@) == -1 ==> reply is None && final(self)@ == old(self)@,
            find_device(old(self)@.devices, u.device_id@) >= 0 ==> {
                &&& reply is Some
                &&& reply->0.has_policy
                &&& reply->0.desired_policy_version == desired_version(old(self)@)
                &&& policy_opt_view(reply->0.policy) == old(self)@.policy
                &&& reply->0.desired_software_version@ == old(self)@.desired_software
                &&& reply->0.desired_seq == old(self)@.policy_seq
                &&& exists|now: u64|
                    final(self)@ == (FleetRegistryView {
                        devices: old(self)@.devices.update(
                            find_device(old(self)@.devices, u.device_id@),
                            #[trigger] refreshed_record(
                                old(self)@.devices[find_device(old(self)@.devices, u.device_id@)],
                                old(self)@,
                                heartbeat_view(u),
                                now,
                            ),
                        ),
                        ..old(self)@
                    })
            },
            ids_unique(old(self)@.devices) ==> ids_unique(final(self)@.devices),
    {
        proof {
            lemma_find_device_bounds(self@.devices, u.device_id@);
        }
        let now = now_secs();
        match self.heartbeat_at(u, now) {
            Some(out) => {
                let (version, policy, software, seq) = out;
                Some(
                    HeartbeatReply {
                        desired_policy_version: version,
                        policy,
                        has_policy: true,
                        desired_software_version: software,
                        desired_seq: seq,
                    },
                )
            },
            None => None,
        }
    }

    /// Serve one report on a `Watch` stream: it refreshes the device like a
    /// heartbeat (an unknown device changes nothing), and the answer is the
    /// command for the edge's applied sequence and reported version.
    pub fn serve_watch_report(&mut self, u: HeartbeatUpdate, applied_seq: u64) -> (c: CloudCommand)
        ensures
            c@ == watch_reply(
                old(self)@.policy,
                old(self)@.policy_seq,
                applied_seq,
                vstd::utf8::encode_utf8(u.reported_policy@),
            ),
            find_device(old(self)@.devices, u.device_id@) == -1 ==> final(self)@ == old(self)@,
            find_device(old(self)@.devices, u.device_id@) >= 0 ==> exists|now: u64|
                final(self)@ == (FleetRegistryView {
                    devices: old(self)@.devices.update(
                        find_device(old(self)@.devices, u.device_id@),
                        #[trigger] refreshed_record(
                            old(self)@.devices[find_device(old(self)@.devices, u.device_id@)],
                            old(self)@,
                            heartbeat_view(u),
                            now,
                        ),
                    ),
                    ..old(self)@
                }),
            ids_unique(old(self)@.devices) ==> ids_unique(final(self)@.devices),
    {
        proof {
            lemma_find_device_bounds(self@.devices, u.device_id@);
        }
        let _ = self.serve_heartbeat(u);
        self.watch_command(applied_seq, u.reported_policy)
    }

    /// The command a `Watch` stream sends after an edge report: the policy
    /// when there is newer desired state than the edge applied and the
    /// edge reports another version, else a keep-alive.
    pub fn watch_command(&self, applied_seq: u64, reported_policy_version: &str) -> (c: CloudCommand)
        ensures
            c@ == watch_reply(self@.policy, self@.policy_seq, applied_seq, vstd::utf8::encode_utf8(reported_policy_version@)),
    {
        let (policy, seq) = self.current_policy();
        cloud_command(policy, seq, applied_seq, reported_policy_version)
    }
}

/// The answer to a `Register` request.
#[derive(Debug)]
pub struct RegisterReply {
    pub accepted: bool,
    pub desired_policy_version: u64,
    pub policy: Option<Policy>,
    pub desired_software_version: String,
    pub has_pending_ota: bool,
}

/// Connection limit of an operator-pushed policy that names none.
pub fn default_max_conn() -> (r: u32)
    ensures
        r == 512,
{
    512
}

/// Idle timeout of an operator-pushed policy that names none.
pub fn default_idle() -> (r: u64)
    ensures
        r == 300,
{
    300
}

/// Upstream of an operator-pushed policy that names none.
pub fn default_upstream() -> (r: String)
    ensures
        r@ == "upstream:18081"@,
{
    String::from_str("upstream:18081")
}

/// What the cloud sends down a `Watch` stream.
#[derive(Debug)]
pub enum CloudCommand {
    PolicyUpdate { seq: u64, policy: Policy },
    Noop { seq: u64 },
}

pub enum CloudCommandView {
    PolicyUpdate { seq: u64, policy: PolicyView },
    Noop { seq: u64 },
}

impl View for CloudCommand {
    type V = CloudCommandView;

    open spec fn view(&self) -> CloudCommandView {
        match self {
            CloudCommand::PolicyUpdate { seq, policy } => CloudCommandView::PolicyUpdate { seq: *seq, policy: policy@ },
            CloudCommand::Noop { seq } => CloudCommandView::Noop { seq: *seq },
        }
    }
}

/// Push the policy only when the desired sequence is newer than what the
/// edge applied and the edge reports a different version (an unparsable
/// version counts as 0); otherwise echo the applied sequence as a
/// keep-alive.
pub open spec fn watch_reply(policy: Option<PolicyView>, seq: u64, applied_seq: u64, reported_policy_version: Seq<u8>) -> CloudCommandView {
    let reported = match parse_u64(reported_policy_version) {
        Some(v) => v,
        None => 0,
    };
    match policy {
        Some(p) => if seq > applied_seq && reported != p.version {
            CloudCommandView::PolicyUpdate { seq, policy: p }
        } else {
            CloudCommandView::Noop { seq: applied_seq }
        },
        None => CloudCommandView::Noop { seq: applied_seq },
    }
}

/// The `Watch` reply for a desired policy and sequence.
pub fn cloud_command(policy: Option<Policy>, seq: u64, applied_seq: u64, reported_policy_version: &str) -> (c: CloudCommand)
    ensures
        c@ == watch_reply(policy_opt_view(policy), seq, applied_seq, vstd::utf8::encode_utf8(reported_policy_version@)),
{
    let reported = match parse_decimal_u64(reported_policy_version) {
        Some(v) => v,
        None => 0,
    };
    match policy {
        Some(p) => {
            if seq > applied_seq && reported != p.version {
                CloudCommand::PolicyUpdate { seq, policy: p }
            } else {
                CloudCommand::Noop { seq: applied_seq }
            }
        },
        None => CloudCommand::Noop { seq: applied_seq },
    }
}

} // verus!

verus! {

/// Pushing the same policy version again neither bumps the sequence nor
/// changes anything.
pub proof fn lemma_duplicate_policy_push_keeps_seq(r: FleetRegistryView, p: PolicyView, q: PolicyView)
    requires
        r.policy_seq < u64::MAX,
        q.version == p.version,
    ensures
        set_policy_step(set_policy_step(r, p), q) == set_policy_step(r, p),
        set_policy_step(set_policy_step(r, p), q).policy_seq == set_policy_step(r, p).policy_seq,
{
}

/// The desired sequence is monotonic: each push bumps it by exactly one
/// when it changes the desired state, and leaves it otherwise.
pub proof fn lemma_seq_monotonic(r: FleetRegistryView, p: PolicyView, version: Seq<char>)
    requires
        r.policy_seq < u64::MAX,
    ensures
        set_policy_step(r, p).policy_seq == r.policy_seq || set_policy_step(r, p).policy_seq == r.policy_seq + 1,
        set_policy_step(r, p).policy_seq == r.policy_seq <==> set_policy_step(r, p) == r,
        set_software_step(r, version).policy_seq == r.policy_seq || set_software_step(r, version).policy_seq
            == r.policy_seq + 1,
        set_software_step(r, version).policy_seq == r.policy_seq <==> set_software_step(r, version) == r,
{
}

/// Registration keeps every device at most once, and the registered record
/// is the one found for its device afterwards.
pub proof fn lemma_upsert_keeps_ids_unique(devs: Seq<DeviceRecordView>, rec: DeviceRecordView)
    requires
        ids_unique(devs),
    ensures
        ids_unique(upsert(devs, rec)),
        find_device(upsert(devs, rec), rec.device_id) >= 0,
        upsert(devs, rec)[find_device(upsert(devs, rec), rec.device_id)] == rec,
        upsert(devs, rec).len() == devs.len() || upsert(devs, rec).len() == devs.len() + 1,
{
    lemma_find_device_bounds(devs, rec.device_id);
    let u = upsert(devs, rec);
    lemma_find_device_bounds(u, rec.device_id);
    if find_device(devs, rec.device_id) >= 0 {
        let i = find_device(devs, rec.device_id);
        assert forall|a: int, b: int| 0 <= a < b < u.len() implies u[a].device_id != u[b].device_id by {
            if a == i {
                assert(devs[b].device_id != devs[i].device_id);
            } else if b == i {
                assert(devs[a].device_id != devs[i].device_id);
            }
        }
    } else {
        assert(u.last() == rec);
        assert forall|a: int, b: int| 0 <= a < b < u.len() implies u[a].device_id != u[b].device_id by {
            if b == devs.len() {
                assert(devs[a].device_id != rec.device_id);
            }
        }
    }
    assert(ids_unique(u));
    if find_device(u, rec.device_id) != find_device(devs, rec.device_id) && find_device(devs, rec.device_id) >= 0 {
        let i = find_device(devs, rec.device_id);
        assert(u[i].device_id == rec.device_id);
    }
    if find_device(devs, rec.device_id) < 0 {
        assert(u[devs.len() as int].device_id == rec.device_id);
        assert(find_device(u, rec.device_id) == devs.len());
    }
}

/// A roster reloaded from a snapshot holds every device at most once, and
/// every device reads as never seen.
pub proof fn lemma_reloaded_roster(records: Seq<DeviceRecordView>)
    ensures
        ids_unique(reloaded_roster(records)),
        forall|k: int| 0 <= k < reloaded_roster(records).len() ==> #[trigger] reloaded_roster(records)[k].last_seen_secs == 0,
    decreases records.len(),
{
    if records.len() > 0 {
        let pre = reloaded_roster(records.drop_last());
        lemma_reloaded_roster(records.drop_last());
        lemma_upsert_keeps_ids_unique(pre, reloaded_record(records.last()));
        lemma_find_device_bounds(pre, records.last().device_id);
        let u = reloaded_roster(records);
        assert forall|k: int| 0 <= k < u.len() implies #[trigger] u[k].last_seen_secs == 0 by {
            if k < pre.len() && k != find_device(pre, records.last().device_id) {
                assert(u[k] == pre[k]);
            }
        }
    }
}

/// A registry survives a restart through its snapshot: policy, sequence
/// and desired software come back unchanged, and so does the roster, in
/// order, with every device read as never seen. Every registry's roster
/// holds each device once (a type invariant of [`FleetRegistry`], which
/// [`FleetRegistry::snapshot`] states).
pub proof fn lemma_restart_keeps_registry(r: FleetRegistryView)
    requires
        ids_unique(r.devices),
    ensures
        ({
            let back = FleetRegistryView { devices: reloaded_roster(r.devices), ..r };
            &&& back.policy == r.policy
            &&& back.policy_seq == r.policy_seq
            &&& back.desired_software == r.desired_software
            &&& back.devices == r.devices.map_values(|d: DeviceRecordView| reloaded_record(d))
        }),
{
    lemma_reloaded_roster_of_unique(r.devices);
}

proof fn lemma_reloaded_roster_of_unique(devs: Seq<DeviceRecordView>)
    requires
        ids_unique(devs),
    ensures
        reloaded_roster(devs) == devs.map_values(|d: DeviceRecordView| reloaded_record(d)),
    decreases devs.len(),
{
    if devs.len() > 0 {
        let pre = devs.drop_last();
        assert(ids_unique(pre)) by {
            assert forall|i: int, j: int| 0 <= i < j < pre.len() implies pre[i].device_id != pre[j].device_id by {
                assert(pre[i] == devs[i] && pre[j] == devs[j]);
            }
        }
        lemma_reloaded_roster_of_unique(pre);
        let m = pre.map_values(|d: DeviceRecordView| reloaded_record(d));
        lemma_find_device_bounds(m, devs.last().device_id);
        if find_device(m, devs.last().device_id) >= 0 {
            let k = find_device(m, devs.last().device_id);
            assert(m[k].device_id == devs[k].device_id);
            assert(devs[k].device_id != devs[devs.len() - 1].device_id);
            assert(false);
        }
        assert(upsert(m, reloaded_record(devs.last())) =~= devs.map_values(|d: DeviceRecordView| reloaded_record(d)));
    }
}

/// A heartbeat refreshes the device's record: it was last seen at the
/// heartbeat's time, its reported state and usage are the heartbeat's, its
/// desired state is the registry's, and its identity and registration
/// data stay.
pub proof fn lemma_heartbeat_refreshes_record(r: FleetRegistryView, u: HeartbeatView, now: u64, i: int)
    requires
        0 <= i < r.devices.len(),
    ensures
        ({
            let old_rec = r.devices[i];
            let rec = refreshed_record(old_rec, r, u, now);
            &&& rec.last_seen_secs == now
            &&& rec.device_id == old_rec.device_id
            &&& rec.hardware_id == old_rec.hardware_id
            &&& rec.software_version == old_rec.software_version
            &&& rec.reported_policy_version == u.reported_policy
            &&& rec.reported_software_version == u.reported_software
            &&& rec.health == u.health
            &&& rec.cpu_usage_bits == u.cpu_bits
            &&& rec.memory_bytes == u.mem
            &&& rec.active_connections == u.active
            &&& rec.uptime_secs == u.uptime
            &&& rec.desired_policy_version == (match r.policy {
                Some(p) => p.version,
                None => 0,
            })
            &&& rec.desired_software_version == r.desired_software
            &&& rec.desired_seq == r.policy_seq
        }),
{
}

/// Register after a policy push and heartbeat: the registered record and
/// the heartbeat reply both carry the pushed version, so the edge
/// converges on it.
pub proof fn lemma_register_then_heartbeat_converges(
    r: FleetRegistryView,
    p: PolicyView,
    device_id: Seq<char>,
    hardware_id: Seq<char>,
    software_version: Seq<char>,
    reported_policy: Seq<char>,
    reported_software: Seq<char>,
    now: u64,
)
    requires
        r.policy_seq < u64::MAX,
    ensures
        ({
            let r1 = set_policy_step(r, p);
            let rec = registered_record(r1, device_id, hardware_id, software_version, reported_policy, reported_software, now);
            let r2 = FleetRegistryView { devices: upsert(r1.devices, rec), ..r1 };
            &&& rec.desired_policy_version == p.version
            &&& find_device(r2.devices, device_id) >= 0
            &&& desired_version(r2) == p.version
            &&& r2.policy->0.version == p.version
        }),
{
    let r1 = set_policy_step(r, p);
    let rec = registered_record(r1, device_id, hardware_id, software_version, reported_policy, reported_software, now);
    lemma_find_device_bounds(r1.devices, device_id);
    let u = upsert(r1.devices, rec);
    lemma_find_device_bounds(u, device_id);
    if find_device(r1.devices, device_id) >= 0 {
        assert(u[find_device(r1.devices, device_id)].device_id == device_id);
    } else {
        assert(u[r1.devices.len() as int].device_id == device_id);
    }
}

/// The cloud pushes a policy only when its sequence is newer than the
/// edge's applied one and the edge reports another version; an edge that
/// already reports the version gets a keep-alive.
pub proof fn lemma_watch_pushes_only_new_state(policy: Option<PolicyView>, seq: u64, applied_seq: u64, reported: Seq<u8>)
    ensures
        (watch_reply(policy, seq, applied_seq, reported) is PolicyUpdate) ==> (policy is Some),
        (watch_reply(policy, seq, applied_seq, reported) is PolicyUpdate) ==> seq > applied_seq,
        (watch_reply(policy, seq, applied_seq, reported) is PolicyUpdate) ==> parse_u64(reported) != Some(
            policy->0.version,
        ),
        seq <= applied_seq ==> watch_reply(policy, seq, applied_seq, reported) == (CloudCommandView::Noop {
            seq: applied_seq,
        }),
        (policy is Some && parse_u64(reported) == Some(policy->0.version)) ==> watch_reply(policy, seq, applied_seq, reported)
            == (CloudCommandView::Noop { seq: applied_seq }),
{
}

} // verus!
