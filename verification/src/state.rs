//! Desired vs reported state reconciliation.
//!
//! The control plane owns *desired* state (a monotonic `seq` plus
//! versions); the edge owns *reported* state and a last-known-good copy of
//! the policy. Delivery is at-least-once with idempotent transitions:
//! duplicates and stale messages are safe to feed again, only the highest
//! `seq` wins.

use vstd::prelude::*;
use vstd::std_specs::cmp::PartialEqSpecImpl;

verus! {

/// Versioned policy the edge enforces locally.
#[derive(Debug)]
pub struct Policy {
    pub version: u64,
    pub max_connections: u32,
    pub idle_timeout_secs: u64,
    pub default_upstream: String,
    pub rules_json: String,
}

/// Mathematical model of a [`Policy`].
pub struct PolicyView {
    pub version: u64,
    pub max_connections: u32,
    pub idle_timeout_secs: u64,
    pub default_upstream: Seq<char>,
    pub rules_json: Seq<char>,
}

impl View for Policy {
    type V = PolicyView;

    open spec fn view(&self) -> PolicyView {
        PolicyView {
            version: self.version,
            max_connections: self.max_connections,
            idle_timeout_secs: self.idle_timeout_secs,
            default_upstream: self.default_upstream@,
            rules_json: self.rules_json@,
        }
    }
}

impl Clone for Policy {
    fn clone(&self) -> (r: Self)
        ensures
            r == *self,
    {
        Policy {
            version: self.version,
            max_connections: self.max_connections,
            idle_timeout_secs: self.idle_timeout_secs,
            default_upstream: self.default_upstream.clone(),
            rules_json: self.rules_json.clone(),
        }
    }
}

impl PartialEq for Policy {
    fn eq(&self, other: &Self) -> (r: bool) {
        self.version == other.version && self.max_connections == other.max_connections
            && self.idle_timeout_secs == other.idle_timeout_secs
            && self.default_upstream == other.default_upstream
            && self.rules_json == other.rules_json
    }
}

impl PartialEqSpecImpl for Policy {
    open spec fn obeys_eq_spec() -> bool {
        true
    }

    open spec fn eq_spec(&self, other: &Policy) -> bool {
        self@ == other@
    }
}

impl Eq for Policy {}

impl Default for Policy {
    /// Version 0 with 512 connections, a 300 s idle timeout, the local demo
    /// upstream and an empty rule set.
    fn default() -> (r: Self)
        ensures
            r@ == default_policy(),
    {
        Policy {
            version: 0,
            max_connections: 512,
            idle_timeout_secs: 300,
            default_upstream: String::from_str("127.0.0.1:18081"),
            rules_json: String::from_str("{}"),
        }
    }
}

/// The policy an edge enforces before it has ever heard from the cloud.
pub open spec fn default_policy() -> PolicyView {
    PolicyView {
        version: 0,
        max_connections: 512,
        idle_timeout_secs: 300,
        default_upstream: "127.0.0.1:18081"@,
        rules_json: "{}"@,
    }
}

/// What the cloud wants.
#[derive(Debug)]
pub struct DesiredState {
    pub seq: u64,
    pub policy: Policy,
    pub software_version: String,
}

pub struct DesiredStateView {
    pub seq: u64,
    pub policy: PolicyView,
    pub software_version: Seq<char>,
}

impl View for DesiredState {
    type V = DesiredStateView;

    open spec fn view(&self) -> DesiredStateView {
        DesiredStateView {
            seq: self.seq,
            policy: self.policy@,
            software_version: self.software_version@,
        }
    }
}

impl Clone for DesiredState {
    fn clone(&self) -> (r: Self)
        ensures
            r == *self,
    {
        DesiredState {
            seq: self.seq,
            policy: self.policy.clone(),
            software_version: self.software_version.clone(),
        }
    }
}

impl PartialEq for DesiredState {
    fn eq(&self, other: &Self) -> (r: bool) {
        self.seq == other.seq && self.policy == other.policy
            && self.software_version == other.software_version
    }
}

impl PartialEqSpecImpl for DesiredState {
    open spec fn obeys_eq_spec() -> bool {
        true
    }

    open spec fn eq_spec(&self, other: &DesiredState) -> bool {
        self@ == other@
    }
}

impl Eq for DesiredState {}

/// What the edge has actually applied.
#[derive(Debug)]
pub struct ReportedState {
    pub policy_version: u64,
    pub software_version: String,
    pub applied_seq: u64,
}

pub struct ReportedStateView {
    pub policy_version: u64,
    pub software_version: Seq<char>,
    pub applied_seq: u64,
}

impl View for ReportedState {
    type V = ReportedStateView;

    open spec fn view(&self) -> ReportedStateView {
        ReportedStateView {
            policy_version: self.policy_version,
            software_version: self.software_version@,
            applied_seq: self.applied_seq,
        }
    }
}

impl Clone for ReportedState {
    fn clone(&self) -> (r: Self)
        ensures
            r == *self,
    {
        ReportedState {
            policy_version: self.policy_version,
            software_version: self.software_version.clone(),
            applied_seq: self.applied_seq,
        }
    }
}

impl PartialEq for ReportedState {
    fn eq(&self, other: &Self) -> (r: bool) {
        self.policy_version == other.policy_version && self.software_version
            == other.software_version && self.applied_seq == other.applied_seq
    }
}

impl PartialEqSpecImpl for ReportedState {
    open spec fn obeys_eq_spec() -> bool {
        true
    }

    open spec fn eq_spec(&self, other: &ReportedState) -> bool {
        self@ == other@
    }
}

impl Eq for ReportedState {}

impl Default for ReportedState {
    /// Nothing applied yet: version 0, empty software version, seq 0.
    fn default() -> (r: Self)
        ensures
            r@ == (ReportedStateView { policy_version: 0, software_version: Seq::empty(), applied_seq: 0 }),
    {
        ReportedState { policy_version: 0, software_version: String::new(), applied_seq: 0 }
    }
}

/// Idempotent action derived from diffing desired against reported state.
#[derive(Debug)]
pub enum ReconcileAction {
    /// Already converged, or the incoming message is stale or a duplicate.
    Noop,
    /// Apply this policy version (safe to apply repeatedly).
    ApplyPolicy(Policy),
    /// Record a pending software update target; the update manager runs it.
    StageOta { version: String },
}

pub enum ReconcileActionView {
    Noop,
    ApplyPolicy(PolicyView),
    StageOta { version: Seq<char> },
}

impl View for ReconcileAction {
    type V = ReconcileActionView;

    open spec fn view(&self) -> ReconcileActionView {
        match self {
            ReconcileAction::Noop => ReconcileActionView::Noop,
            ReconcileAction::ApplyPolicy(p) => ReconcileActionView::ApplyPolicy(p@),
            ReconcileAction::StageOta { version } => ReconcileActionView::StageOta {
                version: version@,
            },
        }
    }
}

impl Clone for ReconcileAction {
    fn clone(&self) -> (r: Self)
        ensures
            r == *self,
    {
        match self {
            ReconcileAction::Noop => ReconcileAction::Noop,
            ReconcileAction::ApplyPolicy(p) => ReconcileAction::ApplyPolicy(p.clone()),
            ReconcileAction::StageOta { version } => ReconcileAction::StageOta {
                version: version.clone(),
            },
        }
    }
}

impl PartialEq for ReconcileAction {
    fn eq(&self, other: &Self) -> (r: bool) {
        match self {
            ReconcileAction::Noop => match other {
                ReconcileAction::Noop => true,
                _ => false,
            },
            ReconcileAction::ApplyPolicy(a) => match other {
                ReconcileAction::ApplyPolicy(b) => a.eq(b),
                _ => false,
            },
            ReconcileAction::StageOta { version: a } => match other {
                ReconcileAction::StageOta { version: b } => a.eq(b),
                _ => false,
            },
        }
    }
}

impl PartialEqSpecImpl for ReconcileAction {
    open spec fn obeys_eq_spec() -> bool {
        true
    }

    open spec fn eq_spec(&self, other: &ReconcileAction) -> bool {
        self@ == other@
    }
}

impl Eq for ReconcileAction {}

/// The action that brings `reported` towards `desired`.
///
/// A message whose `seq` is not newer than what was applied is ignored, and
/// so is an invalid policy (version 0, which means "no policy"): the
/// reported version stays. Otherwise a differing policy version is applied
/// first, and a differing, non-empty software version is staged next.
pub open spec fn reconcile(reported: ReportedStateView, desired: DesiredStateView) -> ReconcileActionView {
    if desired.seq <= reported.applied_seq || desired.policy.version == 0 {
        ReconcileActionView::Noop
    } else if desired.policy.version != reported.policy_version {
        ReconcileActionView::ApplyPolicy(desired.policy)
    } else if desired.software_version != reported.software_version
        && desired.software_version.len() > 0 {
        ReconcileActionView::StageOta { version: desired.software_version }
    } else {
        ReconcileActionView::Noop
    }
}

/// Reported state after recording `policy` as applied under `seq`: the
/// policy version is taken over and the applied sequence never goes back.
pub open spec fn applied(reported: ReportedStateView, policy: PolicyView, seq: u64) -> ReportedStateView {
    ReportedStateView {
        policy_version: policy.version,
        software_version: reported.software_version,
        applied_seq: if seq > reported.applied_seq { seq } else { reported.applied_seq },
    }
}

/// Whether recording `policy` under `seq` changes anything.
pub open spec fn apply_changes(reported: ReportedStateView, policy: PolicyView, seq: u64) -> bool {
    reported.policy_version != policy.version || seq > reported.applied_seq
}

impl ReportedState {
    /// Pure diff. Never fails; a stale `seq` yields `Noop`, so callers can
    /// feed duplicates and out-of-order redeliveries.
    pub fn diff(&self, desired: &DesiredState) -> (r: ReconcileAction)
        ensures
            r@ == reconcile(self@, desired@),
    {
        if desired.seq <= self.applied_seq && desired.policy.version == self.policy_version
            && desired.software_version == self.software_version {
            return ReconcileAction::Noop;
        }
        if desired.seq <= self.applied_seq || desired.policy.version == 0 {
            return ReconcileAction::Noop;
        }
        if desired.policy.version != self.policy_version {
            return ReconcileAction::ApplyPolicy(desired.policy.clone());
        }
        if !(desired.software_version == self.software_version)
            && !desired.software_version.as_str().is_empty() {
            return ReconcileAction::StageOta { version: desired.software_version.clone() };
        }
        ReconcileAction::Noop
    }

    /// Idempotent apply of a policy. Returns true if the state changed.
    pub fn apply_policy(&mut self, policy: &Policy, seq: u64) -> (changed: bool)
        ensures
            final(self)@ == applied(old(self)@, policy@, seq),
            changed == apply_changes(old(self)@, policy@, seq),
    {
        let mut changed = false;
        if self.policy_version != policy.version {
            self.policy_version = policy.version;
            changed = true;
        }
        if seq > self.applied_seq {
            self.applied_seq = seq;
            changed = true;
        }
        changed
    }
}

} // verus!

verus! {

/// Refusal of a desired state that is not newer than what was applied.
#[derive(Debug)]
pub enum StateError {
    Stale { got: u64, applied: u64 },
}

/// Last-known-good store. The dataplane reads it while the cloud is
/// unreachable, which is what makes partition tolerance possible. Writing
/// it to disk is the caller's business; every method says whether the
/// store changed in a way that has to be persisted.
#[derive(Debug)]
pub struct StateStore {
    pub desired: Option<DesiredState>,
    pub reported: ReportedState,
    pub last_good_policy: Policy,
}

pub struct StateStoreView {
    pub desired: Option<DesiredStateView>,
    pub reported: ReportedStateView,
    pub last_good_policy: PolicyView,
}

pub open spec fn desired_view(d: Option<DesiredState>) -> Option<DesiredStateView> {
    match d {
        Some(d) => Some(d@),
        None => None,
    }
}

impl View for StateStore {
    type V = StateStoreView;

    open spec fn view(&self) -> StateStoreView {
        StateStoreView {
            desired: desired_view(self.desired),
            reported: self.reported@,
            last_good_policy: self.last_good_policy@,
        }
    }
}

/// Whether `desired` is newer than the snapshot the store tracks.
pub open spec fn is_newer(current: Option<DesiredStateView>, desired: DesiredStateView) -> bool {
    match current {
        Some(t) => desired.seq > t.seq,
        None => true,
    }
}

/// The store after ingesting `desired`: only the newest snapshot is kept,
/// and nothing is applied.
pub open spec fn ingested(s: StateStoreView, desired: DesiredStateView) -> StateStoreView {
    StateStoreView {
        desired: if is_newer(s.desired, desired) { Some(desired) } else { s.desired },
        ..s
    }
}

/// The store after recording `policy` as applied under `seq`.
pub open spec fn marked_applied(s: StateStoreView, policy: PolicyView, seq: u64) -> StateStoreView {
    StateStoreView {
        reported: applied(s.reported, policy, seq),
        last_good_policy: policy,
        ..s
    }
}

impl StateStore {
    /// The store of an edge that has never synced: no desired snapshot,
    /// nothing applied, default policy as last-known-good.
    pub fn empty() -> (r: Self)
        ensures
            r@.desired is None,
            r@.reported == (ReportedStateView { policy_version: 0, software_version: Seq::empty(), applied_seq: 0 }),
            r@.last_good_policy == default_policy(),
    {
        StateStore { desired: None, reported: ReportedState::default(), last_good_policy: Policy::default() }
    }

    /// Ingest desired state and return the action to take, together with
    /// whether the kept snapshot was replaced (and so has to be
    /// persisted). A stale `seq` is a `Noop`, not an error, to keep
    /// redelivery safe; see [`StateStore::ingest_strict`].
    pub fn ingest(&mut self, desired: DesiredState) -> (r: (ReconcileAction, bool))
        ensures
            r.0@ == reconcile(old(self)@.reported, desired@),
            r.1 == is_newer(old(self)@.desired, desired@),
            final(self)@ == ingested(old(self)@, desired@),
    {
        let action = self.reported.diff(&desired);
        let newer = match &self.desired {
            Some(d) => desired.seq > d.seq,
            None => true,
        };
        if newer {
            self.desired = Some(desired);
        }
        (action, newer)
    }

    /// Like [`StateStore::ingest`], but a desired state whose `seq` is not
    /// newer than the applied one is refused and leaves the store as it was.
    pub fn ingest_strict(&mut self, desired: DesiredState) -> (r: Result<(ReconcileAction, bool), StateError>)
        ensures
            desired.seq <= old(self)@.reported.applied_seq ==> {
                &&& r matches Err(StateError::Stale { got, applied })
                &&& got == desired.seq && applied == old(self)@.reported.applied_seq
                &&& final(self)@ == old(self)@
            },
            desired.seq > old(self)@.reported.applied_seq ==> {
                &&& r matches Ok((action, newer))
                &&& action@ == reconcile(old(self)@.reported, desired@)
                &&& newer == is_newer(old(self)@.desired, desired@)
                &&& final(self)@ == ingested(old(self)@, desired@)
            },
    {
        if desired.seq <= self.reported.applied_seq {
            return Err(StateError::Stale { got: desired.seq, applied: self.reported.applied_seq });
        }
        Ok(self.ingest(desired))
    }

    /// Mark a policy as applied and make it the last-known-good one.
    /// Idempotent: recording the same version and seq again changes nothing
    /// and returns false. The caller persists the store afterwards either
    /// way, for crash safety.
    pub fn mark_policy_applied(&mut self, policy: &Policy, seq: u64) -> (changed: bool)
        ensures
            changed == apply_changes(old(self)@.reported, policy@, seq),
            final(self)@ == marked_applied(old(self)@, policy@, seq),
    {
        let changed = self.reported.apply_policy(policy, seq);
        self.last_good_policy = policy.clone();
        changed
    }
}

} // verus!

verus! {

/// One at-least-once delivery as the edge agent handles it: ingest the
/// desired state and, when the action is to apply a policy, record it as
/// applied under the delivery's `seq`.
pub open spec fn deliver(s: StateStoreView, d: DesiredStateView) -> StateStoreView {
    match reconcile(s.reported, d) {
        ReconcileActionView::ApplyPolicy(p) => marked_applied(ingested(s, d), p, d.seq),
        _ => ingested(s, d),
    }
}

/// A sequence of deliveries, in order.
pub open spec fn deliver_all(s: StateStoreView, ds: Seq<DesiredStateView>) -> StateStoreView
    decreases ds.len(),
{
    if ds.len() == 0 {
        s
    } else {
        deliver(deliver_all(s, ds.drop_last()), ds.last())
    }
}

/// Once a desired state has been applied, delivering it again is a no-op:
/// the edge has converged.
pub proof fn lemma_apply_then_converged(reported: ReportedStateView, desired: DesiredStateView)
    ensures
        reconcile(applied(reported, desired.policy, desired.seq), desired) == ReconcileActionView::Noop,
{
}

/// Applying the same policy under the same seq twice changes nothing the
/// second time.
pub proof fn lemma_apply_idempotent(reported: ReportedStateView, policy: PolicyView, seq: u64)
    ensures
        applied(applied(reported, policy, seq), policy, seq) == applied(reported, policy, seq),
        !apply_changes(applied(reported, policy, seq), policy, seq),
{
}

/// An invalid policy (version 0) is a no-op: nothing is applied, so the
/// reported version stays.
pub proof fn lemma_invalid_policy_is_noop(reported: ReportedStateView, desired: DesiredStateView)
    requires
        desired.policy.version == 0,
    ensures
        reconcile(reported, desired) == ReconcileActionView::Noop,
{
}

/// Reconciliation only ever asks for work that is needed: a policy is
/// applied only for a newer, valid, different policy version, and then it
/// is the desired policy; a software update is staged only for a newer,
/// non-empty, different software version, and then it is the desired one.
/// An edge that already runs the desired policy version and software
/// version has nothing to do, whatever the seq; and a newer, valid,
/// different policy version is always applied.
pub proof fn lemma_reconcile_does_only_needed_work(reported: ReportedStateView, desired: DesiredStateView)
    ensures
        reconcile(reported, desired) matches ReconcileActionView::ApplyPolicy(p) ==> {
            &&& desired.seq > reported.applied_seq
            &&& desired.policy.version != 0
            &&& desired.policy.version != reported.policy_version
            &&& p == desired.policy
        },
        reconcile(reported, desired) matches ReconcileActionView::StageOta { version } ==> {
            &&& desired.seq > reported.applied_seq
            &&& desired.software_version != reported.software_version
            &&& desired.software_version.len() > 0
            &&& version == desired.software_version
        },
        desired.policy.version == reported.policy_version && desired.software_version == reported.software_version
            ==> reconcile(reported, desired) == ReconcileActionView::Noop,
        desired.seq > reported.applied_seq && desired.policy.version != 0 && desired.policy.version
            != reported.policy_version ==> reconcile(reported, desired) == ReconcileActionView::ApplyPolicy(
            desired.policy,
        ),
{
}

/// A desired state whose seq is not newer than the applied one is ignored.
pub proof fn lemma_stale_is_noop(reported: ReportedStateView, desired: DesiredStateView)
    requires
        desired.seq <= reported.applied_seq,
    ensures
        reconcile(reported, desired) == ReconcileActionView::Noop,
{
}

/// The applied seq never goes back, and covers the seq just applied.
pub proof fn lemma_applied_seq_monotone(reported: ReportedStateView, policy: PolicyView, seq: u64)
    ensures
        applied(reported, policy, seq).applied_seq >= reported.applied_seq,
        applied(reported, policy, seq).applied_seq >= seq,
{
}

/// Ingesting never applies anything and keeps the newest snapshot: the
/// kept seq is the larger of the old one and the incoming one.
pub proof fn lemma_ingest_keeps_newest(s: StateStoreView, d: DesiredStateView)
    ensures
        ingested(s, d).reported == s.reported,
        ingested(s, d).last_good_policy == s.last_good_policy,
        ingested(s, d).desired is Some,
        ingested(s, d).desired->0.seq >= d.seq,
        s.desired is Some ==> ingested(s, d).desired->0.seq >= s.desired->0.seq,
{
}

/// A duplicate or stale delivery leaves the store exactly as it was, once
/// the original delivery has been handled.
pub proof fn lemma_duplicate_delivery_is_noop(s: StateStoreView, d: DesiredStateView)
    ensures
        deliver(deliver(s, d), d) == deliver(s, d),
{
}

/// A delivery that is stale for the applied state never changes what is
/// reported or the last-known-good policy.
pub proof fn lemma_stale_delivery_keeps_reported(s: StateStoreView, d: DesiredStateView)
    requires
        d.seq <= s.reported.applied_seq,
    ensures
        deliver(s, d).reported == s.reported,
        deliver(s, d).last_good_policy == s.last_good_policy,
{
}

proof fn lemma_deliver_all_bounds(s: StateStoreView, ds: Seq<DesiredStateView>)
    ensures
        deliver_all(s, ds).reported.applied_seq >= s.reported.applied_seq,
        deliver_all(s, ds).reported.applied_seq == s.reported.applied_seq
            || exists|j: int| 0 <= j < ds.len() && deliver_all(s, ds).reported.applied_seq == ds[j].seq,
        deliver_all(s, ds).reported.policy_version == s.reported.policy_version
            || exists|j: int| 0 <= j < ds.len() && deliver_all(s, ds).reported.policy_version == ds[j].policy.version,
    decreases ds.len(),
{
    if ds.len() > 0 {
        let pre = ds.drop_last();
        lemma_deliver_all_bounds(s, pre);
        let mid = deliver_all(s, pre);
        if mid.reported.applied_seq != s.reported.applied_seq {
            let j = choose|j: int| 0 <= j < pre.len() && mid.reported.applied_seq == pre[j].seq;
            assert(ds[j] == pre[j]);
        }
        if mid.reported.policy_version != s.reported.policy_version {
            let j = choose|j: int| 0 <= j < pre.len() && mid.reported.policy_version == pre[j].policy.version;
            assert(ds[j] == pre[j]);
        }
        assert(ds.last() == ds[ds.len() - 1]);
    }
}

proof fn lemma_deliver_all_split(s: StateStoreView, ds: Seq<DesiredStateView>, k: int)
    requires
        0 <= k <= ds.len(),
    ensures
        deliver_all(s, ds) == deliver_all(deliver_all(s, ds.subrange(0, k)), ds.subrange(k, ds.len() as int)),
    decreases ds.len(),
{
    if k < ds.len() {
        let pre = ds.drop_last();
        lemma_deliver_all_split(s, pre, k);
        assert(pre.subrange(0, k) == ds.subrange(0, k));
        let tail = ds.subrange(k, ds.len() as int);
        assert(tail.drop_last() == pre.subrange(k, pre.len() as int));
        assert(tail.last() == ds.last());
    } else {
        assert(ds.subrange(0, k) == ds);
        assert(ds.subrange(k, ds.len() as int).len() == 0);
    }
}

proof fn lemma_stale_tail(s: StateStoreView, ds: Seq<DesiredStateView>)
    requires
        forall|j: int| 0 <= j < ds.len() ==> ds[j].seq <= s.reported.applied_seq,
    ensures
        deliver_all(s, ds).reported == s.reported,
    decreases ds.len(),
{
    if ds.len() > 0 {
        lemma_stale_tail(s, ds.drop_last());
        assert(ds.last() == ds[ds.len() - 1]);
    }
}

/// Only the highest seq wins: when the delivery with the strictly highest
/// seq (above the applied one) carries a valid policy version that neither
/// the store nor any earlier delivery had, that version is what the edge
/// reports after all deliveries, whatever order they arrived in.
pub proof fn lemma_highest_seq_wins(s: StateStoreView, ds: Seq<DesiredStateView>, k: int)
    requires
        0 <= k < ds.len(),
        ds[k].seq > s.reported.applied_seq,
        forall|j: int| 0 <= j < ds.len() && j != k ==> ds[j].seq < ds[k].seq,
        ds[k].policy.version != s.reported.policy_version,
        ds[k].policy.version != 0,
        forall|j: int| 0 <= j < k ==> ds[j].policy.version != ds[k].policy.version,
    ensures
        deliver_all(s, ds).reported.policy_version == ds[k].policy.version,
        deliver_all(s, ds).reported.applied_seq == ds[k].seq,
{
    let pre = ds.subrange(0, k);
    lemma_deliver_all_bounds(s, pre);
    let mid = deliver_all(s, pre);
    if mid.reported.applied_seq != s.reported.applied_seq {
        let j = choose|j: int| 0 <= j < pre.len() && mid.reported.applied_seq == pre[j].seq;
        assert(pre[j] == ds[j]);
    }
    if mid.reported.policy_version != s.reported.policy_version {
        let j = choose|j: int| 0 <= j < pre.len() && mid.reported.policy_version == pre[j].policy.version;
        assert(pre[j] == ds[j]);
    }
    let after = deliver(mid, ds[k]);
    assert(after.reported.applied_seq == ds[k].seq);
    let rest = ds.subrange(k + 1, ds.len() as int);
    assert forall|j: int| 0 <= j < rest.len() implies rest[j].seq <= after.reported.applied_seq by {
        assert(rest[j] == ds[k + 1 + j]);
    }
    lemma_stale_tail(after, rest);
    lemma_deliver_all_split(s, ds, k + 1);
    let upto = ds.subrange(0, k + 1);
    assert(upto.drop_last() == pre);
    assert(upto.last() == ds[k]);
}

} // verus!
