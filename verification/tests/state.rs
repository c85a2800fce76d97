use edgewarden::state::{DesiredState, Policy, ReconcileAction, ReportedState, StateError, StateStore};

fn policy(v: u64) -> Policy {
    Policy { version: v, ..Policy::default() }
}

#[test]
fn mismatch_triggers_apply_then_converges() {
    let reported = ReportedState { policy_version: 39, software_version: "1.0.0".into(), applied_seq: 1 };
    let desired = DesiredState { seq: 2, policy: policy(42), software_version: "1.0.0".into() };
    let action = reported.diff(&desired);
    assert_eq!(action, ReconcileAction::ApplyPolicy(policy(42)));

    let mut r2 = reported.clone();
    r2.apply_policy(&policy(42), 2);
    assert_eq!(r2.diff(&desired), ReconcileAction::Noop);
}

#[test]
fn duplicate_delivery_is_noop() {
    let mut r = ReportedState { policy_version: 42, software_version: "1.0.0".into(), applied_seq: 5 };
    let desired = DesiredState { seq: 5, policy: policy(42), software_version: "1.0.0".into() };
    assert_eq!(r.diff(&desired), ReconcileAction::Noop);
    assert!(!r.apply_policy(&policy(42), 5));
    assert_eq!(r.policy_version, 42);
}

#[test]
fn stale_seq_is_ignored() {
    let r = ReportedState { policy_version: 42, software_version: "1.0.0".into(), applied_seq: 10 };
    let stale = DesiredState { seq: 9, policy: policy(41), software_version: "1.0.0".into() };
    assert_eq!(r.diff(&stale), ReconcileAction::Noop);
}

#[test]
fn store_survives_restart_with_last_good() {
    let mut s = StateStore::empty();
    let desired = DesiredState { seq: 3, policy: policy(7), software_version: "1.0.0".into() };
    let (action, newer) = s.ingest(desired);
    assert!(newer);
    assert!(matches!(action, ReconcileAction::ApplyPolicy(_)));
    assert!(s.mark_policy_applied(&policy(7), 3));
    // A restart keeps exactly what was persisted: the three fields.
    let s2 = StateStore {
        desired: s.desired.clone(),
        reported: s.reported.clone(),
        last_good_policy: s.last_good_policy.clone(),
    };
    drop(s);
    assert_eq!(s2.last_good_policy.version, 7);
    assert_eq!(s2.reported.policy_version, 7);
}

#[test]
fn reconnect_reconciliation_applies_newest_only() {
    let mut s = StateStore::empty();
    for (seq, ver) in [(1, 10), (2, 11), (2, 11), (1, 9)] {
        let d = DesiredState { seq, policy: policy(ver), software_version: String::new() };
        let (a, _) = s.ingest(d);
        if let ReconcileAction::ApplyPolicy(p) = a {
            s.mark_policy_applied(&p, seq);
        }
    }
    assert_eq!(s.reported.policy_version, 11);
}

#[test]
fn duplicate_and_stale_commands_are_safe() {
    let mut s = StateStore::empty();
    let d = DesiredState { seq: 5, policy: policy(9), software_version: String::new() };
    let (a1, _) = s.ingest(d.clone());
    assert!(matches!(a1, ReconcileAction::ApplyPolicy(_)));
    s.mark_policy_applied(&policy(9), 5);
    let (a2, newer) = s.ingest(d);
    assert_eq!(a2, ReconcileAction::Noop);
    assert!(!newer);
    let stale = DesiredState { seq: 4, policy: policy(8), software_version: String::new() };
    let (a3, _) = s.ingest(stale);
    assert_eq!(a3, ReconcileAction::Noop);
    assert_eq!(s.reported.policy_version, 9);
}

#[test]
fn software_change_is_staged() {
    let r = ReportedState { policy_version: 4, software_version: "1.0.0".into(), applied_seq: 1 };
    let d = DesiredState { seq: 2, policy: policy(4), software_version: "1.1.0".into() };
    assert_eq!(r.diff(&d), ReconcileAction::StageOta { version: "1.1.0".into() });
    let empty_sw = DesiredState { seq: 2, policy: policy(4), software_version: String::new() };
    assert_eq!(r.diff(&empty_sw), ReconcileAction::Noop);
}

#[test]
fn strict_ingest_refuses_stale() {
    let mut s = StateStore::empty();
    s.mark_policy_applied(&policy(3), 6);
    let stale = DesiredState { seq: 6, policy: policy(4), software_version: String::new() };
    match s.ingest_strict(stale) {
        Err(StateError::Stale { got, applied }) => {
            assert_eq!(got, 6);
            assert_eq!(applied, 6);
        }
        Ok(_) => panic!("stale seq accepted"),
    }
    assert!(s.desired.is_none());
    let fresh = DesiredState { seq: 7, policy: policy(4), software_version: String::new() };
    let (a, newer) = s.ingest_strict(fresh).unwrap();
    assert!(newer);
    assert_eq!(a, ReconcileAction::ApplyPolicy(policy(4)));
}

#[test]
fn default_policy_values() {
    let p = Policy::default();
    assert_eq!(p.version, 0);
    assert_eq!(p.max_connections, 512);
    assert_eq!(p.idle_timeout_secs, 300);
    assert_eq!(p.default_upstream, "127.0.0.1:18081");
    assert_eq!(p.rules_json, "{}");
}

#[test]
fn invalid_version_zero_policy_is_a_noop() {
    let mut r = ReportedState { policy_version: 42, software_version: "1.0.0".into(), applied_seq: 3 };
    let d = DesiredState { seq: 9, policy: policy(0), software_version: "1.0.0".into() };
    assert_eq!(r.diff(&d), ReconcileAction::Noop);
    let mut s = StateStore::empty();
    s.reported = r.clone();
    let (action, _) = s.ingest(d);
    assert_eq!(action, ReconcileAction::Noop);
    assert_eq!(s.reported.policy_version, 42);
    r.apply_policy(&policy(42), 3);
    assert_eq!(r.policy_version, 42);
}
