use edgewarden::registry::{
    cloud_command, default_idle, default_max_conn, default_upstream, CloudCommand, DeviceRecord,
    FleetRegistry, HeartbeatUpdate, policy_from_snapshot, policy_to_snapshot,
};
use edgewarden::state::Policy;

fn policy(version: u64, max: u32, idle: u64, up: &str) -> Policy {
    Policy {
        version,
        max_connections: max,
        idle_timeout_secs: idle,
        default_upstream: up.into(),
        rules_json: "{}".into(),
    }
}

fn hb<'a>(id: &'a str, rp: &'a str) -> HeartbeatUpdate<'a> {
    HeartbeatUpdate {
        device_id: id,
        reported_policy: rp,
        reported_software: "1.0.0",
        health: 1,
        cpu_bits: 0.1f64.to_bits(),
        mem: 100,
        active: 5,
        uptime: 60,
    }
}

#[test]
fn register_then_heartbeat_converges() {
    let mut r = FleetRegistry::new();
    r.set_policy(policy(42, 100, 60, "127.0.0.1:9"));
    let rec = r.register("d1".into(), "hw1".into(), "1.0.0".into(), "39".into(), "1.0.0".into());
    assert_eq!(rec.desired_policy_version, 42);
    let reply = r.heartbeat_update(hb("d1", "42")).unwrap();
    assert_eq!(reply.0, 42);
    assert_eq!(reply.1.unwrap().version, 42);
    let d = r.get("d1").unwrap();
    assert_eq!(d.reported_policy_version, "42");
    assert_eq!(d.active_connections, 5);
    assert_eq!(f64::from_bits(d.cpu_usage_bits), 0.1);
}

#[test]
fn duplicate_policy_push_does_not_bump_seq() {
    let mut r = FleetRegistry::new();
    let p = policy(7, 10, 10, "x");
    let s1 = r.set_policy(p.clone());
    let s2 = r.set_policy(p);
    assert_eq!(s1, s2);
    assert_eq!(s1, 1);
    assert_eq!(r.set_policy(policy(8, 10, 10, "x")), 2);
}

#[test]
fn registry_survives_restart_via_snapshot() {
    let mut r = FleetRegistry::new();
    r.set_policy(policy(9, 64, 30, "127.0.0.1:9"));
    r.register_at("edge-01".into(), "hw".into(), "0.1.0".into(), "0".into(), "0.1.0".into(), 1_000);
    let r2 = FleetRegistry::restore(r.snapshot());
    let devs = r2.devices();
    assert_eq!(devs.len(), 1);
    assert_eq!(devs[0].device_id, "edge-01");
    assert_eq!(devs[0].last_seen_secs, 0);
    assert!(devs[0].last_seen_age_secs() > 0);
    let (policy, seq) = r2.current_policy();
    assert_eq!(policy.map(|p| p.version), Some(9));
    assert!(seq >= 1);
}

#[test]
fn snapshot_with_duplicates_keeps_last_record() {
    let mut a = FleetRegistry::new();
    let first = a.register_at("d".into(), "hw-a".into(), "1".into(), "0".into(), "1".into(), 5);
    let mut b = FleetRegistry::new();
    let second = b.register_at("d".into(), "hw-b".into(), "1".into(), "0".into(), "1".into(), 6);
    let reloaded = FleetRegistry::from_snapshot(vec![first, second], None, 0, String::new());
    let devs = reloaded.devices();
    assert_eq!(devs.len(), 1);
    assert_eq!(devs[0].hardware_id, "hw-b");
}

#[test]
fn re_registration_replaces_record() {
    let mut r = FleetRegistry::new();
    r.register_at("d".into(), "hw".into(), "1".into(), "0".into(), "1".into(), 5);
    r.register_at("e".into(), "hw".into(), "1".into(), "0".into(), "1".into(), 5);
    r.register_at("d".into(), "hw2".into(), "2".into(), "0".into(), "2".into(), 9);
    let devs = r.devices();
    assert_eq!(devs.len(), 2);
    assert_eq!(devs[0].device_id, "d");
    assert_eq!(devs[0].hardware_id, "hw2");
    assert_eq!(devs[0].last_seen_secs, 9);
}

#[test]
fn unknown_device_heartbeat_is_none() {
    let mut r = FleetRegistry::new();
    assert!(r.heartbeat_at(hb("ghost", "0"), 10).is_none());
    assert!(r.devices().is_empty());
}

#[test]
fn desired_software_bumps_seq_once() {
    let mut r = FleetRegistry::new();
    assert_eq!(r.set_desired_software("2.0.0".into()), 1);
    assert_eq!(r.set_desired_software("2.0.0".into()), 1);
    let rec = r.register_at("d".into(), "hw".into(), "1".into(), "0".into(), "1".into(), 3);
    assert_eq!(rec.desired_software_version, "2.0.0");
    assert_eq!(rec.desired_seq, 1);
    assert_eq!(rec.desired_policy_version, 0);
}

#[test]
fn age_is_saturating() {
    let mut r = FleetRegistry::new();
    let rec: DeviceRecord = r.register_at("d".into(), "hw".into(), "1".into(), "0".into(), "1".into(), 100);
    assert_eq!(rec.age_at(130), 30);
    assert_eq!(rec.age_at(50), 0);
}

#[test]
fn watch_pushes_only_newer_state() {
    let p = policy(5, 1, 1, "u");
    match cloud_command(Some(p.clone()), 3, 2, "4") {
        CloudCommand::PolicyUpdate { seq, policy } => {
            assert_eq!(seq, 3);
            assert_eq!(policy.version, 5);
        }
        other => panic!("unexpected {other:?}"),
    }
    assert!(matches!(cloud_command(Some(p.clone()), 3, 3, "4"), CloudCommand::Noop { seq: 3 }));
    assert!(matches!(cloud_command(Some(p.clone()), 3, 2, "5"), CloudCommand::Noop { seq: 2 }));
    assert!(matches!(cloud_command(Some(p.clone()), 3, 2, "junk"), CloudCommand::PolicyUpdate { .. }));
    assert!(matches!(cloud_command(None, 3, 1, "0"), CloudCommand::Noop { seq: 1 }));
    let mut r = FleetRegistry::new();
    r.set_policy(p);
    assert!(matches!(r.watch_command(0, "0"), CloudCommand::PolicyUpdate { seq: 1, .. }));
}

#[test]
fn operator_policy_defaults() {
    assert_eq!(default_max_conn(), 512);
    assert_eq!(default_idle(), 300);
    assert_eq!(default_upstream(), "upstream:18081");
}

#[test]
fn policy_snapshot_round_trip() {
    let p = policy(9, 64, 30, "127.0.0.1:9");
    let snap = policy_to_snapshot(&p);
    assert_eq!((snap.version, snap.max_connections, snap.idle_timeout_secs), (9, 64, 30));
    assert_eq!(snap.default_upstream, "127.0.0.1:9");
    assert_eq!(policy_from_snapshot(&snap), p);
}

#[test]
fn snapshot_keeps_order_and_desired_state() {
    let mut r = FleetRegistry::new();
    r.set_desired_software("2.0.0".into());
    r.register_at("b".into(), "hw".into(), "1".into(), "0".into(), "1".into(), 7);
    r.register_at("a".into(), "hw".into(), "1".into(), "0".into(), "1".into(), 8);
    let snap = r.snapshot();
    assert_eq!(snap.devices.len(), 2);
    assert_eq!((snap.devices[0].device_id.as_str(), snap.devices[1].device_id.as_str()), ("b", "a"));
    assert_eq!(snap.devices[1].last_seen_secs, 8);
    assert_eq!((snap.policy_seq, snap.desired_software.as_str()), (1, "2.0.0"));
    assert!(snap.policy.is_none());
    let back = FleetRegistry::restore(snap);
    let devs = back.devices();
    assert_eq!((devs[0].device_id.as_str(), devs[0].last_seen_secs), ("b", 0));
    assert_eq!(back.desired_software(), "2.0.0");
}

#[test]
fn watch_report_refreshes_and_answers() {
    let mut r = FleetRegistry::new();
    r.set_policy(policy(7, 10, 10, "x"));
    r.register_at("d1".into(), "hw".into(), "1.0.0".into(), "0".into(), "1.0.0".into(), 5);
    assert!(matches!(r.serve_watch_report(hb("d1", "0"), 0), CloudCommand::PolicyUpdate { seq: 1, .. }));
    assert_eq!(r.get("d1").unwrap().reported_policy_version, "0");
    assert!(matches!(r.serve_watch_report(hb("d1", "7"), 1), CloudCommand::Noop { seq: 1 }));
    assert_eq!(r.get("d1").unwrap().reported_policy_version, "7");
    assert_eq!(r.get("d1").unwrap().active_connections, 5);
    assert!(matches!(r.serve_watch_report(hb("ghost", "0"), 0), CloudCommand::PolicyUpdate { .. }));
    assert!(r.get("ghost").is_none());
}

#[test]
fn register_service_answers_desired_state() {
    let mut r = FleetRegistry::new();
    let empty = r.serve_register("d1".into(), "hw".into(), "1.0.0".into(), "0".into(), "1.0.0".into());
    assert!(empty.accepted);
    assert_eq!(empty.desired_policy_version, 0);
    assert!(empty.policy.is_none());
    r.set_policy(policy(9, 1, 1, "y"));
    r.set_desired_software("2.0.0".into());
    let reply = r.serve_register("d1".into(), "hw".into(), "1.0.0".into(), "0".into(), "1.0.0".into());
    assert_eq!(reply.desired_policy_version, 9);
    assert_eq!(reply.policy.unwrap().version, 9);
    assert_eq!(reply.desired_software_version, "2.0.0");
    assert_eq!(r.devices().len(), 1);
    assert!(r.serve_heartbeat(hb("d2", "0")).is_none());
    let h = r.serve_heartbeat(hb("d1", "9")).unwrap();
    assert!(h.has_policy);
    assert_eq!((h.desired_policy_version, h.desired_seq, h.desired_software_version.as_str()), (9, 2, "2.0.0"));
}

#[test]
fn services_store_what_the_edge_reports() {
    let mut r = FleetRegistry::new();
    r.serve_register("d1".into(), "hw-x".into(), "1.2.3".into(), "4".into(), "1.2.0".into());
    let rec = r.get("d1").unwrap();
    assert_eq!((rec.hardware_id.as_str(), rec.software_version.as_str()), ("hw-x", "1.2.3"));
    assert_eq!((rec.reported_policy_version.as_str(), rec.reported_software_version.as_str()), ("4", "1.2.0"));
    r.serve_heartbeat(hb("d1", "5")).unwrap();
    let rec = r.get("d1").unwrap();
    assert_eq!((rec.reported_policy_version.as_str(), rec.health, rec.memory_bytes), ("5", 1, 100));
    assert_eq!((rec.uptime_secs, f64::from_bits(rec.cpu_usage_bits)), (60, 0.1));
    r.serve_watch_report(hb("d1", "6"), 0);
    assert_eq!(r.get("d1").unwrap().reported_policy_version, "6");
}
