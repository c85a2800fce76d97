use edgewarden::agent::{AgentConfig, EdgeAgent, HeartbeatReply, MetricsSink};
use edgewarden::backoff::Backoff;
use edgewarden::registry::{FleetRegistry, HeartbeatUpdate};
use edgewarden::state::{Policy, StateStore};
use std::cell::RefCell;
use std::sync::Arc;
use std::time::Duration;

#[derive(Default)]
struct Recorder {
    events: RefCell<Vec<String>>,
}

impl MetricsSink for Recorder {
    fn set_control_plane_connected(&self, connected: bool) {
        self.events.borrow_mut().push(format!("connected={connected}"));
    }
    fn count_reconnect(&self) {
        self.events.borrow_mut().push("reconnect".into());
    }
    fn set_policy_version(&self, version: u64) {
        self.events.borrow_mut().push(format!("policy={version}"));
    }
}

fn reply(version: u64, seq: u64, upstream: &str) -> HeartbeatReply {
    HeartbeatReply {
        desired_policy_version: version,
        policy: Some(Policy {
            version,
            max_connections: 128,
            idle_timeout_secs: 60,
            default_upstream: upstream.into(),
            rules_json: "{}".into(),
        }),
        has_policy: true,
        desired_software_version: String::new(),
        desired_seq: seq,
    }
}

fn agent() -> (EdgeAgent<Recorder>, Arc<Recorder>) {
    let m = Arc::new(Recorder::default());
    (EdgeAgent::new(AgentConfig::default(), StateStore::empty(), m.clone()), m)
}

#[test]
fn policy_push_converges_and_duplicates_are_safe() {
    let (mut a, m) = agent();
    assert!(a.apply_heartbeat(reply(42, 1, "127.0.0.1:9")));
    assert_eq!(a.reported_policy_version(), 42);
    assert!(!a.apply_heartbeat(reply(42, 1, "127.0.0.1:9")));
    assert_eq!(a.reported_policy_version(), 42);
    assert_eq!(a.last_good_policy().default_upstream, "127.0.0.1:9");
    assert!(m.events.borrow().contains(&"policy=42".to_string()));
}

#[test]
fn invalid_policy_version_does_not_break_agent() {
    let (mut a, _) = agent();
    let none = HeartbeatReply {
        desired_policy_version: 0,
        policy: None,
        has_policy: true,
        desired_software_version: String::new(),
        desired_seq: 0,
    };
    assert!(!a.apply_heartbeat(none));
    assert_eq!(a.reported_policy_version(), 0);
}

#[test]
fn empty_upstream_falls_back_to_last_good() {
    let (mut a, _) = agent();
    assert!(a.apply_heartbeat(reply(3, 0, "")));
    assert_eq!(a.last_good_policy().default_upstream, "127.0.0.1:18081");
    assert_eq!(a.applied_seq(), 1);
}

#[test]
fn watch_update_applies_once() {
    let (mut a, m) = agent();
    let p = Policy { version: 9, ..Policy::default() };
    assert!(a.apply_policy_update(4, p.clone()));
    assert!(!a.apply_policy_update(4, p));
    assert_eq!(a.reported_policy_text(), "9");
    assert_eq!(a.applied_seq(), 4);
    assert!(m.events.borrow().is_empty());
}

#[test]
fn disconnect_is_recorded() {
    let (a, m) = agent();
    a.note_disconnected();
    assert_eq!(*m.events.borrow(), vec!["connected=false".to_string(), "reconnect".to_string()]);
}

#[test]
fn default_config() {
    let c = AgentConfig::default();
    assert_eq!(c.device_id, "edge-01");
    assert_eq!(c.hardware_id, "dev-hw");
    assert_eq!(c.software_version, "0.1.0");
    assert_eq!(c.control_plane, "http://127.0.0.1:50051");
    assert_eq!(c.state_path, std::path::PathBuf::from("edge-state.json"));
    assert_eq!(c.heartbeat_interval, Duration::from_secs(5));
    assert!(c.tls_ca.is_none());
}

#[test]
fn failed_sync_backs_off_and_success_resets() {
    let (a, m) = agent();
    let mut b = Backoff::new(Duration::from_millis(200), Duration::from_secs(30));
    let first = a.after_sync(&mut b, false).unwrap();
    assert!(first >= Duration::from_millis(100) && first <= Duration::from_millis(200));
    let second = a.after_sync(&mut b, false).unwrap();
    assert!(second >= Duration::from_millis(200) && second <= Duration::from_millis(400));
    assert_eq!(b.attempts(), 2);
    assert_eq!(m.events.borrow().iter().filter(|e| e.as_str() == "reconnect").count(), 2);
    assert_eq!(a.after_sync(&mut b, true), None);
    assert_eq!(b.attempts(), 0);
}

#[test]
fn pushed_policy_reaches_the_edge_through_the_registry() {
    let mut cp = FleetRegistry::new();
    let seq = cp.set_policy(Policy {
        version: 42,
        max_connections: 128,
        idle_timeout_secs: 60,
        default_upstream: "127.0.0.1:9".into(),
        rules_json: "{}".into(),
    });
    assert_eq!(seq, 1);
    let (mut a, _) = agent();
    let reg = cp.serve_register("edge-rec-01".into(), "hw".into(), "0.1.0".into(), a.reported_policy_text(), "0.1.0".into());
    assert!(reg.accepted && !reg.has_pending_ota);
    assert_eq!(reg.desired_policy_version, 42);
    let report = a.reported_policy_text();
    let hb = HeartbeatUpdate {
        device_id: "edge-rec-01",
        reported_policy: &report,
        reported_software: "0.1.0",
        health: 1,
        cpu_bits: 0,
        mem: 0,
        active: 0,
        uptime: 1,
    };
    let reply = cp.serve_heartbeat(hb).unwrap();
    assert!(reply.has_policy);
    assert_eq!((reply.desired_policy_version, reply.desired_seq), (42, 1));
    assert!(a.apply_heartbeat(reply));
    assert_eq!(a.reported_policy_version(), 42);
    let again = cp.serve_heartbeat(hb).unwrap();
    assert!(!a.apply_heartbeat(again));
    assert_eq!(a.reported_policy_version(), 42);
    let unknown = HeartbeatUpdate { device_id: "nobody", ..hb };
    assert!(cp.serve_heartbeat(unknown).is_none());
}

#[test]
fn usage_report_carries_the_sample() {
    let (a, _) = agent();
    let u = a.usage(0.25f64.to_bits(), 4096, 3);
    assert_eq!((f64::from_bits(u.cpu_usage_bits), u.memory_bytes, u.active_connections), (0.25, 4096, 3));
    assert!(u.uptime_secs < 60);
}

#[test]
fn partition_keeps_last_good_and_reconciles() {
    let pol = |v: u64| Policy {
        version: v,
        max_connections: 64,
        idle_timeout_secs: 30,
        default_upstream: "127.0.0.1:9".into(),
        rules_json: "{}".into(),
    };
    let mut cp = FleetRegistry::new();
    cp.set_policy(pol(10));
    let (mut a, _) = agent();
    let mut b = Backoff::new(Duration::from_millis(200), Duration::from_secs(30));
    cp.serve_register("edge-e2e-01".into(), "hw-e2e".into(), "0.1.0".into(), a.reported_policy_text(), "0.1.0".into());
    let report = a.reported_policy_text();
    let hb = HeartbeatUpdate {
        device_id: "edge-e2e-01",
        reported_policy: &report,
        reported_software: "0.1.0",
        health: 1,
        cpu_bits: 0,
        mem: 0,
        active: 0,
        uptime: 1,
    };
    assert!(a.apply_heartbeat(cp.serve_heartbeat(hb).unwrap()));
    assert_eq!(a.after_sync(&mut b, true), None);
    assert_eq!(a.reported_policy_version(), 10);
    // The control plane goes away: syncs fail, the edge backs off and keeps
    // serving the policy it has.
    for _ in 0..3 {
        assert!(a.after_sync(&mut b, false).is_some());
    }
    assert_eq!(b.attempts(), 3);
    assert_eq!((a.last_good_policy().version, a.last_good_policy().max_connections), (10, 64));
    // It comes back with a newer policy: the next sync reconciles.
    cp.set_policy(pol(11));
    let report = a.reported_policy_text();
    let hb = HeartbeatUpdate { reported_policy: &report, ..hb };
    assert!(a.apply_heartbeat(cp.serve_heartbeat(hb).unwrap()));
    assert_eq!(a.after_sync(&mut b, true), None);
    assert_eq!((a.reported_policy_version(), a.applied_seq()), (11, 2));
    assert_eq!(b.attempts(), 0);
}
