use edgewarden::ieee::f64_bits_lt;
use edgewarden::rollout::{
    default_rings, first_rate_breach, GateReport, GateThresholds, HealthSnapshot, RateGate, Ring,
    RolloutDecision, RolloutManager,
};

fn healthy() -> GateReport {
    GateReport { sample_size: 100, health_check_failures: 0, rate_breach: None }
}

fn healthy_snapshot() -> HealthSnapshot {
    HealthSnapshot {
        crash_rate_bits: 0.0f64.to_bits(),
        proxy_error_rate_bits: 0.001f64.to_bits(),
        connection_success_rate_bits: 0.999f64.to_bits(),
        cpu_p95_bits: 0.4f64.to_bits(),
        mem_bytes_p95: 100,
        mem_limit_bytes: 1000,
        health_check_failures: 0,
        sample_size: 100,
    }
}

/// Evaluate a snapshot, formatting the failed rate gate's message.
fn evaluate(m: &mut RolloutManager, snap: &HealthSnapshot) -> RolloutDecision {
    let message = first_rate_breach(&m.thresholds, snap).map(|b| {
        let (o, t) = (f64::from_bits(b.observed_bits), f64::from_bits(b.threshold_bits));
        match b.gate {
            RateGate::CrashRate => format!("crash_rate {o:.4} > {t:.4}"),
            RateGate::ProxyErrorRate => format!("proxy_error_rate {o:.4} > {t:.4}"),
            RateGate::ConnectionSuccessRate => format!("connection_success_rate {o:.4} < {t:.4}"),
            RateGate::CpuP95 => format!("cpu_p95 {o:.3} > {t:.3}"),
        }
    });
    m.evaluate_snapshot(snap, message)
}

#[test]
fn good_ring_promotes() {
    let mut m = RolloutManager::new(default_rings(), GateThresholds::default());
    let d = evaluate(&mut m, &healthy_snapshot());
    assert!(matches!(d, RolloutDecision::Promote { .. }));
    assert_eq!(d, RolloutDecision::Promote { from: "internal".into(), to: "canary-0.1pct".into() });
    m.promote();
    assert_eq!(m.current_ring().name, "canary-0.1pct");
}

#[test]
fn bad_ring_pauses_and_stays_paused() {
    let mut m = RolloutManager::new(default_rings(), GateThresholds::default());
    let mut bad = healthy_snapshot();
    bad.proxy_error_rate_bits = 0.5f64.to_bits();
    let d = evaluate(&mut m, &bad);
    assert!(matches!(d, RolloutDecision::Paused { .. }));
    assert!(m.paused);
    let d2 = evaluate(&mut m, &healthy_snapshot());
    assert!(matches!(d2, RolloutDecision::Paused { .. }));
    assert_eq!(
        d2,
        RolloutDecision::Paused { ring: "internal".into(), reason: "proxy_error_rate 0.5000 > 0.0200".into() }
    );
    m.resume();
    let d3 = evaluate(&mut m, &healthy_snapshot());
    assert!(matches!(d3, RolloutDecision::Promote { .. }));
}

#[test]
fn small_sample_holds_without_pausing() {
    let mut m = RolloutManager::new(default_rings(), GateThresholds::default());
    let mut s = healthy_snapshot();
    s.sample_size = 1;
    let d = evaluate(&mut m, &s);
    assert!(matches!(d, RolloutDecision::Hold { .. }));
    assert!(!m.paused);
}

#[test]
fn reports_pause_and_promote_like_snapshots() {
    let mut m = RolloutManager::new(default_rings(), GateThresholds::default());
    assert!(matches!(m.evaluate(&healthy()), RolloutDecision::Promote { .. }));
    let bad = GateReport { sample_size: 100, health_check_failures: 0, rate_breach: Some("crash_rate 0.5000 > 0.0100".into()) };
    assert!(matches!(m.evaluate(&bad), RolloutDecision::Paused { .. }));
}

#[test]
fn health_check_failures_pause_with_reason() {
    let mut m = RolloutManager::new(default_rings(), GateThresholds::default());
    let s = GateReport { sample_size: 10, health_check_failures: 3, rate_breach: None };
    assert_eq!(
        m.evaluate(&s),
        RolloutDecision::Paused { ring: "internal".into(), reason: "health_check_failures 3 > 0".into() }
    );
    assert_eq!(m.pause_reason.as_deref(), Some("health_check_failures 3 > 0"));
}

#[test]
fn manual_pause_reports_reason_and_blocks_promotion() {
    let mut m = RolloutManager::new(default_rings(), GateThresholds::default());
    m.pause("operator hold".into());
    m.promote();
    assert_eq!(m.current, 0);
    assert_eq!(
        m.evaluate(&healthy()),
        RolloutDecision::Paused { ring: "internal".into(), reason: "operator hold".into() }
    );
    m.pause_reason = None;
    assert_eq!(
        m.evaluate(&healthy()),
        RolloutDecision::Paused { ring: "internal".into(), reason: "manually paused".into() }
    );
}

#[test]
fn last_ring_holds() {
    let mut m = RolloutManager::new(default_rings(), GateThresholds::default());
    for _ in 0..10 {
        m.promote();
    }
    assert_eq!(m.current, 5);
    assert_eq!(m.evaluate(&healthy()), RolloutDecision::Hold { ring: "stable-100pct".into() });
}

#[test]
fn default_rings_and_thresholds() {
    let rings = default_rings();
    let names: Vec<&str> = rings.iter().map(|r| r.name.as_str()).collect();
    assert_eq!(
        names,
        vec!["internal", "canary-0.1pct", "canary-1pct", "canary-5pct", "canary-25pct", "stable-100pct"]
    );
    let fractions: Vec<f64> = rings.iter().map(|r| f64::from_bits(r.fraction_bits)).collect();
    assert_eq!(fractions, vec![0.0, 0.001, 0.01, 0.05, 0.25, 1.0]);
    let t = GateThresholds::default();
    assert_eq!(f64::from_bits(t.max_crash_rate_bits), 0.01);
    assert_eq!(f64::from_bits(t.max_proxy_error_rate_bits), 0.02);
    assert_eq!(f64::from_bits(t.min_connection_success_rate_bits), 0.99);
    assert_eq!(f64::from_bits(t.max_cpu_p95_bits), 0.85);
    assert_eq!(t.max_health_check_failures, 0);
    assert_eq!(t.min_sample_size, 5);
    let r = Ring::new("x".into(), 0.5f64.to_bits());
    assert_eq!(r.name, "x");
}

#[test]
fn out_of_range_current_uses_last_ring() {
    let mut m = RolloutManager::new(default_rings(), GateThresholds::default());
    m.current = 99;
    assert_eq!(m.current_ring().name, "stable-100pct");
    assert_eq!(m.evaluate(&healthy()), RolloutDecision::Hold { ring: "stable-100pct".into() });
}

fn snapshot(crash: f64, proxy_err: f64, success: f64, cpu: f64) -> HealthSnapshot {
    HealthSnapshot {
        crash_rate_bits: crash.to_bits(),
        proxy_error_rate_bits: proxy_err.to_bits(),
        connection_success_rate_bits: success.to_bits(),
        cpu_p95_bits: cpu.to_bits(),
        mem_bytes_p95: 100,
        mem_limit_bytes: 1000,
        health_check_failures: 0,
        sample_size: 100,
    }
}

#[test]
fn rate_gates_in_order() {
    let t = GateThresholds::default();
    assert_eq!(first_rate_breach(&t, &snapshot(0.0, 0.001, 0.999, 0.4)), None);
    let b = first_rate_breach(&t, &snapshot(0.0, 0.5, 0.5, 0.99)).unwrap();
    assert_eq!(b.gate, RateGate::ProxyErrorRate);
    assert_eq!((f64::from_bits(b.observed_bits), f64::from_bits(b.threshold_bits)), (0.5, 0.02));
    assert_eq!(first_rate_breach(&t, &snapshot(0.02, 0.5, 0.5, 0.99)).unwrap().gate, RateGate::CrashRate);
    assert_eq!(first_rate_breach(&t, &snapshot(0.0, 0.0, 0.98, 0.99)).unwrap().gate, RateGate::ConnectionSuccessRate);
    assert_eq!(first_rate_breach(&t, &snapshot(0.0, 0.0, 1.0, 0.86)).unwrap().gate, RateGate::CpuP95);
    assert_eq!(first_rate_breach(&t, &snapshot(0.01, 0.02, 0.99, 0.85)), None);
    assert_eq!(first_rate_breach(&t, &snapshot(f64::NAN, f64::NAN, f64::NAN, f64::NAN)), None);
}

#[test]
fn bit_comparison_matches_f64() {
    let values = [
        0.0, -0.0, 1e-300, -1e-300, 0.01, 0.02, 0.99, 1.0, -1.0, 2.5, -2.5, f64::MIN_POSITIVE, 5e-324, -5e-324,
        f64::MAX, f64::MIN, f64::INFINITY, f64::NEG_INFINITY, f64::NAN, -f64::NAN,
    ];
    for a in values {
        for b in values {
            assert_eq!(f64_bits_lt(a.to_bits(), b.to_bits()), a < b, "{a} < {b}");
        }
    }
}

#[test]
fn default_snapshot_is_zero() {
    let s = HealthSnapshot::default();
    assert_eq!((s.crash_rate_bits, s.sample_size, s.health_check_failures), (0, 0, 0));
}
