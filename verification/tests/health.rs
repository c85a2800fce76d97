use edgewarden::health::{
    bypass_action, BypassAction, BypassController, HealthState, MockBypassController, Supervisor, SupervisorInput,
};
use std::time::Duration;

fn supervisor(max_cpu: f64) -> Supervisor<MockBypassController> {
    Supervisor::new(MockBypassController::new(), max_cpu.to_bits(), Duration::from_secs(5))
}

#[test]
fn healthy_when_nominal() {
    let s = supervisor(0.9);
    let st = s.evaluate(&SupervisorInput { proxy_alive: true, cpu_usage_bits: 0.2f64.to_bits(), ..Default::default() });
    assert_eq!(st, HealthState::Healthy);
}

#[test]
fn dead_proxy_is_unhealthy() {
    let s = supervisor(0.9);
    let st = s.evaluate(&SupervisorInput { proxy_alive: false, consecutive_proxy_failures: 5, ..Default::default() });
    assert_eq!(st, HealthState::Unhealthy);
}

#[test]
fn high_cpu_is_degraded_not_unhealthy() {
    let s = supervisor(0.5);
    let st = s.evaluate(&SupervisorInput { proxy_alive: true, cpu_usage_bits: 0.9f64.to_bits(), ..Default::default() });
    assert_eq!(st, HealthState::Degraded);
}

#[test]
fn control_plane_loss_does_not_make_unhealthy() {
    let s = supervisor(0.9);
    let st = s.evaluate(&SupervisorInput {
        proxy_alive: true,
        control_plane_connected: false,
        cpu_usage_bits: 0.1f64.to_bits(),
        ..Default::default()
    });
    assert_eq!(st, HealthState::Healthy);
}

#[test]
fn repeated_failures_are_unhealthy_even_if_alive() {
    let s = supervisor(0.9);
    let mut i = SupervisorInput { proxy_alive: true, consecutive_proxy_failures: 5, ..Default::default() };
    assert_eq!(s.evaluate(&i), HealthState::Unhealthy);
    i.consecutive_proxy_failures = 4;
    assert_eq!(s.evaluate(&i), HealthState::Healthy);
}

#[test]
fn memory_over_limit_is_degraded() {
    let s = supervisor(0.9);
    let mut i = SupervisorInput { proxy_alive: true, memory_bytes: 2000, memory_limit_bytes: 1000, ..Default::default() };
    assert_eq!(s.evaluate(&i), HealthState::Degraded);
    i.memory_limit_bytes = 0;
    assert_eq!(s.evaluate(&i), HealthState::Healthy);
}

#[test]
fn cpu_at_the_limit_or_nan_is_not_degraded() {
    let s = supervisor(0.5);
    let at = SupervisorInput { proxy_alive: true, cpu_usage_bits: 0.5f64.to_bits(), ..Default::default() };
    assert_eq!(s.evaluate(&at), HealthState::Healthy);
    let nan = SupervisorInput { proxy_alive: true, cpu_usage_bits: f64::NAN.to_bits(), ..Default::default() };
    assert_eq!(s.evaluate(&nan), HealthState::Healthy);
}

#[test]
fn mock_bypass_toggles() {
    let mut b = MockBypassController::new();
    assert!(!b.bypass_enabled());
    b.enable_bypass().unwrap();
    assert!(b.bypass_enabled());
    b.disable_bypass().unwrap();
    assert!(!b.bypass_enabled());
}

#[test]
fn bypass_only_for_dead_proxy_with_fail_open() {
    assert_eq!(bypass_action(HealthState::Unhealthy, false, true, false), BypassAction::Enable);
    assert_eq!(bypass_action(HealthState::Unhealthy, false, false, false), BypassAction::Keep);
    assert_eq!(bypass_action(HealthState::Unhealthy, true, true, false), BypassAction::Keep);
    assert_eq!(bypass_action(HealthState::Unhealthy, false, true, true), BypassAction::Keep);
    assert_eq!(bypass_action(HealthState::Healthy, true, true, true), BypassAction::Disable);
    assert_eq!(bypass_action(HealthState::Degraded, true, true, true), BypassAction::Keep);
}

#[test]
fn health_state_helpers() {
    assert!(HealthState::Healthy.is_healthy());
    assert!(!HealthState::Degraded.is_healthy());
    assert_eq!(HealthState::default(), HealthState::Unknown);
}

#[test]
fn actuation_follows_the_decision() {
    let mut s = supervisor(0.9);
    let alive = SupervisorInput { proxy_alive: true, ..Default::default() };
    let dead = SupervisorInput::default();
    s.maybe_actuate(HealthState::Unhealthy, &alive, true).unwrap();
    assert!(!s.bypass_enabled());
    s.maybe_actuate(HealthState::Unhealthy, &dead, false).unwrap();
    assert!(!s.bypass_enabled());
    s.maybe_actuate(HealthState::Unhealthy, &dead, true).unwrap();
    assert!(s.bypass_enabled());
    s.maybe_actuate(HealthState::Degraded, &alive, true).unwrap();
    assert!(s.bypass_enabled());
    s.maybe_actuate(HealthState::Healthy, &alive, true).unwrap();
    assert!(!s.bypass_enabled());
    assert_eq!(s.watchdog_timeout(), Duration::from_secs(5));
}
