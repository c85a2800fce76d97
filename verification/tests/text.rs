use edgewarden::rollout::{default_rings, GateReport, GateThresholds, RolloutDecision, RolloutManager};
use edgewarden::text::{parse_decimal_u64, str_eq};

#[test]
fn parses_like_std() {
    for s in ["0", "42", "+7", "007", "18446744073709551615", "18446744073709551616", "", "+", "-1", " 1", "1 ", "4a", "٣"] {
        assert_eq!(parse_decimal_u64(s), s.parse::<u64>().ok(), "input {s:?}");
    }
}

#[test]
fn formats_decimal() {
    let mut m = RolloutManager::new(default_rings(), GateThresholds::default());
    let d = m.evaluate(&GateReport { sample_size: 100, health_check_failures: 1234, rate_breach: None });
    assert_eq!(d, RolloutDecision::Paused { ring: "internal".into(), reason: "health_check_failures 1234 > 0".into() });
    assert!(str_eq("abc", "abc"));
    assert!(!str_eq("abc", "abd"));
    assert!(!str_eq("abc", "ab"));
}

#[test]
fn formats_extreme_values() {
    let mut m = RolloutManager::new(default_rings(), GateThresholds::default());
    let d = m.evaluate(&GateReport { sample_size: 100, health_check_failures: u64::MAX, rate_breach: None });
    assert_eq!(
        d,
        RolloutDecision::Paused { ring: "internal".into(), reason: "health_check_failures 18446744073709551615 > 0".into() }
    );
    let mut m = RolloutManager::new(default_rings(), GateThresholds { max_health_check_failures: 9, ..GateThresholds::default() });
    let d = m.evaluate(&GateReport { sample_size: 100, health_check_failures: 10, rate_breach: None });
    assert_eq!(d, RolloutDecision::Paused { ring: "internal".into(), reason: "health_check_failures 10 > 9".into() });
}
