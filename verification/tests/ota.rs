use edgewarden::crypto::dev_sign;
use edgewarden::ota::{OtaError, OtaManager, OtaManifest, OtaState, Slot};

const KEY: &[u8] = b"test-dev-key-1234";

fn manifest_for(payload: &[u8], version: &str) -> OtaManifest {
    let (h, s) = dev_sign(payload, KEY);
    OtaManifest {
        version: version.into(),
        artifact_sha256_hex: h,
        signature_hex: s,
        size_bytes: payload.len() as u64,
    }
}

/// A crash: only the journal survives; the manager comes back from it.
fn restart(ota: &OtaManager) -> OtaManager {
    OtaManager::from_journal(ota.journal(), KEY)
}

fn happy_path(version: &str) -> OtaManager {
    let payload = format!("artifact-{version}").into_bytes();
    let m = manifest_for(&payload, version);
    let mut ota = OtaManager::new(KEY);
    ota.start_download(&m).unwrap();
    ota.ingest_chunk(&payload, &m).unwrap();
    ota.verify(&m).unwrap();
    ota.mark_reboot_pending().unwrap();
    ota.simulate_reboot().unwrap();
    ota.health_check(true, "").unwrap();
    assert_eq!(ota.state(), OtaState::Committed);
    ota
}

#[test]
fn successful_update_flips_slot() {
    let ota = happy_path("2.0.0");
    assert_eq!(ota.active_slot(), Slot::B);
    assert_eq!(ota.candidate_version(), None);
}

#[test]
fn corrupt_artifact_fails_verify() {
    let payload = b"good-bytes";
    let m = manifest_for(payload, "2.0.0");
    let mut ota = OtaManager::new(KEY);
    ota.start_download(&m).unwrap();
    ota.ingest_chunk(b"tampered-bytes", &m).unwrap();
    let r = ota.verify(&m);
    assert!(matches!(r, Err(OtaError::HashMismatch { .. })));
    assert_eq!(ota.state(), OtaState::Failed);
    assert_eq!(ota.active_slot(), Slot::A);
    assert_eq!(ota.last_error(), Some("hash mismatch"));
}

#[test]
fn bad_signature_fails_verify() {
    let payload = b"payload";
    let (h, _) = dev_sign(payload, KEY);
    let m = OtaManifest {
        version: "2.0.0".into(),
        artifact_sha256_hex: h,
        signature_hex: "deadbeef".into(),
        size_bytes: payload.len() as u64,
    };
    let mut ota = OtaManager::new(KEY);
    ota.start_download(&m).unwrap();
    ota.ingest_chunk(payload, &m).unwrap();
    assert!(matches!(ota.verify(&m), Err(OtaError::BadSignature)));
    assert_eq!(ota.last_error(), Some("bad signature"));
}

#[test]
fn health_failure_rolls_back_to_a() {
    let payload = b"artifact-3".to_vec();
    let m = manifest_for(&payload, "3.0.0");
    let mut ota = OtaManager::new(KEY);
    ota.start_download(&m).unwrap();
    ota.ingest_chunk(&payload, &m).unwrap();
    ota.verify(&m).unwrap();
    ota.mark_reboot_pending().unwrap();
    ota.simulate_reboot().unwrap();
    ota.health_check(false, "candidate 500s").unwrap();
    assert_eq!(ota.state(), OtaState::RolledBack);
    assert_eq!(ota.active_slot(), Slot::A);
    assert_eq!(ota.last_error(), Some("candidate 500s"));
}

#[test]
fn crash_mid_download_recovers_to_idle() {
    let payload = b"artifact-4".to_vec();
    let m = manifest_for(&payload, "4.0.0");
    let mut ota = OtaManager::new(KEY);
    ota.start_download(&m).unwrap();
    ota.ingest_chunk(&payload[..4], &m).unwrap();
    let mut ota2 = restart(&ota);
    let resumed = ota2.recover();
    assert_eq!(resumed, OtaState::Idle);
}

#[test]
fn power_loss_during_candidate_reenters_healthcheck() {
    let payload = b"artifact-5".to_vec();
    let m = manifest_for(&payload, "5.0.0");
    let mut ota = OtaManager::new(KEY);
    ota.start_download(&m).unwrap();
    ota.ingest_chunk(&payload, &m).unwrap();
    ota.verify(&m).unwrap();
    ota.mark_reboot_pending().unwrap();
    ota.simulate_reboot().unwrap();
    let mut ota2 = restart(&ota);
    assert_eq!(ota2.recover(), OtaState::HealthChecking);
    ota2.health_check(false, "post-power health fail").unwrap();
    assert_eq!(ota2.state(), OtaState::RolledBack);
    assert_eq!(ota2.active_slot(), Slot::A);
}

#[test]
fn duplicate_start_is_idempotent() {
    let payload = b"artifact-6".to_vec();
    let m = manifest_for(&payload, "6.0.0");
    let mut ota = OtaManager::new(KEY);
    assert!(ota.start_download(&m).unwrap());
    assert!(!ota.start_download(&m).unwrap());
}

#[test]
fn different_version_while_busy_is_refused() {
    let m1 = manifest_for(b"one", "1.0.0");
    let m2 = manifest_for(b"two", "2.0.0");
    let mut ota = OtaManager::new(KEY);
    ota.start_download(&m1).unwrap();
    match ota.start_download(&m2) {
        Err(OtaError::Other(msg)) => assert_eq!(msg, "busy in Downloading, cannot start 2.0.0"),
        other => panic!("unexpected {other:?}"),
    }
    assert_eq!(ota.candidate_version(), Some("1.0.0"));
}

#[test]
fn oversized_chunk_is_refused() {
    let m = OtaManifest {
        version: "1.0.0".into(),
        artifact_sha256_hex: String::new(),
        signature_hex: String::new(),
        size_bytes: 0,
    };
    let mut ota = OtaManager::new(KEY);
    ota.start_download(&m).unwrap();
    let big = vec![0u8; 1024 * 1024 + 1];
    assert!(matches!(ota.ingest_chunk(&big, &m), Err(OtaError::Other(_))));
    assert!(ota.ingest_chunk(&big[..1024 * 1024], &m).is_ok());
}

#[test]
fn steps_out_of_order_are_invalid_transitions() {
    let mut ota = OtaManager::new(KEY);
    assert!(matches!(ota.mark_reboot_pending(), Err(OtaError::InvalidTransition(OtaState::Idle))));
    assert!(matches!(ota.simulate_reboot(), Err(OtaError::InvalidTransition(OtaState::Idle))));
    assert!(matches!(ota.health_check(true, ""), Err(OtaError::InvalidTransition(OtaState::Idle))));
    assert!(matches!(ota.rollback(), Err(OtaError::InvalidTransition(OtaState::Idle))));
    let m = manifest_for(b"x", "1.0.0");
    assert!(matches!(ota.ingest_chunk(b"x", &m), Err(OtaError::InvalidTransition(OtaState::Idle))));
    assert!(matches!(ota.verify(&m), Err(OtaError::InvalidTransition(OtaState::Idle))));
}

#[test]
fn failed_update_can_be_rolled_back_and_restarted() {
    let m = manifest_for(b"good", "7.0.0");
    let mut ota = OtaManager::new(KEY);
    ota.start_download(&m).unwrap();
    ota.ingest_chunk(b"bad", &m).unwrap();
    assert!(ota.verify(&m).is_err());
    ota.rollback().unwrap();
    assert_eq!(ota.state(), OtaState::RolledBack);
    assert!(ota.start_download(&m).unwrap());
    assert_eq!(ota.candidate_slot(), Some(Slot::B));
}

#[test]
fn uppercase_manifest_digest_is_accepted() {
    let payload = b"artifact-8";
    let (h, s) = dev_sign(payload, KEY);
    let m = OtaManifest {
        version: "8.0.0".into(),
        artifact_sha256_hex: h.to_uppercase(),
        signature_hex: s.to_uppercase(),
        size_bytes: payload.len() as u64,
    };
    let mut ota = OtaManager::new(KEY);
    ota.start_download(&m).unwrap();
    ota.ingest_chunk(payload, &m).unwrap();
    ota.verify(&m).unwrap();
    assert_eq!(ota.state(), OtaState::Staged);
}

#[test]
fn dev_sign_matches_known_vectors() {
    let (h, _) = dev_sign(b"abc", b"k");
    assert_eq!(h, "ba7816bf8f01cfea414140de5dae2223b00361a396177a9cb410ff61f20015ad");
    let (_, s) = dev_sign(b"what do ya want for nothing?", b"Jefe");
    assert_eq!(s, "5bdcc146bf60754e6a042426089575c75a003f089d2739839dec58b964ec3843");
}

#[test]
fn slot_other_flips() {
    assert_eq!(Slot::A.other(), Slot::B);
    assert_eq!(Slot::B.other(), Slot::A);
    assert_eq!(Slot::default(), Slot::A);
    assert_eq!(OtaState::default(), OtaState::Idle);
}

#[test]
fn every_transition_can_be_journaled() {
    let payload = b"artifact-7".to_vec();
    let m = manifest_for(&payload, "7.0.0");
    let mut ota = OtaManager::new(KEY);
    ota.start_download(&m).unwrap();
    ota.ingest_chunk(&payload, &m).unwrap();
    ota.begin_verification().unwrap();
    assert_eq!(ota.state(), OtaState::Verifying);
    let mut crashed = restart(&ota);
    assert_eq!(crashed.recover(), OtaState::Idle);
    ota.check_artifact(&m).unwrap();
    assert_eq!(ota.state(), OtaState::Verifying);
    ota.stage().unwrap();
    assert_eq!(ota.state(), OtaState::Staged);
    ota.mark_reboot_pending().unwrap();
    ota.boot_candidate().unwrap();
    assert_eq!(ota.state(), OtaState::BootingCandidate);
    let mut crashed = restart(&ota);
    assert_eq!(crashed.recover(), OtaState::HealthChecking);
    ota.begin_health_check().unwrap();
    ota.fail_health_check("probe timeout").unwrap();
    assert_eq!(ota.state(), OtaState::RollbackPending);
    assert_eq!(ota.last_error(), Some("probe timeout"));
    let mut crashed = restart(&ota);
    assert_eq!(crashed.recover(), OtaState::RollbackPending);
    crashed.rollback().unwrap();
    assert_eq!((crashed.state(), crashed.active_slot()), (OtaState::RolledBack, Slot::A));
}

#[test]
fn check_outside_verifying_is_invalid() {
    let payload = b"x".to_vec();
    let m = manifest_for(&payload, "1.0.0");
    let mut ota = OtaManager::new(KEY);
    assert!(matches!(ota.check_artifact(&m), Err(OtaError::InvalidTransition(OtaState::Idle))));
    assert!(matches!(ota.stage(), Err(OtaError::InvalidTransition(OtaState::Idle))));
    assert!(matches!(ota.begin_health_check(), Err(OtaError::InvalidTransition(OtaState::Idle))));
    assert!(matches!(ota.fail_health_check("x"), Err(OtaError::InvalidTransition(OtaState::Idle))));
    ota.start_download(&m).unwrap();
    ota.ingest_chunk(b"y", &m).unwrap();
    ota.begin_verification().unwrap();
    assert!(matches!(ota.check_artifact(&m), Err(OtaError::HashMismatch { .. })));
    assert_eq!(ota.state(), OtaState::Failed);
}

#[test]
fn signed_downgrade_is_refused_even_after_restart() {
    let mut ota = happy_path("2.0.0");
    assert_eq!(ota.highest_committed_version(), Some("2.0.0"));
    for v in ["2.0.0", "1.9.9", "1.10", "not-a-version"] {
        let m = manifest_for(b"old", v);
        assert!(matches!(ota.start_download(&m), Err(OtaError::Downgrade { .. })), "{v}");
        assert_eq!(ota.state(), OtaState::Committed);
    }
    let mut resumed = restart(&ota);
    assert!(matches!(resumed.start_download(&manifest_for(b"old", "1.0.0")), Err(OtaError::Downgrade { .. })));
    assert_eq!(resumed.start_download(&manifest_for(b"new", "2.0.1")).unwrap(), true);
    assert_eq!(ota.start_download(&manifest_for(b"new", "2.10")).unwrap(), true);
}

#[test]
fn failed_update_is_counted_and_not_committed() {
    let payload = b"artifact-3".to_vec();
    let m = manifest_for(&payload, "3.0.0");
    let mut ota = OtaManager::new(KEY);
    assert_eq!(ota.rollbacks(), 0);
    ota.start_download(&m).unwrap();
    ota.ingest_chunk(&payload, &m).unwrap();
    ota.verify(&m).unwrap();
    ota.mark_reboot_pending().unwrap();
    ota.simulate_reboot().unwrap();
    ota.health_check(false, "candidate 500s").unwrap();
    assert_eq!(ota.rollbacks(), 1);
    assert_eq!(ota.highest_committed_version(), None);
    // The same version may be tried again: it was never committed.
    assert_eq!(ota.start_download(&m).unwrap(), true);
}
