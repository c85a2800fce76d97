//! A/B software update state machine.
//!
//! Two slot records (`A` and `B`) model the boot slots. The manager moves
//! through `Idle → Downloading → Verifying → Staged → RebootPending →
//! BootingCandidate → HealthChecking → Committed`, with `RollbackPending →
//! RolledBack` and `Failed` on a fault. The journal of every state (see
//! [`OtaJournal`]) is what the caller persists after each step, so that a
//! crash or power loss resumes through [`OtaManager::recover`]. Artifact
//! integrity is SHA-256 plus a development HMAC signature. The journal
//! keeps the highest version ever committed, and a start at or below it is
//! refused (rollback-attack protection); genuine rollback is the slot flip,
//! never a reinstall. Rollbacks are counted for the telemetry.

use crate::crypto::{
    artifact_digest_hex, artifact_signature_hex, hex_encode, hmac_sha256_tag, sha256_digest, text_lowercase, to_lowercase,
};
use crate::text::str_eq;
use crate::version::{numbers_precede, parse_version, version_before, version_numbers};
use vstd::prelude::*;

verus! {

#[derive(Debug, Clone, Copy, PartialEq, Eq, Structural)]
pub enum Slot {
    A,
    B,
}

impl Default for Slot {
    fn default() -> (r: Self)
        ensures
            r == Slot::A,
    {
        Slot::A
    }
}

/// The slot that is not `s`.
pub open spec fn other_slot(s: Slot) -> Slot {
    match s {
        Slot::A => Slot::B,
        Slot::B => Slot::A,
    }
}

impl Slot {
    pub fn other(self) -> (r: Self)
        ensures
            r == other_slot(self),
    {
        match self {
            Slot::A => Slot::B,
            Slot::B => Slot::A,
        }
    }
}

#[derive(Debug, Clone, Copy, PartialEq, Eq, Structural)]
pub enum OtaState {
    Idle,
    Downloading,
    Verifying,
    Staged,
    RebootPending,
    BootingCandidate,
    HealthChecking,
    Committed,
    RollbackPending,
    RolledBack,
    Failed,
}

impl Default for OtaState {
    fn default() -> (r: Self)
        ensures
            r == OtaState::Idle,
    {
        OtaState::Idle
    }
}

/// The name of a state, as it reads in messages.
pub open spec fn state_label(s: OtaState) -> Seq<char> {
    match s {
        OtaState::Idle => "Idle"@,
        OtaState::Downloading => "Downloading"@,
        OtaState::Verifying => "Verifying"@,
        OtaState::Staged => "Staged"@,
        OtaState::RebootPending => "RebootPending"@,
        OtaState::BootingCandidate => "BootingCandidate"@,
        OtaState::HealthChecking => "HealthChecking"@,
        OtaState::Committed => "Committed"@,
        OtaState::RollbackPending => "RollbackPending"@,
        OtaState::RolledBack => "RolledBack"@,
        OtaState::Failed => "Failed"@,
    }
}

fn label_of(s: OtaState) -> (r: &'static str)
    ensures
        r@ == state_label(s),
{
    match s {
        OtaState::Idle => "Idle",
        OtaState::Downloading => "Downloading",
        OtaState::Verifying => "Verifying",
        OtaState::Staged => "Staged",
        OtaState::RebootPending => "RebootPending",
        OtaState::BootingCandidate => "BootingCandidate",
        OtaState::HealthChecking => "HealthChecking",
        OtaState::Committed => "Committed",
        OtaState::RollbackPending => "RollbackPending",
        OtaState::RolledBack => "RolledBack",
        OtaState::Failed => "Failed",
    }
}

/// States in which no update is in progress, so a new one may start.
pub open spec fn is_settled(s: OtaState) -> bool {
    s == OtaState::Idle || s == OtaState::Committed || s == OtaState::RolledBack
        || s == OtaState::Failed
}

#[derive(Debug)]
pub struct OtaManifest {
    pub version: String,
    pub artifact_sha256_hex: String,
    pub signature_hex: String,
    pub size_bytes: u64,
}

pub struct OtaManifestView {
    pub version: Seq<char>,
    pub artifact_sha256_hex: Seq<char>,
    pub signature_hex: Seq<char>,
    pub size_bytes: u64,
}

impl View for OtaManifest {
    type V = OtaManifestView;

    open spec fn view(&self) -> OtaManifestView {
        OtaManifestView {
            version: self.version@,
            artifact_sha256_hex: self.artifact_sha256_hex@,
            signature_hex: self.signature_hex@,
            size_bytes: self.size_bytes,
        }
    }
}

impl Clone for OtaManifest {
    fn clone(&self) -> (r: Self)
        ensures
            r@ == self@,
    {
        OtaManifest {
            version: self.version.clone(),
            artifact_sha256_hex: self.artifact_sha256_hex.clone(),
            signature_hex: self.signature_hex.clone(),
            size_bytes: self.size_bytes,
        }
    }
}

#[derive(Debug)]
pub struct HealthGate {
    pub max_consecutive_failures: u32,
}

impl Clone for HealthGate {
    fn clone(&self) -> (r: Self)
        ensures
            r == *self,
    {
        HealthGate { max_consecutive_failures: self.max_consecutive_failures }
    }
}

#[derive(Debug)]
pub enum OtaError {
    HashMismatch { expected: String, got: String },
    BadSignature,
    InvalidTransition(OtaState),
    HealthCheck(String),
    /// The offered version is not above the highest committed one
    /// (rollback-attack protection).
    Downgrade { offered: String, committed: String },
    Other(String),
}

pub enum OtaErrorView {
    HashMismatch { expected: Seq<char>, got: Seq<char> },
    BadSignature,
    InvalidTransition(OtaState),
    HealthCheck(Seq<char>),
    Downgrade { offered: Seq<char>, committed: Seq<char> },
    Other(Seq<char>),
}

impl View for OtaError {
    type V = OtaErrorView;

    open spec fn view(&self) -> OtaErrorView {
        match self {
            OtaError::HashMismatch { expected, got } => OtaErrorView::HashMismatch {
                expected: expected@,
                got: got@,
            },
            OtaError::BadSignature => OtaErrorView::BadSignature,
            OtaError::InvalidTransition(s) => OtaErrorView::InvalidTransition(*s),
            OtaError::HealthCheck(d) => OtaErrorView::HealthCheck(d@),
            OtaError::Downgrade { offered, committed } => OtaErrorView::Downgrade {
                offered: offered@,
                committed: committed@,
            },
            OtaError::Other(m) => OtaErrorView::Other(m@),
        }
    }
}

pub open spec fn unit_result_view(r: Result<(), OtaError>) -> Result<(), OtaErrorView> {
    match r {
        Ok(()) => Ok(()),
        Err(e) => Err(e@),
    }
}

pub open spec fn bool_result_view(r: Result<bool, OtaError>) -> Result<bool, OtaErrorView> {
    match r {
        Ok(b) => Ok(b),
        Err(e) => Err(e@),
    }
}

pub open spec fn string_opt_view(o: Option<String>) -> Option<Seq<char>> {
    match o {
        Some(s) => Some(s@),
        None => None,
    }
}

pub open spec fn bytes_opt_view(o: Option<Vec<u8>>) -> Option<Seq<u8>> {
    match o {
        Some(b) => Some(b@),
        None => None,
    }
}

/// What is journaled after every step: everything but the artifact bytes,
/// which are downloaded again after a crash.
#[derive(Debug)]
pub struct OtaJournal {
    pub state: OtaState,
    pub active_slot: Slot,
    pub candidate_slot: Option<Slot>,
    pub candidate_version: Option<String>,
    pub last_error: Option<String>,
    pub highest_committed_version: Option<String>,
}

/// Model of the update manager.
pub struct OtaModel {
    pub state: OtaState,
    pub active_slot: Slot,
    pub candidate_slot: Option<Slot>,
    pub candidate_version: Option<Seq<char>>,
    pub candidate_bytes: Option<Seq<u8>>,
    pub last_error: Option<Seq<char>>,
    pub dev_key: Seq<u8>,
    /// The highest version ever committed on this device, if any.
    pub highest_committed: Option<Seq<char>>,
    /// Rollbacks since this manager was created or resumed.
    pub rollbacks: u64,
}

/// Update manager. Each mutating step leaves the manager in the state the
/// caller journals before acting on the result.
pub struct OtaManager {
    state: OtaState,
    active_slot: Slot,
    candidate_slot: Option<Slot>,
    candidate_version: Option<String>,
    candidate_bytes: Option<Vec<u8>>,
    last_error: Option<String>,
    /// Development signing key for the HMAC. Never ship a hard-coded
    /// production key.
    dev_key: Vec<u8>,
    highest_committed: Option<String>,
    rollbacks: u64,
}

impl View for OtaManager {
    type V = OtaModel;

    closed spec fn view(&self) -> OtaModel {
        OtaModel {
            state: self.state,
            active_slot: self.active_slot,
            candidate_slot: self.candidate_slot,
            candidate_version: string_opt_view(self.candidate_version),
            candidate_bytes: bytes_opt_view(self.candidate_bytes),
            last_error: string_opt_view(self.last_error),
            dev_key: self.dev_key@,
            highest_committed: string_opt_view(self.highest_committed),
            rollbacks: self.rollbacks,
        }
    }
}

/// The message of a start refused because another update is in progress.
pub open spec fn busy_message(s: OtaState, version: Seq<char>) -> Seq<char> {
    "busy in "@ + state_label(s) + ", cannot start "@ + version
}

/// Drop the candidate: no candidate slot, version or bytes.
pub open spec fn without_candidate(m: OtaModel) -> OtaModel {
    OtaModel { candidate_slot: None, candidate_version: None, candidate_bytes: None, ..m }
}

/// Whether starting `version` is a downgrade: a version has been committed
/// and `version` is not a version above it.
pub open spec fn is_downgrade(m: OtaModel, version: Seq<char>) -> bool {
    m.highest_committed is Some && version_numbers(m.highest_committed->0) is Some && !version_before(
        m.highest_committed->0,
        version,
    )
}

/// The highest committed version after committing `candidate`.
pub open spec fn raised(highest: Option<Seq<char>>, candidate: Option<Seq<char>>) -> Option<Seq<char>> {
    match candidate {
        Some(v) => if version_numbers(v) is Some && (highest is None || version_numbers(highest->0) is None
            || version_before(highest->0, v)) {
            Some(v)
        } else {
            highest
        },
        None => highest,
    }
}

/// Begin an update. Starting the version that is already in progress is a
/// no-op success (`Ok(false)`); starting another one while an update is
/// in progress is an error; so is a downgrade (rollback-attack
/// protection: genuine rollback is the slot flip of [`rollback_step`],
/// never a reinstall); otherwise the other slot becomes the candidate and
/// downloading begins (`Ok(true)`).
pub open spec fn start_download_step(m: OtaModel, manifest: OtaManifestView) -> (OtaModel, Result<bool, OtaErrorView>) {
    if m.candidate_version is Some && m.candidate_version->0 == manifest.version && !is_settled(m.state) {
        (m, Ok(false))
    } else if m.candidate_version is Some && !is_settled(m.state) {
        (m, Err(OtaErrorView::Other(busy_message(m.state, manifest.version))))
    } else if is_downgrade(m, manifest.version) {
        (
            m,
            Err(OtaErrorView::Downgrade { offered: manifest.version, committed: m.highest_committed->0 }),
        )
    } else {
        (
            OtaModel {
                state: OtaState::Downloading,
                candidate_slot: Some(other_slot(m.active_slot)),
                candidate_version: Some(manifest.version),
                candidate_bytes: None,
                last_error: None,
                ..m
            },
            Ok(true),
        )
    }
}

/// Append a chunk while downloading; a chunk longer than the declared size
/// plus 1 MiB is refused.
pub open spec fn ingest_chunk_step(m: OtaModel, chunk: Seq<u8>, manifest: OtaManifestView) -> (OtaModel, Result<(), OtaErrorView>) {
    if m.state != OtaState::Downloading {
        (m, Err(OtaErrorView::InvalidTransition(m.state)))
    } else if chunk.len() > manifest.size_bytes + 1048576 {
        (m, Err(OtaErrorView::Other("chunk exceeds declared size"@)))
    } else {
        let before = match m.candidate_bytes {
            Some(b) => b,
            None => Seq::empty(),
        };
        (OtaModel { candidate_bytes: Some(before + chunk), ..m }, Ok(()))
    }
}

/// The downloaded bytes, or none.
pub open spec fn downloaded(m: OtaModel) -> Seq<u8> {
    match m.candidate_bytes {
        Some(b) => b,
        None => Seq::empty(),
    }
}

/// Settle the artifact check given the artifact's digest and signature in
/// hex and the manifest's expected values (lowercased): a digest mismatch
/// fails first, then a signature mismatch; otherwise the artifact passes
/// and nothing changes.
pub open spec fn settle_step(
    m: OtaModel,
    manifest: OtaManifestView,
    digest_hex: Seq<char>,
    expected_digest: Seq<char>,
    signature_hex: Seq<char>,
    expected_signature: Seq<char>,
) -> (OtaModel, Result<(), OtaErrorView>) {
    if digest_hex != expected_digest {
        (
            OtaModel { state: OtaState::Failed, last_error: Some("hash mismatch"@), ..m },
            Err(OtaErrorView::HashMismatch { expected: manifest.artifact_sha256_hex, got: digest_hex }),
        )
    } else if signature_hex != expected_signature {
        (
            OtaModel { state: OtaState::Failed, last_error: Some("bad signature"@), ..m },
            Err(OtaErrorView::BadSignature),
        )
    } else {
        (m, Ok(()))
    }
}

/// Check SHA-256 and the development signature over the downloaded bytes
/// while verifying: a mismatch fails the update, a match leaves it
/// verifying, ready to be staged.
pub open spec fn check_step(m: OtaModel, manifest: OtaManifestView) -> (OtaModel, Result<(), OtaErrorView>) {
    if m.state != OtaState::Verifying {
        (m, Err(OtaErrorView::InvalidTransition(m.state)))
    } else {
        settle_step(
            m,
            manifest,
            artifact_digest_hex(downloaded(m)),
            text_lowercase(manifest.artifact_sha256_hex),
            artifact_signature_hex(m.dev_key, downloaded(m)),
            text_lowercase(manifest.signature_hex),
        )
    }
}

/// Verify a finished download: verifying begins, the artifact is checked,
/// and a passing artifact is staged.
pub open spec fn verify_step(m: OtaModel, manifest: OtaManifestView) -> (OtaModel, Result<(), OtaErrorView>) {
    if m.state != OtaState::Downloading {
        (m, Err(OtaErrorView::InvalidTransition(m.state)))
    } else {
        let checked = check_step(OtaModel { state: OtaState::Verifying, ..m }, manifest);
        if checked.1 is Ok {
            (OtaModel { state: OtaState::Staged, ..checked.0 }, Ok(()))
        } else {
            checked
        }
    }
}

/// A step allowed only from `from`, moving to `to`.
pub open spec fn guarded_step(m: OtaModel, from: OtaState, to: OtaState) -> (OtaModel, Result<(), OtaErrorView>) {
    if m.state != from {
        (m, Err(OtaErrorView::InvalidTransition(m.state)))
    } else {
        (OtaModel { state: to, ..m }, Ok(()))
    }
}

/// Give up the candidate. Allowed while rolling back, health checking or
/// after a failure; the active slot is never touched.
pub open spec fn rollback_step(m: OtaModel) -> (OtaModel, Result<(), OtaErrorView>) {
    if m.state == OtaState::RollbackPending || m.state == OtaState::HealthChecking
        || m.state == OtaState::Failed {
        (
            OtaModel {
                state: OtaState::RolledBack,
                rollbacks: if m.rollbacks < u64::MAX { (m.rollbacks + 1) as u64 } else { u64::MAX },
                ..without_candidate(m)
            },
            Ok(()),
        )
    } else {
        (m, Err(OtaErrorView::InvalidTransition(m.state)))
    }
}

/// Judge the candidate. A healthy candidate becomes the active slot and the
/// update is committed; an unhealthy one records `detail` and is rolled
/// back.
pub open spec fn health_check_step(m: OtaModel, healthy: bool, detail: Seq<char>) -> (OtaModel, Result<(), OtaErrorView>) {
    if m.state != OtaState::HealthChecking {
        (m, Err(OtaErrorView::InvalidTransition(m.state)))
    } else if healthy {
        (
            OtaModel {
                state: OtaState::Committed,
                active_slot: match m.candidate_slot {
                    Some(s) => s,
                    None => other_slot(m.active_slot),
                },
                highest_committed: raised(m.highest_committed, m.candidate_version),
                ..without_candidate(m)
            },
            Ok(()),
        )
    } else {
        rollback_step(OtaModel { state: OtaState::RollbackPending, last_error: Some(detail), ..m })
    }
}

/// Record a failed health check: rolling back is pending, with the reason.
pub open spec fn failed_check_step(m: OtaModel, detail: Seq<char>) -> (OtaModel, Result<(), OtaErrorView>) {
    if m.state != OtaState::HealthChecking {
        (m, Err(OtaErrorView::InvalidTransition(m.state)))
    } else {
        (OtaModel { state: OtaState::RollbackPending, last_error: Some(detail), ..m }, Ok(()))
    }
}

/// Resume after a crash or power loss: anything before `Staged` restarts
/// from `Idle`; `RebootPending` and later re-enter health checking so a
/// bad candidate still rolls back; every other state is kept.
pub open spec fn recover_step(m: OtaModel) -> OtaModel {
    if m.state == OtaState::Downloading || m.state == OtaState::Verifying {
        OtaModel { state: OtaState::Idle, candidate_bytes: None, ..m }
    } else if m.state == OtaState::RebootPending || m.state == OtaState::BootingCandidate
        || m.state == OtaState::HealthChecking {
        OtaModel { state: OtaState::HealthChecking, ..m }
    } else {
        m
    }
}

fn copy_key(key: &[u8]) -> (r: Vec<u8>)
    ensures
        r@ == key@,
{
    let mut r: Vec<u8> = Vec::new();
    let mut i: usize = 0;
    while i < key.len()
        invariant
            i <= key@.len(),
            r@ == key@.subrange(0, i as int),
        decreases key@.len() - i,
    {
        r.push(key[i]);
        i = i + 1;
        assert(r@ == key@.subrange(0, i as int));
    }
    r
}

impl OtaManager {
    /// A manager with no journal yet: idle on slot A, no candidate.
    pub fn new(dev_key: &[u8]) -> (r: Self)
        ensures
            r@ == (OtaModel {
                state: OtaState::Idle,
                active_slot: Slot::A,
                candidate_slot: None,
                candidate_version: None,
                candidate_bytes: None,
                last_error: None,
                dev_key: dev_key@,
                highest_committed: None,
                rollbacks: 0,
            }),
    {
        OtaManager {
            state: OtaState::Idle,
            active_slot: Slot::A,
            candidate_slot: None,
            candidate_version: None,
            candidate_bytes: None,
            last_error: None,
            dev_key: copy_key(dev_key),
            highest_committed: None,
            rollbacks: 0,
        }
    }

    /// A manager resumed from its journal. The artifact bytes are not
    /// journaled, so there are none.
    pub fn from_journal(journal: OtaJournal, dev_key: &[u8]) -> (r: Self)
        ensures
            r@ == (OtaModel {
                state: journal.state,
                active_slot: journal.active_slot,
                candidate_slot: journal.candidate_slot,
                candidate_version: string_opt_view(journal.candidate_version),
                candidate_bytes: None,
                last_error: string_opt_view(journal.last_error),
                dev_key: dev_key@,
                highest_committed: string_opt_view(journal.highest_committed_version),
                rollbacks: 0,
            }),
    {
        OtaManager {
            state: journal.state,
            active_slot: journal.active_slot,
            candidate_slot: journal.candidate_slot,
            candidate_version: journal.candidate_version,
            candidate_bytes: None,
            last_error: journal.last_error,
            dev_key: copy_key(dev_key),
            highest_committed: journal.highest_committed_version,
            rollbacks: 0,
        }
    }

    /// The journal entry for the current state.
    pub fn journal(&self) -> (r: OtaJournal)
        ensures
            r.state == self@.state,
            r.active_slot == self@.active_slot,
            r.candidate_slot == self@.candidate_slot,
            string_opt_view(r.candidate_version) == self@.candidate_version,
            string_opt_view(r.last_error) == self@.last_error,
            string_opt_view(r.highest_committed_version) == self@.highest_committed,
    {
        OtaJournal {
            state: self.state,
            active_slot: self.active_slot,
            candidate_slot: self.candidate_slot,
            candidate_version: match &self.candidate_version {
                Some(v) => Some(v.clone()),
                None => None,
            },
            last_error: match &self.last_error {
                Some(e) => Some(e.clone()),
                None => None,
            },
            highest_committed_version: match &self.highest_committed {
                Some(h) => Some(h.clone()),
                None => None,
            },
        }
    }

    /// The highest version ever committed, if any.
    pub fn highest_committed_version(&self) -> (r: Option<&str>)
        ensures
            r is Some <==> self@.highest_committed is Some,
            r is Some ==> r->0@ == self@.highest_committed->0,
    {
        match &self.highest_committed {
            Some(h) => Some(h.as_str()),
            None => None,
        }
    }

    /// How many updates were rolled back since this manager was created or
    /// resumed (what the rollback counter of the telemetry reports).
    pub fn rollbacks(&self) -> (r: u64)
        ensures
            r == self@.rollbacks,
    {
        self.rollbacks
    }

    /// Whether starting `version` would be refused as a downgrade.
    fn refuses_downgrade(&self, version: &str) -> (r: bool)
        ensures
            r == is_downgrade(self@, version@),
    {
        match &self.highest_committed {
            Some(h) => match parse_version(h.as_str()) {
                Some(hn) => match parse_version(version) {
                    Some(vn) => !numbers_precede(&hn, &vn),
                    None => true,
                },
                None => false,
            },
            None => false,
        }
    }

    /// The highest committed version after committing the candidate.
    fn raised_highest(&self) -> (r: Option<String>)
        ensures
            string_opt_view(r) == raised(self@.highest_committed, self@.candidate_version),
    {
        match &self.candidate_version {
            Some(v) => match parse_version(v.as_str()) {
                Some(vn) => {
                    let above = match &self.highest_committed {
                        Some(h) => match parse_version(h.as_str()) {
                            Some(hn) => numbers_precede(&hn, &vn),
                            None => true,
                        },
                        None => true,
                    };
                    if above {
                        Some(v.clone())
                    } else {
                        match &self.highest_committed {
                            Some(h) => Some(h.clone()),
                            None => None,
                        }
                    }
                },
                None => match &self.highest_committed {
                    Some(h) => Some(h.clone()),
                    None => None,
                },
            },
            None => match &self.highest_committed {
                Some(h) => Some(h.clone()),
                None => None,
            },
        }
    }

    pub fn state(&self) -> (r: OtaState)
        ensures
            r == self@.state,
    {
        self.state
    }

    pub fn active_slot(&self) -> (r: Slot)
        ensures
            r == self@.active_slot,
    {
        self.active_slot
    }

    pub fn candidate_slot(&self) -> (r: Option<Slot>)
        ensures
            r == self@.candidate_slot,
    {
        self.candidate_slot
    }

    pub fn candidate_version(&self) -> (r: Option<&str>)
        ensures
            r is Some <==> self@.candidate_version is Some,
            r is Some ==> r->0@ == self@.candidate_version->0,
    {
        match &self.candidate_version {
            Some(v) => Some(v.as_str()),
            None => None,
        }
    }

    pub fn last_error(&self) -> (r: Option<&str>)
        ensures
            r is Some <==> self@.last_error is Some,
            r is Some ==> r->0@ == self@.last_error->0,
    {
        match &self.last_error {
            Some(e) => Some(e.as_str()),
            None => None,
        }
    }

    /// The downloaded artifact bytes (empty before any chunk arrived).
    pub fn candidate_bytes(&self) -> (r: &[u8])
        ensures
            r@ == downloaded(self@),
    {
        match &self.candidate_bytes {
            Some(b) => b.as_slice(),
            None => &[],
        }
    }

    /// Begin an update. Idempotent: starting the same version again while
    /// it is in progress is a no-op success; a *different* version while
    /// busy is an error.
    pub fn start_download(&mut self, manifest: &OtaManifest) -> (r: Result<bool, OtaError>)
        ensures
            (final(self)@, bool_result_view(r)) == start_download_step(old(self)@, manifest@),
    {
        let settled = match self.state {
            OtaState::Idle | OtaState::Committed | OtaState::RolledBack | OtaState::Failed => true,
            _ => false,
        };
        if let Some(v) = &self.candidate_version {
            if v.eq(&manifest.version) && !settled {
                return Ok(false);
            }
            if !settled {
                let mut msg = String::from_str("busy in ");
                msg.append(label_of(self.state));
                msg.append(", cannot start ");
                msg.append(manifest.version.as_str());
                return Err(OtaError::Other(msg));
            }
        }
        if self.refuses_downgrade(manifest.version.as_str()) {
            let committed = match &self.highest_committed {
                Some(h) => h.clone(),
                None => String::new(),
            };
            return Err(OtaError::Downgrade { offered: manifest.version.clone(), committed });
        }
        self.candidate_slot = Some(self.active_slot.other());
        self.candidate_version = Some(manifest.version.clone());
        self.candidate_bytes = None;
        self.last_error = None;
        self.state = OtaState::Downloading;
        Ok(true)
    }

    pub fn ingest_chunk(&mut self, chunk: &[u8], manifest: &OtaManifest) -> (r: Result<(), OtaError>)
        ensures
            (final(self)@, unit_result_view(r)) == ingest_chunk_step(old(self)@, chunk@, manifest@),
    {
        if self.state != OtaState::Downloading {
            return Err(OtaError::InvalidTransition(self.state));
        }
        let limit = manifest.size_bytes.saturating_add(1048576);
        if chunk.len() as u64 > limit {
            return Err(OtaError::Other(String::from_str("chunk exceeds declared size")));
        }
        let mut bytes = match self.candidate_bytes.take() {
            Some(b) => b,
            None => Vec::new(),
        };
        let ghost before = bytes@;
        let mut i: usize = 0;
        while i < chunk.len()
            invariant
                i <= chunk@.len(),
                bytes@ == before + chunk@.subrange(0, i as int),
            decreases chunk@.len() - i,
        {
            bytes.push(chunk[i]);
            i = i + 1;
            assert(bytes@ == before + chunk@.subrange(0, i as int));
        }
        assert(chunk@.subrange(0, chunk@.len() as int) == chunk@);
        self.candidate_bytes = Some(bytes);
        Ok(())
    }

    /// Settle the artifact check given the artifact's digest and signature
    /// in lowercase hex and the manifest's expected values, lowercased;
    /// [`OtaManager::check_artifact`] computes the four values and calls it.
    pub fn settle_verification(
        &mut self,
        manifest: &OtaManifest,
        digest_hex: String,
        expected_digest: &str,
        signature_hex: &str,
        expected_signature: &str,
    ) -> (r: Result<(), OtaError>)
        ensures
            (final(self)@, unit_result_view(r)) == settle_step(
                old(self)@,
                manifest@,
                digest_hex@,
                expected_digest@,
                signature_hex@,
                expected_signature@,
            ),
    {
        if !str_eq(digest_hex.as_str(), expected_digest) {
            self.last_error = Some(String::from_str("hash mismatch"));
            self.state = OtaState::Failed;
            return Err(OtaError::HashMismatch {
                expected: manifest.artifact_sha256_hex.clone(),
                got: digest_hex,
            });
        }
        if !str_eq(signature_hex, expected_signature) {
            self.last_error = Some(String::from_str("bad signature"));
            self.state = OtaState::Failed;
            return Err(OtaError::BadSignature);
        }
        Ok(())
    }

    /// Begin verifying a finished download (journaled before the check).
    pub fn begin_verification(&mut self) -> (r: Result<(), OtaError>)
        ensures
            (final(self)@, unit_result_view(r)) == guarded_step(old(self)@, OtaState::Downloading, OtaState::Verifying),
    {
        if self.state != OtaState::Downloading {
            return Err(OtaError::InvalidTransition(self.state));
        }
        self.state = OtaState::Verifying;
        Ok(())
    }

    /// Check SHA-256 and the development HMAC signature over the downloaded
    /// bytes. A mismatch fails the update; a passing artifact stays
    /// verifying until the caller has written it to the candidate slot and
    /// stages it.
    pub fn check_artifact(&mut self, manifest: &OtaManifest) -> (r: Result<(), OtaError>)
        ensures
            (final(self)@, unit_result_view(r)) == check_step(old(self)@, manifest@),
    {
        if self.state != OtaState::Verifying {
            return Err(OtaError::InvalidTransition(self.state));
        }
        let digest = sha256_digest(self.candidate_bytes());
        let got = hex_encode(digest.as_slice());
        let expected = to_lowercase(manifest.artifact_sha256_hex.as_str());
        let tag = match hmac_sha256_tag(self.dev_key.as_slice(), self.candidate_bytes()) {
            Ok(t) => t,
            Err(_) => {
                return Err(OtaError::Other(String::from_str("bad key")));
            },
        };
        let sig = hex_encode(tag.as_slice());
        let expected_sig = to_lowercase(manifest.signature_hex.as_str());
        self.settle_verification(manifest, got, expected.as_str(), sig.as_str(), expected_sig.as_str())
    }

    /// Stage a checked artifact.
    pub fn stage(&mut self) -> (r: Result<(), OtaError>)
        ensures
            (final(self)@, unit_result_view(r)) == guarded_step(old(self)@, OtaState::Verifying, OtaState::Staged),
    {
        if self.state != OtaState::Verifying {
            return Err(OtaError::InvalidTransition(self.state));
        }
        self.state = OtaState::Staged;
        Ok(())
    }

    /// Verify SHA-256 and the development HMAC signature over the
    /// downloaded bytes and stage a passing artifact, in one go.
    pub fn verify(&mut self, manifest: &OtaManifest) -> (r: Result<(), OtaError>)
        ensures
            (final(self)@, unit_result_view(r)) == verify_step(old(self)@, manifest@),
    {
        if self.state != OtaState::Downloading {
            return Err(OtaError::InvalidTransition(self.state));
        }
        self.state = OtaState::Verifying;
        match self.check_artifact(manifest) {
            Ok(()) => {},
            Err(e) => {
                return Err(e);
            },
        }
        self.state = OtaState::Staged;
        Ok(())
    }

    pub fn mark_reboot_pending(&mut self) -> (r: Result<(), OtaError>)
        ensures
            (final(self)@, unit_result_view(r)) == guarded_step(old(self)@, OtaState::Staged, OtaState::RebootPending),
    {
        if self.state != OtaState::Staged {
            return Err(OtaError::InvalidTransition(self.state));
        }
        self.state = OtaState::RebootPending;
        Ok(())
    }

    /// Reboot into the candidate: the boot pointer moves to it (journaled
    /// before health checking begins).
    pub fn boot_candidate(&mut self) -> (r: Result<(), OtaError>)
        ensures
            (final(self)@, unit_result_view(r)) == guarded_step(old(self)@, OtaState::RebootPending, OtaState::BootingCandidate),
    {
        if self.state != OtaState::RebootPending {
            return Err(OtaError::InvalidTransition(self.state));
        }
        self.state = OtaState::BootingCandidate;
        Ok(())
    }

    /// The candidate is up: health checking begins.
    pub fn begin_health_check(&mut self) -> (r: Result<(), OtaError>)
        ensures
            (final(self)@, unit_result_view(r)) == guarded_step(old(self)@, OtaState::BootingCandidate, OtaState::HealthChecking),
    {
        if self.state != OtaState::BootingCandidate {
            return Err(OtaError::InvalidTransition(self.state));
        }
        self.state = OtaState::HealthChecking;
        Ok(())
    }

    /// Simulate a reboot into the candidate: the boot pointer moves to the
    /// candidate (`BootingCandidate`) and health checking begins.
    pub fn simulate_reboot(&mut self) -> (r: Result<(), OtaError>)
        ensures
            (final(self)@, unit_result_view(r)) == guarded_step(old(self)@, OtaState::RebootPending, OtaState::HealthChecking),
    {
        match self.boot_candidate() {
            Ok(()) => self.begin_health_check(),
            Err(e) => Err(e),
        }
    }

    /// Record a failed health check; rolling back is then pending.
    pub fn fail_health_check(&mut self, detail: &str) -> (r: Result<(), OtaError>)
        ensures
            (final(self)@, unit_result_view(r)) == failed_check_step(old(self)@, detail@),
    {
        if self.state != OtaState::HealthChecking {
            return Err(OtaError::InvalidTransition(self.state));
        }
        self.last_error = Some(detail.to_owned());
        self.state = OtaState::RollbackPending;
        Ok(())
    }

    /// Run health checks against the candidate. `healthy == false` rolls
    /// back to the previous slot automatically.
    pub fn health_check(&mut self, healthy: bool, detail: &str) -> (r: Result<(), OtaError>)
        ensures
            (final(self)@, unit_result_view(r)) == health_check_step(old(self)@, healthy, detail@),
    {
        if self.state != OtaState::HealthChecking {
            return Err(OtaError::InvalidTransition(self.state));
        }
        if healthy {
            self.highest_committed = self.raised_highest();
            self.active_slot = match self.candidate_slot {
                Some(s) => s,
                None => self.active_slot.other(),
            };
            self.candidate_slot = None;
            self.candidate_version = None;
            self.candidate_bytes = None;
            self.state = OtaState::Committed;
            Ok(())
        } else {
            match self.fail_health_check(detail) {
                Ok(()) => self.rollback(),
                Err(e) => Err(e),
            }
        }
    }

    pub fn rollback(&mut self) -> (r: Result<(), OtaError>)
        ensures
            (final(self)@, unit_result_view(r)) == rollback_step(old(self)@),
    {
        match self.state {
            OtaState::RollbackPending | OtaState::HealthChecking | OtaState::Failed => {},
            _ => {
                return Err(OtaError::InvalidTransition(self.state));
            },
        }
        // The active slot never flipped on failure, so restoring it is just
        // dropping the candidate and recording the outcome.
        self.candidate_slot = None;
        self.candidate_version = None;
        self.candidate_bytes = None;
        self.state = OtaState::RolledBack;
        self.rollbacks = self.rollbacks.saturating_add(1);
        Ok(())
    }

    /// Recover after a crash or power loss. Returns the state to resume
    /// from.
    pub fn recover(&mut self) -> (r: OtaState)
        ensures
            final(self)@ == recover_step(old(self)@),
            r == final(self)@.state,
    {
        match self.state {
            OtaState::Downloading | OtaState::Verifying => {
                self.candidate_bytes = None;
                self.state = OtaState::Idle;
            },
            OtaState::RebootPending | OtaState::BootingCandidate | OtaState::HealthChecking => {
                self.state = OtaState::HealthChecking;
            },
            _ => {},
        }
        self.state
    }
}

} // verus!

verus! {

/// The other slot of the other slot is the slot itself, and never the same.
pub proof fn lemma_other_slot_involutive(s: Slot)
    ensures
        other_slot(other_slot(s)) == s,
        other_slot(s) != s,
{
}

/// The active slot moves only when a healthy candidate is committed: every
/// other step, whether it succeeds or fails, keeps it.
pub proof fn lemma_only_commit_moves_active_slot(
    m: OtaModel,
    manifest: OtaManifestView,
    chunk: Seq<u8>,
    detail: Seq<char>,
)
    ensures
        start_download_step(m, manifest).0.active_slot == m.active_slot,
        ingest_chunk_step(m, chunk, manifest).0.active_slot == m.active_slot,
        verify_step(m, manifest).0.active_slot == m.active_slot,
        check_step(m, manifest).0.active_slot == m.active_slot,
        forall|from: OtaState, to: OtaState| #[trigger] guarded_step(m, from, to).0.active_slot == m.active_slot,
        failed_check_step(m, detail).0.active_slot == m.active_slot,
        rollback_step(m).0.active_slot == m.active_slot,
        health_check_step(m, false, detail).0.active_slot == m.active_slot,
        recover_step(m).active_slot == m.active_slot,
        m.state != OtaState::HealthChecking ==> health_check_step(m, true, detail).0.active_slot
            == m.active_slot,
{
}

/// A failed health check rolls back: the update ends `RolledBack`, the
/// active slot is untouched, the candidate is dropped, the reason kept and
/// the rollback counted.
pub proof fn lemma_failed_health_check_rolls_back(m: OtaModel, detail: Seq<char>)
    requires
        m.state == OtaState::HealthChecking,
    ensures
        health_check_step(m, false, detail).1 is Ok,
        health_check_step(m, false, detail).0.state == OtaState::RolledBack,
        health_check_step(m, false, detail).0.active_slot == m.active_slot,
        health_check_step(m, false, detail).0.candidate_slot is None,
        health_check_step(m, false, detail).0.candidate_version is None,
        health_check_step(m, false, detail).0.last_error == Some(detail),
        m.rollbacks < u64::MAX ==> health_check_step(m, false, detail).0.rollbacks == m.rollbacks + 1,
{
}

/// A download that fails verification is never staged: it ends `Failed`,
/// and the active slot is untouched.
pub proof fn lemma_rejected_artifact_is_not_staged(m: OtaModel, manifest: OtaManifestView)
    requires
        m.state == OtaState::Downloading,
        verify_step(m, manifest).1 is Err,
    ensures
        verify_step(m, manifest).0.state == OtaState::Failed,
        verify_step(m, manifest).0.active_slot == m.active_slot,
{
}

/// A successful update flips the active slot: from any settled state, a
/// start of a version that is no downgrade, one chunk holding the whole artifact, a passing verification, the
/// reboot and a healthy check commit the other slot.
pub proof fn lemma_successful_update_flips_slot(m: OtaModel, manifest: OtaManifestView, payload: Seq<u8>)
    requires
        is_settled(m.state),
        !is_downgrade(m, manifest.version),
        payload.len() <= manifest.size_bytes + 1048576,
        artifact_digest_hex(payload) == text_lowercase(manifest.artifact_sha256_hex),
        artifact_signature_hex(m.dev_key, payload) == text_lowercase(manifest.signature_hex),
    ensures
        ({
            let s1 = start_download_step(m, manifest);
            let s2 = ingest_chunk_step(s1.0, payload, manifest);
            let s3 = verify_step(s2.0, manifest);
            let s4 = guarded_step(s3.0, OtaState::Staged, OtaState::RebootPending);
            let s5 = guarded_step(s4.0, OtaState::RebootPending, OtaState::HealthChecking);
            let s6 = health_check_step(s5.0, true, Seq::empty());
            &&& s1.1 == Ok::<bool, OtaErrorView>(true)
            &&& s2.1 is Ok && s3.1 is Ok && s4.1 is Ok && s5.1 is Ok && s6.1 is Ok
            &&& s6.0.state == OtaState::Committed
            &&& s6.0.active_slot == other_slot(m.active_slot)
            &&& s6.0.candidate_slot is None
            &&& s6.0.candidate_version is None
            &&& s6.0.highest_committed == raised(m.highest_committed, Some(manifest.version))
        }),
{
    let s1 = start_download_step(m, manifest);
    let s2 = ingest_chunk_step(s1.0, payload, manifest);
    assert(Seq::<u8>::empty() + payload == payload);
    assert(downloaded(s2.0) == payload);
}

/// Recovery lands in a resumable state and is idempotent: recovering twice
/// is recovering once.
pub proof fn lemma_recover_idempotent(m: OtaModel)
    ensures
        recover_step(recover_step(m)) == recover_step(m),
        recover_step(m).state != OtaState::Downloading,
        recover_step(m).state != OtaState::Verifying,
        recover_step(m).state != OtaState::RebootPending,
        recover_step(m).state != OtaState::BootingCandidate,
{
}

/// A crash at any point between reboot and the health assessment re-enters
/// health checking, so a bad candidate still rolls back after recovery.
pub proof fn lemma_power_loss_still_rolls_back(m: OtaModel, detail: Seq<char>)
    requires
        m.state == OtaState::RebootPending || m.state == OtaState::BootingCandidate
            || m.state == OtaState::HealthChecking,
    ensures
        recover_step(m).state == OtaState::HealthChecking,
        health_check_step(recover_step(m), false, detail).0.state == OtaState::RolledBack,
        health_check_step(recover_step(m), false, detail).0.active_slot == m.active_slot,
{
}

/// Starting the same update twice is idempotent: the second start is a
/// no-op success.
pub proof fn lemma_duplicate_start_is_idempotent(m: OtaModel, manifest: OtaManifestView)
    requires
        start_download_step(m, manifest).1 == Ok::<bool, OtaErrorView>(true),
    ensures
        start_download_step(start_download_step(m, manifest).0, manifest) == (
            start_download_step(m, manifest).0,
            Ok::<bool, OtaErrorView>(false),
        ),
{
}

/// A different update while one is in progress is refused and changes
/// nothing.
pub proof fn lemma_busy_start_is_refused(m: OtaModel, manifest: OtaManifestView)
    requires
        m.candidate_version is Some,
        m.candidate_version->0 != manifest.version,
        !is_settled(m.state),
    ensures
        start_download_step(m, manifest).0 == m,
        start_download_step(m, manifest).1 is Err,
{
}

/// Signed downgrades are refused: once a version is committed, starting a
/// version that is not above it fails and changes nothing, from any
/// settled state.
pub proof fn lemma_downgrade_is_refused(m: OtaModel, manifest: OtaManifestView)
    requires
        is_settled(m.state),
        is_downgrade(m, manifest.version),
    ensures
        start_download_step(m, manifest).0 == m,
        start_download_step(m, manifest).1 == Err::<bool, OtaErrorView>(
            OtaErrorView::Downgrade { offered: manifest.version, committed: m.highest_committed->0 },
        ),
{
}

/// The highest committed version never goes down: committing raises it to
/// the candidate when that is a version above it, and no other step
/// touches it.
pub proof fn lemma_highest_committed_never_falls(m: OtaModel, c: Option<Seq<char>>)
    requires
        m.highest_committed is Some,
        version_numbers(m.highest_committed->0) is Some,
    ensures
        raised(m.highest_committed, c) is Some,
        raised(m.highest_committed, c) == m.highest_committed || version_before(
            m.highest_committed->0,
            raised(m.highest_committed, c)->0,
        ),
        recover_step(m).highest_committed == m.highest_committed,
        rollback_step(m).0.highest_committed == m.highest_committed,
{
}

/// A correctly signed artifact verifies: when the manifest carries the
/// digest and development signature of exactly the downloaded bytes, in
/// lowercase hex as `dev_sign` mints them, verification stages it and
/// leaves the active slot alone.
pub proof fn lemma_dev_signed_artifact_verifies(m: OtaModel, manifest: OtaManifestView)
    requires
        m.state == OtaState::Downloading,
        manifest.artifact_sha256_hex == artifact_digest_hex(downloaded(m)),
        manifest.signature_hex == artifact_signature_hex(m.dev_key, downloaded(m)),
    ensures
        verify_step(m, manifest).1 is Ok,
        verify_step(m, manifest).0.state == OtaState::Staged,
        verify_step(m, manifest).0.active_slot == m.active_slot,
{
    crate::crypto::lemma_hex_is_lowercase(crate::crypto::sha256(downloaded(m)));
    crate::crypto::lemma_hex_is_lowercase(crate::crypto::hmac_sha256(m.dev_key, downloaded(m)));
}

/// Committing a healthy candidate whose version is above every version
/// committed before makes it the highest committed version; from then on,
/// any start at or below it is refused as a downgrade and changes nothing.
pub proof fn lemma_commit_raises_highest(m: OtaModel, detail: Seq<char>, manifest: OtaManifestView)
    requires
        m.state == OtaState::HealthChecking,
        m.candidate_version is Some,
        version_numbers(m.candidate_version->0) is Some,
        m.highest_committed is None || version_before(m.highest_committed->0, m.candidate_version->0),
        !version_before(m.candidate_version->0, manifest.version),
    ensures
        health_check_step(m, true, detail).0.highest_committed == m.candidate_version,
        start_download_step(health_check_step(m, true, detail).0, manifest).1 is Err,
        start_download_step(health_check_step(m, true, detail).0, manifest).0 == health_check_step(
            m,
            true,
            detail,
        ).0,
{
}

} // verus!
