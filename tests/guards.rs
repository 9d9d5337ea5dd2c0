use neuroxfs::artifact::{ArtifactKind, NeurorightsProfile, SovereignArtifact};
use neuroxfs::error::FsError;
use neuroxfs::fs_handle::{FsHandle, FsMode};
use neuroxfs::guards::{AuraBoundaryGuard, SovereignKernelLock};

fn rights(privacy: bool, dream: bool, non_tradeable: bool, forbid: bool) -> NeurorightsProfile {
    NeurorightsProfile {
        mental_privacy: privacy,
        dreamstate_sensitive: dream,
        soul_non_tradeable: non_tradeable,
        forbid_decision_use: forbid,
    }
}

fn artifact(
    subject: &str,
    kind: ArtifactKind,
    neurorights: NeurorightsProfile,
    routes: &[&str],
    tags: &[&str],
) -> SovereignArtifact {
    SovereignArtifact {
        path: format!("/store/{}.bin", subject),
        subject_id: subject.to_string(),
        kind,
        routes: routes.iter().map(|r| r.to_string()).collect(),
        roh_before_bits: 0,
        roh_after_bits: 0,
        neurorights,
        lifeforce_cost_bits: 0,
        governance_tags: tags.iter().map(|t| t.to_string()).collect(),
    }
}

const PRIVILEGED: [ArtifactKind; 4] = [
    ArtifactKind::SovereignConfig,
    ArtifactKind::EvolveStream,
    ArtifactKind::DonutLedger,
    ArtifactKind::BChainProof,
];

const ORDINARY: [ArtifactKind; 4] = [
    ArtifactKind::NeuralShard,
    ArtifactKind::NeuroRightsPolicy,
    ArtifactKind::Model,
    ArtifactKind::GenericData,
];

#[test]
fn foreign_subject_refused_for_read_and_write() {
    let art = artifact(
        "s1",
        ArtifactKind::NeuralShard,
        rights(true, true, true, true),
        &["INTROSPECT"],
        &["EXPORT"],
    );
    let guard = AuraBoundaryGuard;
    assert_eq!(
        guard.check_read("s2", &art),
        Err("AuraBoundaryGuard: cross-subject access denied".to_string())
    );
    assert_eq!(
        guard.check_write("s2", &art),
        Err("AuraBoundaryGuard: cross-subject write denied".to_string())
    );
    let plain = artifact("s1", ArtifactKind::GenericData, rights(false, false, false, false), &[], &[]);
    assert!(guard.check_read("", &plain).is_err());
    assert!(guard.check_write("S1", &plain).is_err());
    for mode in [FsMode::ReadOnly, FsMode::WriteOnly, FsMode::ReadWrite] {
        let r = FsHandle::open(plain.clone(), mode, "s2".to_string(), true);
        assert!(matches!(r, Err(FsError::GuardError(_))));
    }
}

#[test]
fn privileged_write_without_token_hits_lock() {
    for kind in PRIVILEGED {
        for mode in [FsMode::WriteOnly, FsMode::ReadWrite] {
            let art = artifact("s1", kind, rights(false, false, false, false), &[], &[]);
            match FsHandle::open(art, mode, "s1".to_string(), false) {
                Err(FsError::LockError(m)) => {
                    assert_eq!(m, "SovereignKernelLock: mutation requires EVOLVE token path")
                }
                other => panic!("expected a lock error, got {:?}", other),
            }
        }
    }
}

#[test]
fn privileged_write_with_token_succeeds() {
    for kind in PRIVILEGED {
        for mode in [FsMode::ReadOnly, FsMode::WriteOnly, FsMode::ReadWrite] {
            let art = artifact("s1", kind, rights(false, false, false, false), &[], &[]);
            let h = FsHandle::open(art, mode, "s1".to_string(), true).expect("granted");
            assert_eq!(h.mode(), mode);
            assert_eq!(h.caller_subject(), "s1");
            assert!(h.via_evolve_token());
            assert_eq!(h.artifact().kind, kind);
        }
    }
}

#[test]
fn ordinary_kinds_pass_lock_without_token() {
    let lock = SovereignKernelLock;
    for kind in ORDINARY {
        let art = artifact("s1", kind, rights(false, false, false, false), &[], &[]);
        assert_eq!(lock.check_mutation(&art, false), Ok(()));
        assert!(FsHandle::open(art, FsMode::WriteOnly, "s1".to_string(), false).is_ok());
    }
    for kind in PRIVILEGED {
        let art = artifact("s1", kind, rights(false, false, false, false), &[], &[]);
        assert!(lock.check_mutation(&art, false).is_err());
        assert_eq!(lock.check_mutation(&art, true), Ok(()));
    }
}

#[test]
fn private_neural_shard_never_readable() {
    let guard = AuraBoundaryGuard;
    for routes in [vec![], vec!["INTROSPECT"], vec!["CHAT", "BCI", "INTROSPECT"]] {
        let art = artifact("s1", ArtifactKind::NeuralShard, rights(true, false, false, false), &routes, &[]);
        assert_eq!(
            guard.check_read("s1", &art),
            Err("AuraBoundaryGuard: mental privacy forbids raw neural shard export".to_string())
        );
    }
    let model = artifact("s1", ArtifactKind::Model, rights(true, false, false, false), &[], &[]);
    assert_eq!(guard.check_read("s1", &model), Ok(()));
}

#[test]
fn introspect_route_gates_altered_state_reads() {
    let guard = AuraBoundaryGuard;
    let art = artifact("s1", ArtifactKind::GenericData, rights(false, true, false, true), &["CHAT"], &[]);
    assert_eq!(
        guard.check_read("s1", &art),
        Err("AuraBoundaryGuard: dreamstate-sensitive shard not exposed on this route".to_string())
    );
    let mut extended = art.clone();
    extended.routes.push("INTROSPECT".to_string());
    assert_eq!(guard.check_read("s1", &extended), Ok(()));
    let lower = artifact("s1", ArtifactKind::GenericData, rights(false, true, false, true), &["introspect"], &[]);
    assert!(guard.check_read("s1", &lower).is_err());
    let only_dream = artifact("s1", ArtifactKind::GenericData, rights(false, true, false, false), &[], &[]);
    assert_eq!(guard.check_read("s1", &only_dream), Ok(()));
}

#[test]
fn non_tradeable_export_tag_blocks_write() {
    let guard = AuraBoundaryGuard;
    let art = artifact("s1", ArtifactKind::Model, rights(false, false, true, false), &[], &["SMART", "EXPORT"]);
    assert_eq!(
        guard.check_write("s1", &art),
        Err("AuraBoundaryGuard: soul-non-tradeable artifact cannot be exported or tokenized".to_string())
    );
    let tradeable = artifact("s1", ArtifactKind::Model, rights(false, false, false, false), &[], &["EXPORT"]);
    assert_eq!(guard.check_write("s1", &tradeable), Ok(()));
    let untagged = artifact("s1", ArtifactKind::Model, rights(false, false, true, false), &[], &["EVOLVE"]);
    assert_eq!(guard.check_write("s1", &untagged), Ok(()));
    assert!(matches!(
        FsHandle::open(art, FsMode::ReadWrite, "s1".to_string(), true),
        Err(FsError::GuardError(_))
    ));
}

#[test]
fn read_write_mode_runs_read_checks_first() {
    let art = artifact("s1", ArtifactKind::NeuralShard, rights(true, false, true, false), &[], &["EXPORT"]);
    match FsHandle::open(art.clone(), FsMode::ReadWrite, "s1".to_string(), true) {
        Err(FsError::GuardError(m)) => {
            assert_eq!(m, "AuraBoundaryGuard: mental privacy forbids raw neural shard export")
        }
        other => panic!("expected a guard error, got {:?}", other),
    }
    match FsHandle::open(art, FsMode::WriteOnly, "s1".to_string(), true) {
        Err(FsError::GuardError(m)) => assert_eq!(
            m,
            "AuraBoundaryGuard: soul-non-tradeable artifact cannot be exported or tokenized"
        ),
        other => panic!("expected a guard error, got {:?}", other),
    }
}

#[test]
fn open_flags_and_mode_checks_follow_mode() {
    let art = artifact("s1", ArtifactKind::GenericData, rights(false, false, false, false), &[], &[]);
    let ro = FsHandle::open(art.clone(), FsMode::ReadOnly, "s1".to_string(), false).unwrap();
    let f = ro.open_flags();
    assert!(f.read && !f.write && !f.create);
    assert!(ro.permit_read().is_ok());
    match ro.permit_write() {
        Err(FsError::ModeError(m)) => assert_eq!(m, "handle not opened for write"),
        other => panic!("expected a mode error, got {:?}", other),
    }
    let wo = FsHandle::open(art.clone(), FsMode::WriteOnly, "s1".to_string(), false).unwrap();
    let f = wo.open_flags();
    assert!(!f.read && f.write && f.create);
    assert!(wo.permit_write().is_ok());
    match wo.permit_read() {
        Err(FsError::ModeError(m)) => assert_eq!(m, "handle not opened for read"),
        other => panic!("expected a mode error, got {:?}", other),
    }
    let rw = FsHandle::open(art, FsMode::ReadWrite, "s1".to_string(), false).unwrap();
    let f = rw.open_flags();
    assert!(f.read && f.write && f.create);
    assert!(rw.permit_read().is_ok() && rw.permit_write().is_ok());
}

#[test]
fn error_messages_carry_category() {
    assert_eq!(FsError::GuardError("g".into()).message(), "Guard error: g");
    assert_eq!(FsError::LockError("l".into()).message(), "Lock error: l");
    assert_eq!(FsError::ModeError("m".into()).message(), "Mode error: m");
    assert_eq!(FsError::PolicyError("p".into()).message(), "Policy error: p");
    assert_eq!(FsError::NotFound("n".into()).message(), "Not found: n");
    let io = FsError::Io(std::io::Error::new(std::io::ErrorKind::Other, "disk gone"));
    assert_eq!(io.message(), "IO error: disk gone");
}

#[test]
fn snapshot_keeps_every_field() {
    let mut art = artifact("s1", ArtifactKind::Model, rights(true, false, true, false), &["CHAT", "BCI"], &["EVOLVE"]);
    art.roh_before_bits = 0x3e99999a;
    art.lifeforce_cost_bits = 7;
    let copy = art.snapshot();
    assert_eq!(copy.path, art.path);
    assert_eq!(copy.subject_id, art.subject_id);
    assert_eq!(copy.kind, art.kind);
    assert_eq!(copy.routes, art.routes);
    assert_eq!(copy.roh_before_bits, 0x3e99999a);
    assert_eq!(copy.lifeforce_cost_bits, 7);
    assert_eq!(copy.neurorights, art.neurorights);
    assert_eq!(copy.governance_tags, art.governance_tags);
}
