use neuroxfs::agent_adapter::{
    AgentFsRequest, AgentOperationKind, ArtifactResolver, GatewayStep, NeuroxfsAgentAdapter,
    ResponseData,
};
use neuroxfs::artifact::{ArtifactKind, NeurorightsProfile, SovereignArtifact};
use neuroxfs::error::FsError;
use neuroxfs::fs_handle::FsMode;
use neuroxfs::resolver::InMemoryResolver;

type Adapter = NeuroxfsAgentAdapter<InMemoryResolver>;

fn no_rights() -> NeurorightsProfile {
    NeurorightsProfile {
        mental_privacy: false,
        dreamstate_sensitive: false,
        soul_non_tradeable: false,
        forbid_decision_use: false,
    }
}

fn artifact(subject: &str, kind: ArtifactKind, neurorights: NeurorightsProfile) -> SovereignArtifact {
    SovereignArtifact {
        path: format!("/store/{}/artifact.bin", subject),
        subject_id: subject.to_string(),
        kind,
        routes: vec![],
        roh_before_bits: 0,
        roh_after_bits: 0,
        neurorights,
        lifeforce_cost_bits: 0,
        governance_tags: vec![],
    }
}

fn adapter_with(art: SovereignArtifact) -> Adapter {
    let mut resolver = InMemoryResolver::new();
    resolver.register("doc1".to_string(), art);
    NeuroxfsAgentAdapter::new(resolver)
}

fn request(subject: &str, op: AgentOperationKind, token: bool) -> AgentFsRequest {
    AgentFsRequest {
        subject_id: subject.to_string(),
        artifact_id: "doc1".to_string(),
        op,
        via_evolve_token: token,
    }
}

fn policy_message(step: GatewayStep) -> String {
    match step {
        GatewayStep::Done(Err(FsError::PolicyError(m))) => m,
        other => panic!("expected a policy error, got {:?}", other),
    }
}

#[test]
fn summary_of_generic_data_contains_content() {
    let adapter = adapter_with(artifact("s1", ArtifactKind::GenericData, no_rights()));
    let step = adapter.begin_request(&request("s1", AgentOperationKind::ReadSummary, false));
    let handle = match step {
        GatewayStep::ReadContent(h) => h,
        other => panic!("expected a read step, got {:?}", other),
    };
    assert_eq!(handle.mode(), FsMode::ReadOnly);
    assert!(handle.permit_read().is_ok());
    assert_eq!(handle.artifact().path, "/store/s1/artifact.bin");
    let resp = Adapter::finish_summary(Ok(b"hello world".to_vec())).unwrap();
    assert!(resp.ok);
    assert_eq!(resp.message, "summary-ok");
    match resp.data {
        Some(ResponseData::Summary(s)) => {
            assert!(s.contains("hello world"));
            assert_eq!(s, "summary(snippet): hello world");
        }
        other => panic!("expected a summary, got {:?}", other),
    }
}

#[test]
fn summary_of_private_neural_shard_is_guard_failure() {
    let mut rights = no_rights();
    rights.mental_privacy = true;
    let adapter = adapter_with(artifact("s1", ArtifactKind::NeuralShard, rights));
    match adapter.begin_request(&request("s1", AgentOperationKind::ReadSummary, false)) {
        GatewayStep::Done(Err(FsError::GuardError(m))) => {
            assert_eq!(m, "AuraBoundaryGuard: mental privacy forbids raw neural shard export")
        }
        other => panic!("expected a guard error, got {:?}", other),
    }
}

#[test]
fn append_to_sovereign_config_is_policy_violation() {
    let adapter = adapter_with(artifact("s1", ArtifactKind::SovereignConfig, no_rights()));
    let step = adapter.begin_request(&request("s1", AgentOperationKind::AppendNote, true));
    assert_eq!(policy_message(step), "Agent cannot append to sovereign-config or raw neural shards");
}

#[test]
fn summary_refused_for_config_and_proof_kinds() {
    for kind in [ArtifactKind::SovereignConfig, ArtifactKind::BChainProof] {
        // The guard would pass here: same subject, no rights set.
        let adapter = adapter_with(artifact("s1", kind, no_rights()));
        for token in [false, true] {
            let step = adapter.begin_request(&request("s1", AgentOperationKind::ReadSummary, token));
            assert_eq!(policy_message(step), "Agent cannot read sovereign-config or proof artifacts");
        }
    }
}

#[test]
fn policy_refusal_hides_guard_reasons() {
    let mut rights = no_rights();
    rights.dreamstate_sensitive = true;
    rights.forbid_decision_use = true;
    let adapter = adapter_with(artifact("s1", ArtifactKind::BChainProof, rights));
    let step = adapter.begin_request(&request("s1", AgentOperationKind::ReadSummary, false));
    assert_eq!(policy_message(step), "Agent cannot read sovereign-config or proof artifacts");
}

#[test]
fn append_refused_for_config_and_neural_shard() {
    for kind in [ArtifactKind::SovereignConfig, ArtifactKind::NeuralShard] {
        let adapter = adapter_with(artifact("s1", kind, no_rights()));
        for token in [false, true] {
            let step = adapter.begin_request(&request("s1", AgentOperationKind::AppendNote, token));
            assert_eq!(
                policy_message(step),
                "Agent cannot append to sovereign-config or raw neural shards"
            );
        }
    }
}

#[test]
fn metadata_repeated_calls_identical() {
    let mut art = artifact("s1", ArtifactKind::Model, no_rights());
    art.routes = vec!["CHAT".to_string()];
    art.governance_tags = vec!["EVOLVE".to_string()];
    art.roh_after_bits = 0x3f000000;
    let adapter = adapter_with(art);
    let req = request("s1", AgentOperationKind::ReadMetadata, false);
    let first = adapter.begin_request(&req);
    let second = adapter.begin_request(&req);
    assert_eq!(format!("{:?}", first), format!("{:?}", second));
    match first {
        GatewayStep::Done(Ok(resp)) => {
            assert!(resp.ok);
            assert_eq!(resp.message, "metadata-ok");
            match resp.data {
                Some(ResponseData::Metadata(a)) => {
                    assert_eq!(a.subject_id, "s1");
                    assert_eq!(a.kind, ArtifactKind::Model);
                    assert_eq!(a.routes, vec!["CHAT".to_string()]);
                    assert_eq!(a.roh_after_bits, 0x3f000000);
                }
                other => panic!("expected metadata, got {:?}", other),
            }
        }
        other => panic!("expected a metadata response, got {:?}", other),
    }
}

#[test]
fn metadata_allowed_for_every_kind() {
    for kind in [ArtifactKind::SovereignConfig, ArtifactKind::BChainProof, ArtifactKind::NeuralShard] {
        let mut rights = no_rights();
        rights.mental_privacy = true;
        let adapter = adapter_with(artifact("s1", kind, rights));
        let step = adapter.begin_request(&request("s1", AgentOperationKind::ReadMetadata, false));
        assert!(matches!(step, GatewayStep::Done(Ok(_))));
    }
}

#[test]
fn unknown_or_foreign_id_is_not_found() {
    let adapter = adapter_with(artifact("s1", ArtifactKind::GenericData, no_rights()));
    let mut req = request("s1", AgentOperationKind::ReadMetadata, false);
    req.artifact_id = "doc2".to_string();
    assert!(matches!(adapter.begin_request(&req), GatewayStep::Done(Err(FsError::NotFound(_)))));
    let foreign = request("s2", AgentOperationKind::ReadSummary, false);
    assert!(matches!(adapter.begin_request(&foreign), GatewayStep::Done(Err(FsError::NotFound(_)))));
}

#[test]
fn resolver_later_registration_shadows() {
    let mut resolver = InMemoryResolver::new();
    resolver.register("doc1".to_string(), artifact("s1", ArtifactKind::Model, no_rights()));
    resolver.register("doc1".to_string(), artifact("s2", ArtifactKind::NeuralShard, no_rights()));
    resolver.register("doc1".to_string(), artifact("s1", ArtifactKind::GenericData, no_rights()));
    assert_eq!(resolver.resolve("s1", "doc1").unwrap().kind, ArtifactKind::GenericData);
    assert_eq!(resolver.resolve("s2", "doc1").unwrap().kind, ArtifactKind::NeuralShard);
    assert!(matches!(resolver.resolve("s3", "doc1"), Err(FsError::NotFound(_))));
    assert!(matches!(InMemoryResolver::new().resolve("s1", "doc1"), Err(FsError::NotFound(_))));
}

#[test]
fn append_grants_read_write_handle_and_note() {
    let adapter = adapter_with(artifact("s1", ArtifactKind::GenericData, no_rights()));
    match adapter.begin_request(&request("s1", AgentOperationKind::AppendNote, false)) {
        GatewayStep::AppendNote(h, note) => {
            assert_eq!(h.mode(), FsMode::ReadWrite);
            assert!(!h.via_evolve_token());
            assert!(h.permit_write().is_ok());
            assert_eq!(note, "\n# agent-note: doc1");
        }
        other => panic!("expected an append step, got {:?}", other),
    }
    let resp = Adapter::finish_append(Ok(())).unwrap();
    assert!(resp.ok);
    assert_eq!(resp.message, "append-ok");
    assert!(resp.data.is_none());
}

#[test]
fn append_to_privileged_kind_needs_token() {
    let adapter = adapter_with(artifact("s1", ArtifactKind::DonutLedger, no_rights()));
    assert!(matches!(
        adapter.begin_request(&request("s1", AgentOperationKind::AppendNote, false)),
        GatewayStep::Done(Err(FsError::LockError(_)))
    ));
    match adapter.begin_request(&request("s1", AgentOperationKind::AppendNote, true)) {
        GatewayStep::AppendNote(h, _) => assert!(h.via_evolve_token()),
        other => panic!("expected an append step, got {:?}", other),
    }
}

#[test]
fn backing_failures_propagate_unchanged() {
    let read = Adapter::finish_summary(Err(FsError::Io(std::io::Error::new(
        std::io::ErrorKind::NotFound,
        "missing",
    ))));
    match read {
        Err(FsError::Io(e)) => assert_eq!(e.kind(), std::io::ErrorKind::NotFound),
        other => panic!("expected an io error, got {:?}", other),
    }
    let write = Adapter::finish_append(Err(FsError::ModeError("handle not opened for write".into())));
    assert!(matches!(write, Err(FsError::ModeError(_))));
}

#[test]
fn summary_keeps_at_most_256_characters() {
    let long = "é".repeat(300);
    let s = Adapter::summarize_text(&long);
    assert_eq!(s, format!("summary(snippet): {}", "é".repeat(256)));
    let exact = "x".repeat(256);
    assert_eq!(Adapter::summarize_text(&exact), format!("summary(snippet): {}", exact));
    assert_eq!(Adapter::summarize_text(""), "summary(snippet): ");
    assert_eq!(Adapter::summarize_bytes(&[]), "summary(snippet): ");
}

#[test]
fn summary_decodes_malformed_bytes_lossily() {
    let bytes = [b'o', b'k', 0xff, 0xfe, b'!'];
    let s = Adapter::summarize_bytes(&bytes);
    assert_eq!(s, "summary(snippet): ok\u{FFFD}\u{FFFD}!");
    let utf8 = "grüße".as_bytes();
    assert_eq!(Adapter::summarize_bytes(utf8), "summary(snippet): grüße");
}
