use neuroxfs::layout::{bootstrap_nexsm_layout, NodeKind};
use neuroxfs::neuro_data::NeuroDataError;
use neuroxfs::pipeline::bootstrap_nexsm_pipeline;
use neuroxfs::ui_asset_registry::UiAssetRegistry;

#[test]
fn layout_lists_project_paths() {
    let nodes = bootstrap_nexsm_layout();
    let paths: Vec<&str> = nodes.iter().map(|n| n.path.as_str()).collect();
    assert_eq!(
        paths,
        vec![
            ".github/workflows/bootstrap-nexsm.yml",
            "frontend/",
            "frontend/package.json",
            "frontend/vite.config.js",
            "public/",
            "server/"
        ]
    );
    assert_eq!(nodes[0].kind, NodeKind::File);
    assert_eq!(nodes[1].kind, NodeKind::Directory);
    assert_eq!(nodes[5].description.as_deref(), Some("Simulation backend (optional)"));
}

#[test]
fn pipeline_builds_then_deploys() {
    let p = bootstrap_nexsm_pipeline();
    assert_eq!(p.name, "Build & Deploy Bootstrap v5 NEXSM Dashboard");
    assert_eq!(p.triggers, vec!["push:main", "pull_request:main", "workflow_dispatch"]);
    assert_eq!(p.jobs.len(), 2);
    assert_eq!(p.jobs[0].id, "build-bootstrap-ui");
    assert_eq!(p.jobs[0].working_directory.as_deref(), Some("frontend"));
    assert_eq!(p.jobs[0].steps.len(), 6);
    assert_eq!(p.jobs[0].steps[2].run, "npm ci");
    assert_eq!(p.jobs[1].id, "deploy-gh-pages");
    assert!(p.jobs[1].working_directory.is_none());
    assert_eq!(p.jobs[1].steps[1].run, "peaceiris/actions-gh-pages@v4");
}

#[test]
fn registry_numbers_releases_from_one() {
    let mut reg = UiAssetRegistry::new();
    assert!(reg.latest_release().is_none());
    let first = reg.publish_release_at("bafy-one".to_string(), 1_700_000_000);
    assert_eq!(first.id, 1);
    assert_eq!(first.timestamp, 1_700_000_000);
    let second = reg.publish_release("sha256-two".to_string());
    assert_eq!(second.id, 2);
    assert_eq!(second.cid_or_hash, "sha256-two");
    assert!(second.timestamp > 1_600_000_000);
    assert_eq!(reg.latest_release().map(|r| r.id), Some(2));
    let ids: Vec<u64> = reg.all_releases().iter().map(|r| r.id).collect();
    assert_eq!(ids, vec![1, 2]);
    assert!(UiAssetRegistry::default().all_releases().is_empty());
}

#[test]
fn mesh_error_message() {
    let e = NeuroDataError::SurfaceReadError("bad header".to_string());
    assert_eq!(e.message(), "Failed to read surface file: bad header");
}
