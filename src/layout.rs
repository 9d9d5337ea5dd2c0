use vstd::prelude::*;

use crate::artifact::text;

verus! {

#[derive(Debug, Clone, Copy, PartialEq, Eq, Structural)]
pub enum NodeKind {
    Directory,
    File,
}

/// One path of a project layout, with what it holds.
#[derive(Debug, Clone)]
pub struct FsNode {
    pub path: String,
    pub kind: NodeKind,
    pub description: Option<String>,
}

/// Whether `n` is the described node `path` of kind `kind` with description `desc`.
pub open spec fn node_is(n: FsNode, path: Seq<char>, kind: NodeKind, desc: Seq<char>) -> bool {
    &&& n.path@ == path
    &&& n.kind == kind
    &&& n.description matches Some(d) && d@ == desc
}

fn node(path: &str, kind: NodeKind, desc: &str) -> (r: FsNode)
    ensures
        node_is(r, path@, kind, desc@),
{
    FsNode { path: text(path), kind, description: Some(text(desc)) }
}

/// The layout of the dashboard project: its CI workflow, front end, output and server.
pub fn bootstrap_nexsm_layout() -> (r: Vec<FsNode>)
    ensures
        r@.len() == 6,
        node_is(
            r@[0],
            ".github/workflows/bootstrap-nexsm.yml"@,
            NodeKind::File,
            "CI pipeline for Bootstrap v5 NEXSM dashboard"@,
        ),
        node_is(r@[1], "frontend/"@, NodeKind::Directory, "UI source using Bootstrap 5"@),
        node_is(
            r@[2],
            "frontend/package.json"@,
            NodeKind::File,
            "Frontend dependencies and scripts"@,
        ),
        node_is(r@[3], "frontend/vite.config.js"@, NodeKind::File, "Build tool configuration"@),
        node_is(r@[4], "public/"@, NodeKind::Directory, "Built UI/asset output"@),
        node_is(r@[5], "server/"@, NodeKind::Directory, "Simulation backend (optional)"@),
{
    let mut r: Vec<FsNode> = Vec::new();
    r.push(
        node(
            ".github/workflows/bootstrap-nexsm.yml",
            NodeKind::File,
            "CI pipeline for Bootstrap v5 NEXSM dashboard",
        ),
    );
    r.push(node("frontend/", NodeKind::Directory, "UI source using Bootstrap 5"));
    r.push(node("frontend/package.json", NodeKind::File, "Frontend dependencies and scripts"));
    r.push(node("frontend/vite.config.js", NodeKind::File, "Build tool configuration"));
    r.push(node("public/", NodeKind::Directory, "Built UI/asset output"));
    r.push(node("server/", NodeKind::Directory, "Simulation backend (optional)"));
    r
}

} // verus!
