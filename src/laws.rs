use vstd::prelude::*;

use crate::agent_adapter::{
    append_policy_message, fails_with, step_for, summary_policy_message, AgentFsRequest, AgentOperationKind, GatewayStep, ResponseData,
};
use crate::artifact::{contains_text, is_privileged, ArtifactKind, ArtifactView};
use crate::error::ErrorView;
use crate::fs_handle::{acquire_refusal, mode_reads, mode_writes, FsMode};
use crate::guards::{introspect_route, mutation_refusal, read_refusal, write_refusal};

verus! {

/// A subject other than the owner is refused by the read check and the write check
/// with a boundary violation, and so is every acquisition it attempts, whatever the
/// rights profile, routes and governance tags hold.
pub proof fn lemma_foreign_subject_refused(
    caller: Seq<char>,
    art: ArtifactView,
    mode: FsMode,
    via_evolve_token: bool,
)
    requires
        caller != art.subject_id,
    ensures
        read_refusal(caller, art) == Some("AuraBoundaryGuard: cross-subject access denied"@),
        write_refusal(caller, art) == Some("AuraBoundaryGuard: cross-subject write denied"@),
        acquire_refusal(art, mode, caller, via_evolve_token) matches Some(ErrorView::Guard(_)),
{
}

/// Without elevated authorization, a write-capable acquisition of a privileged kind
/// fails with the mutation lock's violation once the boundary guard has passed.
pub proof fn lemma_privileged_mutation_needs_token(
    caller: Seq<char>,
    art: ArtifactView,
    mode: FsMode,
)
    requires
        is_privileged(art.kind),
        mode_writes(mode),
        mode_reads(mode) ==> read_refusal(caller, art) is None,
        write_refusal(caller, art) is None,
    ensures
        acquire_refusal(art, mode, caller, false) == Some(
            ErrorView::Lock("SovereignKernelLock: mutation requires EVOLVE token path"@),
        ),
{
}

/// With elevated authorization, the owner acquires a handle of any mode on a privileged
/// kind when the rights profile raises no conflict for that mode.
pub proof fn lemma_privileged_mutation_with_token(
    caller: Seq<char>,
    art: ArtifactView,
    mode: FsMode,
)
    requires
        is_privileged(art.kind),
        caller == art.subject_id,
        mode_reads(mode) ==> read_refusal(caller, art) is None,
        mode_writes(mode) ==> write_refusal(caller, art) is None,
    ensures
        mutation_refusal(art, true) is None,
        acquire_refusal(art, mode, caller, true) is None,
{
}

/// A raw neural shard under signal privacy is never readable, whatever its routes:
/// the read check refuses it and so does every reading acquisition.
pub proof fn lemma_private_neural_shard_unreadable(
    caller: Seq<char>,
    art: ArtifactView,
    mode: FsMode,
    via_evolve_token: bool,
)
    requires
        art.neurorights.mental_privacy,
        art.kind == ArtifactKind::NeuralShard,
    ensures
        read_refusal(caller, art) is Some,
        mode_reads(mode) ==> acquire_refusal(art, mode, caller, via_evolve_token) matches Some(
            ErrorView::Guard(_),
        ),
{
}

/// Altered-state content barred from automated use is unreadable off the introspection
/// route; adding that route makes an otherwise valid read by the owner succeed.
pub proof fn lemma_introspect_route_gates_reads(
    caller: Seq<char>,
    art: ArtifactView,
    extended: ArtifactView,
)
    requires
        art.neurorights.dreamstate_sensitive,
        art.neurorights.forbid_decision_use,
        !contains_text(art.routes, introspect_route()),
        extended == (ArtifactView { routes: art.routes.push(introspect_route()), ..art }),
    ensures
        read_refusal(caller, art) is Some,
        caller == art.subject_id && !(art.neurorights.mental_privacy && art.kind
            == ArtifactKind::NeuralShard) ==> read_refusal(caller, extended) is None,
{
    let last = art.routes.len() as int;
    assert(extended.routes[last] == introspect_route());
}

/// A summary of a sovereign config or a proof artifact is refused by policy before any
/// handle exists, even where the boundary guard would have passed.
pub proof fn lemma_summary_refused_before_guard(
    art: ArtifactView,
    req: AgentFsRequest,
    s: GatewayStep,
)
    requires
        req.op == AgentOperationKind::ReadSummary,
        art.kind == ArtifactKind::SovereignConfig || art.kind == ArtifactKind::BChainProof,
        step_for(Some(art), req, s),
    ensures
        fails_with(s, ErrorView::Policy(summary_policy_message())),
        s is Done,
{
}

/// Appending to a sovereign config or a neural shard is refused by policy whatever the
/// caller claims of elevated authorization, before any handle exists.
pub proof fn lemma_append_refused_by_kind(art: ArtifactView, req: AgentFsRequest, s: GatewayStep)
    requires
        req.op == AgentOperationKind::AppendNote,
        art.kind == ArtifactKind::SovereignConfig || art.kind == ArtifactKind::NeuralShard,
        step_for(Some(art), req, s),
    ensures
        fails_with(s, ErrorView::Policy(append_policy_message())),
        s is Done,
{
}

/// The metadata payload a step carries, if any.
pub open spec fn metadata_payload(s: GatewayStep) -> Option<ArtifactView> {
    match s {
        GatewayStep::Done(Ok(resp)) => match resp.data {
            Some(ResponseData::Metadata(a)) => Some(a@),
            _ => None,
        },
        _ => None,
    }
}

/// Two metadata requests answered for the same unmodified artifact carry identical
/// payloads: the artifact's full structure.
pub proof fn lemma_metadata_idempotent(
    resolved: Option<ArtifactView>,
    req: AgentFsRequest,
    s1: GatewayStep,
    s2: GatewayStep,
)
    requires
        req.op == AgentOperationKind::ReadMetadata,
        step_for(resolved, req, s1),
        step_for(resolved, req, s2),
    ensures
        metadata_payload(s1) == metadata_payload(s2),
        metadata_payload(s1) == resolved,
{
}

} // verus!
