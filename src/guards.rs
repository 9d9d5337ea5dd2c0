use vstd::prelude::*;

use crate::artifact::{
    contains_str, contains_text, is_privileged, same_text, text, ArtifactKind, ArtifactView, SovereignArtifact,
};

verus! {

/// Stateless evaluator of ownership and rights-profile constraints.
#[derive(Debug, Clone, Copy)]
pub struct AuraBoundaryGuard;

/// Stateless evaluator of the elevated-authorization rule for privileged kinds.
#[derive(Debug, Clone, Copy)]
pub struct SovereignKernelLock;

/// The only route over which altered-state content barred from automated use is served.
pub open spec fn introspect_route() -> Seq<char> {
    "INTROSPECT"@
}

/// The governance tag that marks an artifact for export.
pub open spec fn export_tag() -> Seq<char> {
    "EXPORT"@
}

/// The message of the first failing read check, or `None` when the read is allowed.
/// Ownership is checked before anything of the rights profile.
pub open spec fn read_refusal(caller: Seq<char>, art: ArtifactView) -> Option<Seq<char>> {
    if caller != art.subject_id {
        Some("AuraBoundaryGuard: cross-subject access denied"@)
    } else if art.neurorights.mental_privacy && art.kind == ArtifactKind::NeuralShard {
        Some("AuraBoundaryGuard: mental privacy forbids raw neural shard export"@)
    } else if art.neurorights.dreamstate_sensitive && art.neurorights.forbid_decision_use
        && !contains_text(art.routes, introspect_route()) {
        Some("AuraBoundaryGuard: dreamstate-sensitive shard not exposed on this route"@)
    } else {
        None
    }
}

/// The message of the first failing write check, or `None` when the write is allowed.
pub open spec fn write_refusal(caller: Seq<char>, art: ArtifactView) -> Option<Seq<char>> {
    if caller != art.subject_id {
        Some("AuraBoundaryGuard: cross-subject write denied"@)
    } else if art.neurorights.soul_non_tradeable && contains_text(
        art.governance_tags,
        export_tag(),
    ) {
        Some("AuraBoundaryGuard: soul-non-tradeable artifact cannot be exported or tokenized"@)
    } else {
        None
    }
}

/// The mutation lock's message, or `None` when the mutation may proceed.
pub open spec fn mutation_refusal(art: ArtifactView, via_evolve_token: bool) -> Option<
    Seq<char>,
> {
    if is_privileged(art.kind) && !via_evolve_token {
        Some("SovereignKernelLock: mutation requires EVOLVE token path"@)
    } else {
        None
    }
}

/// Whether `kind` is one that needs elevated authorization to be mutated.
pub fn kind_is_privileged(kind: ArtifactKind) -> (r: bool)
    ensures
        r == is_privileged(kind),
{
    match kind {
        ArtifactKind::SovereignConfig => true,
        ArtifactKind::EvolveStream => true,
        ArtifactKind::DonutLedger => true,
        ArtifactKind::BChainProof => true,
        ArtifactKind::NeuralShard => false,
        ArtifactKind::NeuroRightsPolicy => false,
        ArtifactKind::Model => false,
        ArtifactKind::GenericData => false,
    }
}

impl AuraBoundaryGuard {
    /// Checks ownership, then raw-signal privacy, then the introspection-only route rule.
    /// Only the first failure is reported.
    pub fn check_read(&self, caller_subject: &str, art: &SovereignArtifact) -> (r: Result<
        (),
        String,
    >)
        ensures
            match r {
                Ok(()) => read_refusal(caller_subject@, art@) is None,
                Err(m) => read_refusal(caller_subject@, art@) == Some(m@),
            },
    {
        if !same_text(caller_subject, art.subject_id.as_str()) {
            return Err(text("AuraBoundaryGuard: cross-subject access denied"));
        }
        if art.neurorights.mental_privacy && art.kind == ArtifactKind::NeuralShard {
            return Err(text("AuraBoundaryGuard: mental privacy forbids raw neural shard export"));
        }
        if art.neurorights.dreamstate_sensitive && art.neurorights.forbid_decision_use {
            if !contains_str(&art.routes, "INTROSPECT") {
                return Err(
                    text("AuraBoundaryGuard: dreamstate-sensitive shard not exposed on this route"),
                );
            }
        }
        Ok(())
    }

    /// Checks ownership, then that a non-tradeable artifact is not tagged for export.
    pub fn check_write(&self, caller_subject: &str, art: &SovereignArtifact) -> (r: Result<
        (),
        String,
    >)
        ensures
            match r {
                Ok(()) => write_refusal(caller_subject@, art@) is None,
                Err(m) => write_refusal(caller_subject@, art@) == Some(m@),
            },
    {
        if !same_text(caller_subject, art.subject_id.as_str()) {
            return Err(text("AuraBoundaryGuard: cross-subject write denied"));
        }
        if art.neurorights.soul_non_tradeable && contains_str(&art.governance_tags, "EXPORT") {
            return Err(
                text("AuraBoundaryGuard: soul-non-tradeable artifact cannot be exported or tokenized"),
            );
        }
        Ok(())
    }
}

impl SovereignKernelLock {
    /// Privileged kinds may only be mutated with elevated authorization; other kinds
    /// always pass.
    pub fn check_mutation(&self, art: &SovereignArtifact, via_evolve_token: bool) -> (r: Result<
        (),
        String,
    >)
        ensures
            match r {
                Ok(()) => mutation_refusal(art@, via_evolve_token) is None,
                Err(m) => mutation_refusal(art@, via_evolve_token) == Some(m@),
            },
    {
        if kind_is_privileged(art.kind) && !via_evolve_token {
            return Err(text("SovereignKernelLock: mutation requires EVOLVE token path"));
        }
        Ok(())
    }
}

} // verus!
