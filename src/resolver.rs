use vstd::prelude::*;

use crate::agent_adapter::ArtifactResolver;
use crate::artifact::{same_text, text, ArtifactView, SovereignArtifact};
use crate::error::FsError;

verus! {

/// One mapping of a logical id to an artifact; the subject is the artifact's owner.
#[derive(Debug, Clone)]
pub struct ResolverEntry {
    pub artifact_id: String,
    pub artifact: SovereignArtifact,
}

/// The artifact that the latest matching entry of `entries` maps `(subject, id)` to.
pub open spec fn lookup(entries: Seq<ResolverEntry>, subject: Seq<char>, id: Seq<char>) -> Option<
    ArtifactView,
>
    decreases entries.len(),
{
    if entries.len() == 0 {
        None
    } else if entries.last().artifact_id@ == id && entries.last().artifact.subject_id@ == subject {
        Some(entries.last().artifact@)
    } else {
        lookup(entries.drop_last(), subject, id)
    }
}

/// Resolver over mappings held in memory; a later registration of the same pair
/// shadows an earlier one.
#[derive(Debug, Clone)]
pub struct InMemoryResolver {
    entries: Vec<ResolverEntry>,
}

impl InMemoryResolver {
    pub closed spec fn spec_entries(&self) -> Seq<ResolverEntry> {
        self.entries@
    }

    pub fn new() -> (r: Self)
        ensures
            r.spec_entries() == Seq::<ResolverEntry>::empty(),
    {
        InMemoryResolver { entries: Vec::new() }
    }

    /// Maps `artifact_id` for the artifact's own subject to `artifact`.
    pub fn register(&mut self, artifact_id: String, artifact: SovereignArtifact)
        ensures
            final(self).spec_entries() == old(self).spec_entries().push(
                ResolverEntry { artifact_id, artifact },
            ),
    {
        self.entries.push(ResolverEntry { artifact_id, artifact });
    }
}

impl ArtifactResolver for InMemoryResolver {
    open spec fn resolution(&self, subject_id: Seq<char>, artifact_id: Seq<char>) -> Option<
        ArtifactView,
    > {
        lookup(self.spec_entries(), subject_id, artifact_id)
    }

    fn resolve(&self, subject_id: &str, artifact_id: &str) -> (r: Result<SovereignArtifact, FsError>)
    {
        let mut i: usize = self.entries.len();
        assert(self.entries@.subrange(0, i as int) == self.entries@);
        while i > 0
            invariant
                i <= self.entries@.len(),
                lookup(self.entries@, subject_id@, artifact_id@) == lookup(
                    self.entries@.subrange(0, i as int),
                    subject_id@,
                    artifact_id@,
                ),
            decreases i,
        {
            let e = &self.entries[i - 1];
            assert(self.entries@.subrange(0, i as int).drop_last() == self.entries@.subrange(
                0,
                i - 1,
            ));
            if same_text(e.artifact_id.as_str(), artifact_id) && same_text(
                e.artifact.subject_id.as_str(),
                subject_id,
            ) {
                return Ok(e.artifact.snapshot());
            }
            i = i - 1;
        }
        Err(FsError::NotFound(text("artifact not found for subject")))
    }
}

} // verus!
