use vstd::prelude::*;

use crate::artifact::text_ends_with;
use crate::fs_types::FileType;

verus! {

/// Governance class of a file, derived from its type and name.
#[derive(Debug, Clone, Copy, PartialEq, Eq, Structural)]
pub enum FileClass {
    Root,
    SovereignConfig,
    Ledger,
    NeuralModel,
    StreamShard,
    Biospec,
    GenericData,
}

pub open spec fn has_suffix(s: Seq<char>, suffix: Seq<char>) -> bool {
    suffix.len() <= s.len() && s.subrange(s.len() - suffix.len(), s.len() as int) == suffix
}

/// The class of a file: `Root` for the root type, otherwise the first group of name
/// suffixes that matches, and `GenericData` when none does.
pub open spec fn class_of(name: Seq<char>, ty: FileType) -> FileClass {
    if ty == FileType::Root {
        FileClass::Root
    } else if has_suffix(name, ".neurorights.json"@) || has_suffix(name, ".stake.aln"@)
        || has_suffix(name, "neuro-workspace.manifest.aln"@) {
        FileClass::SovereignConfig
    } else if has_suffix(name, ".donutloop.aln"@) || has_suffix(name, ".evolve.jsonl"@)
        || has_suffix(name, ".answer.ndjson"@) || has_suffix(name, ".nnet-loop.aln"@) {
        FileClass::Ledger
    } else if has_suffix(name, ".nnetx"@) || has_suffix(name, ".nnetw"@) || has_suffix(
        name,
        ".nnetq"@,
    ) {
        FileClass::NeuralModel
    } else if has_suffix(name, ".nstream.neuroaln"@) || has_suffix(name, ".neuroaln"@)
        || has_suffix(name, ".lifaln"@) {
        FileClass::StreamShard
    } else if has_suffix(name, ".biospec.aln"@) || has_suffix(name, ".ocpuenv"@) || has_suffix(
        name,
        ".ocpulog"@,
    ) {
        FileClass::Biospec
    } else {
        FileClass::GenericData
    }
}

/// Classifies a file by its type and the suffix of its name.
pub fn classify(name: &str, ty: FileType) -> (r: FileClass)
    ensures
        r == class_of(name@, ty),
{
    if ty == FileType::Root {
        return FileClass::Root;
    }
    if text_ends_with(name, ".neurorights.json") || text_ends_with(name, ".stake.aln")
        || text_ends_with(name, "neuro-workspace.manifest.aln") {
        FileClass::SovereignConfig
    } else if text_ends_with(name, ".donutloop.aln") || text_ends_with(name, ".evolve.jsonl")
        || text_ends_with(name, ".answer.ndjson") || text_ends_with(name, ".nnet-loop.aln") {
        FileClass::Ledger
    } else if text_ends_with(name, ".nnetx") || text_ends_with(name, ".nnetw") || text_ends_with(
        name,
        ".nnetq",
    ) {
        FileClass::NeuralModel
    } else if text_ends_with(name, ".nstream.neuroaln") || text_ends_with(name, ".neuroaln")
        || text_ends_with(name, ".lifaln") {
        FileClass::StreamShard
    } else if text_ends_with(name, ".biospec.aln") || text_ends_with(name, ".ocpuenv")
        || text_ends_with(name, ".ocpulog") {
        FileClass::Biospec
    } else {
        FileClass::GenericData
    }
}

} // verus!
