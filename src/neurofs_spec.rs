use vstd::prelude::*;

verus! {

/// Block class of a storage shard.
#[derive(Debug, Clone, Copy, PartialEq, Eq, Structural)]
pub enum FsBlockClass {
    Generic,
    NeuroStream,
    BioSpec,
    Ledger,
    Model,
    SovereignConfig,
}

/// File type of a storage shard.
#[derive(Debug, Clone, Copy, PartialEq, Eq, Structural)]
pub enum FsFileType {
    Root,
    Data,
    Exec,
    NeuroStream,
    BioSpec,
    Ledger,
    Model,
    SovereignConfig,
}

/// Rights flags of a shard class.
#[derive(Debug, Clone, Copy, PartialEq, Eq, Structural)]
pub struct NeurorightsFlags {
    pub mental_privacy: bool,
    pub mental_integrity: bool,
    pub cognitive_liberty: bool,
    pub noncommercial_neural_data: bool,
    pub soulnontradeable: bool,
    pub dreamstate_sensitive: bool,
    pub forbid_decision_use: bool,
    pub forget_sla_hours: u32,
}

/// Refusals of a guarded UI release.
#[derive(Debug, Clone, Copy, PartialEq, Eq, Structural)]
pub enum UiAssetError {
    MissingEvolveToken,
    RoHExceedsCeiling,
}

} // verus!
