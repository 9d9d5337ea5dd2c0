use vstd::prelude::*;

verus! {

/// Storage type of a file-table entry.
#[derive(Debug, Clone, Copy, PartialEq, Eq, Structural)]
pub enum FileType {
    Root,
    Data,
    Exec,
    /// Continuous neural or bioscale stream.
    NeuroStream,
    /// Lifeforce or fatigue snapshot.
    BioSnapshot,
}

/// Sharing permission of a file-table entry.
#[derive(Debug, Clone, Copy, PartialEq, Eq, Structural)]
pub enum Permission {
    Exclusive,
    Open,
    SharedRead,
    SharedWrite,
}

/// Rights flags attached to a file-table entry.
#[derive(Debug, Clone, Copy, PartialEq, Eq, Structural)]
pub struct NeuroRights {
    pub mental_privacy: bool,
    pub mental_integrity: bool,
    pub cognitive_liberty: bool,
    pub noncommercial_neural_data: bool,
    pub soulnontradeable: bool,
    pub dreamstate_sensitive: bool,
    pub forbid_decision_use: bool,
    pub forget_sla_hours: u32,
}

/// Attributes of a file-table entry.
#[derive(Debug, Clone)]
pub struct FileAttr {
    pub name: String,
    pub owner: String,
    pub size_words: u32,
    pub file_type: FileType,
    pub perm: Permission,
    pub neurorights: Option<NeuroRights>,
}

} // verus!
