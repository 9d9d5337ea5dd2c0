use vstd::prelude::*;

use crate::artifact::{same_text, text};
use crate::fs_class::{class_of, classify, FileClass};
use crate::fs_types::FileAttr;

verus! {

/// Which protection refused an operation, and why.
#[derive(Debug)]
pub enum ProtectionViolation {
    AuraBoundaryGuard(String),
    SoulNonTradeableShield(String),
    DreamSanctumFilter(String),
    SovereignKernelLock(String),
}

/// What a contract can say of a violation: the protection and its message.
pub enum ViolationView {
    AuraBoundaryGuard(Seq<char>),
    SoulNonTradeableShield(Seq<char>),
    DreamSanctumFilter(Seq<char>),
    SovereignKernelLock(Seq<char>),
}

impl View for ProtectionViolation {
    type V = ViolationView;

    open spec fn view(&self) -> ViolationView {
        match self {
            ProtectionViolation::AuraBoundaryGuard(m) => ViolationView::AuraBoundaryGuard(m@),
            ProtectionViolation::SoulNonTradeableShield(m) => ViolationView::SoulNonTradeableShield(
                m@,
            ),
            ProtectionViolation::DreamSanctumFilter(m) => ViolationView::DreamSanctumFilter(m@),
            ProtectionViolation::SovereignKernelLock(m) => ViolationView::SovereignKernelLock(m@),
        }
    }
}

/// The owner through which sovereign configuration is created.
pub open spec fn kernel_owner() -> Seq<char> {
    "sovereign-kernel"@
}

/// Why creating a file with `attr` is refused, or `None` when it is allowed: non-tradeable
/// data may not become a generic neural model, and sovereign configuration is created
/// only by the kernel owner.
pub open spec fn create_violation(attr: FileAttr) -> Option<ViolationView> {
    let class = class_of(attr.name@, attr.file_type);
    if attr.neurorights matches Some(n) && n.soulnontradeable && class == FileClass::NeuralModel {
        Some(
            ViolationView::SoulNonTradeableShield(
                "soulnontradeable cannot be stored as a generic neural model"@,
            ),
        )
    } else if class == FileClass::SovereignConfig && attr.owner@ != kernel_owner() {
        Some(
            ViolationView::SovereignKernelLock(
                "Sovereign config must be created via EVOLVE pipeline"@,
            ),
        )
    } else {
        None
    }
}

/// Why writing a file with `attr` is refused, or `None` when it is allowed: altered-state
/// content barred from automated use is never written.
pub open spec fn write_violation(attr: FileAttr) -> Option<ViolationView> {
    if attr.neurorights matches Some(n) && n.dreamstate_sensitive && n.forbid_decision_use {
        Some(ViolationView::DreamSanctumFilter("write blocked by DreamSanctumFilter"@))
    } else {
        None
    }
}

pub fn check_on_create(attr: &FileAttr) -> (r: Result<(), ProtectionViolation>)
    ensures
        match r {
            Ok(()) => create_violation(*attr) is None,
            Err(v) => create_violation(*attr) == Some(v@),
        },
{
    let class = classify(attr.name.as_str(), attr.file_type);
    if let Some(neuro) = &attr.neurorights {
        if neuro.soulnontradeable && class == FileClass::NeuralModel {
            return Err(
                ProtectionViolation::SoulNonTradeableShield(
                    text("soulnontradeable cannot be stored as a generic neural model"),
                ),
            );
        }
    }
    if class == FileClass::SovereignConfig && !same_text(attr.owner.as_str(), "sovereign-kernel") {
        return Err(
            ProtectionViolation::SovereignKernelLock(
                text("Sovereign config must be created via EVOLVE pipeline"),
            ),
        );
    }
    Ok(())
}

/// Reads of file-table entries are not restricted at this layer.
pub fn check_on_read(attr: &FileAttr) -> (r: Result<(), ProtectionViolation>)
    ensures
        r is Ok,
{
    Ok(())
}

pub fn check_on_write(attr: &FileAttr) -> (r: Result<(), ProtectionViolation>)
    ensures
        match r {
            Ok(()) => write_violation(*attr) is None,
            Err(v) => write_violation(*attr) == Some(v@),
        },
{
    if let Some(neuro) = &attr.neurorights {
        if neuro.dreamstate_sensitive && neuro.forbid_decision_use {
            return Err(
                ProtectionViolation::DreamSanctumFilter(text("write blocked by DreamSanctumFilter")),
            );
        }
    }
    Ok(())
}

} // verus!
