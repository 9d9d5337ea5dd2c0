use vstd::prelude::*;

use crate::artifact::text;
use crate::protections::{
    check_on_create, check_on_read, check_on_write, create_violation, write_violation,
    ProtectionViolation, ViolationView,
};
use crate::root_table::{RootEntry, RootTable};

verus! {

/// The refusal of an operation on a name that the table does not hold.
pub open spec fn missing_file() -> ViolationView {
    ViolationView::AuraBoundaryGuard("No such file"@)
}

/// File operations over a root table, each guarded by the protections.
pub struct FsHandle {
    pub root: RootTable,
}

impl FsHandle {
    pub fn new() -> (r: Self)
        ensures
            r.root.wf(),
            r.root@ == Map::<Seq<char>, RootEntry>::empty(),
    {
        FsHandle { root: RootTable::new() }
    }

    /// Creates the entry when the creation protections pass and its name is free.
    pub fn create(&mut self, entry: RootEntry) -> (r: Result<(), ProtectionViolation>)
        requires
            old(self).root.wf(),
        ensures
            final(self).root.wf(),
            match create_violation(entry.attr) {
                Some(v) => r matches Err(e) && e@ == v && final(self).root@ == old(self).root@,
                None => if old(self).root@.dom().contains(entry.attr.name@) {
                    &&& r matches Err(e) && e@ == ViolationView::AuraBoundaryGuard(
                        "File already exists"@,
                    )
                    &&& final(self).root@ == old(self).root@
                } else {
                    &&& r is Ok
                    &&& final(self).root@ == old(self).root@.insert(entry.attr.name@, entry)
                },
            },
    {
        match check_on_create(&entry.attr) {
            Ok(()) => {},
            Err(v) => {
                return Err(v);
            },
        }
        match self.root.create(entry) {
            Ok(()) => Ok(()),
            Err(m) => Err(ProtectionViolation::AuraBoundaryGuard(m)),
        }
    }

    /// Succeeds when the name is held; reads are not otherwise restricted here.
    pub fn read(&self, name: &str) -> (r: Result<(), ProtectionViolation>)
        requires
            self.root.wf(),
        ensures
            match r {
                Ok(()) => self.root@.dom().contains(name@),
                Err(e) => !self.root@.dom().contains(name@) && e@ == missing_file(),
            },
    {
        match self.root.get(name) {
            Some(entry) => check_on_read(&entry.attr),
            None => Err(ProtectionViolation::AuraBoundaryGuard(text("No such file"))),
        }
    }

    /// Succeeds when the name is held and the write protections pass for its entry.
    pub fn write(&mut self, name: &str) -> (r: Result<(), ProtectionViolation>)
        requires
            old(self).root.wf(),
        ensures
            final(self).root@ == old(self).root@,
            final(self).root.wf(),
            if old(self).root@.dom().contains(name@) {
                match r {
                    Ok(()) => write_violation(old(self).root@[name@].attr) is None,
                    Err(e) => write_violation(old(self).root@[name@].attr) == Some(e@),
                }
            } else {
                r matches Err(e) && e@ == missing_file()
            },
    {
        match self.root.get(name) {
            Some(entry) => check_on_write(&entry.attr),
            None => Err(ProtectionViolation::AuraBoundaryGuard(text("No such file"))),
        }
    }

    /// Removes the entry, then reports whether the write protections pass for it. The
    /// entry is gone either way.
    pub fn delete(&mut self, name: &str) -> (r: Result<(), ProtectionViolation>)
        requires
            old(self).root.wf(),
        ensures
            final(self).root.wf(),
            final(self).root@ == old(self).root@.remove(name@),
            if old(self).root@.dom().contains(name@) {
                match r {
                    Ok(()) => write_violation(old(self).root@[name@].attr) is None,
                    Err(e) => write_violation(old(self).root@[name@].attr) == Some(e@),
                }
            } else {
                r matches Err(e) && e@ == missing_file()
            },
    {
        match self.root.delete(name) {
            Some(entry) => check_on_write(&entry.attr),
            None => Err(ProtectionViolation::AuraBoundaryGuard(text("No such file"))),
        }
    }
}

} // verus!
