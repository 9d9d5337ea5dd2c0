use vstd::prelude::*;

use crate::artifact::{text, ArtifactView, SovereignArtifact};
use crate::error::{ErrorView, FsError};
use crate::guards::{
    mutation_refusal, read_refusal, write_refusal, AuraBoundaryGuard, SovereignKernelLock,
};

verus! {

/// Access mode of a handle, fixed for the handle's lifetime.
#[derive(Debug, Clone, Copy, PartialEq, Eq, Structural)]
pub enum FsMode {
    ReadOnly,
    WriteOnly,
    ReadWrite,
}

pub open spec fn mode_reads(mode: FsMode) -> bool {
    mode == FsMode::ReadOnly || mode == FsMode::ReadWrite
}

pub open spec fn mode_writes(mode: FsMode) -> bool {
    mode == FsMode::WriteOnly || mode == FsMode::ReadWrite
}

/// How the backing stream is to be opened for a mode.
#[derive(Debug, Clone, Copy, PartialEq, Eq, Structural)]
pub struct OpenFlags {
    pub read: bool,
    pub write: bool,
    pub create: bool,
}

/// The error that acquiring a handle fails with, or `None` when every guard passes.
/// A reading mode runs the read checks; a writing mode runs the write checks and then
/// the mutation lock; read-write runs all of them, reads first.
pub open spec fn acquire_refusal(
    art: ArtifactView,
    mode: FsMode,
    caller: Seq<char>,
    via_evolve_token: bool,
) -> Option<ErrorView> {
    if mode_reads(mode) && read_refusal(caller, art) is Some {
        Some(ErrorView::Guard(read_refusal(caller, art)->Some_0))
    } else if mode_writes(mode) && write_refusal(caller, art) is Some {
        Some(ErrorView::Guard(write_refusal(caller, art)->Some_0))
    } else if mode_writes(mode) && mutation_refusal(art, via_evolve_token) is Some {
        Some(ErrorView::Lock(mutation_refusal(art, via_evolve_token)->Some_0))
    } else {
        None
    }
}

/// An authorized, mode-scoped claim on one artifact snapshot.
///
/// A value exists only once every guard that its mode calls for has passed. The
/// backing stream is opened by the holder with `open_flags()` and released with it.
#[derive(Debug)]
pub struct FsHandle {
    artifact: SovereignArtifact,
    mode: FsMode,
    caller_subject: String,
    via_evolve_token: bool,
}

impl FsHandle {
    pub closed spec fn spec_artifact(&self) -> SovereignArtifact {
        self.artifact
    }

    pub closed spec fn spec_mode(&self) -> FsMode {
        self.mode
    }

    pub closed spec fn spec_caller(&self) -> Seq<char> {
        self.caller_subject@
    }

    pub closed spec fn spec_via_evolve_token(&self) -> bool {
        self.via_evolve_token
    }

    /// Runs the guards that `mode` calls for, in order, and fails with the first refusal;
    /// otherwise grants a handle for exactly these arguments.
    pub fn open(
        artifact: SovereignArtifact,
        mode: FsMode,
        caller_subject: String,
        via_evolve_token: bool,
    ) -> (r: Result<FsHandle, FsError>)
        ensures
            match r {
                Ok(h) => {
                    &&& acquire_refusal(artifact@, mode, caller_subject@, via_evolve_token) is None
                    &&& h.spec_artifact() == artifact
                    &&& h.spec_mode() == mode
                    &&& h.spec_caller() == caller_subject@
                    &&& h.spec_via_evolve_token() == via_evolve_token
                },
                Err(e) => acquire_refusal(artifact@, mode, caller_subject@, via_evolve_token)
                    == Some(e@),
            },
    {
        let aura_guard = AuraBoundaryGuard;
        let kernel_lock = SovereignKernelLock;
        let reads = match mode {
            FsMode::ReadOnly => true,
            FsMode::WriteOnly => false,
            FsMode::ReadWrite => true,
        };
        let writes = match mode {
            FsMode::ReadOnly => false,
            FsMode::WriteOnly => true,
            FsMode::ReadWrite => true,
        };
        if reads {
            match aura_guard.check_read(caller_subject.as_str(), &artifact) {
                Ok(()) => {},
                Err(m) => {
                    return Err(FsError::GuardError(m));
                },
            }
        }
        if writes {
            match aura_guard.check_write(caller_subject.as_str(), &artifact) {
                Ok(()) => {},
                Err(m) => {
                    return Err(FsError::GuardError(m));
                },
            }
            match kernel_lock.check_mutation(&artifact, via_evolve_token) {
                Ok(()) => {},
                Err(m) => {
                    return Err(FsError::LockError(m));
                },
            }
        }
        Ok(FsHandle { artifact, mode, caller_subject, via_evolve_token })
    }

    /// The flags that match the mode exactly: read-only; write with create;
    /// read-write with create.
    pub fn open_flags(&self) -> (r: OpenFlags)
        ensures
            r.read == mode_reads(self.spec_mode()),
            r.write == mode_writes(self.spec_mode()),
            r.create == mode_writes(self.spec_mode()),
    {
        match self.mode {
            FsMode::ReadOnly => OpenFlags { read: true, write: false, create: false },
            FsMode::WriteOnly => OpenFlags { read: false, write: true, create: true },
            FsMode::ReadWrite => OpenFlags { read: true, write: true, create: true },
        }
    }

    /// Succeeds exactly when the handle's mode permits reading; checked before the
    /// stream is touched.
    pub fn permit_read(&self) -> (r: Result<(), FsError>)
        ensures
            match r {
                Ok(()) => mode_reads(self.spec_mode()),
                Err(e) => !mode_reads(self.spec_mode()) && e@ == ErrorView::Mode(
                    "handle not opened for read"@,
                ),
            },
    {
        match self.mode {
            FsMode::ReadOnly => Ok(()),
            FsMode::ReadWrite => Ok(()),
            FsMode::WriteOnly => Err(FsError::ModeError(text("handle not opened for read"))),
        }
    }

    /// Succeeds exactly when the handle's mode permits writing; checked before the
    /// stream is touched.
    pub fn permit_write(&self) -> (r: Result<(), FsError>)
        ensures
            match r {
                Ok(()) => mode_writes(self.spec_mode()),
                Err(e) => !mode_writes(self.spec_mode()) && e@ == ErrorView::Mode(
                    "handle not opened for write"@,
                ),
            },
    {
        match self.mode {
            FsMode::WriteOnly => Ok(()),
            FsMode::ReadWrite => Ok(()),
            FsMode::ReadOnly => Err(FsError::ModeError(text("handle not opened for write"))),
        }
    }

    /// The artifact snapshot this handle was granted on.
    pub fn artifact(&self) -> (r: &SovereignArtifact)
        ensures
            *r == self.spec_artifact(),
    {
        &self.artifact
    }

    pub fn mode(&self) -> (r: FsMode)
        ensures
            r == self.spec_mode(),
    {
        self.mode
    }

    /// The subject the handle was granted to.
    pub fn caller_subject(&self) -> (r: &str)
        ensures
            r@ == self.spec_caller(),
    {
        self.caller_subject.as_str()
    }

    pub fn via_evolve_token(&self) -> (r: bool)
        ensures
            r == self.spec_via_evolve_token(),
    {
        self.via_evolve_token
    }
}

} // verus!
