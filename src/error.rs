use vstd::prelude::*;

use crate::artifact::text;

verus! {

/// The backing store's error, carried through unchanged.
#[verifier::external_type_specification]
#[verifier::external_body]
pub struct ExIoError(std::io::Error);

/// Every way a request can fail. All of them are terminal.
#[derive(Debug)]
pub enum FsError {
    /// Failure of the backing store, propagated unchanged.
    Io(std::io::Error),
    /// Rejection by the boundary guard (ownership or rights profile).
    GuardError(String),
    /// Rejection by the mutation lock: a privileged kind needs elevated authorization.
    LockError(String),
    /// A read on a write-only handle, or a write on a read-only one.
    ModeError(String),
    /// An operation that the gateway never allows for this kind.
    PolicyError(String),
    /// No artifact is mapped to the requested logical id for the subject.
    NotFound(String),
}

/// What a contract can say of an error: its category and message.
pub enum ErrorView {
    Io,
    Guard(Seq<char>),
    Lock(Seq<char>),
    Mode(Seq<char>),
    Policy(Seq<char>),
    NotFound(Seq<char>),
}

impl View for FsError {
    type V = ErrorView;

    open spec fn view(&self) -> ErrorView {
        match self {
            FsError::Io(_) => ErrorView::Io,
            FsError::GuardError(m) => ErrorView::Guard(m@),
            FsError::LockError(m) => ErrorView::Lock(m@),
            FsError::ModeError(m) => ErrorView::Mode(m@),
            FsError::PolicyError(m) => ErrorView::Policy(m@),
            FsError::NotFound(m) => ErrorView::NotFound(m@),
        }
    }
}

impl FsError {
    /// Human-readable text: a category prefix followed by the message.
    pub fn message(&self) -> (r: String)
        ensures
            match self@ {
                ErrorView::Io => "IO error: "@.is_prefix_of(r@),
                ErrorView::Guard(m) => r@ == "Guard error: "@ + m,
                ErrorView::Lock(m) => r@ == "Lock error: "@ + m,
                ErrorView::Mode(m) => r@ == "Mode error: "@ + m,
                ErrorView::Policy(m) => r@ == "Policy error: "@ + m,
                ErrorView::NotFound(m) => r@ == "Not found: "@ + m,
            },
    {
        match self {
            FsError::Io(e) => {
                let detail = e.to_string();
                text("IO error: ").concat(detail.as_str())
            },
            FsError::GuardError(m) => text("Guard error: ").concat(m.as_str()),
            FsError::LockError(m) => text("Lock error: ").concat(m.as_str()),
            FsError::ModeError(m) => text("Mode error: ").concat(m.as_str()),
            FsError::PolicyError(m) => text("Policy error: ").concat(m.as_str()),
            FsError::NotFound(m) => text("Not found: ").concat(m.as_str()),
        }
    }
}

} // verus!
