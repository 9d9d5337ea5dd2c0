use vstd::prelude::*;

use crate::artifact::text;

verus! {

/// Failure to load a brain mesh.
#[derive(Debug, Clone)]
pub enum NeuroDataError {
    SurfaceReadError(String),
}

impl NeuroDataError {
    /// Human-readable text of the error.
    pub fn message(&self) -> (r: String)
        ensures
            match self {
                NeuroDataError::SurfaceReadError(m) => r@ == "Failed to read surface file: "@
                    + m@,
            },
    {
        match self {
            NeuroDataError::SurfaceReadError(m) => text("Failed to read surface file: ").concat(
                m.as_str(),
            ),
        }
    }
}

} // verus!
