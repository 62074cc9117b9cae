//! Error taxonomy of the orchestration layer.
//!
//! Every failure carries the engine's captured error text (stderr) verbatim
//! when one applies. Propagation is uniformly fail-fast: the first error at
//! any stage aborts the remaining workflow.

use vstd::prelude::*;

verus! {

/// Why an engine operation failed.
#[derive(Debug, Clone, PartialEq, Eq)]
pub enum EngineError {
    /// The health probe of the engine binary failed; carries its stderr.
    EngineUnavailable(String),
    /// A build request exited non-zero; carries its stderr.
    BuildFailure(String),
    /// A run request exited non-zero; carries its stderr.
    RunFailure(String),
    /// A stop, image-removal or file-deletion step of cleanup failed;
    /// carries the engine's stderr or the filesystem error text.
    CleanupFailure(String),
    /// A referenced image tag was not present in the registry.
    LookupFailure(String),
    /// A directory- or file-materialization step of initialization failed;
    /// carries the filesystem error text.
    FsFailure(String),
}

impl EngineError {
    /// The captured error text the failure carries.
    pub fn message(&self) -> (r: &String)
        ensures
            r@ == self.message_view(),
    {
        match self {
            EngineError::EngineUnavailable(m) => m,
            EngineError::BuildFailure(m) => m,
            EngineError::RunFailure(m) => m,
            EngineError::CleanupFailure(m) => m,
            EngineError::LookupFailure(m) => m,
            EngineError::FsFailure(m) => m,
        }
    }

    /// The text carried by the failure, whichever variant holds it.
    pub open spec fn message_view(&self) -> Seq<char> {
        match self {
            EngineError::EngineUnavailable(m) => m@,
            EngineError::BuildFailure(m) => m@,
            EngineError::RunFailure(m) => m@,
            EngineError::CleanupFailure(m) => m@,
            EngineError::LookupFailure(m) => m@,
            EngineError::FsFailure(m) => m@,
        }
    }
}

} // verus!
