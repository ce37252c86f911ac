//! The error taxonomy of the pipeline.

use vstd::prelude::*;

verus! {

/// How a pipeline operation can fail.
#[derive(Clone, Copy, Debug, PartialEq, Eq, Structural)]
pub enum PipelineError {
    /// A stage-guarded operation was rejected because the pipeline is not
    /// idle; the caller may retry later.
    Busy,
    /// A required upstream artifact is missing or the caller's input is
    /// malformed (for instance, post-processing before any capture, or an
    /// empty finalize selection).
    Precondition,
    /// The external tool ran and exited with a non-zero status.
    ToolFailed,
    /// The external tool could not be launched at all, or a filesystem
    /// operation failed; this indicates environment misconfiguration.
    Internal,
}

} // verus!
