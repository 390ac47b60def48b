//! Classification of the failures the engine reports.

use vstd::prelude::*;

verus! {

/// Why an engine operation was refused or aborted.
///
/// Failures of the file system itself never originate here: the caller that
/// performs the reads and writes reports those on its own.
#[derive(Debug, Clone, Copy, PartialEq, Eq, Structural)]
pub enum EngineError {
    /// A source path, or one member of an explicit file list, does not exist.
    NotFound,
    /// The destination is already present and overwriting was not requested.
    AlreadyExists,
    /// The request is malformed: a wrong extension, a non-directory where a
    /// directory is expected, or a destination whose shape does not fit the
    /// source.
    InvalidInput,
    /// The codec found the compressed stream corrupt or incomplete.
    InvalidData,
    /// The codec refused to set up or to continue an encoding.
    Codec,
    /// A byte or unit count no longer fits in 64 bits.
    TooLarge,
}

/// Whether `outcome` is the failure `error`.
pub open spec fn fails_with<T>(outcome: Result<T, EngineError>, error: EngineError) -> bool {
    outcome matches Err(e) && e == error
}

} // verus!
