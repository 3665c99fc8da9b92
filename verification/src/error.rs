//! Error kinds raised by grid construction and by the stepping engine.

use vstd::prelude::*;

verus! {

/// The failure conditions of the library.
#[derive(Clone, Copy, Debug, PartialEq, Eq, Structural)]
pub enum FDTDError {
    /// A supplied coefficient or field array disagrees in length with the
    /// array it must match; raised at construction and never auto-corrected.
    LengthMismatch,
    /// The accelerated backend's context could not be created.
    BackendInitializationFailure,
    /// Marshalling arrays to or from the accelerated backend failed, for
    /// instance because their shapes disagree with the grid's dimensions.
    BackendTransferFailure,
    /// An unsupported rank, polarization or backend combination was
    /// requested; fatal to the run rather than silently wrong physics.
    UnimplementedConfiguration,
}

impl FDTDError {
    /// A short stable name for the error kind, for callers that report it.
    pub fn as_str(&self) -> (r: &'static str)
        ensures
            match self {
                FDTDError::LengthMismatch => r@ == "length mismatch"@,
                FDTDError::BackendInitializationFailure => r@ == "backend initialization failure"@,
                FDTDError::BackendTransferFailure => r@ == "backend transfer failure"@,
                FDTDError::UnimplementedConfiguration => r@ == "unimplemented configuration"@,
            },
    {
        match self {
            FDTDError::LengthMismatch => "length mismatch",
            FDTDError::BackendInitializationFailure => "backend initialization failure",
            FDTDError::BackendTransferFailure => "backend transfer failure",
            FDTDError::UnimplementedConfiguration => "unimplemented configuration",
        }
    }
}

} // verus!
