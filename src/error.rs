use vstd::prelude::*;

verus! {

/// Every way an operation of the registry can fail.
///
/// Only `FileNameTooLong`, `InvalidQualityScore`, `FileTooLarge` and
/// `NumericalOverflow` are produced by the current operations; the others are
/// kept so that the set of error kinds stays stable for clients.
#[derive(Debug, Clone, Copy, PartialEq, Eq, Structural)]
pub enum ErrorCode {
    CustomError,
    HashTooLong,
    FileNameTooLong,
    InvalidQualityScore,
    TooManyFields,
    FileTooLarge,
    DatasetInactive,
    UnauthorizedUpdate,
    NumericalOverflow,
    InvalidReputationUpdate,
    UnauthorizedReputationUpdate,
    InvalidContributorStatus,
}

impl ErrorCode {
    /// The human-readable message of this error kind.
    pub fn message(&self) -> (r: &'static str) {
        match self {
            ErrorCode::CustomError => "Custom error message",
            ErrorCode::HashTooLong => "Content hash too long",
            ErrorCode::FileNameTooLong => "File name too long",
            ErrorCode::InvalidQualityScore => "Invalid quality score (must be 0-100)",
            ErrorCode::TooManyFields => "Too many research fields (max 10)",
            ErrorCode::FileTooLarge => "File too large (max 100MB)",
            ErrorCode::DatasetInactive => "Dataset is inactive",
            ErrorCode::UnauthorizedUpdate => "Unauthorized to update this dataset",
            ErrorCode::NumericalOverflow => "Numerical overflow occurred",
            ErrorCode::InvalidReputationUpdate => "Invalid reputation update",
            ErrorCode::UnauthorizedReputationUpdate => "Unauthorized reputation update",
            ErrorCode::InvalidContributorStatus => "Invalid contributor status",
        }
    }
}

} // verus!
