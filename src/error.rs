use vstd::prelude::*;

verus! {

/// Why a lifecycle call was refused. Every refusal leaves all records as
/// they were.
#[derive(Clone, Copy, Debug, PartialEq, Eq, Structural)]
pub enum ErrorCode {
    Unauthorized,
    JobAlreadyFilled,
    ApplicationNotApproved,
    WorkNotCompleted,
    InvalidDates,
    InvalidInput,
    InvalidAccount,
    InvalidAmount,
    JobCancelled,
    JobAlreadyCancelled,
    WorkAlreadySubmitted,
    ApplicationAlreadyApproved,
    WorkAlreadyApproved,
    WorkAlreadyRejected,
    InsufficientEscrowBalance,
}

impl ErrorCode {
    /// The user-facing reason for the refusal.
    pub fn message(&self) -> (r: &'static str)
        ensures
            r@ == self.spec_message()@,
    {
        match self {
            ErrorCode::Unauthorized => "You are not authorized to perform this action.",
            ErrorCode::JobAlreadyFilled => "This job has already been filled.",
            ErrorCode::ApplicationNotApproved => "Application has not been approved yet.",
            ErrorCode::WorkNotCompleted => "Work has not been completed yet.",
            ErrorCode::InvalidDates => "Invalid dates provided.",
            ErrorCode::InvalidInput => "Invalid input provided.",
            ErrorCode::InvalidAccount => "Invalid account relationship.",
            ErrorCode::InvalidAmount => "Invalid amount provided.",
            ErrorCode::JobCancelled => "Job has been cancelled.",
            ErrorCode::JobAlreadyCancelled => "Job has already been cancelled.",
            ErrorCode::WorkAlreadySubmitted => "Work has already been submitted.",
            ErrorCode::ApplicationAlreadyApproved => "Application has already been approved.",
            ErrorCode::WorkAlreadyApproved => "Work has already been approved.",
            ErrorCode::WorkAlreadyRejected => "Work has already been rejected.",
            ErrorCode::InsufficientEscrowBalance => "Escrow account does not have enough balance.",
        }
    }

    pub open spec fn spec_message(&self) -> &'static str {
        match self {
            ErrorCode::Unauthorized => "You are not authorized to perform this action.",
            ErrorCode::JobAlreadyFilled => "This job has already been filled.",
            ErrorCode::ApplicationNotApproved => "Application has not been approved yet.",
            ErrorCode::WorkNotCompleted => "Work has not been completed yet.",
            ErrorCode::InvalidDates => "Invalid dates provided.",
            ErrorCode::InvalidInput => "Invalid input provided.",
            ErrorCode::InvalidAccount => "Invalid account relationship.",
            ErrorCode::InvalidAmount => "Invalid amount provided.",
            ErrorCode::JobCancelled => "Job has been cancelled.",
            ErrorCode::JobAlreadyCancelled => "Job has already been cancelled.",
            ErrorCode::WorkAlreadySubmitted => "Work has already been submitted.",
            ErrorCode::ApplicationAlreadyApproved => "Application has already been approved.",
            ErrorCode::WorkAlreadyApproved => "Work has already been approved.",
            ErrorCode::WorkAlreadyRejected => "Work has already been rejected.",
            ErrorCode::InsufficientEscrowBalance => "Escrow account does not have enough balance.",
        }
    }
}

} // verus!
