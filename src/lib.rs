//! An escrow-backed freelance job marketplace: a client posts a job and
//! locks its pay in a vault, freelancers apply, the client binds one of
//! them, the freelancer submits work, and the client either releases the
//! vault to the freelancer or sends the work back. An unfilled job can be
//! cancelled, which refunds the vault.
//!
//! Every call is all-or-nothing: it checks its guards in a fixed order,
//! and either applies all of its changes to the records it was handed or
//! returns the first failed guard and changes nothing.
use vstd::prelude::*;

pub mod accounts;
pub mod address;
pub mod error;
pub mod laws;
pub mod lp_program;
pub mod stats;

pub use accounts::{
    Application, ApplyToJob, ApproveApplication, ApproveSubmission, CancelJob, GetUserStats,
    InitializeJobPost, JobPost, RejectSubmission, SubmitWork, Vault, Wallet,
};
pub use address::Address;
pub use error::ErrorCode;
pub use lp_program::{
    apply_to_job, approve_application, approve_submission, cancel_job, get_user_stats,
    initialize_job_post, reject_submission, submit_work,
};
pub use stats::{current_month, UserStats};

verus! {

} // verus!
