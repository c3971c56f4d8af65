use vstd::prelude::*;
use vstd::utf8::encode_utf8;

use crate::address::Address;
use crate::stats::UserStats;

verus! {

/// Longest title of a job posting, in bytes.
pub const TITLE_MAX_LEN: usize = 100;

/// Longest description of a job posting, in bytes.
pub const DESCRIPTION_MAX_LEN: usize = 500;

/// Longest resume link of an application, in bytes.
pub const RESUME_LINK_MAX_LEN: usize = 200;

/// Longest submission link of an application, in bytes.
pub const SUBMISSION_LINK_MAX_LEN: usize = 200;

/// Longest narration of a submission, in bytes.
pub const NARRATION_MAX_LEN: usize = 300;

/// Longest review written by a client, in bytes.
pub const CLIENT_REVIEW_MAX_LEN: usize = 300;

/// Length of a text in bytes, as it is stored (UTF-8). A text in memory
/// never has more bytes than `usize` counts, so the cast is exact.
pub open spec fn text_len(s: String) -> usize {
    encode_utf8(s@).len() as usize
}

/// Length in bytes of `s`.
pub fn byte_len(s: &String) -> (n: usize)
    ensures
        n == text_len(*s),
{
    s.as_str().len()
}

/// Whether `s` holds no character.
pub fn is_blank(s: &String) -> (b: bool)
    ensures
        b == (s@.len() == 0),
{
    s.as_str().is_empty()
}

/// A job offer, funded by its client through the paired escrow vault.
#[derive(Clone, Debug)]
pub struct JobPost {
    pub client: Address,
    pub title: String,
    pub description: String,
    pub amount: u64,
    pub is_filled: bool,
    pub cancelled: bool,
    pub start_date: i64,
    pub end_date: i64,
    pub escrow_bump: u8,
    pub freelancer: Option<Address>,
}

/// One freelancer's bid on a job posting, and its review cycle.
#[derive(Clone, Debug)]
pub struct Application {
    pub applicant: Address,
    pub job_post: Address,
    pub resume_link: String,
    pub submission_link: String,
    pub narration: String,
    pub client_review: String,
    pub approved: bool,
    pub submitted: bool,
    pub completed: bool,
    pub rejected: bool,
    pub expected_end_date: i64,
}

impl JobPost {
    /// The posting invariant: a job is bound to a freelancer exactly when it
    /// is filled, and a filled job is never cancelled.
    pub open spec fn status_ok(self) -> bool {
        &&& self.is_filled <==> self.freelancer is Some
        &&& !(self.is_filled && self.cancelled)
    }
}

impl Application {
    /// The status invariant: only an approved application has work under
    /// review, rejected or completed; submitted work is not rejected; a
    /// completed application has its work submitted (so approved and not
    /// rejected).
    pub open spec fn status_ok(self) -> bool {
        &&& (self.submitted || self.rejected || self.completed) ==> self.approved
        &&& self.submitted ==> !self.rejected
        &&& self.completed ==> self.submitted
    }
}

/// The custodial holding of one job posting. Its address is derived from
/// the posting's address and `bump`; only the lifecycle calls of that
/// posting move its lamports.
#[derive(Clone, Copy, Debug, PartialEq, Eq, Structural)]
pub struct Vault {
    pub job_post: Address,
    pub bump: u8,
    pub lamports: u64,
}

impl Vault {
    /// The vault is the one derived for the posting at `job_post_key`
    /// with the posting's stored bump.
    pub open spec fn serves(self, job_post_key: Address, job: JobPost) -> bool {
        self.job_post == job_post_key && self.bump == job.escrow_bump
    }
}

/// A wallet of the ledger: an identity and its balance.
#[derive(Clone, Copy, Debug, PartialEq, Eq, Structural)]
pub struct Wallet {
    pub key: Address,
    pub lamports: u64,
}

/// The records that posting a job reads and writes. `job_post` is the fresh
/// record at `job_post_key`, `escrow` the vault derived for it, `client`
/// the signing poster.
#[derive(Clone, Debug)]
pub struct InitializeJobPost {
    pub job_post_key: Address,
    pub job_post: JobPost,
    pub escrow: Vault,
    pub client_stats: UserStats,
    pub client: Wallet,
}

/// The records that applying to a job reads and writes. `application` is
/// the fresh record for the pair (job, `freelancer`).
#[derive(Clone, Debug)]
pub struct ApplyToJob {
    pub application: Application,
    pub freelancer: Address,
    pub job_post_key: Address,
    pub job_post: JobPost,
}

/// The records that approving an application reads and writes; `client`
/// signs.
#[derive(Clone, Debug)]
pub struct ApproveApplication {
    pub application: Application,
    pub job_post_key: Address,
    pub job_post: JobPost,
    pub client: Address,
}

/// The records that submitting work reads and writes; `freelancer` signs.
#[derive(Clone, Debug)]
pub struct SubmitWork {
    pub application: Application,
    pub freelancer: Address,
    pub job_post_key: Address,
    pub job_post: JobPost,
}

/// The records that approving submitted work reads and writes: `client`
/// signs, and `freelancer` is the wallet that is paid.
#[derive(Clone, Debug)]
pub struct ApproveSubmission {
    pub application: Application,
    pub job_post_key: Address,
    pub job_post: JobPost,
    pub escrow: Vault,
    pub client: Address,
    pub freelancer: Wallet,
    pub freelancer_stats: UserStats,
}

/// The records that cancelling a job reads and writes; `client` signs and
/// is refunded.
#[derive(Clone, Debug)]
pub struct CancelJob {
    pub job_post_key: Address,
    pub job_post: JobPost,
    pub escrow: Vault,
    pub client: Wallet,
}

/// The records that rejecting submitted work reads and writes; `client`
/// signs.
#[derive(Clone, Debug)]
pub struct RejectSubmission {
    pub application: Application,
    pub job_post_key: Address,
    pub job_post: JobPost,
    pub client: Address,
}

/// The counters of `user`.
#[derive(Clone, Copy, Debug)]
pub struct GetUserStats {
    pub user_stats: UserStats,
    pub user: Address,
}

} // verus!
