use vstd::prelude::*;

use crate::accounts::{
    byte_len, is_blank, text_len, Application, ApplyToJob, ApproveApplication,
    ApproveSubmission, CancelJob, GetUserStats, InitializeJobPost, JobPost, RejectSubmission,
    SubmitWork, Vault, Wallet, CLIENT_REVIEW_MAX_LEN, DESCRIPTION_MAX_LEN, NARRATION_MAX_LEN,
    RESUME_LINK_MAX_LEN, SUBMISSION_LINK_MAX_LEN, TITLE_MAX_LEN,
};
use crate::error::ErrorCode;
use crate::stats::{current_month, month_of, UserStats};

verus! {

/// The result of a lifecycle call whose first failed guard is `e`.
pub open spec fn outcome(e: Option<ErrorCode>) -> Result<(), ErrorCode> {
    match e {
        Some(e) => Err(e),
        None => Ok(()),
    }
}

// ---------------------------------------------------------------- post

/// The first guard of posting a job that fails, if any.
pub open spec fn post_error(
    ctx: InitializeJobPost,
    title: String,
    description: String,
    amount: u64,
    start_date: i64,
    end_date: i64,
    now: i64,
) -> Option<ErrorCode> {
    if ctx.escrow.job_post != ctx.job_post_key {
        Some(ErrorCode::InvalidAccount)
    } else if title@.len() == 0 || description@.len() == 0 {
        Some(ErrorCode::InvalidInput)
    } else if amount == 0 {
        Some(ErrorCode::InvalidAmount)
    } else if start_date > end_date || start_date < now {
        Some(ErrorCode::InvalidDates)
    } else if text_len(title) > TITLE_MAX_LEN || text_len(description) > DESCRIPTION_MAX_LEN {
        Some(ErrorCode::InvalidInput)
    } else {
        None
    }
}

/// What the ledger must allow for a post to go through: the client can pay
/// `amount`, and the vault and the client's counters do not overflow.
pub open spec fn post_fundable(ctx: InitializeJobPost, amount: u64, now: i64) -> bool {
    &&& ctx.client.lamports >= amount
    &&& ctx.escrow.lamports + amount <= u64::MAX
    &&& ctx.client_stats.can_post(month_of(now as int))
}

/// The records after a successful post: the job is open and unbound, and
/// exactly `amount` went from the client to the vault.
pub open spec fn posted(
    ctx: InitializeJobPost,
    title: String,
    description: String,
    amount: u64,
    start_date: i64,
    end_date: i64,
    now: i64,
) -> InitializeJobPost {
    InitializeJobPost {
        job_post: JobPost {
            client: ctx.client.key,
            title,
            description,
            amount,
            is_filled: false,
            cancelled: false,
            start_date,
            end_date,
            escrow_bump: ctx.escrow.bump,
            freelancer: None,
        },
        escrow: Vault { lamports: (ctx.escrow.lamports + amount) as u64, ..ctx.escrow },
        client: Wallet { lamports: (ctx.client.lamports - amount) as u64, ..ctx.client },
        client_stats: ctx.client_stats.after_post(month_of(now as int)),
        ..ctx
    }
}

/// The client posts a job and locks `amount` in the job's vault; `now` is
/// the ledger's clock.
pub fn initialize_job_post(
    ctx: &mut InitializeJobPost,
    title: String,
    description: String,
    amount: u64,
    start_date: i64,
    end_date: i64,
    now: i64,
) -> (r: Result<(), ErrorCode>)
    requires
        post_error(*old(ctx), title, description, amount, start_date, end_date, now) is None
            ==> post_fundable(*old(ctx), amount, now),
    ensures
        r == outcome(post_error(*old(ctx), title, description, amount, start_date, end_date, now)),
        r is Ok ==> *final(ctx) == posted(
            *old(ctx),
            title,
            description,
            amount,
            start_date,
            end_date,
            now,
        ),
        r is Err ==> *final(ctx) == *old(ctx),
{
    if ctx.escrow.job_post != ctx.job_post_key {
        return Err(ErrorCode::InvalidAccount);
    }
    if is_blank(&title) || is_blank(&description) {
        return Err(ErrorCode::InvalidInput);
    }
    if amount == 0 {
        return Err(ErrorCode::InvalidAmount);
    }
    if start_date > end_date || start_date < now {
        return Err(ErrorCode::InvalidDates);
    }
    if byte_len(&title) > TITLE_MAX_LEN || byte_len(&description) > DESCRIPTION_MAX_LEN {
        return Err(ErrorCode::InvalidInput);
    }
    let bump = ctx.escrow.bump;
    ctx.job_post = JobPost {
        client: ctx.client.key,
        title,
        description,
        amount,
        is_filled: false,
        cancelled: false,
        start_date,
        end_date,
        escrow_bump: bump,
        freelancer: None,
    };
    ctx.client.lamports = ctx.client.lamports - amount;
    ctx.escrow.lamports = ctx.escrow.lamports + amount;
    let month = current_month(now);
    ctx.client_stats.record_post(month);
    Ok(())
}

// ---------------------------------------------------------------- approve submission

/// The first guard of approving submitted work that fails, if any.
pub open spec fn approve_submission_error(ctx: ApproveSubmission, client_review: String) -> Option<
    ErrorCode,
> {
    if ctx.application.job_post != ctx.job_post_key {
        Some(ErrorCode::InvalidAccount)
    } else if ctx.job_post.client != ctx.client {
        Some(ErrorCode::Unauthorized)
    } else if !ctx.escrow.serves(ctx.job_post_key, ctx.job_post) {
        Some(ErrorCode::InvalidAccount)
    } else if !ctx.application.submitted {
        Some(ErrorCode::WorkNotCompleted)
    } else if ctx.application.completed {
        Some(ErrorCode::WorkAlreadyApproved)
    } else if ctx.job_post.freelancer != Some(ctx.application.applicant)
        || ctx.freelancer.key != ctx.application.applicant {
        Some(ErrorCode::Unauthorized)
    } else if ctx.escrow.lamports < ctx.job_post.amount {
        Some(ErrorCode::InsufficientEscrowBalance)
    } else if text_len(client_review) > CLIENT_REVIEW_MAX_LEN {
        Some(ErrorCode::InvalidInput)
    } else {
        None
    }
}

/// What the ledger must allow for a payout to go through: neither the
/// freelancer's wallet nor their counters overflow.
pub open spec fn payout_fits(ctx: ApproveSubmission, now: i64) -> bool {
    &&& ctx.freelancer.lamports + ctx.job_post.amount <= u64::MAX
    &&& ctx.freelancer_stats.can_earn(month_of(now as int), ctx.job_post.amount)
}

/// The records after approved work: the application is completed with the
/// review, and exactly the job's amount went from the vault to the
/// freelancer, who is credited with it.
pub open spec fn submission_approved(ctx: ApproveSubmission, client_review: String, now: i64) -> ApproveSubmission {
    let amount = ctx.job_post.amount;
    ApproveSubmission {
        application: Application { client_review, completed: true, ..ctx.application },
        escrow: Vault { lamports: (ctx.escrow.lamports - amount) as u64, ..ctx.escrow },
        freelancer: Wallet { lamports: (ctx.freelancer.lamports + amount) as u64, ..ctx.freelancer },
        freelancer_stats: ctx.freelancer_stats.after_earning(month_of(now as int), amount),
        ..ctx
    }
}

/// The client accepts the submitted work and releases the escrow to the
/// bound freelancer; `now` is the ledger's clock.
pub fn approve_submission(ctx: &mut ApproveSubmission, client_review: String, now: i64) -> (r: Result<
    (),
    ErrorCode,
>)
    requires
        approve_submission_error(*old(ctx), client_review) is None ==> payout_fits(*old(ctx), now),
    ensures
        r == outcome(approve_submission_error(*old(ctx), client_review)),
        r is Ok ==> *final(ctx) == submission_approved(*old(ctx), client_review, now),
        r is Err ==> *final(ctx) == *old(ctx),
{
    if ctx.application.job_post != ctx.job_post_key {
        return Err(ErrorCode::InvalidAccount);
    }
    if ctx.job_post.client != ctx.client {
        return Err(ErrorCode::Unauthorized);
    }
    if ctx.escrow.job_post != ctx.job_post_key || ctx.escrow.bump != ctx.job_post.escrow_bump {
        return Err(ErrorCode::InvalidAccount);
    }
    if !ctx.application.submitted {
        return Err(ErrorCode::WorkNotCompleted);
    }
    if ctx.application.completed {
        return Err(ErrorCode::WorkAlreadyApproved);
    }
    let bound = match ctx.job_post.freelancer {
        Some(f) => f == ctx.application.applicant,
        None => false,
    };
    if !bound || ctx.freelancer.key != ctx.application.applicant {
        return Err(ErrorCode::Unauthorized);
    }
    let amount = ctx.job_post.amount;
    if ctx.escrow.lamports < amount {
        return Err(ErrorCode::InsufficientEscrowBalance);
    }
    if byte_len(&client_review) > CLIENT_REVIEW_MAX_LEN {
        return Err(ErrorCode::InvalidInput);
    }
    ctx.application.client_review = client_review;
    ctx.application.completed = true;
    ctx.escrow.lamports = ctx.escrow.lamports - amount;
    ctx.freelancer.lamports = ctx.freelancer.lamports + amount;
    let month = current_month(now);
    ctx.freelancer_stats.record_earning(month, amount);
    Ok(())
}

// ---------------------------------------------------------------- cancel

/// The first guard of cancelling a job that fails, if any.
pub open spec fn cancel_error(ctx: CancelJob) -> Option<ErrorCode> {
    if ctx.job_post.client != ctx.client.key {
        Some(ErrorCode::Unauthorized)
    } else if !ctx.escrow.serves(ctx.job_post_key, ctx.job_post) {
        Some(ErrorCode::InvalidAccount)
    } else if ctx.job_post.is_filled {
        Some(ErrorCode::JobAlreadyFilled)
    } else if ctx.job_post.cancelled {
        Some(ErrorCode::JobAlreadyCancelled)
    } else {
        None
    }
}

/// The records after a cancellation: the job is cancelled and the whole
/// vault went back to the client.
pub open spec fn cancelled(ctx: CancelJob) -> CancelJob {
    CancelJob {
        job_post: JobPost { cancelled: true, ..ctx.job_post },
        escrow: Vault { lamports: 0, ..ctx.escrow },
        client: Wallet { lamports: (ctx.client.lamports + ctx.escrow.lamports) as u64, ..ctx.client },
        ..ctx
    }
}

/// The client withdraws a job that nobody was bound to, and recovers the
/// escrow.
pub fn cancel_job(ctx: &mut CancelJob) -> (r: Result<(), ErrorCode>)
    requires
        cancel_error(*old(ctx)) is None ==> old(ctx).client.lamports + old(ctx).escrow.lamports
            <= u64::MAX,
    ensures
        r == outcome(cancel_error(*old(ctx))),
        r is Ok ==> *final(ctx) == cancelled(*old(ctx)),
        r is Err ==> *final(ctx) == *old(ctx),
{
    if ctx.job_post.client != ctx.client.key {
        return Err(ErrorCode::Unauthorized);
    }
    if ctx.escrow.job_post != ctx.job_post_key || ctx.escrow.bump != ctx.job_post.escrow_bump {
        return Err(ErrorCode::InvalidAccount);
    }
    if ctx.job_post.is_filled {
        return Err(ErrorCode::JobAlreadyFilled);
    }
    if ctx.job_post.cancelled {
        return Err(ErrorCode::JobAlreadyCancelled);
    }
    ctx.job_post.cancelled = true;
    let refund = ctx.escrow.lamports;
    ctx.escrow.lamports = 0;
    ctx.client.lamports = ctx.client.lamports + refund;
    Ok(())
}

// ---------------------------------------------------------------- apply

/// The first guard of applying to a job that fails, if any.
pub open spec fn apply_error(ctx: ApplyToJob, resume_link: String, expected_end_date: i64) -> Option<
    ErrorCode,
> {
    if resume_link@.len() == 0 {
        Some(ErrorCode::InvalidInput)
    } else if expected_end_date < 0 {
        Some(ErrorCode::InvalidDates)
    } else if ctx.job_post.is_filled {
        Some(ErrorCode::JobAlreadyFilled)
    } else if ctx.job_post.cancelled {
        Some(ErrorCode::JobCancelled)
    } else if text_len(resume_link) > RESUME_LINK_MAX_LEN {
        Some(ErrorCode::InvalidInput)
    } else {
        None
    }
}

/// `after` is `ctx` once the application went through: a fresh bid of the
/// freelancer on the job, with every status flag down and no text but the
/// resume link; the other records are untouched.
pub open spec fn applied(
    ctx: ApplyToJob,
    resume_link: String,
    expected_end_date: i64,
    after: ApplyToJob,
) -> bool {
    let a = after.application;
    &&& a.applicant == ctx.freelancer
    &&& a.job_post == ctx.job_post_key
    &&& a.resume_link == resume_link
    &&& a.submission_link@.len() == 0
    &&& a.narration@.len() == 0
    &&& a.client_review@.len() == 0
    &&& !a.approved && !a.submitted && !a.completed && !a.rejected
    &&& a.expected_end_date == expected_end_date
    &&& after.freelancer == ctx.freelancer
    &&& after.job_post_key == ctx.job_post_key
    &&& after.job_post == ctx.job_post
}

/// A freelancer bids on an open job.
pub fn apply_to_job(ctx: &mut ApplyToJob, resume_link: String, expected_end_date: i64) -> (r: Result<
    (),
    ErrorCode,
>)
    ensures
        r == outcome(apply_error(*old(ctx), resume_link, expected_end_date)),
        r is Ok ==> applied(*old(ctx), resume_link, expected_end_date, *final(ctx)),
        r is Err ==> *final(ctx) == *old(ctx),
{
    if is_blank(&resume_link) {
        return Err(ErrorCode::InvalidInput);
    }
    if expected_end_date < 0 {
        return Err(ErrorCode::InvalidDates);
    }
    if ctx.job_post.is_filled {
        return Err(ErrorCode::JobAlreadyFilled);
    }
    if ctx.job_post.cancelled {
        return Err(ErrorCode::JobCancelled);
    }
    if byte_len(&resume_link) > RESUME_LINK_MAX_LEN {
        return Err(ErrorCode::InvalidInput);
    }
    ctx.application = Application {
        applicant: ctx.freelancer,
        job_post: ctx.job_post_key,
        resume_link,
        submission_link: String::new(),
        narration: String::new(),
        client_review: String::new(),
        approved: false,
        submitted: false,
        completed: false,
        rejected: false,
        expected_end_date,
    };
    Ok(())
}

// ---------------------------------------------------------------- approve application

/// The first guard of approving an application that fails, if any.
pub open spec fn approve_application_error(ctx: ApproveApplication) -> Option<ErrorCode> {
    if ctx.application.job_post != ctx.job_post_key {
        Some(ErrorCode::InvalidAccount)
    } else if ctx.job_post.client != ctx.client {
        Some(ErrorCode::Unauthorized)
    } else if ctx.job_post.is_filled {
        Some(ErrorCode::JobAlreadyFilled)
    } else if ctx.job_post.cancelled {
        Some(ErrorCode::JobCancelled)
    } else if ctx.application.approved {
        Some(ErrorCode::ApplicationAlreadyApproved)
    } else {
        None
    }
}

/// The records after an approval: the application is approved, the job is
/// filled and bound to its applicant.
pub open spec fn application_approved(ctx: ApproveApplication) -> ApproveApplication {
    ApproveApplication {
        application: Application { approved: true, ..ctx.application },
        job_post: JobPost {
            is_filled: true,
            freelancer: Some(ctx.application.applicant),
            ..ctx.job_post
        },
        ..ctx
    }
}

/// The client picks the application's freelancer for an open job. This is
/// the one step that fills a job, and it binds one applicant for good.
pub fn approve_application(ctx: &mut ApproveApplication) -> (r: Result<(), ErrorCode>)
    ensures
        r == outcome(approve_application_error(*old(ctx))),
        r is Ok ==> *final(ctx) == application_approved(*old(ctx)),
        r is Err ==> *final(ctx) == *old(ctx),
{
    if ctx.application.job_post != ctx.job_post_key {
        return Err(ErrorCode::InvalidAccount);
    }
    if ctx.job_post.client != ctx.client {
        return Err(ErrorCode::Unauthorized);
    }
    if ctx.job_post.is_filled {
        return Err(ErrorCode::JobAlreadyFilled);
    }
    if ctx.job_post.cancelled {
        return Err(ErrorCode::JobCancelled);
    }
    if ctx.application.approved {
        return Err(ErrorCode::ApplicationAlreadyApproved);
    }
    ctx.application.approved = true;
    ctx.job_post.is_filled = true;
    ctx.job_post.freelancer = Some(ctx.application.applicant);
    Ok(())
}

// ---------------------------------------------------------------- submit work

/// The first guard of submitting work that fails, if any.
pub open spec fn submit_error(ctx: SubmitWork, submission_link: String, narration: String) -> Option<
    ErrorCode,
> {
    if ctx.application.applicant != ctx.freelancer {
        Some(ErrorCode::Unauthorized)
    } else if ctx.application.job_post != ctx.job_post_key {
        Some(ErrorCode::InvalidAccount)
    } else if submission_link@.len() == 0 || narration@.len() == 0 {
        Some(ErrorCode::InvalidInput)
    } else if !ctx.application.approved {
        Some(ErrorCode::ApplicationNotApproved)
    } else if ctx.application.completed {
        Some(ErrorCode::WorkAlreadyApproved)
    } else if text_len(submission_link) > SUBMISSION_LINK_MAX_LEN || text_len(narration)
        > NARRATION_MAX_LEN {
        Some(ErrorCode::InvalidInput)
    } else {
        None
    }
}

/// The records after a submission: the work is submitted with its link and
/// narration, and any earlier rejection is cleared.
pub open spec fn work_submitted(ctx: SubmitWork, submission_link: String, narration: String) -> SubmitWork {
    SubmitWork {
        application: Application {
            submission_link,
            narration,
            submitted: true,
            rejected: false,
            ..ctx.application
        },
        ..ctx
    }
}

/// The approved freelancer hands in (or, after a rejection, hands in again)
/// their work.
pub fn submit_work(ctx: &mut SubmitWork, submission_link: String, narration: String) -> (r: Result<
    (),
    ErrorCode,
>)
    ensures
        r == outcome(submit_error(*old(ctx), submission_link, narration)),
        r is Ok ==> *final(ctx) == work_submitted(*old(ctx), submission_link, narration),
        r is Err ==> *final(ctx) == *old(ctx),
{
    if ctx.application.applicant != ctx.freelancer {
        return Err(ErrorCode::Unauthorized);
    }
    if ctx.application.job_post != ctx.job_post_key {
        return Err(ErrorCode::InvalidAccount);
    }
    if is_blank(&submission_link) || is_blank(&narration) {
        return Err(ErrorCode::InvalidInput);
    }
    if !ctx.application.approved {
        return Err(ErrorCode::ApplicationNotApproved);
    }
    if ctx.application.completed {
        return Err(ErrorCode::WorkAlreadyApproved);
    }
    if byte_len(&submission_link) > SUBMISSION_LINK_MAX_LEN || byte_len(&narration)
        > NARRATION_MAX_LEN {
        return Err(ErrorCode::InvalidInput);
    }
    ctx.application.submission_link = submission_link;
    ctx.application.narration = narration;
    ctx.application.submitted = true;
    ctx.application.rejected = false;
    Ok(())
}

// ---------------------------------------------------------------- reject submission

/// The first guard of rejecting submitted work that fails, if any.
pub open spec fn reject_error(ctx: RejectSubmission, client_review: String) -> Option<ErrorCode> {
    if ctx.application.job_post != ctx.job_post_key {
        Some(ErrorCode::InvalidAccount)
    } else if ctx.job_post.client != ctx.client {
        Some(ErrorCode::Unauthorized)
    } else if ctx.job_post.freelancer != Some(ctx.application.applicant) {
        Some(ErrorCode::Unauthorized)
    } else if ctx.application.completed {
        Some(ErrorCode::WorkAlreadyApproved)
    } else if !ctx.application.submitted {
        Some(ErrorCode::WorkNotCompleted)
    } else if text_len(client_review) > CLIENT_REVIEW_MAX_LEN {
        Some(ErrorCode::InvalidInput)
    } else {
        None
    }
}

/// The records after a rejection: the review is stored, the work is marked
/// rejected and no longer submitted, so that it can be handed in again.
pub open spec fn submission_rejected(ctx: RejectSubmission, client_review: String) -> RejectSubmission {
    RejectSubmission {
        application: Application {
            client_review,
            rejected: true,
            submitted: false,
            ..ctx.application
        },
        ..ctx
    }
}

/// The client turns the submitted work down; no funds move.
pub fn reject_submission(ctx: &mut RejectSubmission, client_review: String) -> (r: Result<
    (),
    ErrorCode,
>)
    ensures
        r == outcome(reject_error(*old(ctx), client_review)),
        r is Ok ==> *final(ctx) == submission_rejected(*old(ctx), client_review),
        r is Err ==> *final(ctx) == *old(ctx),
{
    if ctx.application.job_post != ctx.job_post_key {
        return Err(ErrorCode::InvalidAccount);
    }
    if ctx.job_post.client != ctx.client {
        return Err(ErrorCode::Unauthorized);
    }
    let bound = match ctx.job_post.freelancer {
        Some(f) => f == ctx.application.applicant,
        None => false,
    };
    if !bound {
        return Err(ErrorCode::Unauthorized);
    }
    if ctx.application.completed {
        return Err(ErrorCode::WorkAlreadyApproved);
    }
    if !ctx.application.submitted {
        return Err(ErrorCode::WorkNotCompleted);
    }
    if byte_len(&client_review) > CLIENT_REVIEW_MAX_LEN {
        return Err(ErrorCode::InvalidInput);
    }
    ctx.application.client_review = client_review;
    ctx.application.rejected = true;
    ctx.application.submitted = false;
    Ok(())
}

// ---------------------------------------------------------------- stats

/// The counters of the queried user, unchanged.
pub fn get_user_stats(ctx: &GetUserStats) -> (r: UserStats)
    ensures
        r == ctx.user_stats,
{
    ctx.user_stats
}

} // verus!
