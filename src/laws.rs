use vstd::prelude::*;

use crate::accounts::{
    text_len, ApplyToJob, ApproveApplication, ApproveSubmission, CancelJob, InitializeJobPost,
    RejectSubmission, SubmitWork, CLIENT_REVIEW_MAX_LEN, NARRATION_MAX_LEN,
    SUBMISSION_LINK_MAX_LEN,
};
use crate::error::ErrorCode;
use crate::lp_program::{
    application_approved, applied, apply_error, approve_application_error,
    approve_submission_error, cancel_error, cancelled, post_error, post_fundable, posted,
    reject_error, submission_approved, submission_rejected, submit_error, work_submitted,
};

verus! {

/// A valid post moves exactly `amount` from the client into the job's fresh
/// vault: the vault then holds `amount`, the client holds `amount` less, and
/// no lamport is created or lost.
pub proof fn lemma_post_locks_amount(
    ctx: InitializeJobPost,
    title: String,
    description: String,
    amount: u64,
    start_date: i64,
    end_date: i64,
    now: i64,
)
    requires
        ctx.escrow.lamports == 0,
        post_error(ctx, title, description, amount, start_date, end_date, now) is None,
        post_fundable(ctx, amount, now),
    ensures
        ({
            let after = posted(ctx, title, description, amount, start_date, end_date, now);
            &&& after.escrow.lamports == amount
            &&& after.escrow.lamports == after.job_post.amount
            &&& after.client.lamports == ctx.client.lamports - amount
            &&& after.client.lamports + after.escrow.lamports == ctx.client.lamports
        }),
{
}

/// A job is filled once: after an approval, every further approval on the
/// same job fails, and it fails with `JobAlreadyFilled` whenever the job's
/// client asks with an application of that job.
pub proof fn lemma_job_fills_once(first: ApproveApplication, second: ApproveApplication)
    requires
        approve_application_error(first) is None,
        second.job_post_key == first.job_post_key,
        second.job_post == application_approved(first).job_post,
    ensures
        approve_application_error(second) is Some,
        second.application.job_post == second.job_post_key && second.client
            == second.job_post.client ==> approve_application_error(second) == Some(
            ErrorCode::JobAlreadyFilled,
        ),
{
}

/// Approved work is final: once a submission is approved, every further
/// approval or rejection of that application fails, with
/// `WorkAlreadyApproved` whenever the job's client asks through the job's
/// own vault and binding.
pub proof fn lemma_approved_work_is_final(
    first: ApproveSubmission,
    review: String,
    now: i64,
    again: ApproveSubmission,
    again_review: String,
    reject: RejectSubmission,
    reject_review: String,
)
    requires
        approve_submission_error(first, review) is None,
        again.application == submission_approved(first, review, now).application,
        reject.application == submission_approved(first, review, now).application,
    ensures
        approve_submission_error(again, again_review) is Some,
        reject_error(reject, reject_review) is Some,
        again.job_post_key == first.job_post_key && again.client == again.job_post.client
            && again.escrow.serves(again.job_post_key, again.job_post)
            ==> approve_submission_error(again, again_review) == Some(
            ErrorCode::WorkAlreadyApproved,
        ),
        reject.job_post_key == first.job_post_key && reject.client == reject.job_post.client
            && reject.job_post.freelancer == Some(reject.application.applicant)
            ==> reject_error(reject, reject_review) == Some(ErrorCode::WorkAlreadyApproved),
{
}

/// A rejected submission can be handed in again and then approved: the
/// freelancer's resubmission goes through, the approval goes through, and
/// the whole vault, which holds the job's amount, goes to the freelancer.
pub proof fn lemma_resubmission_pays(
    reject: RejectSubmission,
    review: String,
    submit: SubmitWork,
    submission_link: String,
    narration: String,
    approve: ApproveSubmission,
    final_review: String,
    now: i64,
)
    requires
        reject.application.status_ok(),
        reject_error(reject, review) is None,
        submit.application == submission_rejected(reject, review).application,
        submit.freelancer == submit.application.applicant,
        submit.job_post_key == reject.job_post_key,
        0 < submission_link@.len(),
        0 < narration@.len(),
        text_len(submission_link) <= SUBMISSION_LINK_MAX_LEN,
        text_len(narration) <= NARRATION_MAX_LEN,
        approve.application == work_submitted(submit, submission_link, narration).application,
        approve.job_post_key == reject.job_post_key,
        approve.job_post == reject.job_post,
        approve.client == approve.job_post.client,
        approve.escrow.serves(approve.job_post_key, approve.job_post),
        approve.escrow.lamports == approve.job_post.amount,
        approve.freelancer.key == approve.application.applicant,
        approve.freelancer.lamports + approve.escrow.lamports <= u64::MAX,
        text_len(final_review) <= CLIENT_REVIEW_MAX_LEN,
    ensures
        submit_error(submit, submission_link, narration) is None,
        approve_submission_error(approve, final_review) is None,
        ({
            let after = submission_approved(approve, final_review, now);
            &&& after.escrow.lamports == 0
            &&& after.freelancer.lamports == approve.freelancer.lamports + approve.escrow.lamports
            &&& after.application.completed
            &&& !after.application.rejected
        }),
{
}

/// Cancelling refunds an unfilled job once: a filled job fails with
/// `JobAlreadyFilled`, a cancelled one with `JobAlreadyCancelled`, and an
/// open one gives the client back its vault, holding the job's amount,
/// and leaves the vault empty.
pub proof fn lemma_cancel_refunds_once(ctx: CancelJob)
    requires
        ctx.job_post.status_ok(),
        ctx.job_post.client == ctx.client.key,
        ctx.escrow.serves(ctx.job_post_key, ctx.job_post),
        ctx.client.lamports + ctx.escrow.lamports <= u64::MAX,
    ensures
        ctx.job_post.is_filled ==> cancel_error(ctx) == Some(ErrorCode::JobAlreadyFilled),
        ctx.job_post.cancelled ==> cancel_error(ctx) == Some(ErrorCode::JobAlreadyCancelled),
        !ctx.job_post.is_filled && !ctx.job_post.cancelled ==> cancel_error(ctx) is None,
        ctx.escrow.lamports == ctx.job_post.amount && cancel_error(ctx) is None ==> ({
            let after = cancelled(ctx);
            &&& after.client.lamports == ctx.client.lamports + ctx.job_post.amount
            &&& after.escrow.lamports == 0
        }),
{
}

/// A second cancellation of the same job fails with `JobAlreadyCancelled`
/// when the client asks through the job's own vault.
pub proof fn lemma_cancel_twice_fails(first: CancelJob, second: CancelJob)
    requires
        cancel_error(first) is None,
        second.job_post == cancelled(first).job_post,
        second.job_post_key == first.job_post_key,
        second.escrow.serves(second.job_post_key, second.job_post),
        second.client.key == second.job_post.client,
    ensures
        cancel_error(second) == Some(ErrorCode::JobAlreadyCancelled),
{
}

/// A cancelled job pays no freelancer: no application can be approved on
/// it, and no submission on it can be approved.
pub proof fn lemma_cancelled_job_never_pays(
    fill: ApproveApplication,
    pay: ApproveSubmission,
    review: String,
)
    requires
        fill.job_post.cancelled,
        fill.job_post.status_ok(),
        pay.job_post.cancelled,
        pay.job_post.status_ok(),
    ensures
        approve_application_error(fill) is Some,
        approve_submission_error(pay, review) is Some,
{
}

/// Once a job is filled, an application of another freelancer can still be
/// made before, but none is approved after: it fails with
/// `JobAlreadyFilled`, and no payout can reach its applicant.
pub proof fn lemma_filled_job_binds_one(
    first: ApproveApplication,
    other: ApproveApplication,
    pay: ApproveSubmission,
    review: String,
)
    requires
        approve_application_error(first) is None,
        other.job_post_key == first.job_post_key,
        other.job_post == application_approved(first).job_post,
        other.application.job_post == other.job_post_key,
        other.client == other.job_post.client,
        pay.job_post == application_approved(first).job_post,
        pay.application.applicant != first.application.applicant,
    ensures
        approve_application_error(other) == Some(ErrorCode::JobAlreadyFilled),
        approve_submission_error(pay, review) is Some,
{
}

/// Every successful call keeps the posting and application invariants.
pub proof fn lemma_calls_keep_invariants(
    approve_app: ApproveApplication,
    submit: SubmitWork,
    link: String,
    narration: String,
    approve_work: ApproveSubmission,
    review: String,
    now: i64,
    reject: RejectSubmission,
    reject_review: String,
    cancel: CancelJob,
)
    requires
        approve_app.job_post.status_ok(),
        approve_app.application.status_ok(),
        submit.application.status_ok(),
        approve_work.application.status_ok(),
        reject.application.status_ok(),
        cancel.job_post.status_ok(),
    ensures
        approve_application_error(approve_app) is None ==> application_approved(
            approve_app,
        ).job_post.status_ok() && application_approved(approve_app).application.status_ok(),
        submit_error(submit, link, narration) is None ==> work_submitted(
            submit,
            link,
            narration,
        ).application.status_ok(),
        approve_submission_error(approve_work, review) is None ==> submission_approved(
            approve_work,
            review,
            now,
        ).application.status_ok(),
        reject_error(reject, reject_review) is None ==> submission_rejected(
            reject,
            reject_review,
        ).application.status_ok(),
        cancel_error(cancel) is None ==> cancelled(cancel).job_post.status_ok(),
{
}

/// A fresh application meets the application invariant.
pub proof fn lemma_fresh_application_ok(
    ctx: ApplyToJob,
    resume_link: String,
    expected_end_date: i64,
    after: ApplyToJob,
)
    requires
        apply_error(ctx, resume_link, expected_end_date) is None,
        applied(ctx, resume_link, expected_end_date, after),
    ensures
        after.application.status_ok(),
        after.application.job_post == ctx.job_post_key,
        after.application.applicant == ctx.freelancer,
{
}

} // verus!
