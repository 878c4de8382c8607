//! The checks a submission passes before a job is created, in order:
//! authorization, scope, rate limit.
use crate::auth::{may_submit, Role};
use crate::jobs::{AuditRecord, QueuedJob};
use crate::rate::{allow_step, not_before, RateLimiter};
use crate::scope::{in_scope, in_scope_spec, views};
use crate::text::{decimal, decimal_of};
use vstd::prelude::*;
use vstd::string::StringExecFns;

verus! {

/// A scan request as submitted.
#[derive(Clone, Debug)]
pub struct CreateJobRequest {
    pub target: String,
    pub tool: String,
    pub profile: String,
}

impl CreateJobRequest {
    /// The job to queue for this request under the identifier `id`.
    pub fn into_job(self, id: i64) -> (r: QueuedJob)
        ensures
            r.id == id,
            r.target@ == self.target@,
            r.tool@ == self.tool@,
            r.profile@ == self.profile@,
    {
        QueuedJob { id, target: self.target, tool: self.tool, profile: self.profile }
    }
}

/// Why a submission was turned away. No job exists for it.
#[derive(Clone, Copy, Debug, PartialEq, Eq, Structural)]
pub enum SubmitError {
    /// No valid session.
    Unauthorized,
    /// The session's role may not submit jobs.
    Forbidden,
    /// The target is outside the scope allowlist.
    OutOfScope,
    /// Too many submissions in the last minute; retry later.
    RateLimited,
}

/// Decides whether a submission by a session of role `role` (none without a
/// valid session) against `target` may create a job. The checks run in
/// order and the first that fails decides; the rate limiter is consulted,
/// and charged, only when the others pass.
pub fn check_submission(role: Option<Role>, target: &str, allowlist: &Vec<String>, limiter: &mut RateLimiter) -> (r: Result<(), SubmitError>)
    requires
        old(limiter).wf(),
    ensures
        final(limiter).wf(),
        final(limiter).limit() == old(limiter).limit(),
        role is None ==> r == Err::<(), SubmitError>(SubmitError::Unauthorized),
        role matches Some(x) && !may_submit(x) ==> r == Err::<(), SubmitError>(SubmitError::Forbidden),
        role matches Some(x) && may_submit(x) && !in_scope_spec(target@, views(allowlist@)) ==> r
            == Err::<(), SubmitError>(SubmitError::OutOfScope),
        !(role matches Some(x) && may_submit(x) && in_scope_spec(target@, views(allowlist@))) ==> final(limiter).requests()
            == old(limiter).requests(),
        role matches Some(x) && may_submit(x) && in_scope_spec(target@, views(allowlist@)) ==> exists|now: u64|
            not_before(old(limiter).requests(), now) && #[trigger] allow_step(old(limiter).requests(), old(limiter).limit(), now)
                == (r is Ok, final(limiter).requests()),
        r is Err && (role matches Some(x) && may_submit(x) && in_scope_spec(target@, views(allowlist@))) ==> r
            == Err::<(), SubmitError>(SubmitError::RateLimited),
{
    let role = match role {
        Some(x) => x,
        None => return Err(SubmitError::Unauthorized),
    };
    if !(role == Role::Admin || role == Role::Operator) {
        return Err(SubmitError::Forbidden);
    }
    if !in_scope(target, allowlist) {
        return Err(SubmitError::OutOfScope);
    }
    if !limiter.allow() {
        return Err(SubmitError::RateLimited);
    }
    Ok(())
}

/// The audit record of a job's creation: action `create_job` by `actor`,
/// with details `job_id=<id> target=<target>`.
pub fn create_job_audit(job_id: i64, target: &str, actor: &str) -> (r: AuditRecord)
    ensures
        r.action@ == "create_job"@,
        r.actor@ == actor@,
        r.details@ == "job_id="@ + decimal_of(job_id as int) + " target="@ + target@,
{
    let mut details = String::from_str("job_id=");
    details.append(decimal(job_id).as_str());
    details.append(" target=");
    details.append(target);
    AuditRecord { action: String::from_str("create_job"), actor: String::from_str(actor), details }
}

} // verus!
