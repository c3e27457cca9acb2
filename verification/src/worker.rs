//! The worker loop's decisions. The loop itself performs outside work —
//! long-poll waits, checkouts, script runs and comment posts — so it
//! runs outside the library; each decision between two such steps is a
//! function here.

use vstd::prelude::*;
use vstd::string::*;

verus! {

/// The body of the comment reporting a failed job.
pub open spec fn spec_error_comment(detail: Seq<char>) -> Seq<char> {
    "Error running job: "@ + detail
}

/// The comment body reporting a failed job on its triggering issue.
pub fn error_comment_body(detail: &str) -> (r: String)
    ensures
        r@ == spec_error_comment(detail@),
{
    let mut s = "Error running job: ".to_owned();
    s.append(detail);
    s
}

/// What the worker does after one job attempt: a failure is reported as
/// a comment on the triggering issue (best effort — a failure to post
/// is logged and dropped), a success needs nothing; either way the loop
/// continues with the next job.
pub fn after_job(issue_number: u64, outcome: Result<(), String>) -> (r: Option<(u64, String)>)
    ensures
        outcome is Ok ==> r is None,
        outcome matches Err(detail) ==> (r matches Some(c) && c.0 == issue_number && c.1@
            == spec_error_comment(detail@)),
{
    match outcome {
        Ok(()) => None,
        Err(detail) => Some((issue_number, error_comment_body(detail.as_str()))),
    }
}

} // verus!
