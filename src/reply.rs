//! Replies in query mode: what a receiver answers, how a sender reports each
//! answer, and what a sender concludes once its wait is over.

use vstd::prelude::*;
use crate::outcome::{failure_message, failure_text, InstallOutcome};

verus! {

/// One answer to an install request.
#[derive(Debug, Clone, PartialEq, Eq)]
pub enum Reply {
    /// The package was installed; carries the installer's stdout.
    Success(String),
    /// It was not; carries the failure report.
    Failure(String),
}

/// The reply that answers an install outcome.
pub open spec fn reply_matches(outcome: InstallOutcome, r: Reply) -> bool {
    match outcome {
        Ok(out) => r matches Reply::Success(s) && s@ == out@,
        Err(e) => r matches Reply::Failure(m) && m@ == failure_text(e),
    }
}

/// Turns an install outcome into the reply that reports it.
pub fn reply_for(outcome: InstallOutcome) -> (r: Reply)
    ensures
        reply_matches(outcome, r),
{
    match outcome {
        Ok(out) => Reply::Success(out),
        Err(e) => Reply::Failure(failure_message(&e)),
    }
}

/// The line a sender logs for a reply: its tag, a line break, and its text.
pub open spec fn report_text(r: Reply) -> Seq<char> {
    match r {
        Reply::Success(s) => "Success: \n"@ + s@,
        Reply::Failure(m) => "Failure: \n"@ + m@,
    }
}

/// Formats a reply for the sender's log.
pub fn reply_report(reply: &Reply) -> (r: String)
    ensures
        r@ == report_text(*reply),
{
    match reply {
        Reply::Success(s) => {
            let mut line = String::from_str("Success: \n");
            line.append(s.as_str());
            line
        },
        Reply::Failure(m) => {
            let mut line = String::from_str("Failure: \n");
            line.append(m.as_str());
            line
        },
    }
}

/// Number of success replies among `replies`.
pub open spec fn count_successes(replies: Seq<Reply>) -> nat
    decreases replies.len(),
{
    if replies.len() == 0 {
        0
    } else {
        count_successes(replies.drop_last()) + if replies.last() is Success {
            1nat
        } else {
            0nat
        }
    }
}

proof fn lemma_count_successes_bound(replies: Seq<Reply>)
    ensures
        count_successes(replies) <= replies.len(),
    decreases replies.len(),
{
    if replies.len() > 0 {
        lemma_count_successes_bound(replies.drop_last());
    }
}

/// What a query-mode sender learned from the replies it received.
#[derive(Debug, Clone, Copy, PartialEq, Eq, Structural)]
pub struct QuerySummary {
    pub successes: usize,
    pub failures: usize,
}

/// Why a query-mode deployment has no known outcome.
#[derive(Debug, Clone, Copy, PartialEq, Eq, Structural)]
pub enum SendError {
    /// No reply arrived before the wait ran out; the install may still have
    /// happened.
    Timeout,
}

/// Concludes a query-mode deployment from every reply received before the
/// wait ran out: a timeout when there was none, else how many reported
/// success and how many failure.
pub fn summarize_replies(replies: &Vec<Reply>) -> (r: Result<QuerySummary, SendError>)
    ensures
        replies@.len() == 0 <==> r == Err::<QuerySummary, SendError>(SendError::Timeout),
        r matches Ok(s) ==> s.successes == count_successes(replies@) && s.successes + s.failures
            == replies@.len(),
{
    if replies.len() == 0 {
        return Err(SendError::Timeout);
    }
    let mut successes: usize = 0;
    let mut i: usize = 0;
    while i < replies.len()
        invariant
            i <= replies@.len(),
            successes == count_successes(replies@.subrange(0, i as int)),
        decreases replies@.len() - i,
    {
        proof {
            assert(replies@.subrange(0, i + 1).drop_last() =~= replies@.subrange(0, i as int));
            lemma_count_successes_bound(replies@.subrange(0, i as int));
        }
        if let Reply::Success(_) = &replies[i] {
            successes = successes + 1;
        }
        i = i + 1;
    }
    proof {
        assert(replies@.subrange(0, i as int) =~= replies@);
        lemma_count_successes_bound(replies@);
    }
    Ok(QuerySummary { successes, failures: replies.len() - successes })
}

} // verus!
