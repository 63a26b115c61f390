use ez_cd::outcome::InstallError;
use ez_cd::reply::{reply_for, reply_report, summarize_replies, QuerySummary, Reply, SendError};

#[test]
fn no_reply_is_a_timeout() {
    assert_eq!(summarize_replies(&Vec::new()), Err(SendError::Timeout));
}

#[test]
fn replies_are_counted_by_kind() {
    let replies = vec![
        Reply::Success("a".to_string()),
        Reply::Failure("b".to_string()),
        Reply::Success("c".to_string()),
    ];
    assert_eq!(summarize_replies(&replies), Ok(QuerySummary { successes: 2, failures: 1 }));
    let one_failure = vec![Reply::Failure("x".to_string())];
    assert_eq!(summarize_replies(&one_failure), Ok(QuerySummary { successes: 0, failures: 1 }));
}

#[test]
fn reports_are_tagged() {
    assert_eq!(reply_report(&Reply::Success("out".to_string())), "Success: \nout");
    assert_eq!(reply_report(&Reply::Failure("bad".to_string())), "Failure: \nbad");
}

#[test]
fn failure_outcome_becomes_failure_reply() {
    assert_eq!(
        reply_for(Err(InstallError::PackageMissing)),
        Reply::Failure("Package not found in archive".to_string())
    );
}
