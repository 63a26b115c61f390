use ez_cd::outcome::InstallError;
use ez_cd::receiver::{
    query_step, subscriber_step, Payload, QueryAction, ReceiverEvent, ReceiverState,
    SubscriberAction,
};
use ez_cd::reply::Reply;

#[test]
fn request_without_value_gets_failure_reply() {
    let (s, a) = query_step(ReceiverState::Idle, ReceiverEvent::Arrived(Payload::Missing));
    assert_eq!(s, ReceiverState::Idle);
    assert_eq!(a, QueryAction::Reply(Reply::Failure("Install query doesn't contain value".to_string())));
    let (s, a) = query_step(ReceiverState::Idle, ReceiverEvent::Arrived(Payload::Undecodable("TEXT_PLAIN".to_string())));
    assert_eq!(s, ReceiverState::Idle);
    assert_eq!(
        a,
        QueryAction::Reply(Reply::Failure(
            "Failed to extract binary payload from message. Unexpected encoding TEXT_PLAIN"
                .to_string()
        ))
    );
}

#[test]
fn request_with_archive_installs_then_replies_once() {
    let (s, a) = query_step(ReceiverState::Idle, ReceiverEvent::Arrived(Payload::Bytes(vec![1, 2])));
    assert_eq!(s, ReceiverState::Installing);
    assert_eq!(a, QueryAction::Install(vec![1, 2]));
    let (s, a) = query_step(s, ReceiverEvent::Installed(Ok("Setting up pkg (1.0) ...".to_string())));
    assert_eq!(s, ReceiverState::Idle);
    assert_eq!(a, QueryAction::Reply(Reply::Success("Setting up pkg (1.0) ...".to_string())));
    let (s, a) = query_step(s, ReceiverEvent::Installed(Ok("late".to_string())));
    assert_eq!(s, ReceiverState::Idle);
    assert_eq!(a, QueryAction::Listen);
}

#[test]
fn every_request_gets_exactly_one_reply() {
    let events = vec![
        ReceiverEvent::Arrived(Payload::Missing),
        ReceiverEvent::ReceiveFailed,
        ReceiverEvent::Arrived(Payload::Bytes(vec![7])),
        ReceiverEvent::Arrived(Payload::Bytes(vec![8])),
        ReceiverEvent::Installed(Err(InstallError::PackageMissing)),
        ReceiverEvent::Arrived(Payload::Undecodable("TEXT_PLAIN".to_string())),
        ReceiverEvent::Arrived(Payload::Bytes(vec![9])),
        ReceiverEvent::Installed(Ok(String::new())),
    ];
    let mut state = ReceiverState::Idle;
    let mut replies = 0;
    let mut requests = 0;
    for e in events {
        if let ReceiverEvent::Arrived(_) = e {
            requests += 1;
        }
        let (s, a) = query_step(state, e);
        state = s;
        if let QueryAction::Reply(_) = a {
            replies += 1;
        }
    }
    assert_eq!(state, ReceiverState::Idle);
    assert_eq!(requests, 5);
    assert_eq!(replies, requests);
}

#[test]
fn busy_receiver_answers_at_once() {
    let (s, a) = query_step(ReceiverState::Installing, ReceiverEvent::Arrived(Payload::Bytes(vec![3])));
    assert_eq!(s, ReceiverState::Installing);
    assert_eq!(a, QueryAction::Reply(Reply::Failure("Another install is in progress".to_string())));
}

#[test]
fn subscriber_survives_malformed_message() {
    let (s, a) = subscriber_step(ReceiverState::Idle, ReceiverEvent::Arrived(Payload::Undecodable("TEXT_PLAIN".to_string())));
    assert_eq!(s, ReceiverState::Idle);
    assert_eq!(
        a,
        SubscriberAction::Log(Reply::Failure(
            "Failed to extract binary payload from message. Unexpected encoding TEXT_PLAIN"
                .to_string()
        ))
    );
    let (s, a) = subscriber_step(s, ReceiverEvent::Arrived(Payload::Bytes(vec![4, 5])));
    assert_eq!(s, ReceiverState::Installing);
    assert_eq!(a, SubscriberAction::Install(vec![4, 5]));
    let (s, a) = subscriber_step(s, ReceiverEvent::Installed(Ok("done".to_string())));
    assert_eq!(s, ReceiverState::Idle);
    assert_eq!(a, SubscriberAction::Log(Reply::Success("done".to_string())));
    let (s, a) = subscriber_step(s, ReceiverEvent::ReceiveFailed);
    assert_eq!(s, ReceiverState::Idle);
    assert_eq!(a, SubscriberAction::Listen);
}
