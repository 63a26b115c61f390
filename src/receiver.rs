//! The receiving side of a device, one message at a time. In query mode every
//! request is answered by exactly one reply; in subscriber mode each result is
//! only logged, and no message, however malformed, stops the loop.

use vstd::prelude::*;
use crate::outcome::{failure_message, failure_text, InstallError, InstallOutcome};
use crate::reply::{reply_for, reply_matches, Reply};

verus! {

/// The payload of an arriving message, as the transport delivered it.
#[derive(Debug, Clone, PartialEq, Eq)]
pub enum Payload {
    /// The message carried no value.
    Missing,
    /// The value could not be read as bytes; the encoding the transport
    /// reported for it.
    Undecodable(String),
    /// The archive bytes.
    Bytes(Vec<u8>),
}

/// Whether a receiver is waiting for a message or running an install.
#[derive(Debug, Clone, Copy, PartialEq, Eq, Structural)]
pub enum ReceiverState {
    Idle,
    Installing,
}

/// What the transport or the install executor reported.
#[derive(Debug, PartialEq, Eq)]
pub enum ReceiverEvent {
    /// A message (in query mode, a request) arrived.
    Arrived(Payload),
    /// The install started for the last message is over.
    Installed(InstallOutcome),
    /// Receiving failed; nothing arrived.
    ReceiveFailed,
}

/// What a query-mode receiver is to do next.
#[derive(Debug, PartialEq, Eq)]
pub enum QueryAction {
    /// Run an install on these archive bytes.
    Install(Vec<u8>),
    /// Send this reply to the pending request.
    Reply(Reply),
    /// Keep receiving.
    Listen,
}

/// What a subscriber-mode receiver is to do next.
#[derive(Debug, PartialEq, Eq)]
pub enum SubscriberAction {
    /// Run an install on these archive bytes.
    Install(Vec<u8>),
    /// Log this result locally.
    Log(Reply),
    /// Keep receiving.
    Listen,
}

/// The failure that a payload which is not archive bytes gets.
pub open spec fn payload_error(p: Payload) -> InstallError {
    match p {
        Payload::Undecodable(encoding) => InstallError::UndecodablePayload(encoding),
        _ => InstallError::MissingPayload,
    }
}

/// Whether `r` is the failure reply reporting `e`.
pub open spec fn is_failure_for(r: Reply, e: InstallError) -> bool {
    r matches Reply::Failure(m) && m@ == failure_text(e)
}

/// The state after `event` in `state`; both modes move alike.
pub open spec fn receiver_next(state: ReceiverState, event: ReceiverEvent) -> ReceiverState {
    match event {
        ReceiverEvent::Arrived(Payload::Bytes(_)) => ReceiverState::Installing,
        ReceiverEvent::Installed(_) => ReceiverState::Idle,
        _ => state,
    }
}

/// Whether a receiver answers (in query mode) or logs (in subscriber mode) a
/// result on `event` in `state`.
pub open spec fn reports_on(state: ReceiverState, event: ReceiverEvent) -> bool {
    match event {
        ReceiverEvent::Arrived(Payload::Bytes(_)) => state == ReceiverState::Installing,
        ReceiverEvent::Arrived(_) => true,
        ReceiverEvent::Installed(_) => state == ReceiverState::Installing,
        ReceiverEvent::ReceiveFailed => false,
    }
}

/// The result that is reported on `event` in `state`, where one is.
pub open spec fn reported(state: ReceiverState, event: ReceiverEvent, r: Reply) -> bool {
    match event {
        ReceiverEvent::Arrived(Payload::Bytes(_)) => is_failure_for(r, InstallError::ReceiverBusy),
        ReceiverEvent::Arrived(p) => is_failure_for(r, payload_error(p)),
        ReceiverEvent::Installed(o) => reply_matches(o, r),
        ReceiverEvent::ReceiveFailed => false,
    }
}

/// Whether `event` in `state` starts an install on `bytes`.
pub open spec fn starts_install(state: ReceiverState, event: ReceiverEvent, bytes: Vec<u8>) -> bool {
    state == ReceiverState::Idle && event == ReceiverEvent::Arrived(Payload::Bytes(bytes))
}

/// The decision a query-mode receiver takes, in spec.
pub open spec fn query_transition(
    state: ReceiverState,
    event: ReceiverEvent,
    r: (ReceiverState, QueryAction),
) -> bool {
    &&& r.0 == receiver_next(state, event)
    &&& match r.1 {
        QueryAction::Install(b) => starts_install(state, event, b),
        QueryAction::Reply(rep) => reports_on(state, event) && reported(state, event, rep),
        QueryAction::Listen => !reports_on(state, event) && !(state == ReceiverState::Idle
            && event matches ReceiverEvent::Arrived(Payload::Bytes(_))),
    }
}

/// The decision a subscriber-mode receiver takes, in spec.
pub open spec fn subscriber_transition(
    state: ReceiverState,
    event: ReceiverEvent,
    r: (ReceiverState, SubscriberAction),
) -> bool {
    &&& r.0 == receiver_next(state, event)
    &&& match r.1 {
        SubscriberAction::Install(b) => starts_install(state, event, b),
        SubscriberAction::Log(rep) => reports_on(state, event) && reported(state, event, rep),
        SubscriberAction::Listen => !reports_on(state, event) && !(state == ReceiverState::Idle
            && event matches ReceiverEvent::Arrived(Payload::Bytes(_))),
    }
}

/// The result to report for `event` in `state`, where `reports_on` holds.
fn report_for(state: ReceiverState, event: ReceiverEvent) -> (r: Reply)
    requires
        reports_on(state, event),
    ensures
        reported(state, event, r),
{
    match event {
        ReceiverEvent::Arrived(Payload::Bytes(_)) => Reply::Failure(
            failure_message(&InstallError::ReceiverBusy),
        ),
        ReceiverEvent::Arrived(Payload::Missing) => Reply::Failure(
            failure_message(&InstallError::MissingPayload),
        ),
        ReceiverEvent::Arrived(Payload::Undecodable(encoding)) => Reply::Failure(
            failure_message(&InstallError::UndecodablePayload(encoding)),
        ),
        ReceiverEvent::Installed(o) => reply_for(o),
        // Nothing is reported on a failed receive; the precondition leaves it out.
        ReceiverEvent::ReceiveFailed => Reply::Failure(
            failure_message(&InstallError::MissingPayload),
        ),
    }
}

/// Advances a query-mode receiver by one event. Messages are meant to be
/// handed over one at a time, the next only after the running install has been
/// answered, so that it is handled after that install; one handed over while
/// installing is answered with a `ReceiverBusy` failure instead.
pub fn query_step(state: ReceiverState, event: ReceiverEvent) -> (r: (ReceiverState, QueryAction))
    ensures
        query_transition(state, event, r),
{
    let next = match &event {
        ReceiverEvent::Arrived(Payload::Bytes(_)) => ReceiverState::Installing,
        ReceiverEvent::Installed(_) => ReceiverState::Idle,
        _ => state,
    };
    let reports = match &event {
        ReceiverEvent::Arrived(Payload::Bytes(_)) => state == ReceiverState::Installing,
        ReceiverEvent::Arrived(_) => true,
        ReceiverEvent::Installed(_) => state == ReceiverState::Installing,
        ReceiverEvent::ReceiveFailed => false,
    };
    if reports {
        (next, QueryAction::Reply(report_for(state, event)))
    } else {
        match event {
            ReceiverEvent::Arrived(Payload::Bytes(b)) => (next, QueryAction::Install(b)),
            _ => (next, QueryAction::Listen),
        }
    }
}

/// Advances a subscriber-mode receiver by one event.
pub fn subscriber_step(state: ReceiverState, event: ReceiverEvent) -> (r: (
    ReceiverState,
    SubscriberAction,
))
    ensures
        subscriber_transition(state, event, r),
{
    let (next, action) = query_step(state, event);
    match action {
        QueryAction::Install(b) => (next, SubscriberAction::Install(b)),
        QueryAction::Reply(rep) => (next, SubscriberAction::Log(rep)),
        QueryAction::Listen => (next, SubscriberAction::Listen),
    }
}

/// The state after the events `events`, starting in `start`.
pub open spec fn trace_end(start: ReceiverState, events: Seq<ReceiverEvent>) -> ReceiverState
    decreases events.len(),
{
    if events.len() == 0 {
        start
    } else {
        receiver_next(trace_end(start, events.drop_last()), events.last())
    }
}

/// How many results are reported (replies sent, in query mode) over `events`,
/// starting in `start`.
pub open spec fn trace_reports(start: ReceiverState, events: Seq<ReceiverEvent>) -> nat
    decreases events.len(),
{
    if events.len() == 0 {
        0
    } else {
        trace_reports(start, events.drop_last()) + if reports_on(
            trace_end(start, events.drop_last()),
            events.last(),
        ) {
            1nat
        } else {
            0nat
        }
    }
}

/// How many messages (requests, in query mode) arrive among `events`.
pub open spec fn trace_requests(events: Seq<ReceiverEvent>) -> nat
    decreases events.len(),
{
    if events.len() == 0 {
        0
    } else {
        trace_requests(events.drop_last()) + if events.last() is Arrived {
            1nat
        } else {
            0nat
        }
    }
}

/// How many requests wait for their reply in `state`.
pub open spec fn pending_requests(state: ReceiverState) -> nat {
    if state == ReceiverState::Installing {
        1
    } else {
        0
    }
}

/// A query-mode step sends a reply exactly where a result is reported.
pub proof fn lemma_query_reply_iff_reported(
    state: ReceiverState,
    event: ReceiverEvent,
    r: (ReceiverState, QueryAction),
)
    requires
        query_transition(state, event, r),
    ensures
        r.1 is Reply <==> reports_on(state, event),
{
}

/// Every request gets exactly one reply: over any run of events from an idle
/// receiver, the replies sent and the requests still awaiting theirs add up to
/// the requests received, even where payloads are missing or undecodable.
pub proof fn lemma_one_reply_per_request(events: Seq<ReceiverEvent>)
    ensures
        trace_reports(ReceiverState::Idle, events) + pending_requests(
            trace_end(ReceiverState::Idle, events),
        ) == trace_requests(events),
    decreases events.len(),
{
    if events.len() > 0 {
        lemma_one_reply_per_request(events.drop_last());
    }
}

/// A malformed message does not stop a subscriber: it leaves the receiver in
/// the state it was in and is logged as a failure, and a valid message that
/// follows it on an idle receiver is installed.
pub proof fn lemma_malformed_message_does_not_stop(
    state: ReceiverState,
    bad: Payload,
    bytes: Vec<u8>,
    r1: (ReceiverState, SubscriberAction),
    r2: (ReceiverState, SubscriberAction),
)
    requires
        !(bad is Bytes),
        subscriber_transition(state, ReceiverEvent::Arrived(bad), r1),
        subscriber_transition(r1.0, ReceiverEvent::Arrived(Payload::Bytes(bytes)), r2),
    ensures
        r1.0 == state,
        r1.1 matches SubscriberAction::Log(rep) && is_failure_for(rep, payload_error(bad)),
        state == ReceiverState::Idle ==> r2 == (
            ReceiverState::Installing,
            SubscriberAction::Install(bytes),
        ),
{
}

} // verus!
