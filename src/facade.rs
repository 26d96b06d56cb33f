//! What the awaited operations come to, once their completion signal has
//! yielded a value or has been dropped unresolved.
use vstd::prelude::*;
use crate::correlation::{ack_outcome, apply_op, record_after_ack, Outcome, TableOp};
use crate::error::{error_for_code, Error};
use crate::message::MessageId;
use crate::status::ConnectionStatus;

verus! {

/// The result of a connect whose signal yielded `received` (`None` when the
/// signal was dropped unresolved).
pub open spec fn connect_result(received: Option<ConnectionStatus>) -> Result<
    ConnectionStatus,
    Error,
> {
    match received {
        None => Err(Error::CompletionLost),
        Some(s) => if s.accepted() {
            Ok(s)
        } else {
            Err(Error::RejectedConnection(s))
        },
    }
}

/// The result of a publish, subscribe or unsubscribe whose signal yielded
/// `received` (`None` when the signal was dropped unresolved).
pub open spec fn operation_result(received: Option<MessageId>) -> Result<MessageId, Error> {
    match received {
        None => Err(Error::CompletionLost),
        Some(mid) => Ok(mid),
    }
}

/// Finish a connect: an accepted status is the result, a rejecting status
/// is a rejection error, and a dropped signal is a lost completion.
pub fn finish_connect(received: Option<ConnectionStatus>) -> (r: Result<ConnectionStatus, Error>)
    ensures
        r == connect_result(received),
{
    match received {
        None => Err(Error::CompletionLost),
        Some(s) => if s.is_successful() {
            Ok(s)
        } else {
            Err(Error::RejectedConnection(s))
        },
    }
}

/// Finish a publish, subscribe or unsubscribe: the identifier that the
/// acknowledgement carried is the result, and a dropped signal is a lost
/// completion.
pub fn finish_operation(received: Option<MessageId>) -> (r: Result<MessageId, Error>)
    ensures
        r == operation_result(received),
{
    match received {
        None => Err(Error::CompletionLost),
        Some(mid) => Ok(mid),
    }
}

/// A connect that the broker rejects ends in a rejection error that
/// carries the status, and that differs from every error the engine can
/// report for a failed command and from a lost completion.
pub proof fn lemma_rejection_is_distinct(status: ConnectionStatus, code: i32, os_error: i32)
    requires
        !status.accepted(),
    ensures
        connect_result(Some(status)) == Err::<ConnectionStatus, Error>(
            Error::RejectedConnection(status),
        ),
        connect_result(Some(status)) != Err::<ConnectionStatus, Error>(
            error_for_code(code, os_error),
        ),
        connect_result(Some(status)) != Err::<ConnectionStatus, Error>(Error::CompletionLost),
{
}

/// A publish whose identifier `x` the engine acknowledges resolves with
/// that same identifier: the acknowledgement goes to the waiter `w`
/// registered for `x`, the value that `w` receives is `x`, and that value
/// is the result.
pub proof fn lemma_publish_resolves_with_issued_id<W>(
    t: Map<MessageId, W>,
    log: Seq<(W, MessageId)>,
    x: MessageId,
    w: W,
)
    ensures
        ack_outcome(apply_op(t, TableOp::Register { mid: x, waiter: w }), x, true)
            == Outcome::Delivered,
        record_after_ack(log, apply_op(t, TableOp::Register { mid: x, waiter: w }), x, true)
            == log.push((w, x)),
        operation_result(Some(log.push((w, x)).last().1)) == Ok::<MessageId, Error>(x),
{
}

} // verus!
