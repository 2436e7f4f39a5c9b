//! The one-message channel on which a reply travels back to whoever asked.

use tokio::sync::oneshot;
use vstd::prelude::*;

verus! {

/// The end of a reply channel that the handler holds, `oneshot::Sender`. What is inside is
/// not looked at.
#[verifier::external_type_specification]
#[verifier::external_body]
#[verifier::reject_recursive_types(T)]
pub struct ExOneshotSender<T>(oneshot::Sender<T>);

/// The end of a reply channel that the asker holds, `oneshot::Receiver`. What is inside is
/// not looked at.
#[verifier::external_type_specification]
#[verifier::external_body]
#[verifier::reject_recursive_types(T)]
pub struct ExOneshotReceiver<T>(oneshot::Receiver<T>);

/// The error that waiting on a `oneshot::Receiver` can end with.
#[verifier::external_type_specification]
#[verifier::external_body]
pub struct ExRecvError(oneshot::error::RecvError);

/// The error that `tokio::time::timeout` ends with when the time is up.
#[verifier::external_type_specification]
#[verifier::external_body]
pub struct ExElapsed(tokio::time::error::Elapsed);

/// `oneshot::channel` makes a channel for one value.
pub assume_specification<T>[ oneshot::channel::<T> ]() -> (ends: (
    oneshot::Sender<T>,
    oneshot::Receiver<T>,
))
;

/// `oneshot::Sender::send` passes the value on, or hands it back if nobody waits for
/// it any more. Whether somebody does is up to the receiver's holder, and is not
/// said.
pub assume_specification<T>[ oneshot::Sender::<T>::send ](
    sender: oneshot::Sender<T>,
    t: T,
) -> (outcome: Result<(), T>)
    ensures
        outcome matches Err(back) ==> back == t,
;

/// Whether `sender` and `receiver` are the two ends of one reply channel.
pub open spec fn ends_of_reply<T>(
    sender: oneshot::Sender<T>,
    receiver: oneshot::Receiver<T>,
) -> bool {
    call_ensures(oneshot::channel::<T>, (), (sender, receiver))
}

/// Whether `outcome` is what `oneshot::Sender::send` gave for `value` on `sender`.
pub open spec fn sent_back<T>(
    sender: oneshot::Sender<T>,
    value: T,
    outcome: Result<(), T>,
) -> bool {
    call_ensures(oneshot::Sender::<T>::send, (sender, value), outcome)
}

/// What became of a handler's result.
#[derive(Debug)]
pub enum Reply<R> {
    /// Nobody asked for it.
    NotAsked,
    /// It went to whoever asked.
    Delivered,
    /// Whoever asked does not wait any more; the result comes back.
    Unclaimed(R),
}

/// What became of a result that was sent back with this outcome.
pub open spec fn fate_of<R>(outcome: Result<(), R>) -> Reply<R> {
    match outcome {
        Ok(_) => Reply::Delivered,
        Err(back) => Reply::Unclaimed(back),
    }
}

/// Tells what became of a result from what sending it back gave.
pub fn fate<R>(outcome: Result<(), R>) -> (fate: Reply<R>)
    ensures
        fate == fate_of(outcome),
        fate is Delivered <==> outcome is Ok,
        fate !is NotAsked,
        outcome matches Err(back) ==> fate == Reply::Unclaimed(back),
{
    match outcome {
        Ok(()) => Reply::Delivered,
        Err(back) => Reply::Unclaimed(back),
    }
}

/// Passes a handler's result to whoever asked for it, if anybody did. A result that
/// comes back is the one that was passed on.
pub fn reply<R>(asker: Option<oneshot::Sender<R>>, result: R) -> (fate: Reply<R>)
    ensures
        asker is None ==> fate is NotAsked,
        asker matches Some(sender) ==> exists|outcome: Result<(), R>| #[trigger]
            sent_back(sender, result, outcome) && fate == fate_of(outcome),
        fate matches Reply::Unclaimed(back) ==> back == result,
        asker is None <==> fate is NotAsked,
        asker matches Some(sender) ==> exists|outcome: Result<(), R>| #[trigger]
            call_ensures(oneshot::Sender::<R>::send, (sender, result), outcome) && (fate is Delivered
                <==> outcome is Ok),
{
    match asker {
        Some(sender) => {
            let outcome = sender.send(result);
            assert(sent_back(sender, result, outcome));
            fate(outcome)
        },
        None => Reply::NotAsked,
    }
}

} // verus!
