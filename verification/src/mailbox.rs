//! The bounded channel behind an actor's mailbox.
//!
//! The channel is the one of `tokio::sync::mpsc`. In contracts a sender stands for
//! the channel that it sends on, so that every sender of one channel is equal to
//! every other, and the same goes for weak senders.

use tokio::sync::mpsc;
use tokio::sync::mpsc::error::{SendError, SendTimeoutError, TrySendError};
use vstd::prelude::*;

verus! {

/// The sending end of a channel, `mpsc::Sender`. What is inside is not looked at.
#[verifier::external_type_specification]
#[verifier::external_body]
#[verifier::reject_recursive_types(T)]
pub struct ExSender<T>(mpsc::Sender<T>);

/// A sender that does not keep its channel open, `mpsc::WeakSender`. What is inside is not
/// looked at.
#[verifier::external_type_specification]
#[verifier::external_body]
#[verifier::reject_recursive_types(T)]
pub struct ExWeakSender<T>(mpsc::WeakSender<T>);

/// The receiving end of a channel, `mpsc::Receiver`. What is inside is not looked at.
#[verifier::external_type_specification]
#[verifier::external_body]
#[verifier::reject_recursive_types(T)]
pub struct ExReceiver<T>(mpsc::Receiver<T>);

/// The two ways in which `Sender::try_send` refuses a message. Its definition is
/// taken over as it is, so that the two can be told apart.
#[verifier::external_type_specification]
pub struct ExTrySendError<T>(TrySendError<T>);

/// How `Sender::send` refuses a message: the channel is closed. Its definition is
/// taken over as it is.
#[verifier::external_type_specification]
pub struct ExSendError<T>(SendError<T>);

/// The two ways in which `Sender::send_timeout` refuses a message. Its definition is
/// taken over as it is, so that the two can be told apart.
#[verifier::external_type_specification]
pub struct ExSendTimeoutError<T>(SendTimeoutError<T>);

/// `mpsc::channel` makes a channel that holds up to `buffer` messages. It panics
/// on a buffer of none, and on one that is larger than a semaphore can count.
pub assume_specification<T>[ mpsc::channel::<T> ](buffer: usize) -> (ends: (
    mpsc::Sender<T>,
    mpsc::Receiver<T>,
))
    requires
        0 < buffer <= usize::MAX / 8,
;

/// `Sender::clone` gives another sender of the same channel.
pub assume_specification<T>[ <mpsc::Sender<T> as Clone>::clone ](
    sender: &mpsc::Sender<T>,
) -> (other: mpsc::Sender<T>)
    ensures
        other == *sender,
;

/// `Sender::try_send` puts the message into the channel or hands it back, saying
/// whether the channel is full or closed. Which of these it is depends on what the
/// other holders of the channel have done by then, and is not said.
pub assume_specification<T>[ mpsc::Sender::<T>::try_send ](
    sender: &mpsc::Sender<T>,
    message: T,
) -> (outcome: Result<(), TrySendError<T>>)
    ensures
        outcome matches Err(TrySendError::Full(back)) ==> back == message,
        outcome matches Err(TrySendError::Closed(back)) ==> back == message,
;

/// `Sender::downgrade` gives a weak sender of the same channel.
pub assume_specification<T>[ mpsc::Sender::<T>::downgrade ](
    sender: &mpsc::Sender<T>,
) -> (weak: mpsc::WeakSender<T>)
;

/// `WeakSender::clone` gives another weak sender of the same channel.
pub assume_specification<T>[ <mpsc::WeakSender<T> as Clone>::clone ](
    weak: &mpsc::WeakSender<T>,
) -> (other: mpsc::WeakSender<T>)
    ensures
        other == *weak,
;

/// `WeakSender::upgrade` gives a sender of the channel that the weak sender was made
/// from, as long as that channel still has one. Whether it has depends on the other
/// holders of the channel, and is not said.
pub assume_specification<T>[ mpsc::WeakSender::<T>::upgrade ](
    weak: &mpsc::WeakSender<T>,
) -> (upgraded: Option<mpsc::Sender<T>>)
    ensures
        upgraded matches Some(sender) ==> forall|other: mpsc::Sender<T>|
            #[trigger] weak_of(*weak, other) <==> other == sender,
;

/// Whether `sender` and `receiver` are the two ends of one channel, made for `size`
/// messages.
pub open spec fn ends_of_channel<T>(
    size: usize,
    sender: mpsc::Sender<T>,
    receiver: mpsc::Receiver<T>,
) -> bool {
    call_ensures(mpsc::channel::<T>, (size,), (sender, receiver))
}

/// Whether `weak` is a weak sender of the channel that `sender` sends on.
pub open spec fn weak_of<T>(weak: mpsc::WeakSender<T>, sender: mpsc::Sender<T>) -> bool {
    call_ensures(mpsc::Sender::<T>::downgrade, (&sender,), weak)
}

/// Whether `outcome` is what `Sender::try_send` gave for `message` on `sender`.
pub open spec fn tried<T>(
    sender: mpsc::Sender<T>,
    message: T,
    outcome: Result<(), TrySendError<T>>,
) -> bool {
    call_ensures(mpsc::Sender::<T>::try_send, (&sender, message), outcome)
}

/// Whether `upgraded` is what `WeakSender::upgrade` gave for `weak`.
pub open spec fn upgrade_of<T>(
    weak: mpsc::WeakSender<T>,
    upgraded: Option<mpsc::Sender<T>>,
) -> bool {
    call_ensures(mpsc::WeakSender::<T>::upgrade, (&weak,), upgraded)
}

} // verus!
