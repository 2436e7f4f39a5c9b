//! Messages on their way into a mailbox.
//!
//! Sending can wait for room in the mailbox, and asking waits for the reply as well.
//! What is to be waited on is handed out as a [`SendOp`] or an [`AskOp`], and as a
//! [`Timed`] one where it is to be given up at some point.

use core::time::Duration;
use tokio::sync::{mpsc, oneshot};
use vstd::prelude::*;

verus! {

/// An item to be put into a mailbox, waiting for room if need be.
#[derive(Debug)]
#[verifier::reject_recursive_types(T)]
pub struct SendOp<'a, T> {
    pub sender: &'a mpsc::Sender<T>,
    pub item: T,
}

/// An item to be put into a mailbox, and the channel on which the reply comes.
#[derive(Debug)]
#[verifier::reject_recursive_types(T)]
#[verifier::reject_recursive_types(R)]
pub struct AskOp<'a, T, R> {
    pub sender: &'a mpsc::Sender<T>,
    pub item: T,
    pub reply: oneshot::Receiver<R>,
}

/// Something to be waited on no longer than `timeout`.
#[derive(Debug)]
pub struct Timed<O> {
    pub op: O,
    pub timeout: Duration,
}

} // verus!
