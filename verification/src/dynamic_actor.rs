//! Actors that take every message type they have a handler for.
//!
//! Messages of different types share one mailbox. To get there, a message is put
//! into a [`MsgEnvelope`] together with the channel for its reply, if one is wanted,
//! and the actor packs that envelope into the one type that its mailbox holds.

use core::time::Duration;
use tokio::sync::mpsc::error::{SendError, SendTimeoutError, TrySendError};
use tokio::sync::oneshot::error::RecvError;
use tokio::sync::{mpsc, oneshot};
use tokio::time::error::Elapsed;
use tokio_util::sync::CancellationToken;
use vstd::prelude::*;

use crate::config::{ActorConfig, BATCH_SIZE};
use crate::lifecycle::{LoopState, Phase, Worker};
use crate::mailbox::{ends_of_channel, tried, upgrade_of, weak_of};
use crate::reply::ends_of_reply;
use crate::request::{AskOp, SendOp, Timed};
use crate::token::{cancel_called, StopFlag};

verus! {

/// A message, and what its handler replies with.
pub trait Message: Send + 'static {
    type Result: Send;
}

/// The types that an actor works with.
pub trait Actor: Send + Sized + 'static {
    /// What its mailbox holds: a packed envelope.
    type Envelope: Send + 'static;

    /// What its hooks fail with.
    type Error: Send + Sync + 'static;
}

/// An actor that has a handler for messages of type `M`.
pub trait Handler<M: Message>: Actor {
    /// Packs an envelope for the mailbox.
    fn pack(envelope: MsgEnvelope<M>) -> Self::Envelope;
}

/// A message on its way to its handler, with the channel for the reply if one is wanted.
#[verifier::reject_recursive_types(M)]
pub struct MsgEnvelope<M: Message> {
    pub msg: M,
    pub tx: Option<oneshot::Sender<M::Result>>,
}

/// Whether `item` is what the actor packed `envelope` into.
pub open spec fn packed<A: Handler<M>, M: Message>(
    envelope: MsgEnvelope<M>,
    item: A::Envelope,
) -> bool {
    call_ensures(<A as Handler<M>>::pack, (envelope,), item)
}

/// Why a message was not taken, or a request not answered.
#[derive(Debug)]
pub enum ActorError {
    /// The mailbox is closed.
    Closed,
    /// The mailbox has no room.
    Full,
    /// The mailbox had no room in time.
    Timeout,
    /// The mailbox was closed to a request.
    AskSendClosed,
    /// The request was dropped without a reply.
    AskRecvDropped,
    /// The request got no reply in time.
    AskTimeout,
}

impl ActorError {
    /// The text that shows the error.
    pub open spec fn own_text(self) -> Seq<char> {
        match self {
            ActorError::Closed => "Actor 发送消息失败: 通道已关闭"@,
            ActorError::Full => "Actor 发送消息失败: 通道已满"@,
            ActorError::Timeout => "Actor 发送消息失败: 超时"@,
            ActorError::AskSendClosed => "Actor 发送消息失败: 通道已关闭"@,
            ActorError::AskRecvDropped => "Actor 等待响应失败(发送端被丢弃/未发送)"@,
            ActorError::AskTimeout => "Actor 请求超时"@,
        }
    }

    /// The error as a text to show.
    pub fn text(&self) -> (text: String)
        ensures
            text@ == self.own_text(),
            *self is Closed ==> text@ == "Actor 发送消息失败: 通道已关闭"@,
            *self is Full ==> text@ == "Actor 发送消息失败: 通道已满"@,
            *self is Timeout ==> text@ == "Actor 发送消息失败: 超时"@,
            *self is AskSendClosed ==> text@ == "Actor 发送消息失败: 通道已关闭"@,
            *self is AskRecvDropped ==> text@ == "Actor 等待响应失败(发送端被丢弃/未发送)"@,
            *self is AskTimeout ==> text@ == "Actor 请求超时"@,
    {
        match self {
            ActorError::Closed => "Actor 发送消息失败: 通道已关闭".to_string(),
            ActorError::Full => "Actor 发送消息失败: 通道已满".to_string(),
            ActorError::Timeout => "Actor 发送消息失败: 超时".to_string(),
            ActorError::AskSendClosed => "Actor 发送消息失败: 通道已关闭".to_string(),
            ActorError::AskRecvDropped => {
                "Actor 等待响应失败(发送端被丢弃/未发送)".to_string()
            },
            ActorError::AskTimeout => "Actor 请求超时".to_string(),
        }
    }
}

/// A handle to an actor: it sends messages to it, asks it, and cancels it.
#[verifier::reject_recursive_types(A)]
pub struct Addr<A: Actor, T = CancellationToken> {
    sender: mpsc::Sender<A::Envelope>,
    cancel_token: T,
}

/// A handle to an actor that does not keep its mailbox open.
#[verifier::reject_recursive_types(A)]
pub struct WeakAddr<A: Actor, T = CancellationToken> {
    sender: mpsc::WeakSender<A::Envelope>,
    cancel_token: T,
}

/// What an actor's hooks and handler are given of the actor itself.
#[verifier::reject_recursive_types(A)]
pub struct Context<A: Actor, T = CancellationToken> {
    weak_addr: WeakAddr<A, T>,
}

/// The result of a `try_send` that the channel answered with `outcome`.
pub open spec fn try_send_verdict<T>(outcome: Result<(), TrySendError<T>>) -> Result<(), ActorError> {
    match outcome {
        Ok(_) => Ok(()),
        Err(TrySendError::Full(_)) => Err(ActorError::Full),
        Err(TrySendError::Closed(_)) => Err(ActorError::Closed),
    }
}

/// The result of a `send` that the channel answered with `outcome`.
pub open spec fn send_verdict<T>(outcome: Result<(), SendError<T>>) -> Result<(), ActorError> {
    match outcome {
        Ok(_) => Ok(()),
        Err(_) => Err(ActorError::Closed),
    }
}

/// The result of a `send_timeout` that the channel answered with `outcome`.
pub open spec fn send_timeout_verdict<T>(outcome: Result<(), SendTimeoutError<T>>) -> Result<
    (),
    ActorError,
> {
    match outcome {
        Ok(_) => Ok(()),
        Err(SendTimeoutError::Timeout(_)) => Err(ActorError::Timeout),
        Err(SendTimeoutError::Closed(_)) => Err(ActorError::Closed),
    }
}

/// What an `ask` knows of its request once the channel answered with `outcome`.
pub open spec fn ask_sent_verdict<T>(outcome: Result<(), SendError<T>>) -> Result<(), ActorError> {
    match outcome {
        Ok(_) => Ok(()),
        Err(_) => Err(ActorError::AskSendClosed),
    }
}

/// The result of an `ask` whose request was sent and whose reply channel gave `reply`.
pub open spec fn ask_reply_verdict<R>(reply: Result<R, RecvError>) -> Result<R, ActorError> {
    match reply {
        Ok(value) => Ok(value),
        Err(_) => Err(ActorError::AskRecvDropped),
    }
}

/// The result of an `ask`: a request that could not be sent is not waited for.
pub open spec fn ask_verdict<T, R>(
    outcome: Result<(), SendError<T>>,
    reply: Result<R, RecvError>,
) -> Result<R, ActorError> {
    match ask_sent_verdict(outcome) {
        Ok(_) => ask_reply_verdict(reply),
        Err(err) => Err(err),
    }
}

/// The result of an `ask_timeout` whose `ask` ended in `finished`, if it did in time.
pub open spec fn ask_timeout_verdict<R>(finished: Result<Result<R, ActorError>, Elapsed>) -> Result<
    R,
    ActorError,
> {
    match finished {
        Ok(result) => result,
        Err(_) => Err(ActorError::AskTimeout),
    }
}

/// Tells the result of [`Addr::try_send`] from what the channel answered.
pub fn try_send_result<T>(outcome: Result<(), TrySendError<T>>) -> (result: Result<(), ActorError>)
    ensures
        result == try_send_verdict(outcome),
        result is Ok <==> outcome is Ok,
        outcome matches Err(TrySendError::Full(_)) ==> result == Err::<(), ActorError>(ActorError::Full),
        outcome matches Err(TrySendError::Closed(_)) ==> result == Err::<(), ActorError>(ActorError::Closed),
{
    match outcome {
        Ok(()) => Ok(()),
        Err(TrySendError::Full(_)) => Err(ActorError::Full),
        Err(TrySendError::Closed(_)) => Err(ActorError::Closed),
    }
}

/// Tells the result of the send begun by [`Addr::send`].
pub fn send_result<T>(outcome: Result<(), SendError<T>>) -> (result: Result<(), ActorError>)
    ensures
        result == send_verdict(outcome),
        result is Ok <==> outcome is Ok,
        outcome is Err ==> result == Err::<(), ActorError>(ActorError::Closed),
{
    match outcome {
        Ok(()) => Ok(()),
        Err(_) => Err(ActorError::Closed),
    }
}

/// Tells the result of the send begun by [`Addr::send_timeout`].
pub fn send_timeout_result<T>(outcome: Result<(), SendTimeoutError<T>>) -> (result: Result<
    (),
    ActorError,
>)
    ensures
        result == send_timeout_verdict(outcome),
        result is Ok <==> outcome is Ok,
        outcome matches Err(SendTimeoutError::Timeout(_)) ==> result == Err::<(), ActorError>(ActorError::Timeout),
        outcome matches Err(SendTimeoutError::Closed(_)) ==> result == Err::<(), ActorError>(ActorError::Closed),
{
    match outcome {
        Ok(()) => Ok(()),
        Err(SendTimeoutError::Timeout(_)) => Err(ActorError::Timeout),
        Err(SendTimeoutError::Closed(_)) => Err(ActorError::Closed),
    }
}

/// Tells whether the reply to the request begun by [`Addr::ask`] is to be waited for,
/// or else how the request ended.
pub fn ask_sent_result<T>(outcome: Result<(), SendError<T>>) -> (result: Result<(), ActorError>)
    ensures
        result == ask_sent_verdict(outcome),
        result is Ok <==> outcome is Ok,
        outcome is Err ==> result == Err::<(), ActorError>(ActorError::AskSendClosed),
{
    match outcome {
        Ok(()) => Ok(()),
        Err(_) => Err(ActorError::AskSendClosed),
    }
}

/// Tells the result of the request begun by [`Addr::ask`], which was sent and whose
/// reply channel gave `reply`.
pub fn ask_reply_result<R>(reply: Result<R, RecvError>) -> (result: Result<R, ActorError>)
    ensures
        result == ask_reply_verdict(reply),
        reply matches Ok(value) ==> result == Ok::<R, ActorError>(value),
        reply is Err ==> result == Err::<R, ActorError>(ActorError::AskRecvDropped),
{
    match reply {
        Ok(value) => Ok(value),
        Err(_) => Err(ActorError::AskRecvDropped),
    }
}

/// Tells the result of the request begun by [`Addr::ask_timeout`], which ended in
/// `finished`, if it did in time.
pub fn ask_timeout_result<R>(finished: Result<Result<R, ActorError>, Elapsed>) -> (result: Result<
    R,
    ActorError,
>)
    ensures
        result == ask_timeout_verdict(finished),
        finished matches Ok(ended) ==> result == ended,
        finished is Err ==> result == Err::<R, ActorError>(ActorError::AskTimeout),
{
    match finished {
        Ok(result) => result,
        Err(_) => Err(ActorError::AskTimeout),
    }
}

/// A sender is told that its message was taken if and only if the channel took it,
/// whatever the message is and however it was sent. Otherwise it is told why: that the
/// mailbox was full, that it had no room in time, or that it is closed.
pub proof fn law_a_message_is_sent_only_if_it_was_taken<T>(
    tried: Result<(), TrySendError<T>>,
    sent: Result<(), SendError<T>>,
    timed: Result<(), SendTimeoutError<T>>,
)
    ensures
        try_send_verdict(tried) is Ok <==> tried is Ok,
        tried matches Err(TrySendError::Full(_)) ==> try_send_verdict(tried)
            == Err::<(), ActorError>(ActorError::Full),
        tried matches Err(TrySendError::Closed(_)) ==> try_send_verdict(tried)
            == Err::<(), ActorError>(ActorError::Closed),
        send_verdict(sent) is Ok <==> sent is Ok,
        sent is Err ==> send_verdict(sent) == Err::<(), ActorError>(ActorError::Closed),
        send_timeout_verdict(timed) is Ok <==> timed is Ok,
        timed matches Err(SendTimeoutError::Timeout(_)) ==> send_timeout_verdict(timed)
            == Err::<(), ActorError>(ActorError::Timeout),
        timed matches Err(SendTimeoutError::Closed(_)) ==> send_timeout_verdict(timed)
            == Err::<(), ActorError>(ActorError::Closed),
{
}

/// A request that does not get its reply fails for what befell it first: it could not be
/// sent, or else it was dropped.
pub proof fn law_a_request_fails_for_a_reason<T, R>(
    outcome: Result<(), SendError<T>>,
    reply: Result<R, RecvError>,
)
    ensures
        outcome is Err ==> ask_verdict(outcome, reply)
            == Err::<R, ActorError>(ActorError::AskSendClosed),
        outcome is Ok && reply is Err ==> ask_verdict(outcome, reply)
            == Err::<R, ActorError>(ActorError::AskRecvDropped),
{
}

/// A request is answered with the value that came out of its reply channel and with
/// nothing else: if and only if the mailbox took the request and a reply came.
pub proof fn law_a_request_gets_its_reply<T, R>(
    outcome: Result<(), SendError<T>>,
    reply: Result<R, RecvError>,
    value: R,
)
    ensures
        ask_verdict(outcome, reply) == Ok::<R, ActorError>(value) <==> {
            &&& outcome is Ok
            &&& reply == Ok::<R, RecvError>(value)
        },
{
}

/// A timeout takes nothing away from a request that ends in time, and a request that
/// does not fails with [`ActorError::AskTimeout`], which no other request fails with.
pub proof fn law_only_late_requests_time_out<T, R>(
    outcome: Result<(), SendError<T>>,
    reply: Result<R, RecvError>,
    elapsed: Elapsed,
)
    ensures
        ask_timeout_verdict(Ok(ask_verdict(outcome, reply))) == ask_verdict(
            outcome,
            reply,
        ),
        ask_timeout_verdict::<R>(Err(elapsed)) == Err::<R, ActorError>(ActorError::AskTimeout),
        ask_verdict(outcome, reply) != Err::<R, ActorError>(ActorError::AskTimeout),
{
}

impl<A: Actor, T: StopFlag> Clone for Addr<A, T> {
    /// Another handle to the same actor.
    fn clone(&self) -> (other: Self)
        ensures
            other == *self,
    {
        let cancel_token = self.cancel_token.clone();
        proof {
            T::lemma_clone_is_another_handle(self.cancel_token, cancel_token);
        }
        Self { sender: self.sender.clone(), cancel_token }
    }
}

// Nothing is known here of the token but, in places, that it is a `StopFlag`: no function of
// this block can cancel the actor.
impl<A: Actor, T> Addr<A, T> {
    /// The channel that holds the actor's mailbox.
    pub closed spec fn channel(self) -> mpsc::Sender<A::Envelope> {
        self.sender
    }

    /// The token that cancels the actor.
    pub closed spec fn token(self) -> T {
        self.cancel_token
    }

    /// Begins to send `msg`: packed without a reply channel, it goes into the mailbox as
    /// soon as there is room. [`send_result`] tells what came of it.
    pub fn send<M>(&self, msg: M) -> (op: SendOp<'_, A::Envelope>) where A: Handler<M>, M: Message
        ensures
            *op.sender == self.channel(),
            packed::<A, M>((MsgEnvelope { msg, tx: None }), op.item),
            call_ensures(
                <A as Handler<M>>::pack,
                ((MsgEnvelope { msg, tx: None }),),
                op.item,
            ),
    {
        let item = A::pack(MsgEnvelope { msg, tx: None });
        SendOp { sender: &self.sender, item }
    }

    /// Puts `msg`, packed without a reply channel, into the mailbox if there is room
    /// right now.
    pub fn try_send<M>(&self, msg: M) -> (result: Result<(), ActorError>) where
        A: Handler<M>,
        M: Message,

        ensures
            exists|item: A::Envelope, outcome: Result<(), TrySendError<A::Envelope>>|
                {
                    &&& packed::<A, M>((MsgEnvelope { msg, tx: None }), item)
                    &&& #[trigger] tried(self.channel(), item, outcome)
                    &&& result == try_send_verdict(outcome)
                },
            exists|item: A::Envelope, outcome: Result<(), TrySendError<A::Envelope>>|
                {
                    &&& call_ensures(
                        <A as Handler<M>>::pack,
                        ((MsgEnvelope { msg, tx: None }),),
                        item,
                    )
                    &&& #[trigger] call_ensures(
                        mpsc::Sender::<A::Envelope>::try_send,
                        (&self.channel(), item),
                        outcome,
                    )
                    &&& result is Ok <==> outcome is Ok
                    &&& outcome matches Err(TrySendError::Full(_)) ==> result == Err::<(), ActorError>(
                        ActorError::Full,
                    )
                    &&& outcome matches Err(TrySendError::Closed(_)) ==> result == Err::<(), ActorError>(
                        ActorError::Closed,
                    )
                },
    {
        let item = A::pack(MsgEnvelope { msg, tx: None });
        assert(packed::<A, M>((MsgEnvelope { msg, tx: None }), item));
        let outcome = self.sender.try_send(item);
        assert(tried(self.channel(), item, outcome));
        try_send_result(outcome)
    }

    /// Begins to send `msg` as [`Addr::send`] does, waiting for room no longer than
    /// `timeout`. [`send_timeout_result`] tells what came of it.
    pub fn send_timeout<M>(&self, msg: M, timeout: Duration) -> (timed: Timed<
        SendOp<'_, A::Envelope>,
    >) where A: Handler<M>, M: Message
        ensures
            *timed.op.sender == self.channel(),
            packed::<A, M>((MsgEnvelope { msg, tx: None }), timed.op.item),
            call_ensures(
                <A as Handler<M>>::pack,
                ((MsgEnvelope { msg, tx: None }),),
                timed.op.item,
            ),
            timed.timeout == timeout,
    {
        Timed { op: self.send(msg), timeout }
    }

    /// Whether `op` is a request to this actor that carries `msg`, packed with the
    /// sending end of its reply channel.
    pub open spec fn asks_for<M>(self, msg: M, op: AskOp<'_, A::Envelope, M::Result>) -> bool where
        A: Handler<M>,
        M: Message,
     {
        &&& *op.sender == self.channel()
        &&& exists|tx: oneshot::Sender<M::Result>| #[trigger]
            ends_of_reply(tx, op.reply) && packed::<A, M>(
                (MsgEnvelope { msg, tx: Some(tx) }),
                op.item,
            )
    }

    /// Begins a request: `msg` is packed with a channel to reply on, and the reply comes
    /// out of the other end of that channel. [`ask_sent_result`] and
    /// [`ask_reply_result`] tell what came of it.
    pub fn ask<M>(&self, msg: M) -> (op: AskOp<'_, A::Envelope, M::Result>) where
        A: Handler<M>,
        M: Message,

        ensures
            self.asks_for(msg, op),
            *op.sender == self.channel(),
            exists|tx: oneshot::Sender<M::Result>|
                {
                    &&& #[trigger] call_ensures(oneshot::channel::<M::Result>, (), (tx, op.reply))
                    &&& call_ensures(
                        <A as Handler<M>>::pack,
                        ((MsgEnvelope { msg, tx: Some(tx) }),),
                        op.item,
                    )
                },
    {
        let (tx, rx) = oneshot::channel();
        let item = A::pack(MsgEnvelope { msg, tx: Some(tx) });
        let op = AskOp { sender: &self.sender, item, reply: rx };
        assert(ends_of_reply(tx, op.reply));
        assert(packed::<A, M>((MsgEnvelope { msg, tx: Some(tx) }), op.item));
        op
    }

    /// Begins a request as [`Addr::ask`] does, to be given up after `timeout`.
    /// [`ask_timeout_result`] tells what came of it.
    pub fn ask_timeout<M>(&self, msg: M, timeout: Duration) -> (timed: Timed<
        AskOp<'_, A::Envelope, M::Result>,
    >) where A: Handler<M>, M: Message
        ensures
            self.asks_for(msg, timed.op),
            *timed.op.sender == self.channel(),
            exists|tx: oneshot::Sender<M::Result>|
                {
                    &&& #[trigger] call_ensures(oneshot::channel::<M::Result>, (), (tx, timed.op.reply))
                    &&& call_ensures(
                        <A as Handler<M>>::pack,
                        ((MsgEnvelope { msg, tx: Some(tx) }),),
                        timed.op.item,
                    )
                },
            timed.timeout == timeout,
    {
        Timed { op: self.ask(msg), timeout }
    }

    /// Whether the actor was told to stop.
    pub fn is_cancelled(&self) -> (set: bool) where T: StopFlag
        ensures
            self.token().may_read(set),
    {
        self.cancel_token.is_set()
    }

    /// The sender of the channel that holds the actor's mailbox.
    pub fn sender(&self) -> (sender: &mpsc::Sender<A::Envelope>)
        ensures
            *sender == self.channel(),
    {
        &self.sender
    }

    /// The token that cancels the actor.
    pub fn cancel_token(&self) -> (token: &T)
        ensures
            *token == self.token(),
    {
        &self.cancel_token
    }

    fn downgrade(&self) -> (weak: WeakAddr<A, T>) where T: StopFlag
        ensures
            weak.leads_to(*self),
            weak.token() == self.token(),
    {
        let cancel_token = self.cancel_token.clone();
        proof {
            T::lemma_clone_is_another_handle(self.cancel_token, cancel_token);
        }
        WeakAddr { sender: self.sender.downgrade(), cancel_token }
    }
}

impl<A: Actor> Addr<A> {
    /// Tells the actor to stop.
    pub fn cancel(&self) -> (done: ())
        ensures
            cancel_called(self.token(), done),
            call_ensures(CancellationToken::cancel, (&self.token(),), done),
    {
        self.cancel_token.cancel()
    }
}

impl<A: Actor, T: StopFlag> Clone for WeakAddr<A, T> {
    /// Another weak handle to the same actor.
    fn clone(&self) -> (other: Self)
        ensures
            other == *self,
    {
        let cancel_token = self.cancel_token.clone();
        proof {
            T::lemma_clone_is_another_handle(self.cancel_token, cancel_token);
        }
        Self { sender: self.sender.clone(), cancel_token }
    }
}

impl<A: Actor, T> WeakAddr<A, T> {
    /// The weak sender of the channel that holds the actor's mailbox.
    pub closed spec fn weak_channel(self) -> mpsc::WeakSender<A::Envelope> {
        self.sender
    }

    /// The token that cancels the actor.
    pub closed spec fn token(self) -> T {
        self.cancel_token
    }

    /// Whether this is a weak handle to the actor that `addr` is a handle to.
    pub open spec fn leads_to(self, addr: Addr<A, T>) -> bool {
        weak_of(self.weak_channel(), addr.channel()) && self.token() == addr.token()
    }

    /// Whether `addr` is what upgrading this handle can give: a handle if and only if
    /// the weak sender gave a sender, and then the one that this handle leads to.
    pub open spec fn upgrades_to(self, addr: Option<Addr<A, T>>) -> bool {
        &&& exists|sender: Option<mpsc::Sender<A::Envelope>>|
            {
                &&& #[trigger] upgrade_of(self.weak_channel(), sender)
                &&& addr is Some <==> sender is Some
                &&& addr is Some ==> addr->0.channel() == sender->0
            }
        &&& addr is Some ==> forall|other: Addr<A, T>| #[trigger]
            self.leads_to(other) <==> other == addr->0
    }

    /// A handle to the actor, unless its mailbox has lost its last handle. What comes
    /// back is the handle that the weak one was made from.
    pub fn upgrade(&self) -> (addr: Option<Addr<A, T>>) where T: StopFlag
        ensures
            self.upgrades_to(addr),
            exists|sender: Option<mpsc::Sender<A::Envelope>>| #[trigger]
                call_ensures(
                    mpsc::WeakSender::<A::Envelope>::upgrade,
                    (&self.weak_channel(),),
                    sender,
                ) && (addr is Some <==> sender is Some),
            addr is Some ==> addr->0.token() == self.token(),
    {
        let sender = self.sender.upgrade();
        assert(upgrade_of(self.weak_channel(), sender));
        self.with_sender(sender)
    }

    /// The handle that goes with `sender`, if there is one.
    pub fn with_sender(&self, sender: Option<mpsc::Sender<A::Envelope>>) -> (addr: Option<Addr<A, T>>) where
        T: StopFlag,

        ensures
            addr is Some <==> sender is Some,
            addr is Some ==> addr->0.channel() == sender->0 && addr->0.token() == self.token(),
    {
        if let Some(sender) = sender {
            let cancel_token = self.cancel_token.clone();
            proof {
                T::lemma_clone_is_another_handle(self.cancel_token, cancel_token);
            }
            Some(Addr { sender, cancel_token })
        } else {
            None
        }
    }

    /// The weak sender of the channel that holds the actor's mailbox.
    pub fn weak_sender(&self) -> (sender: &mpsc::WeakSender<A::Envelope>)
        ensures
            *sender == self.weak_channel(),
    {
        &self.sender
    }

    /// The token that cancels the actor.
    pub fn cancel_token(&self) -> (token: &T)
        ensures
            *token == self.token(),
    {
        &self.cancel_token
    }
}

/// Upgrading undoes downgrading: if a weak handle of an actor gives a handle at all,
/// it is a handle to that same actor, with the same mailbox and the same token. This
/// goes for the weak handle in an actor's context as well.
pub proof fn law_upgrading_leads_back<A: Actor, T>(
    addr: Addr<A, T>,
    weak: WeakAddr<A, T>,
    back: Addr<A, T>,
)
    requires
        weak.leads_to(addr),
        weak.upgrades_to(Some(back)),
    ensures
        back == addr,
        back.channel() == addr.channel(),
        back.token() == addr.token(),
{
}

impl<A: Actor, T: StopFlag> Clone for Context<A, T> {
    /// The same context once more.
    fn clone(&self) -> (other: Self)
        ensures
            other == *self,
    {
        Self { weak_addr: self.weak_addr.clone() }
    }
}

impl<A: Actor, T> Context<A, T> {
    /// The weak handle to the actor whose context this is.
    pub closed spec fn weak(self) -> WeakAddr<A, T> {
        self.weak_addr
    }

    /// A handle to the actor itself, unless its mailbox has lost its last handle.
    pub fn addr(&self) -> (addr: Option<Addr<A, T>>) where T: StopFlag
        ensures
            self.weak().upgrades_to(addr),
            exists|sender: Option<mpsc::Sender<A::Envelope>>| #[trigger]
                call_ensures(
                    mpsc::WeakSender::<A::Envelope>::upgrade,
                    (&self.weak().weak_channel(),),
                    sender,
                ) && (addr is Some <==> sender is Some),
            addr is Some ==> addr->0.token() == self.weak().token(),
    {
        self.weak_addr.upgrade()
    }

    /// A weak handle to the actor itself.
    pub fn weak_addr(&self) -> (weak: WeakAddr<A, T>) where T: StopFlag
        ensures
            weak == self.weak(),
    {
        self.weak_addr.clone()
    }
}

impl<A: Actor> Context<A> {
    /// Tells the actor itself to stop.
    pub fn cancel(&self) -> (done: ())
        ensures
            cancel_called(self.weak().token(), done),
            call_ensures(CancellationToken::cancel, (&self.weak().token(),), done),
    {
        self.weak_addr.cancel_token.cancel()
    }
}

/// An actor that was set up and is about to run.
#[verifier::reject_recursive_types(A)]
pub struct Launch<A: Actor, T = CancellationToken> {
    /// The handle for whoever starts the actor.
    pub addr: Addr<A, T>,
    /// The end of the mailbox that the worker takes messages from.
    pub receiver: mpsc::Receiver<A::Envelope>,
    /// The context for the actor's hooks and handler.
    pub context: Context<A, T>,
    /// What decides the steps of the actor.
    pub worker: Worker<A::Envelope, T>,
}

impl<A: Actor, T: StopFlag> Launch<A, T> {
    /// Whether this actor was set up with a mailbox for `channel_size` messages and
    /// batches of `batch_size`, and all its parts belong together: the address and the
    /// receiver are the two ends of one new mailbox, the context leads to the address,
    /// and the worker, in its first state, listens to the address's token, which is new.
    pub open spec fn set_up_by(self, channel_size: usize, batch_size: usize) -> bool {
        &&& ends_of_channel(channel_size, self.addr.channel(), self.receiver)
        &&& self.addr.token().is_fresh()
        &&& self.context.weak().leads_to(self.addr)
        &&& self.worker@ == LoopState::<A::Envelope>::initial(batch_size)
        &&& self.worker.token() == self.addr.token()
    }

    /// Sets an actor up as [`Launch::start_with_config`] does, with a mailbox for
    /// `channel_size` messages and the default batch size.
    pub fn start(channel_size: usize) -> (launch: Self)
        requires
            0 < channel_size <= usize::MAX / 8,
        ensures
            launch.set_up_by(channel_size, BATCH_SIZE),
            launch.worker@.batch_size == 16,
            launch.worker@.phase == Phase::Created,
            launch.worker@.backlog.len() == 0,
            launch.worker.token() == launch.addr.token(),
            launch.context.weak().token() == launch.addr.token(),
            launch.addr.token().is_fresh(),
            call_ensures(
                mpsc::channel::<A::Envelope>,
                (channel_size,),
                (launch.addr.channel(), launch.receiver),
            ),
    {
        Self::start_with_config(ActorConfig::new(channel_size))
    }

    /// Sets an actor up: a mailbox of its own, a token of its own, and a worker that
    /// has not taken a step yet. A batch size of zero is raised to one.
    pub fn start_with_config(config: ActorConfig) -> (launch: Self)
        requires
            config.mailbox_can_be_made(),
        ensures
            launch.set_up_by(config.channel_size, config.effective_batch_size()),
            config.batch_size >= 1 ==> launch.worker@.batch_size == config.batch_size,
            config.batch_size == 0 ==> launch.worker@.batch_size == 1,
            launch.worker@.phase == Phase::Created,
            launch.worker@.backlog.len() == 0,
            launch.worker.token() == launch.addr.token(),
            launch.context.weak().token() == launch.addr.token(),
            launch.addr.token().is_fresh(),
            call_ensures(
                mpsc::channel::<A::Envelope>,
                (config.channel_size,),
                (launch.addr.channel(), launch.receiver),
            ),
    {
        let batch_size: usize = config.batch_limit();
        let (sender, receiver) = mpsc::channel(config.channel_size);
        let cancel_token = T::fresh();
        let token_for_worker = cancel_token.clone();
        proof {
            T::lemma_clone_is_another_handle(cancel_token, token_for_worker);
        }
        let worker = Worker::new(batch_size, token_for_worker);
        let addr = Addr { sender, cancel_token };
        let context = Context { weak_addr: addr.downgrade() };
        Launch { addr, receiver, context, worker }
    }
}

/// Every handle to an actor reaches the same worker: an address that the actor gets
/// from its own context is the address that its starter has, sends to the mailbox that
/// the worker receives from, and cancels the token that the worker listens to.
pub proof fn law_every_handle_reaches_the_worker<A: Actor, T: StopFlag>(
    launch: Launch<A, T>,
    channel_size: usize,
    batch_size: usize,
    addr: Addr<A, T>,
)
    requires
        launch.set_up_by(channel_size, batch_size),
        launch.context.weak().upgrades_to(Some(addr)),
    ensures
        addr == launch.addr,
        ends_of_channel(channel_size, addr.channel(), launch.receiver),
        addr.token() == launch.worker.token(),
        launch.context.weak().token() == launch.worker.token(),
{
}

} // verus!
