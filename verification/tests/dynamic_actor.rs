use actor::config::ActorConfig;
use actor::dynamic_actor::{
    ask_reply_result, ask_sent_result, ask_timeout_result, send_result, send_timeout_result,
    try_send_result, Actor, ActorError, Handler, Launch, Message, MsgEnvelope,
};
use actor::lifecycle::{Action, Event, Outcome};
use actor::reply::{fate, reply, Reply};
use std::time::Duration;
use tokio::sync::mpsc::error::{SendError, SendTimeoutError, TrySendError};
use tokio::sync::oneshot;

struct Keeper;

struct Add(u32);

struct Read;

enum Packed {
    Add(MsgEnvelope<Add>),
    Read(MsgEnvelope<Read>),
}

impl Message for Add {
    type Result = ();
}

impl Message for Read {
    type Result = u32;
}

impl Actor for Keeper {
    type Envelope = Packed;
    type Error = String;
}

impl Handler<Add> for Keeper {
    fn pack(envelope: MsgEnvelope<Add>) -> Packed {
        Packed::Add(envelope)
    }
}

impl Handler<Read> for Keeper {
    fn pack(envelope: MsgEnvelope<Read>) -> Packed {
        Packed::Read(envelope)
    }
}

fn added(packed: Packed) -> (u32, bool) {
    match packed {
        Packed::Add(envelope) => (envelope.msg.0, envelope.tx.is_some()),
        Packed::Read(_) => panic!("not an addition"),
    }
}

#[test]
fn dynamic_start_takes_default_batches() {
    let mut actor: Launch<Keeper> = Launch::start(4);
    assert!(matches!(actor.worker.step(Event::Launched), Action::OnStart));
    let action = actor.worker.step(Event::Started(Outcome::Completed));
    assert!(matches!(action, Action::Receive(16)));
    let config = ActorConfig::new(4).with_batch_size(3);
    let mut other: Launch<Keeper> = Launch::start_with_config(config);
    assert!(matches!(other.worker.step(Event::Launched), Action::OnStart));
    let action = other.worker.step(Event::Started(Outcome::Completed));
    assert!(matches!(action, Action::Receive(3)));
}

#[test]
fn dynamic_try_send_fills_the_mailbox() {
    let mut actor: Launch<Keeper> = Launch::start(1);
    assert!(matches!(actor.addr.try_send(Add(1)), Ok(())));
    assert!(matches!(actor.addr.try_send(Add(2)), Err(ActorError::Full)));
    assert_eq!(added(actor.receiver.try_recv().unwrap()), (1, false));
    drop(actor.receiver);
    assert!(matches!(actor.addr.try_send(Add(3)), Err(ActorError::Closed)));
}

#[test]
fn dynamic_send_packs_without_a_reply() {
    let actor: Launch<Keeper> = Launch::start(1);
    let op = actor.addr.send(Add(5));
    assert_eq!(added(op.item), (5, false));
    let timed = actor.addr.send_timeout(Add(6), Duration::from_secs(2));
    assert_eq!(timed.timeout, Duration::from_secs(2));
    assert_eq!(added(timed.op.item), (6, false));
    let again = actor.addr.send(Read);
    assert!(matches!(again.item, Packed::Read(MsgEnvelope { tx: None, .. })));
}

#[test]
fn dynamic_ask_gets_the_handlers_result() {
    let actor: Launch<Keeper> = Launch::start(1);
    let op = actor.addr.ask(Read);
    match op.item {
        Packed::Read(envelope) => {
            assert!(matches!(reply(envelope.tx, 42), Reply::Delivered));
        }
        Packed::Add(_) => panic!("not a reading"),
    }
    assert!(matches!(ask_reply_result(op.reply.blocking_recv()), Ok(42)));

    let timed = actor.addr.ask_timeout(Read, Duration::from_millis(10));
    assert_eq!(timed.timeout, Duration::from_millis(10));
    drop(timed.op.item);
    let result: Result<u32, ActorError> = ask_reply_result(timed.op.reply.blocking_recv());
    assert!(matches!(result, Err(ActorError::AskRecvDropped)));
}

#[test]
fn replies_nobody_waits_for_come_back() {
    assert!(matches!(reply::<u8>(None, 1), Reply::NotAsked));
    let (tx, rx) = oneshot::channel::<u8>();
    drop(rx);
    assert!(matches!(reply(Some(tx), 2), Reply::Unclaimed(2)));
    assert!(matches!(fate::<u8>(Ok(())), Reply::Delivered));
    assert!(matches!(fate(Err(3)), Reply::Unclaimed(3)));
}

#[test]
fn dynamic_outcomes_become_results() {
    assert!(matches!(try_send_result::<u8>(Ok(())), Ok(())));
    assert!(matches!(try_send_result(Err(TrySendError::Full(1))), Err(ActorError::Full)));
    assert!(matches!(try_send_result(Err(TrySendError::Closed(1))), Err(ActorError::Closed)));
    assert!(matches!(send_result::<u8>(Ok(())), Ok(())));
    assert!(matches!(send_result(Err(SendError(1))), Err(ActorError::Closed)));
    assert!(matches!(send_timeout_result::<u8>(Ok(())), Ok(())));
    let late = send_timeout_result(Err(SendTimeoutError::Timeout(1)));
    assert!(matches!(late, Err(ActorError::Timeout)));
    let shut = send_timeout_result(Err(SendTimeoutError::Closed(1)));
    assert!(matches!(shut, Err(ActorError::Closed)));
    assert!(matches!(ask_sent_result::<u8>(Ok(())), Ok(())));
    assert!(matches!(ask_sent_result(Err(SendError(1))), Err(ActorError::AskSendClosed)));
    assert!(matches!(ask_timeout_result(Ok(Ok(7))), Ok(7)));
    let refused: Result<u8, ActorError> = ask_timeout_result(Ok(Err(ActorError::AskSendClosed)));
    assert!(matches!(refused, Err(ActorError::AskSendClosed)));
}

#[test]
fn dynamic_late_requests_time_out() {
    let runtime = tokio::runtime::Builder::new_current_thread().enable_time().build().unwrap();
    let _guard = runtime.enter();
    let never = std::future::pending::<Result<u8, ActorError>>();
    let late = tokio::time::timeout(Duration::from_millis(1), never);
    let result = ask_timeout_result(runtime.block_on(late));
    assert!(matches!(result, Err(ActorError::AskTimeout)));
}

#[test]
fn dynamic_errors_have_their_texts() {
    assert_eq!(ActorError::Closed.text(), "Actor 发送消息失败: 通道已关闭");
    assert_eq!(ActorError::Full.text(), "Actor 发送消息失败: 通道已满");
    assert_eq!(ActorError::Timeout.text(), "Actor 发送消息失败: 超时");
    assert_eq!(ActorError::AskSendClosed.text(), "Actor 发送消息失败: 通道已关闭");
    let dropped = ActorError::AskRecvDropped.text();
    assert_eq!(dropped, "Actor 等待响应失败(发送端被丢弃/未发送)");
    assert_eq!(ActorError::AskTimeout.text(), "Actor 请求超时");
}

#[test]
fn dynamic_handles_belong_together() {
    let mut actor: Launch<Keeper> = Launch::start(1);
    let back = actor.context.addr().unwrap();
    assert!(matches!(back.try_send(Add(9)), Ok(())));
    assert_eq!(added(actor.receiver.try_recv().unwrap()), (9, false));
    assert!(back.sender().same_channel(actor.addr.sender()));
    let copy = actor.context.weak_addr().clone();
    assert_eq!(copy.weak_sender().strong_count(), 2);
    copy.upgrade().unwrap().cancel();
    assert!(actor.addr.is_cancelled());
    assert!(back.cancel_token().is_cancelled());
    assert!(copy.cancel_token().is_cancelled());
    assert!(actor.worker.cancel_token().is_cancelled());
    drop(back);
    drop(actor.addr);
    assert!(copy.upgrade().is_none());

    let second: Launch<Keeper> = Launch::start(1);
    assert!(!second.addr.is_cancelled());
    second.context.clone().cancel();
    assert!(second.addr.clone().is_cancelled());
}
