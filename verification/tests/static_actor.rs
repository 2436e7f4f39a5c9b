use actor::config::ActorConfig;
use actor::lifecycle::{Action, Event, Outcome};
use actor::static_actor::{
    ask_reply_result, ask_sent_result, ask_timeout_result, send_result, send_timeout_result,
    try_send_result, Actor, ActorError, Addr, Launch, WeakAddr,
};
use std::time::Duration;
use tokio::sync::mpsc::error::{SendError, SendTimeoutError, TrySendError};
use tokio::sync::oneshot;
use tokio::time::error::Elapsed;

struct Counter;

enum Command {
    Add(u32),
    Read(oneshot::Sender<u32>),
}

impl Actor for Counter {
    type Message = Command;
    type Error = String;
}

fn launch(channel_size: usize) -> Launch<Counter> {
    Launch::start(ActorConfig::new(channel_size))
}

fn elapsed() -> Elapsed {
    let runtime = tokio::runtime::Builder::new_current_thread().enable_time().build().unwrap();
    let _guard = runtime.enter();
    let late = tokio::time::timeout(Duration::from_millis(1), std::future::pending::<()>());
    runtime.block_on(late).unwrap_err()
}

#[test]
fn try_send_fills_the_mailbox() {
    let mut actor = launch(2);
    assert!(matches!(actor.addr.try_send(Command::Add(1)), Ok(())));
    assert!(matches!(actor.addr.try_send(Command::Add(2)), Ok(())));
    assert!(matches!(actor.addr.try_send(Command::Add(3)), Err(ActorError::Full)));
    assert!(matches!(actor.receiver.try_recv(), Ok(Command::Add(1))));
    assert!(matches!(actor.receiver.try_recv(), Ok(Command::Add(2))));
    assert!(actor.receiver.try_recv().is_err());
    drop(actor.receiver);
    assert!(matches!(actor.addr.try_send(Command::Add(4)), Err(ActorError::Closed)));
}

#[test]
fn worker_goes_by_the_configured_batch_size() {
    let config = ActorConfig { channel_size: 1, batch_size: 0 };
    let mut actor: Launch<Counter> = Launch::start(config);
    assert!(matches!(actor.worker.step(Event::Launched), Action::OnStart));
    let action = actor.worker.step(Event::Started(Outcome::Completed));
    assert!(matches!(action, Action::Receive(1)));
}

#[test]
fn send_goes_to_the_mailbox() {
    let mut actor = launch(1);
    let op = actor.addr.send(Command::Add(5));
    assert!(op.sender.try_send(op.item).is_ok());
    assert!(matches!(actor.receiver.try_recv(), Ok(Command::Add(5))));
    let timed = actor.addr.send_timeout(Command::Add(6), Duration::from_secs(3));
    assert_eq!(timed.timeout, Duration::from_secs(3));
    assert!(timed.op.sender.try_send(timed.op.item).is_ok());
    assert!(matches!(actor.receiver.try_recv(), Ok(Command::Add(6))));
}

#[test]
fn ask_gets_the_reply_of_its_own_channel() {
    let mut actor = launch(1);
    let op = actor.addr.ask(Command::Read);
    assert!(op.sender.try_send(op.item).is_ok());
    match actor.receiver.try_recv() {
        Ok(Command::Read(tx)) => assert!(tx.send(42).is_ok()),
        _ => panic!("no request"),
    }
    let result: Result<u32, ActorError<String>> = ask_reply_result(op.reply.blocking_recv());
    assert!(matches!(result, Ok(42)));
}

#[test]
fn ask_timeout_carries_the_timeout() {
    let mut actor = launch(1);
    let timed = actor.addr.ask_timeout(Command::Read, Duration::from_millis(250));
    assert_eq!(timed.timeout, Duration::from_millis(250));
    assert!(timed.op.sender.try_send(timed.op.item).is_ok());
    assert!(matches!(actor.receiver.try_recv(), Ok(Command::Read(_))));
    let result: Result<u32, ActorError<String>> =
        ask_reply_result(timed.op.reply.blocking_recv());
    assert!(matches!(result, Err(ActorError::AskRecvDropped)));
}

#[test]
fn outcomes_become_results() {
    let full: Result<(), ActorError<String>> = try_send_result(Err(TrySendError::Full(1)));
    assert!(matches!(full, Err(ActorError::Full)));
    let closed: Result<(), ActorError<String>> = try_send_result(Err(TrySendError::Closed(1)));
    assert!(matches!(closed, Err(ActorError::Closed)));
    let sent: Result<(), ActorError<String>> = send_result::<u8, String>(Ok(()));
    assert!(matches!(sent, Ok(())));
    let unsent: Result<(), ActorError<String>> = send_result(Err(SendError(1)));
    assert!(matches!(unsent, Err(ActorError::Closed)));
    let in_time: Result<(), ActorError<String>> = send_timeout_result::<u8, String>(Ok(()));
    assert!(matches!(in_time, Ok(())));
    let late: Result<(), ActorError<String>> =
        send_timeout_result(Err(SendTimeoutError::Timeout(1)));
    assert!(matches!(late, Err(ActorError::Timeout)));
    let shut: Result<(), ActorError<String>> =
        send_timeout_result(Err(SendTimeoutError::Closed(1)));
    assert!(matches!(shut, Err(ActorError::Closed)));
    let asked: Result<(), ActorError<String>> = ask_sent_result::<u8, String>(Ok(()));
    assert!(matches!(asked, Ok(())));
    let refused: Result<(), ActorError<String>> = ask_sent_result(Err(SendError(1)));
    assert!(matches!(refused, Err(ActorError::AskSendClosed)));
}

#[test]
fn only_late_requests_time_out() {
    let in_time: Result<u32, ActorError<String>> = ask_timeout_result(Ok(Ok(7)));
    assert!(matches!(in_time, Ok(7)));
    let dropped: Result<u32, ActorError<String>> =
        ask_timeout_result(Ok(Err(ActorError::AskRecvDropped)));
    assert!(matches!(dropped, Err(ActorError::AskRecvDropped)));
    let late: Result<u32, ActorError<String>> = ask_timeout_result(Err(elapsed()));
    assert!(matches!(late, Err(ActorError::AskTimeout)));
}

#[test]
fn errors_have_their_texts() {
    let text = |err: ActorError<String>| err.text();
    assert_eq!(text(ActorError::Closed), "Actor 发送消息失败: 通道已关闭");
    assert_eq!(text(ActorError::Full), "Actor 发送消息失败: 通道已满");
    assert_eq!(text(ActorError::Timeout), "Actor 发送消息失败: 超时");
    assert_eq!(text(ActorError::AskSendClosed), "Actor 发送消息失败: 通道已关闭");
    assert_eq!(text(ActorError::AskRecvDropped), "Actor 等待响应失败(发送端被丢弃/未发送)");
    assert_eq!(text(ActorError::AskTimeout), "Actor 请求超时");
    assert_eq!(text(ActorError::Handler("kaputt".to_string())), "kaputt");
}

#[test]
fn every_handle_cancels_the_same_actor() {
    let actor = launch(1);
    let other = actor.addr.clone();
    assert!(!actor.addr.is_cancelled());
    assert!(!other.is_cancelled());
    actor.context.cancel();
    assert!(actor.addr.is_cancelled());
    assert!(other.is_cancelled());
    assert!(actor.worker.cancel_token().is_cancelled());

    let second = launch(1);
    assert!(!second.addr.is_cancelled());
    second.addr.clone().cancel();
    assert!(second.worker.cancel_token().is_cancelled());
}

#[test]
fn weak_handles_lead_back_while_a_handle_is_left() {
    let mut actor = launch(1);
    let weak: WeakAddr<Counter> = actor.addr.downgrade();
    let copy = weak.clone();
    let back: Addr<Counter> = copy.upgrade().unwrap();
    assert!(matches!(back.try_send(Command::Add(8)), Ok(())));
    assert!(matches!(actor.receiver.try_recv(), Ok(Command::Add(8))));
    back.cancel();
    assert!(actor.addr.is_cancelled());
    drop(back);
    assert!(actor.context.addr().is_some());
    drop(actor.addr);
    assert!(weak.upgrade().is_none());
    assert!(actor.context.addr().is_none());
    assert!(actor.context.weak_addr().upgrade().is_none());
    assert!(actor.context.clone().addr().is_none());
    assert!(weak.with_sender(None).is_none());
}

#[test]
fn handles_are_shown_by_the_message_type() {
    let actor = launch(1);
    assert_eq!(actor.addr.sender_label("Command"), "mpsc::Sender<Command>");
    assert_eq!(actor.addr.downgrade().sender_label("u8"), "mpsc::WeakSender<u8>");
    assert!(!actor.addr.cancel_token().is_cancelled());
    assert!(!actor.addr.downgrade().cancel_token().is_cancelled());
}
