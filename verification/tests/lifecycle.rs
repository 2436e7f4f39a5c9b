use actor::lifecycle::{Action, Event, Outcome, StopCause, Worker};
use tokio_util::sync::CancellationToken;

fn running(batch_size: usize) -> (Worker<u32>, CancellationToken) {
    let token = CancellationToken::new();
    let mut worker = Worker::new(batch_size, token.clone());
    assert!(matches!(worker.step(Event::Launched), Action::OnStart));
    let action = worker.step(Event::Started(Outcome::Completed));
    assert!(matches!(action, Action::Receive(n) if n == batch_size));
    (worker, token)
}

#[test]
fn messages_are_handled_in_order() {
    let (mut worker, _token) = running(3);
    assert!(matches!(worker.step(Event::Received(vec![1, 2, 3])), Action::Handle(1)));
    assert!(matches!(worker.step(Event::Handled(Outcome::Completed)), Action::Handle(2)));
    assert!(matches!(worker.step(Event::Handled(Outcome::Completed)), Action::Handle(3)));
    assert!(matches!(worker.step(Event::Handled(Outcome::Completed)), Action::Receive(3)));
    assert!(matches!(worker.step(Event::Received(vec![4])), Action::Handle(4)));
    assert!(matches!(worker.step(Event::Handled(Outcome::Completed)), Action::Receive(3)));
}

#[test]
fn failed_start_leaves_without_the_stop_hook() {
    let mut worker: Worker<u32> = Worker::new(1, CancellationToken::new());
    assert!(matches!(worker.step(Event::Launched), Action::OnStart));
    assert!(matches!(worker.step(Event::Started(Outcome::Failed)), Action::Exit));
}

#[test]
fn failed_handler_does_not_stop_the_worker() {
    let (mut worker, _token) = running(2);
    assert!(matches!(worker.step(Event::Received(vec![1, 2])), Action::Handle(1)));
    assert!(matches!(worker.step(Event::Handled(Outcome::Failed)), Action::Handle(2)));
    assert!(matches!(worker.step(Event::Handled(Outcome::Failed)), Action::Receive(2)));
}

#[test]
fn closed_mailbox_stops_the_worker() {
    let (mut worker, _token) = running(2);
    assert!(matches!(worker.step(Event::Received(vec![9])), Action::Handle(9)));
    assert!(matches!(worker.step(Event::Handled(Outcome::Completed)), Action::Receive(2)));
    let action = worker.step(Event::Received(vec![]));
    assert!(matches!(action, Action::OnStop(StopCause::Closed)));
    assert!(matches!(worker.step(Event::Stopped(Outcome::Failed)), Action::Exit));
}

#[test]
fn cancellation_stops_a_waiting_worker() {
    let (mut worker, token) = running(2);
    token.cancel();
    assert!(worker.cancel_token().is_cancelled());
    assert!(matches!(worker.step(Event::Cancelled), Action::OnStop(StopCause::Cancelled)));
    assert!(matches!(worker.step(Event::Stopped(Outcome::Completed)), Action::Exit));
}

#[test]
fn messages_that_come_with_a_cancellation_are_left() {
    let (mut worker, token) = running(2);
    token.cancel();
    assert!(matches!(worker.step(Event::Received(vec![1, 2])), Action::OnStop(StopCause::Cancelled)));
    assert!(matches!(worker.step(Event::Stopped(Outcome::Completed)), Action::Exit));
}

#[test]
fn a_batch_is_finished_after_a_cancellation_during_it() {
    let (mut worker, token) = running(2);
    assert!(matches!(worker.step(Event::Received(vec![1, 2])), Action::Handle(1)));
    token.cancel();
    assert!(matches!(worker.step(Event::Handled(Outcome::Completed)), Action::Handle(2)));
    assert!(matches!(worker.step(Event::Handled(Outcome::Completed)), Action::Receive(2)));
    assert!(matches!(worker.step(Event::Cancelled), Action::OnStop(StopCause::Cancelled)));
}

#[test]
fn the_flag_can_be_given_in_place_of_read() {
    let (mut worker, _token) = running(2);
    assert!(matches!(worker.advance(Event::Received(vec![1]), true), Action::OnStop(StopCause::Cancelled)));
}

#[test]
fn closed_mailbox_stops_a_cancelled_worker_too() {
    let (mut worker, token) = running(2);
    token.cancel();
    let action = worker.step(Event::Received(vec![]));
    assert!(matches!(action, Action::OnStop(StopCause::Cancelled)));
}

#[test]
fn single_batches_let_nothing_through_after_a_cancellation() {
    let (mut worker, token) = running(1);
    assert!(matches!(worker.step(Event::Received(vec![1])), Action::Handle(1)));
    token.cancel();
    assert!(matches!(worker.step(Event::Handled(Outcome::Completed)), Action::Receive(1)));
    let action = worker.step(Event::Received(vec![2]));
    assert!(matches!(action, Action::OnStop(StopCause::Cancelled)));
}

#[test]
fn a_batch_buffer_is_used_again() {
    let (mut worker, _token) = running(4);
    let mut buffer = worker.take_buffer();
    assert!(buffer.is_empty());
    buffer.reserve_exact(4);
    let capacity = buffer.capacity();
    buffer.push(1);
    assert!(matches!(worker.step(Event::Received(buffer)), Action::Handle(1)));
    assert!(matches!(worker.step(Event::Handled(Outcome::Completed)), Action::Receive(4)));
    let again = worker.take_buffer();
    assert!(again.is_empty());
    assert_eq!(again.capacity(), capacity);
}
