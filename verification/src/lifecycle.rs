//! The life of a worker: start hook, batches of messages, stop hook.
//!
//! A [`Worker`] never waits. It is told what happened by an [`Event`] and answers
//! with the [`Action`] to perform next; performing that action gives the next
//! event. [`LoopState`] is the same machine as a mathematical object, and
//! [`crate::lifecycle_laws`] states what holds of every run of it.

use std::collections::VecDeque;
use tokio_util::sync::CancellationToken;
use vstd::prelude::*;

use crate::token::StopFlag;

verus! {

/// How a hook or a handler ended.
#[derive(Debug, Clone, Copy, PartialEq, Eq, Structural)]
pub enum Outcome {
    Completed,
    Failed,
}

/// What a worker is doing, that is, which action it last asked for.
#[derive(Debug, Clone, Copy, PartialEq, Eq, Structural)]
pub enum Phase {
    /// Nothing was asked for yet.
    Created,
    /// The start hook runs.
    Starting,
    /// The worker waits for messages or for cancellation.
    Receiving,
    /// A handler runs.
    Handling,
    /// The stop hook runs.
    Stopping,
    /// The worker is done.
    Finished,
}

/// Why a worker stops. A worker that finds its mailbox closed and its token cancelled
/// at once stops because of the token.
#[derive(Debug, Clone, Copy, PartialEq, Eq, Structural)]
pub enum StopCause {
    /// Its token was cancelled.
    Cancelled,
    /// Its mailbox is closed.
    Closed,
}

/// What happened since the last action was asked for.
#[derive(Debug)]
pub enum Event<M> {
    /// The worker's task has begun.
    Launched,
    /// The start hook ended.
    Started(Outcome),
    /// The token was cancelled while the worker waited.
    Cancelled,
    /// The mailbox gave these messages, oldest first; none, if it is closed.
    Received(Vec<M>),
    /// The handler of a message ended.
    Handled(Outcome),
    /// The stop hook ended.
    Stopped(Outcome),
}

/// What is to be done next.
#[derive(Debug)]
pub enum Action<M> {
    /// Run the start hook.
    OnStart,
    /// Wait until the token is cancelled or the mailbox gives messages, at most
    /// this many.
    Receive(usize),
    /// Run the handler of this message.
    Handle(M),
    /// Run the stop hook, for this reason.
    OnStop(StopCause),
    /// Leave.
    Exit,
}

/// What a worker goes by when it takes a step: the event, and for messages that
/// came in also what the token's flag read after they did.
pub ghost enum Input<M> {
    Launched,
    Started(Outcome),
    Cancelled,
    Received { batch: Seq<M>, cancelled: bool },
    Handled(Outcome),
    Stopped(Outcome),
}

impl<M> Event<M> {
    /// The event together with what the token's flag read.
    pub open spec fn observed(self, cancelled: bool) -> Input<M> {
        match self {
            Event::Launched => Input::Launched,
            Event::Started(outcome) => Input::Started(outcome),
            Event::Cancelled => Input::Cancelled,
            Event::Received(batch) => Input::Received { batch: batch@, cancelled },
            Event::Handled(outcome) => Input::Handled(outcome),
            Event::Stopped(outcome) => Input::Stopped(outcome),
        }
    }
}

/// The state of a worker.
#[verifier::ext_equal]
pub ghost struct LoopState<M> {
    /// How many messages the worker asks its mailbox for at once.
    pub batch_size: usize,
    pub phase: Phase,
    /// Messages that were received and not handed to a handler, oldest first.
    pub backlog: Seq<M>,
}

impl<M> LoopState<M> {
    /// The state that a worker begins with.
    pub open spec fn initial(batch_size: usize) -> Self {
        LoopState { batch_size, phase: Phase::Created, backlog: Seq::empty() }
    }

    /// Whether `input` can come of the action that was last asked for.
    pub open spec fn accepts(self, input: Input<M>) -> bool {
        match self.phase {
            Phase::Created => input is Launched,
            Phase::Starting => input is Started,
            Phase::Receiving => input is Cancelled || input is Received,
            Phase::Handling => input is Handled,
            Phase::Stopping => input is Stopped,
            Phase::Finished => false,
        }
    }

    /// The messages that are at hand once `input` came.
    pub open spec fn at_hand(self, input: Input<M>) -> Seq<M> {
        match input {
            Input::Received { batch, .. } => batch,
            _ => self.backlog,
        }
    }

    /// What to do on `input`. Messages that came in are handled, oldest first, before
    /// the worker waits again; none are handled if the flag was set when they came.
    /// An empty batch means that the mailbox is closed.
    pub open spec fn action(self, input: Input<M>) -> Action<M> {
        match input {
            Input::Launched => Action::OnStart,
            Input::Started(Outcome::Completed) => Action::Receive(self.batch_size),
            Input::Started(Outcome::Failed) => Action::Exit,
            Input::Cancelled => Action::OnStop(StopCause::Cancelled),
            Input::Received { batch, cancelled } => if cancelled {
                Action::OnStop(StopCause::Cancelled)
            } else if batch.len() == 0 {
                Action::OnStop(StopCause::Closed)
            } else {
                Action::Handle(batch.first())
            },
            Input::Handled(_) => if self.backlog.len() == 0 {
                Action::Receive(self.batch_size)
            } else {
                Action::Handle(self.backlog.first())
            },
            Input::Stopped(_) => Action::Exit,
        }
    }

    /// The state after `input`: the phase is that of the action asked for, and a
    /// message that went to its handler is no longer in the backlog.
    pub open spec fn next(self, input: Input<M>) -> Self {
        let action = self.action(input);
        LoopState {
            batch_size: self.batch_size,
            phase: phase_of(action),
            backlog: if action is Handle {
                self.at_hand(input).drop_first()
            } else {
                self.at_hand(input)
            },
        }
    }
}

/// The phase in which `action` is performed.
pub open spec fn phase_of<M>(action: Action<M>) -> Phase {
    match action {
        Action::OnStart => Phase::Starting,
        Action::Receive(_) => Phase::Receiving,
        Action::Handle(_) => Phase::Handling,
        Action::OnStop(_) => Phase::Stopping,
        Action::Exit => Phase::Finished,
    }
}

/// The part of an actor that decides what is done next.
#[derive(Debug)]
pub struct Worker<M, T = CancellationToken> {
    batch_size: usize,
    cancel_token: T,
    phase: Phase,
    backlog: VecDeque<M>,
    /// The buffer of the last batch, kept to be filled again.
    spare_buffer: Vec<M>,
}

impl<M, T> View for Worker<M, T> {
    type V = LoopState<M>;

    closed spec fn view(&self) -> LoopState<M> {
        LoopState { batch_size: self.batch_size, phase: self.phase, backlog: self.backlog@ }
    }
}

// Nothing is known here of the token but, in `step`, that it is a `StopFlag`: no function of
// this block can cancel it.
impl<M, T> Worker<M, T> {
    /// The token that stops this worker.
    pub closed spec fn token(self) -> T {
        self.cancel_token
    }

    /// A worker that takes batches of at most `batch_size` messages and stops when
    /// `cancel_token` is cancelled.
    pub fn new(batch_size: usize, cancel_token: T) -> (worker: Self)
        ensures
            worker@ == LoopState::<M>::initial(batch_size),
            worker@.batch_size == batch_size,
            worker@.phase == Phase::Created,
            worker@.backlog.len() == 0,
            worker.token() == cancel_token,
    {
        Worker {
            batch_size,
            cancel_token,
            phase: Phase::Created,
            backlog: VecDeque::new(),
            spare_buffer: Vec::new(),
        }
    }

    /// The token to wait on while the worker receives.
    pub fn cancel_token(&self) -> (token: &T)
        ensures
            *token == self.token(),
    {
        &self.cancel_token
    }

    /// An empty buffer to receive the next batch into: the one that held the last batch,
    /// so that it is allocated once.
    pub fn take_buffer(&mut self) -> (buffer: Vec<M>)
        ensures
            buffer@.len() == 0,
            final(self).token() == old(self).token(),
            final(self)@ == old(self)@,
    {
        let mut buffer: Vec<M> = Vec::new();
        core::mem::swap(&mut buffer, &mut self.spare_buffer);
        buffer.clear();
        buffer
    }

    /// Takes the next step after `event`. Of messages that came in, the worker first
    /// reads its token's flag, and leaves them unhandled if it is set.
    pub fn step(&mut self, event: Event<M>) -> (action: Action<M>) where T: StopFlag
        requires
            old(self)@.accepts(event.observed(false)),
        ensures
            final(self).token() == old(self).token(),
            exists|cancelled: bool|
                {
                    &&& event is Received ==> old(self).token().may_read(cancelled)
                    &&& final(self)@ == old(self)@.next(#[trigger] event.observed(cancelled))
                    &&& action == old(self)@.action(event.observed(cancelled))
                },
            event matches Event::Received(batch) ==> {
                ||| old(self).token().may_read(true) && action == Action::<M>::OnStop(
                    StopCause::Cancelled,
                )
                ||| old(self).token().may_read(false) && if batch@.len() == 0 {
                    action == Action::<M>::OnStop(StopCause::Closed)
                } else {
                    action == Action::Handle(batch@[0]) && final(self)@.backlog == batch@.skip(1)
                }
            },
            final(self)@.batch_size == old(self)@.batch_size,
            event is Launched ==> action is OnStart,
            event == Event::<M>::Started(Outcome::Completed) ==> action == Action::<M>::Receive(
                old(self)@.batch_size,
            ),
            event == Event::<M>::Started(Outcome::Failed) ==> action is Exit,
            event is Cancelled ==> action == Action::<M>::OnStop(StopCause::Cancelled),
            event is Handled ==> if old(self)@.backlog.len() == 0 {
                action == Action::<M>::Receive(old(self)@.batch_size)
            } else {
                &&& action == Action::Handle(old(self)@.backlog[0])
                &&& final(self)@.backlog == old(self)@.backlog.skip(1)
            },
            event is Stopped ==> action is Exit,
            action is OnStart ==> final(self)@.phase == Phase::Starting,
            action is Receive ==> final(self)@.phase == Phase::Receiving,
            action is Handle ==> final(self)@.phase == Phase::Handling,
            action is OnStop ==> final(self)@.phase == Phase::Stopping,
            action is Exit ==> final(self)@.phase == Phase::Finished,
    {
        let cancelled = match event {
            Event::Received(_) => self.cancel_token.is_set(),
            _ => false,
        };
        self.advance(event, cancelled)
    }

    /// Takes the next step after `event`, where the token's flag reads `cancelled`.
    pub fn advance(&mut self, event: Event<M>, cancelled: bool) -> (action: Action<M>)
        requires
            old(self)@.accepts(event.observed(cancelled)),
        ensures
            final(self).token() == old(self).token(),
            final(self)@ == old(self)@.next(event.observed(cancelled)),
            action == old(self)@.action(event.observed(cancelled)),
            final(self)@.batch_size == old(self)@.batch_size,
            event is Launched ==> action is OnStart,
            event == Event::<M>::Started(Outcome::Completed) ==> action == Action::<M>::Receive(
                old(self)@.batch_size,
            ),
            event == Event::<M>::Started(Outcome::Failed) ==> action is Exit,
            event is Cancelled ==> action == Action::<M>::OnStop(StopCause::Cancelled),
            event matches Event::Received(batch) ==> if cancelled {
                action == Action::<M>::OnStop(StopCause::Cancelled)
            } else if batch@.len() == 0 {
                action == Action::<M>::OnStop(StopCause::Closed)
            } else {
                action == Action::Handle(batch@[0]) && final(self)@.backlog == batch@.skip(1)
            },
            event is Handled ==> if old(self)@.backlog.len() == 0 {
                action == Action::<M>::Receive(old(self)@.batch_size)
            } else {
                &&& action == Action::Handle(old(self)@.backlog[0])
                &&& final(self)@.backlog == old(self)@.backlog.skip(1)
            },
            event is Stopped ==> action is Exit,
            action is OnStart ==> final(self)@.phase == Phase::Starting,
            action is Receive ==> final(self)@.phase == Phase::Receiving,
            action is Handle ==> final(self)@.phase == Phase::Handling,
            action is OnStop ==> final(self)@.phase == Phase::Stopping,
            action is Exit ==> final(self)@.phase == Phase::Finished,
    {
        match event {
            Event::Launched => {
                self.phase = Phase::Starting;
                Action::OnStart
            },
            Event::Started(Outcome::Completed) => self.receive(),
            Event::Started(Outcome::Failed) => {
                self.phase = Phase::Finished;
                Action::Exit
            },
            Event::Cancelled => self.stop(StopCause::Cancelled),
            Event::Received(batch) => {
                let mut batch = batch;
                let closed = batch.len() == 0;
                move_in_order(&mut batch, &mut self.backlog);
                self.spare_buffer = batch;
                if cancelled {
                    self.stop(StopCause::Cancelled)
                } else if closed {
                    self.stop(StopCause::Closed)
                } else {
                    self.handle_or_receive()
                }
            },
            Event::Handled(_) => self.handle_or_receive(),
            Event::Stopped(_) => {
                self.phase = Phase::Finished;
                Action::Exit
            },
        }
    }

    fn stop(&mut self, cause: StopCause) -> (action: Action<M>)
        ensures
            final(self).token() == old(self).token(),
            final(self)@ == (LoopState { phase: Phase::Stopping, ..old(self)@ }),
            action == Action::<M>::OnStop(cause),
    {
        self.phase = Phase::Stopping;
        Action::OnStop(cause)
    }

    fn receive(&mut self) -> (action: Action<M>)
        ensures
            final(self).token() == old(self).token(),
            final(self)@ == (LoopState { phase: Phase::Receiving, ..old(self)@ }),
            action == Action::<M>::Receive(old(self)@.batch_size),
    {
        self.phase = Phase::Receiving;
        Action::Receive(self.batch_size)
    }

    fn handle_or_receive(&mut self) -> (action: Action<M>)
        ensures
            final(self).token() == old(self).token(),
            old(self)@.backlog.len() == 0 ==> {
                &&& final(self)@ == (LoopState { phase: Phase::Receiving, ..old(self)@ })
                &&& action == Action::<M>::Receive(old(self)@.batch_size)
            },
            old(self)@.backlog.len() > 0 ==> {
                &&& final(self)@ == (LoopState {
                    phase: Phase::Handling,
                    backlog: old(self)@.backlog.drop_first(),
                    ..old(self)@
                })
                &&& action == Action::Handle(old(self)@.backlog.first())
            },
    {
        match self.backlog.pop_front() {
            Some(msg) => {
                self.phase = Phase::Handling;
                Action::Handle(msg)
            },
            None => self.receive(),
        }
    }
}

/// Moves the messages of `batch` into `queue`, in their order, in place of what it held.
fn move_in_order<M>(batch: &mut Vec<M>, queue: &mut VecDeque<M>)
    ensures
        final(queue)@ == old(batch)@,
        final(batch)@.len() == 0,
{
    queue.clear();
    while batch.len() > 0
        invariant
            batch@ + queue@ == old(batch)@,
        decreases batch@.len(),
    {
        if let Some(msg) = batch.pop() {
            queue.push_front(msg);
        }
    }
}

} // verus!
