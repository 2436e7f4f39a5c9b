//! What holds of every run of a worker.
//!
//! A run is the sequence of inputs that a worker was given since it was made, each
//! of them one that the action before it can lead to. The laws speak of the actions
//! that the worker answered with.

use vstd::prelude::*;

use crate::lifecycle::{Action, Input, LoopState, Outcome, Phase, StopCause};
use crate::token::StopFlag;

verus! {

/// The state that a worker with this batch size is in after `run`.
pub open spec fn reached<M>(batch_size: usize, run: Seq<Input<M>>) -> LoopState<M>
    decreases run.len(),
{
    if run.len() == 0 {
        LoopState::initial(batch_size)
    } else {
        reached(batch_size, run.drop_last()).next(run.last())
    }
}

/// The actions that the worker answered with, one for each input.
pub open spec fn answers<M>(batch_size: usize, run: Seq<Input<M>>) -> Seq<Action<M>> {
    Seq::new(
        run.len(),
        |i: int| reached(batch_size, run.take(i)).action(run[i]),
    )
}

/// Whether every input is one that the action before it can lead to.
pub open spec fn possible<M>(batch_size: usize, run: Seq<Input<M>>) -> bool {
    forall|i: int|
        0 <= i < run.len() ==> #[trigger] reached(batch_size, run.take(i)).accepts(run[i])
}

/// All messages that the mailbox gave, in the order in which they came.
pub open spec fn received<M>(run: Seq<Input<M>>) -> Seq<M>
    decreases run.len(),
{
    if run.len() == 0 {
        Seq::empty()
    } else {
        received(run.drop_last()) + match run.last() {
            Input::Received { batch, .. } => batch,
            _ => Seq::empty(),
        }
    }
}

/// The messages that went to a handler, in the order in which they did.
pub open spec fn handled<M>(actions: Seq<Action<M>>) -> Seq<M>
    decreases actions.len(),
{
    if actions.len() == 0 {
        Seq::empty()
    } else {
        handled(actions.drop_last()) + match actions.last() {
            Action::Handle(msg) => seq![msg],
            _ => Seq::empty(),
        }
    }
}

/// How often the stop hook was asked for.
pub open spec fn stops<M>(actions: Seq<Action<M>>) -> nat
    decreases actions.len(),
{
    if actions.len() == 0 {
        0
    } else {
        stops(actions.drop_last()) + if actions.last() is OnStop {
            1nat
        } else {
            0nat
        }
    }
}

/// Whether the worker learns from `input` that its token was cancelled.
pub open spec fn tells_of_cancel<M>(input: Input<M>) -> bool {
    match input {
        Input::Cancelled => true,
        Input::Received { cancelled, .. } => cancelled,
        _ => false,
    }
}

/// Whether the worker learnt of a cancellation at any point of `run`.
pub open spec fn learnt_of_cancel<M>(run: Seq<Input<M>>) -> bool {
    exists|i: int| 0 <= i < run.len() && tells_of_cancel(#[trigger] run[i])
}

/// Whether every reading of the flag from `k` on gave that it is set.
pub open spec fn cancelled_from<M>(run: Seq<Input<M>>, k: int) -> bool {
    forall|i: int|
        k <= i < run.len() ==> (#[trigger] run[i] matches Input::Received { cancelled, .. }
            ==> cancelled)
}

/// Whether the mailbox never gave more messages than `limit` at once.
pub open spec fn batches_keep_to<M>(limit: usize, run: Seq<Input<M>>) -> bool {
    forall|i: int|
        0 <= i < run.len() ==> (#[trigger] run[i] matches Input::Received { batch, .. }
            ==> batch.len() <= limit)
}

/// The messages that the mailbox gave last; none, if it never gave any.
pub open spec fn last_batch<M>(run: Seq<Input<M>>) -> Seq<M>
    decreases run.len(),
{
    if run.len() == 0 {
        Seq::empty()
    } else {
        match run.last() {
            Input::Received { batch, .. } => batch,
            _ => last_batch(run.drop_last()),
        }
    }
}

/// Whether the start hook ended well in `run`.
pub open spec fn started<M>(run: Seq<Input<M>>) -> bool {
    run.contains(Input::Started(Outcome::Completed))
}

/// Whether `a` and `b` are the same input but for how a handler or the stop hook ended.
pub open spec fn same_but_for_outcome<M>(a: Input<M>, b: Input<M>) -> bool {
    ||| a == b
    ||| a is Handled && b is Handled
    ||| a is Stopped && b is Stopped
}

/// The run before its last input, and what the last input added.
proof fn lemma_last_step<M>(batch_size: usize, run: Seq<Input<M>>)
    requires
        run.len() > 0,
    ensures
        answers(batch_size, run).drop_last() == answers(batch_size, run.drop_last()),
        answers(batch_size, run).last() == reached(batch_size, run.drop_last()).action(run.last()),
        possible(batch_size, run) ==> possible(batch_size, run.drop_last()),
        possible(batch_size, run) ==> reached(batch_size, run.drop_last()).accepts(run.last()),
{
    let before = run.drop_last();
    assert(run.take(run.len() - 1) == before);
    assert forall|i: int| 0 <= i < before.len() implies run.take(i) == before.take(i) by {}
    assert(answers(batch_size, run).drop_last() =~= answers(batch_size, before));
    if possible(batch_size, run) {
        assert forall|i: int| 0 <= i < before.len() implies #[trigger] reached(
            batch_size,
            before.take(i),
        ).accepts(before[i]) by {
            assert(run.take(i) == before.take(i));
            assert(reached(batch_size, run.take(i)).accepts(run[i]));
        }
        assert(reached(batch_size, run.take(run.len() - 1)).accepts(run[run.len() - 1]));
    }
}

/// A run up to some point is a run too, with the same answers so far.
proof fn lemma_prefix<M>(batch_size: usize, run: Seq<Input<M>>, i: int)
    requires
        possible(batch_size, run),
        0 <= i < run.len(),
    ensures
        possible(batch_size, run.take(i)),
        possible(batch_size, run.take(i + 1)),
        reached(batch_size, run.take(i)).accepts(run[i]),
        reached(batch_size, run.take(i + 1)) == reached(batch_size, run.take(i)).next(run[i]),
{
    assert forall|k: int, n: int| 0 <= k < n <= run.len() implies #[trigger] run.take(n).take(k)
        == run.take(k) by {}
    assert forall|k: int| 0 <= k < i + 1 implies #[trigger] reached(
        batch_size,
        run.take(i + 1).take(k),
    ).accepts(run.take(i + 1)[k]) by {
        assert(reached(batch_size, run.take(k)).accepts(run[k]));
    }
    assert forall|k: int| 0 <= k < i implies #[trigger] reached(
        batch_size,
        run.take(i).take(k),
    ).accepts(run.take(i)[k]) by {
        assert(reached(batch_size, run.take(k)).accepts(run[k]));
    }
    assert(reached(batch_size, run.take(i)).accepts(run[i]));
    assert(run.take(i + 1).drop_last() == run.take(i));
}

/// The batch size never changes, messages are only kept back while a handler runs or
/// after a cancellation, and a worker that learnt of a cancellation is on its way out.
proof fn lemma_state<M>(batch_size: usize, run: Seq<Input<M>>)
    requires
        possible(batch_size, run),
    ensures
        ({
            let state = reached(batch_size, run);
            &&& state.batch_size == batch_size
            &&& state.backlog.len() > 0 ==> state.phase == Phase::Handling || learnt_of_cancel(run)
            &&& learnt_of_cancel(run) ==> state.phase == Phase::Stopping || state.phase
                == Phase::Finished
        }),
    decreases run.len(),
{
    if run.len() > 0 {
        let before = run.drop_last();
        lemma_last_step(batch_size, run);
        lemma_state(batch_size, before);
        if learnt_of_cancel(before) {
            let i = choose|i: int| 0 <= i < before.len() && tells_of_cancel(#[trigger] before[i]);
            assert(tells_of_cancel(run[i]));
        }
        if tells_of_cancel(run.last()) {
            assert(tells_of_cancel(run[run.len() - 1]));
        }
        if learnt_of_cancel(run) && !tells_of_cancel(run.last()) {
            let i = choose|i: int| 0 <= i < run.len() && tells_of_cancel(#[trigger] run[i]);
            assert(tells_of_cancel(before[i]));
        }
    }
}

/// Messages go to the handlers in the order in which they came, each of them once,
/// and none is made up: what was handled, followed by what is still at hand, is what
/// was received.
pub proof fn law_messages_are_handled_in_order<M>(batch_size: usize, run: Seq<Input<M>>)
    requires
        possible(batch_size, run),
    ensures
        handled(answers(batch_size, run)) + reached(batch_size, run).backlog == received(run),
    decreases run.len(),
{
    if run.len() > 0 {
        let before = run.drop_last();
        lemma_last_step(batch_size, run);
        lemma_state(batch_size, before);
        law_messages_are_handled_in_order(batch_size, before);
        let state = reached(batch_size, before);
        let at_hand = state.at_hand(run.last());
        if state.action(run.last()) is Handle {
            assert(at_hand == seq![at_hand.first()] + at_hand.drop_first());
        }
        assert(handled(answers(batch_size, run)) + reached(batch_size, run).backlog =~= received(
            run,
        ));
    }
}

/// No message is lost unless the actor was cancelled: when no handler runs, all that
/// was received was handled.
pub proof fn law_no_message_is_lost<M>(batch_size: usize, run: Seq<Input<M>>)
    requires
        possible(batch_size, run),
        !learnt_of_cancel(run),
        reached(batch_size, run).phase != Phase::Handling,
    ensures
        handled(answers(batch_size, run)) == received(run),
{
    lemma_state(batch_size, run);
    law_messages_are_handled_in_order(batch_size, run);
}

/// How far a run has come can be told from the phase.
proof fn lemma_phase<M>(batch_size: usize, run: Seq<Input<M>>)
    requires
        possible(batch_size, run),
    ensures
        ({
            let phase = reached(batch_size, run).phase;
            &&& phase == Phase::Created <==> run.len() == 0
            &&& phase == Phase::Starting <==> run.len() == 1
            &&& started(run) ==> run.len() >= 2
            &&& run.len() >= 2 ==> (started(run) <==> run[1] == Input::<M>::Started(
                Outcome::Completed,
            ))
            &&& run.len() >= 2 && !started(run) ==> {
                &&& run.len() == 2
                &&& run[1] == Input::<M>::Started(Outcome::Failed)
                &&& phase == Phase::Finished
            }
        }),
    decreases run.len(),
{
    if run.len() > 0 {
        let before = run.drop_last();
        let well = Input::<M>::Started(Outcome::Completed);
        lemma_last_step(batch_size, run);
        lemma_phase(batch_size, before);
        if before.contains(well) {
            let i = choose|i: int| 0 <= i < before.len() && before[i] == well;
            assert(run[i] == well);
        }
        if run.contains(well) && run.last() != well {
            let i = choose|i: int| 0 <= i < run.len() && run[i] == well;
            assert(before[i] == well);
        }
        if run.last() == well {
            assert(run[run.len() - 1] == well);
        }
    }
}

/// The start hook runs once, before anything else.
pub proof fn law_the_start_hook_runs_first_and_once<M>(
    batch_size: usize,
    run: Seq<Input<M>>,
    i: int,
)
    requires
        possible(batch_size, run),
        0 <= i < run.len(),
    ensures
        answers(batch_size, run)[i] is OnStart <==> i == 0,
{
    lemma_prefix(batch_size, run, i);
    lemma_phase(batch_size, run.take(i));
}

/// A worker whose start hook failed leaves at once: it handles nothing and does not
/// run the stop hook.
pub proof fn law_a_failed_start_ends_the_run<M>(batch_size: usize, run: Seq<Input<M>>)
    requires
        possible(batch_size, run),
        run.contains(Input::Started(Outcome::Failed)),
    ensures
        answers(batch_size, run) == seq![Action::<M>::OnStart, Action::Exit],
        reached(batch_size, run).phase == Phase::Finished,
{
    let failed = Input::<M>::Started(Outcome::Failed);
    let i = choose|i: int| 0 <= i < run.len() && run[i] == failed;
    lemma_prefix(batch_size, run, i);
    lemma_phase(batch_size, run.take(i));
    lemma_prefix(batch_size, run, 0);
    lemma_phase(batch_size, run);
    assert(answers(batch_size, run) =~= seq![Action::<M>::OnStart, Action::Exit]);
}

/// The stop hook runs once in a worker that started well, and never in another: a
/// worker that is stopping or done asked for it exactly once, an earlier one not yet.
pub proof fn law_the_stop_hook_runs_once<M>(batch_size: usize, run: Seq<Input<M>>)
    requires
        possible(batch_size, run),
    ensures
        ({
            let phase = reached(batch_size, run).phase;
            let on_its_way_out = phase == Phase::Stopping || phase == Phase::Finished;
            stops(answers(batch_size, run)) == if started(run) && on_its_way_out {
                1nat
            } else {
                0nat
            }
        }),
    decreases run.len(),
{
    lemma_phase(batch_size, run);
    if run.len() > 0 {
        lemma_last_step(batch_size, run);
        lemma_phase(batch_size, run.drop_last());
        law_the_stop_hook_runs_once(batch_size, run.drop_last());
    }
}

/// Once a worker has learnt of a cancellation it hands no message to a handler any
/// more, not even those that came in with it.
pub proof fn law_nothing_is_handled_after_a_cancellation<M>(
    batch_size: usize,
    run: Seq<Input<M>>,
    i: int,
    j: int,
)
    requires
        possible(batch_size, run),
        0 <= i <= j < run.len(),
        tells_of_cancel(run[i]),
    ensures
        !(answers(batch_size, run)[j] is Handle),
{
    lemma_prefix(batch_size, run, j);
    if i < j {
        assert(tells_of_cancel(run.take(j)[i]));
        lemma_state(batch_size, run.take(j));
    }
}

/// A worker that learns of a cancellation runs the stop hook next, and leaves after it.
pub proof fn law_a_cancellation_stops_the_worker<M>(batch_size: usize, run: Seq<Input<M>>, i: int)
    requires
        possible(batch_size, run),
        0 <= i < run.len(),
        tells_of_cancel(run[i]),
    ensures
        answers(batch_size, run)[i] == Action::<M>::OnStop(StopCause::Cancelled),
        i + 1 < run.len() ==> answers(batch_size, run)[i + 1] is Exit,
        run.len() <= i + 2,
{
    lemma_prefix(batch_size, run, i);
    if i + 1 < run.len() {
        lemma_prefix(batch_size, run, i + 1);
        if i + 2 < run.len() {
            lemma_prefix(batch_size, run, i + 2);
        }
    }
}

/// A worker asks its mailbox for as many messages as its batch size, each time.
pub proof fn law_every_batch_has_the_same_bound<M>(
    batch_size: usize,
    run: Seq<Input<M>>,
    i: int,
    limit: usize,
)
    requires
        possible(batch_size, run),
        0 <= i < run.len(),
        answers(batch_size, run)[i] == Action::<M>::Receive(limit),
    ensures
        limit == batch_size,
{
    lemma_prefix(batch_size, run, i);
    lemma_state(batch_size, run.take(i));
}

/// While a handler runs, what is kept back is the rest of the batch that came last, and
/// the message that is handled was part of that batch too.
proof fn lemma_rest_of_batch<M>(batch_size: usize, run: Seq<Input<M>>)
    requires
        possible(batch_size, run),
        reached(batch_size, run).phase == Phase::Handling,
    ensures
        reached(batch_size, run).backlog.is_suffix_of(last_batch(run)),
        reached(batch_size, run).backlog.len() < last_batch(run).len(),
    decreases run.len(),
{
    if run.len() > 0 {
        let before = run.drop_last();
        lemma_last_step(batch_size, run);
        if reached(batch_size, before).phase == Phase::Handling {
            lemma_rest_of_batch(batch_size, before);
        }
    }
}

proof fn lemma_last_batch_keeps_to<M>(batch_size: usize, run: Seq<Input<M>>)
    requires
        batches_keep_to(batch_size, run),
    ensures
        last_batch(run).len() <= batch_size,
    decreases run.len(),
{
    if run.len() > 0 {
        let before = run.drop_last();
        assert forall|i: int| 0 <= i < before.len() implies (#[trigger] before[i] matches
            Input::Received { batch, .. } ==> batch.len() <= batch_size) by {
            assert(run[i] == before[i]);
        }
        lemma_last_batch_keeps_to(batch_size, before);
        assert(run[run.len() - 1] == run.last());
    }
}

/// A worker keeps back fewer messages than its batch size while it handles one, as long
/// as its mailbox never gives more than were asked for. Unless it was cancelled, it keeps
/// none back at any other time.
pub proof fn law_the_backlog_is_bounded<M>(batch_size: usize, run: Seq<Input<M>>)
    requires
        possible(batch_size, run),
        batches_keep_to(batch_size, run),
    ensures
        ({
            let state = reached(batch_size, run);
            &&& state.phase == Phase::Handling ==> state.backlog.len() < batch_size
            &&& state.phase != Phase::Handling && !learnt_of_cancel(run) ==> state.backlog.len()
                == 0
        }),
{
    lemma_state(batch_size, run);
    if reached(batch_size, run).phase == Phase::Handling {
        lemma_rest_of_batch(batch_size, run);
        lemma_last_batch_keeps_to(batch_size, run);
    }
}

/// From some point on, where every reading of the flag gives that it is set, nothing is
/// handled but what was at hand at that point, in its order.
proof fn lemma_only_the_backlog<M>(batch_size: usize, run: Seq<Input<M>>, k: int)
    requires
        possible(batch_size, run),
        0 <= k <= run.len(),
        reached(batch_size, run.take(k)).phase == Phase::Handling,
        cancelled_from(run, k),
    ensures
        ({
            let at_k = handled(answers(batch_size, run).take(k)) + reached(
                batch_size,
                run.take(k),
            ).backlog;
            let now = handled(answers(batch_size, run));
            &&& now.is_prefix_of(at_k)
            &&& now.len() >= handled(answers(batch_size, run).take(k)).len()
            &&& reached(batch_size, run).phase == Phase::Handling ==> now + reached(
                batch_size,
                run,
            ).backlog == at_k
        }),
    decreases run.len(),
{
    if k == run.len() {
        assert(run.take(k) == run);
        assert(answers(batch_size, run).take(k) == answers(batch_size, run));
    } else {
        let before = run.drop_last();
        lemma_last_step(batch_size, run);
        assert(before.take(k) == run.take(k));
        assert(answers(batch_size, before).take(k) == answers(batch_size, run).take(k));
        assert forall|i: int| k <= i < before.len() implies (#[trigger] before[i] matches
            Input::Received { cancelled, .. } ==> cancelled) by {
            assert(run[i] == before[i]);
        }
        lemma_only_the_backlog(batch_size, before, k);
        assert(run[run.len() - 1] == run.last());
        let state = reached(batch_size, before);
        if state.action(run.last()) is Handle {
            assert(state.backlog == seq![state.backlog.first()] + state.backlog.drop_first());
        }
    }
}

/// A cancellation that falls into a handler lets no more through than the rest of the
/// batch that is being handled, in its order. With a mailbox that keeps to the limit that
/// is at most one message less than the batch size, so none where that is one.
pub proof fn law_a_cancellation_lets_only_the_batch_through<M>(
    batch_size: usize,
    run: Seq<Input<M>>,
    k: int,
)
    requires
        possible(batch_size, run),
        batches_keep_to(batch_size, run),
        0 <= k <= run.len(),
        reached(batch_size, run.take(k)).phase == Phase::Handling,
        cancelled_from(run, k),
    ensures
        ({
            let until_k = handled(answers(batch_size, run).take(k));
            let rest = reached(batch_size, run.take(k)).backlog;
            &&& rest.is_suffix_of(last_batch(run.take(k)))
            &&& until_k.is_prefix_of(handled(answers(batch_size, run)))
            &&& handled(answers(batch_size, run)).is_prefix_of(until_k + rest)
            &&& handled(answers(batch_size, run)).len() - until_k.len() <= batch_size - 1
        }),
{
    lemma_only_the_backlog(batch_size, run, k);
    if k < run.len() {
        lemma_prefix(batch_size, run, k);
    } else {
        assert(run.take(k) == run);
    }
    let then = run.take(k);
    assert forall|i: int| 0 <= i < then.len() implies (#[trigger] then[i] matches
        Input::Received { batch, .. } ==> batch.len() <= batch_size) by {
        assert(then[i] == run[i]);
    }
    lemma_rest_of_batch(batch_size, then);
    law_the_backlog_is_bounded(batch_size, then);
}

/// A cancellation that comes while no handler runs lets nothing through.
pub proof fn law_a_cancellation_outside_a_handler_lets_nothing_through<M>(
    batch_size: usize,
    run: Seq<Input<M>>,
    k: int,
)
    requires
        possible(batch_size, run),
        0 <= k <= run.len(),
        reached(batch_size, run.take(k)).phase != Phase::Handling,
        cancelled_from(run, k),
    ensures
        handled(answers(batch_size, run)) == handled(answers(batch_size, run).take(k)),
        reached(batch_size, run).phase != Phase::Handling,
    decreases run.len(),
{
    if k == run.len() {
        assert(run.take(k) == run);
        assert(answers(batch_size, run).take(k) == answers(batch_size, run));
    } else {
        let before = run.drop_last();
        lemma_last_step(batch_size, run);
        assert(before.take(k) == run.take(k));
        assert(answers(batch_size, before).take(k) == answers(batch_size, run).take(k));
        assert forall|i: int| k <= i < before.len() implies (#[trigger] before[i] matches
            Input::Received { cancelled, .. } ==> cancelled) by {
            assert(run[i] == before[i]);
        }
        law_a_cancellation_outside_a_handler_lets_nothing_through(batch_size, before, k);
        assert(run[run.len() - 1] == run.last());
    }
}

/// A closed mailbox stops the worker once everything in it was handled, whatever the
/// token's flag reads: the stop hook is asked for, and no received message is left over.
pub proof fn law_a_closed_mailbox_stops_the_worker<M>(
    batch_size: usize,
    run: Seq<Input<M>>,
    cancelled: bool,
)
    requires
        possible(batch_size, run),
        run.len() > 0,
        run.last() == (Input::<M>::Received { batch: Seq::empty(), cancelled }),
    ensures
        answers(batch_size, run).last() is OnStop,
        handled(answers(batch_size, run)) == received(run),
{
    lemma_last_step(batch_size, run);
    law_messages_are_handled_in_order(batch_size, run);
}

/// A failed handler or stop hook changes nothing: the worker answers as if it had
/// ended well.
pub proof fn law_failures_do_not_stop_the_worker<M>(
    batch_size: usize,
    run: Seq<Input<M>>,
    other: Seq<Input<M>>,
)
    requires
        possible(batch_size, run),
        run.len() == other.len(),
        forall|i: int|
            0 <= i < run.len() ==> same_but_for_outcome(#[trigger] run[i], #[trigger] other[i]),
    ensures
        possible(batch_size, other),
        answers(batch_size, run) == answers(batch_size, other),
        reached(batch_size, run) == reached(batch_size, other),
{
    assert forall|n: int| 0 <= n <= run.len() implies #[trigger] reached(batch_size, run.take(n))
        == reached(batch_size, other.take(n)) by {
        lemma_same_state(batch_size, run.take(n), other.take(n));
    }
    assert forall|i: int| 0 <= i < run.len() implies #[trigger] reached(
        batch_size,
        other.take(i),
    ).accepts(other[i]) by {
        assert(reached(batch_size, run.take(i)).accepts(run[i]));
        assert(same_but_for_outcome(run[i], other[i]));
    }
    assert forall|i: int| 0 <= i < run.len() implies answers(batch_size, run)[i] == answers(
        batch_size,
        other,
    )[i] by {
        assert(reached(batch_size, run.take(i)) == reached(batch_size, other.take(i)));
        assert(same_but_for_outcome(run[i], other[i]));
    }
    assert(answers(batch_size, run) =~= answers(batch_size, other));
    assert(run.take(run.len() as int) == run);
    assert(other.take(run.len() as int) == other);
}

proof fn lemma_same_state<M>(batch_size: usize, run: Seq<Input<M>>, other: Seq<Input<M>>)
    requires
        run.len() == other.len(),
        forall|i: int|
            0 <= i < run.len() ==> same_but_for_outcome(#[trigger] run[i], #[trigger] other[i]),
    ensures
        reached(batch_size, run) == reached(batch_size, other),
    decreases run.len(),
{
    if run.len() > 0 {
        lemma_same_state(batch_size, run.drop_last(), other.drop_last());
        assert(same_but_for_outcome(run[run.len() - 1], other[run.len() - 1]));
    }
}

/// Leaving is the last action: nothing follows it.
pub proof fn law_exit_is_last<M>(batch_size: usize, run: Seq<Input<M>>, i: int)
    requires
        possible(batch_size, run),
        0 <= i < run.len(),
        answers(batch_size, run)[i] is Exit,
    ensures
        i == run.len() - 1,
        reached(batch_size, run).phase == Phase::Finished,
{
    lemma_prefix(batch_size, run, i);
    if i < run.len() - 1 {
        lemma_prefix(batch_size, run, i + 1);
    } else {
        assert(run.take(i + 1) == run);
    }
}

/// The stop hook is asked for when the worker learns of a cancellation or finds its
/// mailbox closed, and at no other time. The cause that goes with it says which it was.
pub proof fn law_the_stop_hook_needs_a_cause<M>(batch_size: usize, run: Seq<Input<M>>, i: int)
    requires
        possible(batch_size, run),
        0 <= i < run.len(),
    ensures
        answers(batch_size, run)[i] is OnStop <==> {
            ||| tells_of_cancel(run[i])
            ||| run[i] matches Input::Received { batch, .. } && batch.len() == 0
        },
        answers(batch_size, run)[i] == Action::<M>::OnStop(StopCause::Cancelled) <==>
            tells_of_cancel(run[i]),
{
}

/// The worker leaves after a failed start and after the stop hook, and at no other time.
pub proof fn law_the_worker_leaves_for_a_reason<M>(batch_size: usize, run: Seq<Input<M>>, i: int)
    requires
        possible(batch_size, run),
        0 <= i < run.len(),
    ensures
        answers(batch_size, run)[i] is Exit <==> run[i] == Input::<M>::Started(Outcome::Failed)
            || run[i] is Stopped,
{
}

/// A worker that started well goes on for as long as it learns of no cancellation and its
/// mailbox is not closed: it handles a message or waits for more.
pub proof fn law_the_worker_goes_on<M>(batch_size: usize, run: Seq<Input<M>>)
    requires
        possible(batch_size, run),
        started(run),
        forall|i: int|
            0 <= i < run.len() ==> !tells_of_cancel(#[trigger] run[i]) && (run[i] matches
                Input::Received { batch, .. } ==> batch.len() > 0),
    ensures
        reached(batch_size, run).phase == Phase::Receiving || reached(batch_size, run).phase
            == Phase::Handling,
        !(answers(batch_size, run).last() is OnStop),
        !(answers(batch_size, run).last() is Exit),
    decreases run.len(),
{
    lemma_phase(batch_size, run);
    let before = run.drop_last();
    lemma_last_step(batch_size, run);
    lemma_phase(batch_size, before);
    assert(run[run.len() - 1] == run.last());
    if run.len() > 2 {
        let well = Input::<M>::Started(Outcome::Completed);
        assert(before[1] == run[1]);
        assert(before.contains(well));
        assert forall|i: int| 0 <= i < before.len() implies !tells_of_cancel(#[trigger] before[i])
            && (before[i] matches Input::Received { batch, .. } ==> batch.len() > 0) by {
            assert(run[i] == before[i]);
        }
        law_the_worker_goes_on(batch_size, before);
    }
}

/// A message goes to its handler as soon as it is its turn: the first of a batch when the
/// batch comes, unless the flag is set then, and each further one when the handler before
/// it is done. Only when all that came was handled does the worker wait for more.
pub proof fn law_messages_are_handled_at_once<M>(batch_size: usize, run: Seq<Input<M>>, i: int)
    requires
        possible(batch_size, run),
        0 <= i < run.len(),
    ensures
        run[i] matches Input::Received { batch, cancelled } ==> (!cancelled && batch.len() > 0
            ==> answers(batch_size, run)[i] == Action::Handle(batch[0])),
        ({
            let done = handled(answers(batch_size, run).take(i));
            let came = received(run.take(i));
            run[i] is Handled ==> if done.len() < came.len() {
                answers(batch_size, run)[i] == Action::Handle(came[done.len() as int])
            } else {
                answers(batch_size, run)[i] == Action::<M>::Receive(batch_size)
            }
        }),
        run[i] == Input::<M>::Started(Outcome::Completed) ==> answers(batch_size, run)[i]
            == Action::<M>::Receive(batch_size),
{
    lemma_prefix(batch_size, run, i);
    lemma_state(batch_size, run.take(i));
    law_messages_are_handled_in_order(batch_size, run.take(i));
    assert forall|k: int| 0 <= k < i implies run.take(k) == #[trigger] run.take(i).take(k) by {}
    assert(answers(batch_size, run.take(i)) =~= answers(batch_size, run).take(i));
}

/// The worker takes what its last answer can lead to, and nothing else: at first that it
/// was launched, then the end of the hook or the handler that it asked for, a batch or a
/// cancellation where it asked to receive, and nothing after it has left.
pub proof fn law_the_worker_takes_what_it_asked_for<M>(
    batch_size: usize,
    run: Seq<Input<M>>,
    input: Input<M>,
)
    requires
        possible(batch_size, run),
    ensures
        possible(batch_size, run.push(input)) <==> if run.len() == 0 {
            input is Launched
        } else {
            match answers(batch_size, run).last() {
                Action::OnStart => input is Started,
                Action::Receive(_) => input is Received || input is Cancelled,
                Action::Handle(_) => input is Handled,
                Action::OnStop(_) => input is Stopped,
                Action::Exit => false,
            }
        },
{
    let longer = run.push(input);
    assert(longer.drop_last() == run);
    lemma_last_step(batch_size, longer);
    if run.len() > 0 {
        lemma_last_step(batch_size, run);
    }
    if reached(batch_size, run).accepts(input) {
        assert forall|i: int| 0 <= i < longer.len() implies #[trigger] reached(
            batch_size,
            longer.take(i),
        ).accepts(longer[i]) by {
            assert(longer.take(i) == run.take(i));
            if i < run.len() {
                assert(reached(batch_size, run.take(i)).accepts(run[i]));
            } else {
                assert(run.take(i) == run);
            }
        }
    }
}

/// An actor whose flag is never read as set, and that is not told of a cancellation while
/// it waits, stops for a closed mailbox only and handles all that it receives, whether its
/// handlers fail or not. A worker can read the flag of its token and nothing else, so its
/// own steps do not change what is read.
pub proof fn law_only_a_cancellation_cuts_a_run_short<M, T: StopFlag>(
    flag: T,
    batch_size: usize,
    run: Seq<Input<M>>,
    i: int,
)
    requires
        possible(batch_size, run),
        !flag.may_read(true),
        forall|k: int|
            0 <= k < run.len() ==> !(#[trigger] run[k] is Cancelled) && (run[k] matches
                Input::Received { cancelled, .. } ==> flag.may_read(cancelled)),
        0 <= i < run.len(),
    ensures
        answers(batch_size, run)[i] is OnStop ==> (run[i] matches Input::Received { batch, .. }
            && batch.len() == 0),
        run[i] matches Input::Received { batch, .. } ==> (batch.len() > 0
            ==> answers(batch_size, run)[i] == Action::Handle(batch[0])),
        reached(batch_size, run).phase != Phase::Handling ==> handled(answers(batch_size, run))
            == received(run),
{
    assert forall|k: int| 0 <= k < run.len() implies !tells_of_cancel(#[trigger] run[k]) by {}
    law_the_stop_hook_needs_a_cause(batch_size, run, i);
    law_messages_are_handled_at_once(batch_size, run, i);
    if reached(batch_size, run).phase != Phase::Handling {
        law_no_message_is_lost(batch_size, run);
    }
}

} // verus!
