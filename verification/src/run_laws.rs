//! What holds of every run loop, whatever events it is fed.

use vstd::prelude::*;
use crate::control::ControlMessage;
use crate::cronueue::{
    after_success, initial_state, invocations, run, step, within_policy, Event, ExecType,
    ExitReason, Phase, RunState, Schedule,
};

verus! {

/// The event of a terminate message taken from the channel.
pub open spec fn stop_signal() -> Event {
    Event::Signal(ControlMessage::Terminate.wire())
}

/// An event that ends a loop from outside or through a fault: a terminate
/// message, a closed channel, or a failed action.
pub open spec fn is_disturbance(e: Event) -> bool {
    e == stop_signal() || e == Event::ChannelClosed || e == Event::ActionDone(false)
}

/// No event of the sequence is a disturbance.
pub open spec fn undisturbed(events: Seq<Event>) -> bool {
    forall|i: int| 0 <= i < events.len() ==> !is_disturbance(#[trigger] events[i])
}

/// How the count of started runs relates to a state reached from the start.
pub open spec fn counted(sched: Schedule, s: RunState, started: nat) -> bool {
    &&& sched.exec_type != ExecType::Forever ==> started == (match s.phase {
        Phase::Executing => s.times_ran + 1,
        Phase::Terminated(ExitReason::ActionFault) => s.times_ran + 1,
        _ => s.times_ran as int,
    })
    &&& within_policy(sched.exec_type, s)
}

/// Every state reached from the start keeps the count of started runs in
/// step with the repetition policy, and an undisturbed loop ends only by
/// completing.
pub proof fn lemma_reachable(sched: Schedule, events: Seq<Event>)
    requires
        sched.exec_type.wf(),
    ensures
        counted(
            sched,
            run(sched, initial_state(), events),
            invocations(sched, initial_state(), events),
        ),
        undisturbed(events) ==> (run(sched, initial_state(), events).phase matches Phase::Terminated(
            reason,
        ) ==> reason == ExitReason::Completed),
    decreases events.len(),
{
    if events.len() > 0 {
        let earlier = events.drop_last();
        lemma_reachable(sched, earlier);
        if undisturbed(events) {
            assert forall|i: int| 0 <= i < earlier.len() implies !is_disturbance(
                #[trigger] earlier[i],
            ) by {
                assert(earlier[i] == events[i]);
            }
            assert(!is_disturbance(events[events.len() - 1]));
        }
    }
}

/// A task that runs a given number of times starts its action at most that
/// often, has started it exactly that often when its loop completes, and,
/// left undisturbed, ends in no other way.
pub proof fn law_multiple_runs_count_times(sched: Schedule, count: u32, events: Seq<Event>)
    requires
        sched.exec_type == ExecType::Multiple(count),
        count >= 1,
    ensures
        invocations(sched, initial_state(), events) <= count,
        run(sched, initial_state(), events).phase == Phase::Terminated(ExitReason::Completed)
            ==> invocations(sched, initial_state(), events) == count,
        undisturbed(events) && run(sched, initial_state(), events).phase is Terminated
            ==> invocations(sched, initial_state(), events) == count,
{
    lemma_reachable(sched, events);
}

/// A task that runs once starts its action at most once, has started it
/// exactly once when its loop completes, and, left undisturbed, ends in no
/// other way.
pub proof fn law_once_runs_once(sched: Schedule, events: Seq<Event>)
    requires
        sched.exec_type == ExecType::Once,
    ensures
        invocations(sched, initial_state(), events) <= 1,
        run(sched, initial_state(), events).phase == Phase::Terminated(ExitReason::Completed)
            ==> invocations(sched, initial_state(), events) == 1,
        undisturbed(events) && run(sched, initial_state(), events).phase is Terminated
            ==> invocations(sched, initial_state(), events) == 1,
{
    lemma_reachable(sched, events);
}

/// A task that runs forever never ends by completing.
pub proof fn law_forever_never_completes(sched: Schedule, events: Seq<Event>)
    requires
        sched.exec_type == ExecType::Forever,
    ensures
        run(sched, initial_state(), events).phase != Phase::Terminated(ExitReason::Completed),
{
    lemma_reachable(sched, events);
}

/// A loop that has ended stays as it is and starts nothing more.
pub proof fn law_terminated_is_final(sched: Schedule, s: RunState, events: Seq<Event>)
    requires
        s.phase is Terminated,
    ensures
        run(sched, s, events) == s,
        invocations(sched, s, events) == 0,
    decreases events.len(),
{
    if events.len() > 0 {
        law_terminated_is_final(sched, s, events.drop_last());
    }
}

/// A terminate message taken by a waiting loop ends it at once, whatever the
/// task's repetition policy, and nothing runs afterwards.
pub proof fn law_terminate_stops(sched: Schedule, s: RunState, later: Seq<Event>)
    requires
        s.phase == Phase::AwaitingSignal,
    ensures
        step(sched, s, stop_signal()).phase == Phase::Terminated(ExitReason::Stopped),
        step(sched, s, stop_signal()).times_ran == s.times_ran,
        run(sched, step(sched, s, stop_signal()), later) == step(sched, s, stop_signal()),
        invocations(sched, step(sched, s, stop_signal()), later) == 0,
{
    law_terminated_is_final(sched, step(sched, s, stop_signal()), later);
}

/// A pause never stops a task. The message for a pause of positive length,
/// taken by a waiting loop, puts the loop to sleep for that length and
/// changes nothing else; when the pause is over the loop evaluates. No
/// message stands for a pause of no length.
pub proof fn law_pause_does_not_stop(sched: Schedule, s: RunState, millis: u32)
    requires
        s.phase == Phase::AwaitingSignal,
    ensures
        millis == 0 <==> ControlMessage::pause_of(millis) is None,
        ControlMessage::pause_of(millis) matches Some(msg) ==> {
            let asleep = step(sched, s, Event::Signal(msg.wire()));
            &&& asleep == (RunState { phase: Phase::Sleeping(millis), ..s })
            &&& step(sched, asleep, Event::SleepElapsed) == (RunState {
                phase: Phase::Evaluating,
                ..s
            })
        },
{
}

/// A run of the action starts only when the clock is read at or after the
/// task's execution time.
pub proof fn law_runs_only_when_due(sched: Schedule, s: RunState, e: Event)
    requires
        s.phase != Phase::Executing,
        step(sched, s, e).phase == Phase::Executing,
    ensures
        s.phase == Phase::Evaluating,
        e matches Event::Clock(now) && now >= sched.exec_time,
{
}

/// Running a sequence of events and then another is running the two in a
/// row, and the starts of the action add up.
pub proof fn lemma_run_append(sched: Schedule, s: RunState, first: Seq<Event>, then: Seq<Event>)
    ensures
        run(sched, s, first + then) == run(sched, run(sched, s, first), then),
        invocations(sched, s, first + then) == invocations(sched, s, first) + invocations(
            sched,
            run(sched, s, first),
            then,
        ),
    decreases then.len(),
{
    if then.len() == 0 {
        assert(first + then =~= first);
    } else {
        assert((first + then).drop_last() =~= first + then.drop_last());
        assert((first + then).last() == then.last());
        lemma_run_append(sched, s, first, then.drop_last());
    }
}

/// One full turn of a loop whose task is due: a pause message, the end of
/// the pause, a clock reading, and the success of the action.
pub open spec fn due_cycle(pause: u32, now: i64) -> Seq<Event> {
    seq![Event::Signal(pause), Event::SleepElapsed, Event::Clock(now), Event::ActionDone(true)]
}

/// `k` full turns in a row.
pub open spec fn due_cycles(k: nat, pause: u32, now: i64) -> Seq<Event>
    decreases k,
{
    if k == 0 {
        Seq::empty()
    } else {
        due_cycles((k - 1) as nat, pause, now) + due_cycle(pause, now)
    }
}

/// One full turn of a waiting loop whose task is due starts the action
/// once and ends as a successful run ends.
pub proof fn lemma_due_cycle(sched: Schedule, s: RunState, pause: u32, now: i64)
    requires
        s.phase == Phase::AwaitingSignal,
        pause > 0,
        now >= sched.exec_time,
    ensures
        run(sched, s, due_cycle(pause, now)) == after_success(
            sched.exec_type,
            RunState { phase: Phase::Executing, times_ran: s.times_ran },
        ),
        invocations(sched, s, due_cycle(pause, now)) == 1,
{
    let c = due_cycle(pause, now);
    let c3 = c.drop_last();
    let c2 = c3.drop_last();
    let c1 = c2.drop_last();
    assert(c1.drop_last() =~= Seq::<Event>::empty());
    assert(run(sched, s, c1.drop_last()) == s);
    assert(invocations(sched, s, c1.drop_last()) == 0);
    assert(c1.last() == Event::Signal(pause));
    assert(run(sched, s, c1).phase == Phase::Sleeping(pause));
    assert(c2.last() == Event::SleepElapsed);
    assert(run(sched, s, c2).phase == Phase::Evaluating);
    assert(c3.last() == Event::Clock(now));
    assert(run(sched, s, c3).phase == Phase::Executing);
    assert(c.last() == Event::ActionDone(true));
    assert(invocations(sched, s, c1) == 0);
    assert(invocations(sched, s, c2) == 0);
    assert(invocations(sched, s, c3) == 1);
}

/// A task that runs `count` times and is due comes, turn by turn, to run
/// its action once per turn; after `count` turns its loop has completed,
/// and not before.
pub proof fn law_due_task_completes(
    sched: Schedule,
    count: u32,
    k: nat,
    pause: u32,
    now: i64,
)
    requires
        sched.exec_type == ExecType::Multiple(count),
        count >= 1,
        k <= count,
        pause > 0,
        now >= sched.exec_time,
    ensures
        invocations(sched, initial_state(), due_cycles(k, pause, now)) == k,
        run(sched, initial_state(), due_cycles(k, pause, now)).times_ran == k,
        run(sched, initial_state(), due_cycles(k, pause, now)).phase == (if k == count {
            Phase::Terminated(ExitReason::Completed)
        } else {
            Phase::AwaitingSignal
        }),
    decreases k,
{
    if k > 0 {
        let earlier = due_cycles((k - 1) as nat, pause, now);
        law_due_task_completes(sched, count, (k - 1) as nat, pause, now);
        lemma_run_append(sched, initial_state(), earlier, due_cycle(pause, now));
        lemma_due_cycle(sched, run(sched, initial_state(), earlier), pause, now);
    }
}

/// A task that runs once and is due completes in one turn, with one run of
/// its action.
pub proof fn law_due_once_completes(sched: Schedule, pause: u32, now: i64)
    requires
        sched.exec_type == ExecType::Once,
        pause > 0,
        now >= sched.exec_time,
    ensures
        invocations(sched, initial_state(), due_cycle(pause, now)) == 1,
        run(sched, initial_state(), due_cycle(pause, now)) == (RunState {
            phase: Phase::Terminated(ExitReason::Completed),
            times_ran: 1,
        }),
{
    lemma_due_cycle(sched, initial_state(), pause, now);
}

/// The shared session is held by a loop only while it is executing. When
/// the action returns, with success or without, the loop leaves that phase:
/// what it held is free again.
pub proof fn law_action_end_frees_the_session(sched: Schedule, s: RunState, ok: bool)
    requires
        s.phase == Phase::Executing,
    ensures
        step(sched, s, Event::ActionDone(ok)).phase != Phase::Executing,
        !ok ==> step(sched, s, Event::ActionDone(ok)).phase == Phase::Terminated(
            ExitReason::ActionFault,
        ),
{
}

} // verus!
