//! Scheduled tasks and the state machine of their run loop.
//!
//! A run loop waits for a control message, pauses for as long as the message
//! says, compares the clock with the task's due time, and runs the action when
//! the task is due. Waiting, pausing and running the action are done by the
//! caller; the loop itself only decides what comes next.

use vstd::prelude::*;
use crossbeam_channel::{Receiver, RecvError};
use crate::action::Action;
use crate::control::ControlMessage;

verus! {

/// Reads the system clock through `chrono::Utc::now` and gives the time as
/// `DateTime::timestamp_millis` does: milliseconds since the Unix epoch.
/// Nothing is claimed of the value: it depends on when the call is made.
/// `Utc::now` panics where the system clock stands before the epoch.
#[verifier::external_body]
fn clock_millis() -> (now: i64) {
    chrono::Utc::now().timestamp_millis()
}

/// The event that the outcome of a receive stands for.
pub fn signal_event(received: Result<u32, RecvError>) -> (e: Event)
    ensures
        e == (match received {
            Ok(raw) => Event::Signal(raw),
            Err(_) => Event::ChannelClosed,
        }),
{
    match received {
        Ok(raw) => Event::Signal(raw),
        Err(_) => Event::ChannelClosed,
    }
}

/// How often a task runs its action.
#[derive(Clone, Copy, Debug, PartialEq, Eq, Structural)]
pub enum ExecType {
    Once,
    Multiple(u32),
    Forever,
}

impl ExecType {
    /// A repetition count is positive.
    pub open spec fn wf(self) -> bool {
        self matches ExecType::Multiple(count) ==> count >= 1
    }

    pub fn is_valid(&self) -> (ok: bool)
        ensures
            ok == self.wf(),
    {
        match self {
            ExecType::Multiple(count) => *count >= 1,
            _ => true,
        }
    }
}

/// Why a run loop ended.
#[derive(Clone, Copy, Debug, PartialEq, Eq, Structural)]
pub enum ExitReason {
    /// The repetition policy was satisfied.
    Completed,
    /// A terminate message arrived.
    Stopped,
    /// The control channel closed under the loop.
    ChannelFault,
    /// The action failed.
    ActionFault,
}

/// Where a run loop stands.
#[derive(Clone, Copy, Debug, PartialEq, Eq, Structural)]
pub enum Phase {
    AwaitingSignal,
    Sleeping(u32),
    Evaluating,
    Executing,
    Terminated(ExitReason),
}

/// What the caller reports back to the loop.
#[derive(Clone, Copy, Debug, PartialEq, Eq, Structural)]
pub enum Event {
    /// An integer was taken from the control channel.
    Signal(u32),
    /// The control channel is closed and empty.
    ChannelClosed,
    /// The pause is over.
    SleepElapsed,
    /// The clock was read: milliseconds since the Unix epoch.
    Clock(i64),
    /// The action returned; `true` for success.
    ActionDone(bool),
}

/// The mutable part of a run loop.
#[derive(Clone, Copy, Debug, PartialEq, Eq, Structural)]
pub struct RunState {
    pub phase: Phase,
    /// Successful runs of the action so far.
    pub times_ran: u32,
}

/// The fixed part of a run loop: when the task is due and how often it runs.
#[derive(Clone, Copy, Debug, PartialEq, Eq, Structural)]
pub struct Schedule {
    pub exec_time: i64,
    pub exec_type: ExecType,
}

/// A task is due once the clock has reached its execution time.
pub open spec fn is_due(exec_time: i64, now: i64) -> bool {
    now >= exec_time
}

/// The state in which every run loop starts.
pub open spec fn initial_state() -> RunState {
    RunState { phase: Phase::AwaitingSignal, times_ran: 0 }
}

/// The state after a successful run of the action.
pub open spec fn after_success(exec_type: ExecType, s: RunState) -> RunState {
    let ran: u32 = if s.times_ran < u32::MAX {
        (s.times_ran + 1) as u32
    } else {
        s.times_ran
    };
    match exec_type {
        ExecType::Once => RunState { phase: Phase::Terminated(ExitReason::Completed), times_ran: ran },
        ExecType::Multiple(count) => if ran == count {
            RunState { phase: Phase::Terminated(ExitReason::Completed), times_ran: ran }
        } else {
            RunState { phase: Phase::AwaitingSignal, times_ran: ran }
        },
        ExecType::Forever => RunState { phase: Phase::AwaitingSignal, times_ran: ran },
    }
}

/// One transition of the run loop. An integer taken from the channel is
/// read as the control message it stands for. An event that the current
/// phase does not wait for leaves the state as it is.
pub open spec fn step(sched: Schedule, s: RunState, e: Event) -> RunState {
    match (s.phase, e) {
        (Phase::AwaitingSignal, Event::Signal(raw)) => match ControlMessage::of_wire(raw) {
            ControlMessage::Terminate => RunState {
                phase: Phase::Terminated(ExitReason::Stopped),
                ..s
            },
            ControlMessage::Suspend(millis) => RunState { phase: Phase::Sleeping(millis), ..s },
        },
        (Phase::AwaitingSignal, Event::ChannelClosed) => RunState {
            phase: Phase::Terminated(ExitReason::ChannelFault),
            ..s
        },
        (Phase::Sleeping(_), Event::SleepElapsed) => RunState { phase: Phase::Evaluating, ..s },
        (Phase::Evaluating, Event::Clock(now)) => if is_due(sched.exec_time, now) {
            RunState { phase: Phase::Executing, ..s }
        } else {
            RunState { phase: Phase::AwaitingSignal, ..s }
        },
        (Phase::Executing, Event::ActionDone(ok)) => if ok {
            after_success(sched.exec_type, s)
        } else {
            RunState { phase: Phase::Terminated(ExitReason::ActionFault), ..s }
        },
        _ => s,
    }
}

/// How the count of successful runs stands to the repetition policy: a task
/// that runs once has run once when its loop has completed and not before; a
/// task that runs `count` times has run `count` times when its loop has
/// completed and fewer times before; a task that runs forever never
/// completes.
pub open spec fn within_policy(exec_type: ExecType, s: RunState) -> bool {
    match exec_type {
        ExecType::Once => if s.phase == Phase::Terminated(ExitReason::Completed) {
            s.times_ran == 1
        } else {
            s.times_ran == 0
        },
        ExecType::Multiple(count) => if s.phase == Phase::Terminated(ExitReason::Completed) {
            s.times_ran == count
        } else {
            s.times_ran < count
        },
        ExecType::Forever => s.phase != Phase::Terminated(ExitReason::Completed),
    }
}

/// A step keeps the count of runs within the policy.
pub proof fn lemma_step_within_policy(sched: Schedule, s: RunState, e: Event)
    requires
        sched.exec_type.wf(),
        within_policy(sched.exec_type, s),
    ensures
        within_policy(sched.exec_type, step(sched, s, e)),
{
}

/// The state after a sequence of events, taken in order.
pub open spec fn run(sched: Schedule, s: RunState, events: Seq<Event>) -> RunState
    decreases events.len(),
{
    if events.len() == 0 {
        s
    } else {
        step(sched, run(sched, s, events.drop_last()), events.last())
    }
}

/// Whether event `e`, arriving in state `s`, starts a run of the action.
pub open spec fn starts_action(sched: Schedule, s: RunState, e: Event) -> bool {
    s.phase != Phase::Executing && step(sched, s, e).phase == Phase::Executing
}

/// How many times the action is started along a sequence of events.
pub open spec fn invocations(sched: Schedule, s: RunState, events: Seq<Event>) -> nat
    decreases events.len(),
{
    if events.len() == 0 {
        0
    } else {
        let before = run(sched, s, events.drop_last());
        let earlier = invocations(sched, s, events.drop_last());
        if starts_action(sched, before, events.last()) {
            earlier + 1
        } else {
            earlier
        }
    }
}

/// A task: an action, the time at which it is due, and how often it runs.
#[derive(Debug, PartialEq, Eq)]
pub struct CronueueAction {
    exec_time: i64,
    action: Action,
    exec_type: ExecType,
}

impl Clone for CronueueAction {
    /// A task that is due at the same time, repeats in the same way and
    /// carries an action that does the same.
    fn clone(&self) -> (copy: Self)
        ensures
            copy.spec_exec_time() == self.spec_exec_time(),
            copy.spec_exec_type() == self.spec_exec_type(),
            copy.spec_action().agrees(&self.spec_action()),
            !(self.spec_action() is SearchTwitter) ==> copy.spec_action() == self.spec_action(),
            copy.schedule() == self.schedule(),
    {
        proof {
            use_type_invariant(self);
        }
        CronueueAction {
            exec_time: self.exec_time,
            action: self.action.clone(),
            exec_type: self.exec_type,
        }
    }
}

impl CronueueAction {
    /// A task never holds a repetition count of zero.
    #[verifier::type_invariant]
    spec fn valid(&self) -> bool {
        self.exec_type.wf()
    }

    pub closed spec fn spec_exec_time(&self) -> i64 {
        self.exec_time
    }

    pub closed spec fn spec_exec_type(&self) -> ExecType {
        self.exec_type
    }

    pub closed spec fn spec_action(&self) -> Action {
        self.action
    }

    /// The schedule that the task's run loop follows.
    pub open spec fn schedule(&self) -> Schedule {
        Schedule { exec_time: self.spec_exec_time(), exec_type: self.spec_exec_type() }
    }

    /// A task that runs `action` once the clock has reached `exec_time`,
    /// given in milliseconds since the Unix epoch, and repeats it as
    /// `exec_type` says. A repetition count must be positive.
    pub fn new(exec_time: i64, action: Action, exec_type: ExecType) -> (task: Self)
        requires
            exec_type.wf(),
        ensures
            task.spec_exec_time() == exec_time,
            task.spec_action() == action,
            task.spec_exec_type() == exec_type,
    {
        CronueueAction { exec_time, action, exec_type }
    }

    pub fn exec_time(&self) -> (t: i64)
        ensures
            t == self.spec_exec_time(),
    {
        self.exec_time
    }

    pub fn exec_type(&self) -> (t: ExecType)
        ensures
            t == self.spec_exec_type(),
            t.wf(),
    {
        proof {
            use_type_invariant(self);
        }
        self.exec_type
    }

    pub fn action(&self) -> (a: &Action)
        ensures
            *a == self.spec_action(),
    {
        &self.action
    }
}

/// A run loop: a schedule and the state it has reached.
#[derive(Clone, Copy, Debug)]
pub struct RunLoop {
    sched: Schedule,
    state: RunState,
}

impl RunLoop {
    /// The repetition count is positive and the count of runs is within the
    /// policy.
    #[verifier::type_invariant]
    spec fn valid(&self) -> bool {
        self.sched.exec_type.wf() && within_policy(self.sched.exec_type, self.state)
    }

    /// What holds of every run loop: see [`within_policy`].
    pub open spec fn wf(&self) -> bool {
        self.schedule().exec_type.wf() && within_policy(self.schedule().exec_type, self.state())
    }

    pub closed spec fn schedule(&self) -> Schedule {
        self.sched
    }

    pub closed spec fn state(&self) -> RunState {
        self.state
    }

    /// A loop for `task`, waiting for its first control message.
    pub fn new(task: &CronueueAction) -> (lp: Self)
        ensures
            lp.schedule() == task.schedule(),
            lp.state() == initial_state(),
            lp.wf(),
    {
        RunLoop {
            sched: Schedule { exec_time: task.exec_time(), exec_type: task.exec_type() },
            state: RunState { phase: Phase::AwaitingSignal, times_ran: 0 },
        }
    }

    /// Where the loop stands.
    pub fn phase(&self) -> (p: Phase)
        ensures
            p == self.state().phase,
            self.wf(),
    {
        proof {
            use_type_invariant(self);
        }
        self.state.phase
    }

    /// How often the action has run with success.
    pub fn times_ran(&self) -> (n: u32)
        ensures
            n == self.state().times_ran,
            self.wf(),
    {
        proof {
            use_type_invariant(self);
        }
        self.state.times_ran
    }

    /// The reason for which the loop ended, if it has ended.
    pub fn exit_reason(&self) -> (r: Option<ExitReason>)
        ensures
            r == match self.state().phase {
                Phase::Terminated(reason) => Some(reason),
                _ => None,
            },
    {
        match self.state.phase {
            Phase::Terminated(reason) => Some(reason),
            _ => None,
        }
    }

    /// Waits for the next control message, if the loop is waiting for one,
    /// and takes it. In any other phase nothing is received and nothing
    /// changes.
    pub fn await_signal(&mut self, rx: &Receiver<u32>)
        ensures
            final(self).schedule() == old(self).schedule(),
            old(self).state().phase != Phase::AwaitingSignal ==> final(self).state() == old(
                self,
            ).state(),
            old(self).state().phase == Phase::AwaitingSignal ==> (exists|e: Event|
                (e is Signal || e is ChannelClosed) && final(self).state() == #[trigger] step(
                    old(self).schedule(),
                    old(self).state(),
                    e,
                )),
    {
        if self.state.phase == Phase::AwaitingSignal {
            let e = signal_event(rx.recv());
            self.step(e);
        }
    }

    /// Reads the clock, if the loop is due to compare it with the task's
    /// execution time, and decides whether the action runs. In any other
    /// phase nothing changes. The clock is read through `chrono::Utc::now`,
    /// which unwinds where the system clock stands before 1970.
    pub fn evaluate_now(&mut self)
        ensures
            final(self).schedule() == old(self).schedule(),
            old(self).state().phase != Phase::Evaluating ==> final(self).state() == old(
                self,
            ).state(),
            old(self).state().phase == Phase::Evaluating ==> (exists|now: i64|
                final(self).state() == #[trigger] step(
                    old(self).schedule(),
                    old(self).state(),
                    Event::Clock(now),
                )),
    {
        if self.state.phase == Phase::Evaluating {
            let now: i64 = clock_millis();
            self.step(Event::Clock(now));
        }
    }

    /// Takes one event and moves to the next state.
    pub fn step(&mut self, event: Event)
        ensures
            final(self).schedule() == old(self).schedule(),
            final(self).state() == step(old(self).schedule(), old(self).state(), event),
            final(self).wf(),
    {
        proof {
            use_type_invariant(&*self);
            lemma_step_within_policy(self.sched, self.state, event);
        }
        let next = Self::next_state(self.sched, self.state, event);
        self.state = next;
    }

    fn next_state(sched: Schedule, state: RunState, event: Event) -> (next: RunState)
        ensures
            next == step(sched, state, event),
    {
        let times_ran: u32 = state.times_ran;
        let phase = match (state.phase, event) {
            (Phase::AwaitingSignal, Event::Signal(raw)) => match ControlMessage::from_wire(raw) {
                ControlMessage::Terminate => Phase::Terminated(ExitReason::Stopped),
                ControlMessage::Suspend(millis) => Phase::Sleeping(millis),
            },
            (Phase::AwaitingSignal, Event::ChannelClosed) => Phase::Terminated(
                ExitReason::ChannelFault,
            ),
            (Phase::Sleeping(_), Event::SleepElapsed) => Phase::Evaluating,
            (Phase::Evaluating, Event::Clock(now)) => {
                if now >= sched.exec_time {
                    Phase::Executing
                } else {
                    Phase::AwaitingSignal
                }
            },
            (Phase::Executing, Event::ActionDone(false)) => Phase::Terminated(
                ExitReason::ActionFault,
            ),
            (Phase::Executing, Event::ActionDone(true)) => {
                let ran: u32 = if times_ran < u32::MAX {
                    times_ran + 1
                } else {
                    times_ran
                };
                let done = match sched.exec_type {
                    ExecType::Once => true,
                    ExecType::Multiple(count) => ran == count,
                    ExecType::Forever => false,
                };
                let after = if done {
                    Phase::Terminated(ExitReason::Completed)
                } else {
                    Phase::AwaitingSignal
                };
                return RunState { phase: after, times_ran: ran };
            },
            (phase, _) => phase,
        };
        RunState { phase, times_ran }
    }
}

} // verus!
