use cronueue::action::{Action, TextPost};
use cronueue::control::ControlMessage;
use cronueue::cronueue::{CronueueAction, Event, ExecType, ExitReason, Phase, RunLoop};

fn sample_action() -> Action {
    Action::PostText(TextPost { url: String::from("https://example.org"), content: String::from("hi") })
}

fn task(exec_time: i64, exec_type: ExecType) -> CronueueAction {
    CronueueAction::new(exec_time, sample_action(), exec_type)
}

/// Feeds one full cycle: a pause message, the end of the pause, a clock
/// reading, and, if the action was started, its success. Returns whether the
/// action was started.
fn cycle(lp: &mut RunLoop, now: i64) -> bool {
    lp.step(Event::Signal(5));
    assert_eq!(lp.phase(), Phase::Sleeping(5));
    lp.step(Event::SleepElapsed);
    assert_eq!(lp.phase(), Phase::Evaluating);
    lp.step(Event::Clock(now));
    if lp.phase() == Phase::Executing {
        lp.step(Event::ActionDone(true));
        true
    } else {
        false
    }
}

#[test]
fn new_loop_waits_for_a_signal() {
    let lp = RunLoop::new(&task(100, ExecType::Once));
    assert_eq!(lp.phase(), Phase::AwaitingSignal);
    assert_eq!(lp.times_ran(), 0);
    assert_eq!(lp.exit_reason(), None);
}

#[test]
fn multiple_three_runs_three_times_then_terminates() {
    let mut lp = RunLoop::new(&task(1_000, ExecType::Multiple(3)));
    let mut started = 0;
    for _ in 0..3 {
        assert_eq!(lp.exit_reason(), None);
        if cycle(&mut lp, 5_000) {
            started += 1;
        }
    }
    assert_eq!(started, 3);
    assert_eq!(lp.times_ran(), 3);
    assert_eq!(lp.phase(), Phase::Terminated(ExitReason::Completed));
    lp.step(Event::Signal(5));
    lp.step(Event::SleepElapsed);
    lp.step(Event::Clock(9_000));
    assert_eq!(lp.phase(), Phase::Terminated(ExitReason::Completed));
    assert_eq!(lp.times_ran(), 3);
}

#[test]
fn once_runs_once() {
    let mut lp = RunLoop::new(&task(0, ExecType::Once));
    assert!(cycle(&mut lp, 1));
    assert_eq!(lp.times_ran(), 1);
    assert_eq!(lp.exit_reason(), Some(ExitReason::Completed));
}

#[test]
fn forever_stops_only_on_terminate() {
    let mut lp = RunLoop::new(&task(0, ExecType::Forever));
    for k in 0..10u32 {
        assert!(cycle(&mut lp, 50));
        assert_eq!(lp.phase(), Phase::AwaitingSignal);
        assert_eq!(lp.times_ran(), k + 1);
    }
    lp.step(Event::Signal(0));
    assert_eq!(lp.phase(), Phase::Terminated(ExitReason::Stopped));
    let ran = lp.times_ran();
    lp.step(Event::Signal(7));
    lp.step(Event::SleepElapsed);
    lp.step(Event::Clock(100));
    lp.step(Event::ActionDone(true));
    assert_eq!(lp.phase(), Phase::Terminated(ExitReason::Stopped));
    assert_eq!(lp.times_ran(), ran);
}

#[test]
fn terminate_stops_every_policy_at_once() {
    for exec_type in [ExecType::Once, ExecType::Multiple(4), ExecType::Forever] {
        let mut lp = RunLoop::new(&task(0, exec_type));
        lp.step(Event::Signal(0));
        assert_eq!(lp.phase(), Phase::Terminated(ExitReason::Stopped));
        assert_eq!(lp.times_ran(), 0);
    }
}

#[test]
fn not_due_goes_back_to_waiting() {
    let mut lp = RunLoop::new(&task(1_000, ExecType::Once));
    assert!(!cycle(&mut lp, 999));
    assert_eq!(lp.phase(), Phase::AwaitingSignal);
    assert_eq!(lp.times_ran(), 0);
    assert!(cycle(&mut lp, 1_000));
    assert_eq!(lp.exit_reason(), Some(ExitReason::Completed));
}

#[test]
fn failed_action_ends_the_loop() {
    let mut lp = RunLoop::new(&task(0, ExecType::Forever));
    lp.step(Event::Signal(1));
    lp.step(Event::SleepElapsed);
    lp.step(Event::Clock(0));
    assert_eq!(lp.phase(), Phase::Executing);
    lp.step(Event::ActionDone(false));
    assert_eq!(lp.exit_reason(), Some(ExitReason::ActionFault));
    assert_eq!(lp.times_ran(), 0);
}

#[test]
fn closed_channel_ends_the_loop() {
    let mut lp = RunLoop::new(&task(0, ExecType::Multiple(2)));
    lp.step(Event::ChannelClosed);
    assert_eq!(lp.exit_reason(), Some(ExitReason::ChannelFault));
}

#[test]
fn events_out_of_turn_change_nothing() {
    let mut lp = RunLoop::new(&task(0, ExecType::Once));
    lp.step(Event::SleepElapsed);
    lp.step(Event::Clock(10));
    lp.step(Event::ActionDone(true));
    assert_eq!(lp.phase(), Phase::AwaitingSignal);
    assert_eq!(lp.times_ran(), 0);
    lp.step(Event::Signal(3));
    lp.step(Event::Signal(0));
    lp.step(Event::ChannelClosed);
    assert_eq!(lp.phase(), Phase::Sleeping(3));
}

#[test]
fn wire_form_of_messages() {
    assert_eq!(ControlMessage::Terminate.to_wire(), 0);
    assert_eq!(ControlMessage::Suspend(250).to_wire(), 250);
    assert_eq!(ControlMessage::from_wire(0), ControlMessage::Terminate);
    assert_eq!(ControlMessage::from_wire(250), ControlMessage::Suspend(250));
    assert_eq!(ControlMessage::Suspend(u32::MAX).to_wire(), u32::MAX);
    assert_eq!(ControlMessage::from_wire(1), ControlMessage::Suspend(1));
}

#[test]
fn no_message_stands_for_a_pause_of_zero() {
    assert_eq!(ControlMessage::pause(0), None);
    assert_eq!(ControlMessage::pause(1), Some(ControlMessage::Suspend(1)));
    assert_eq!(ControlMessage::pause(250), Some(ControlMessage::Suspend(250)));
    assert!(!ControlMessage::Suspend(0).is_valid());
    assert!(ControlMessage::Suspend(1).is_valid());
    assert!(ControlMessage::Terminate.is_valid());
    assert!(ControlMessage::from_wire(0).is_valid());
}

#[test]
fn a_pause_puts_the_loop_to_sleep_and_a_stop_ends_it() {
    let mut paused = RunLoop::new(&task(0, ExecType::Forever));
    paused.step(Event::Signal(ControlMessage::pause(7).unwrap().to_wire()));
    assert_eq!(paused.phase(), Phase::Sleeping(7));
    assert_eq!(paused.exit_reason(), None);
    let mut stopped = RunLoop::new(&task(0, ExecType::Forever));
    stopped.step(Event::Signal(ControlMessage::Terminate.to_wire()));
    assert_eq!(stopped.phase(), Phase::Terminated(ExitReason::Stopped));
}

#[test]
fn copy_of_a_task_is_the_same_task() {
    let t = task(42, ExecType::Multiple(2));
    let copy = t.clone();
    assert_eq!(copy, t);
    assert_eq!(copy.exec_time(), 42);
    assert_eq!(copy.exec_type(), ExecType::Multiple(2));
    assert_eq!(*copy.action(), sample_action());
}

#[test]
fn repetition_count_must_be_positive() {
    assert!(ExecType::Once.is_valid());
    assert!(ExecType::Forever.is_valid());
    assert!(ExecType::Multiple(1).is_valid());
    assert!(!ExecType::Multiple(0).is_valid());
}

#[test]
fn task_keeps_what_it_was_made_of() {
    let t = task(42, ExecType::Multiple(2));
    assert_eq!(t.exec_time(), 42);
    assert_eq!(t.exec_type(), ExecType::Multiple(2));
    assert_eq!(*t.action(), sample_action());
}
