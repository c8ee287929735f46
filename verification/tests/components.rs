use act_zero::actor::{outcome_stops_actor, poll_step, Canceled, PollStep, Produces, RecvEvent};
use act_zero::async_fn::{AsyncMap, Closure};
use act_zero::channel::call_reply;
use act_zero::remote::Remote;
use act_zero::timer::{tick_decision, InternalTimerState, Timer, TimerCmd, TimerState};
use act_zero::utils::IntoResult;
use act_zero::addr::{Addr, WeakAddr};

#[test]
fn timer_state_deadline_and_interval() {
    assert_eq!(TimerState::Inactive.deadline(), None);
    assert_eq!(TimerState::Inactive.interval(), None);
    assert_eq!(TimerState::Timeout { deadline: 40 }.deadline(), Some(40));
    assert_eq!(TimerState::Timeout { deadline: 40 }.interval(), None);
    let repeating = TimerState::Interval { deadline: 40, interval: 7 };
    assert_eq!(repeating.deadline(), Some(40));
    assert_eq!(repeating.interval(), Some(7));
    assert_eq!(TimerState::default(), TimerState::Inactive);
}

#[test]
fn tick_decision_rules() {
    assert_eq!(tick_decision(TimerState::Inactive, 100), (false, TimerState::Inactive));
    assert_eq!(
        tick_decision(TimerState::Timeout { deadline: 40 }, 39),
        (false, TimerState::Timeout { deadline: 40 })
    );
    assert_eq!(
        tick_decision(TimerState::Timeout { deadline: 40 }, 40),
        (true, TimerState::Inactive)
    );
    let repeating = TimerState::Interval { deadline: 40, interval: 7 };
    assert_eq!(tick_decision(repeating, 39), (false, repeating));
    assert_eq!(
        tick_decision(repeating, 41),
        (true, TimerState::Interval { deadline: 47, interval: 7 })
    );
}

#[test]
fn timer_one_shot_elapses_once() {
    let mut timer = Timer::new();
    assert!(!timer.is_active());
    let cmd = timer.set_timeout_weak(WeakAddr::detached(), 50);
    assert!(matches!(cmd, TimerCmd::ScheduleWeak { deadline: 50, .. }));
    assert!(timer.is_active());
    assert_eq!(timer.state(), TimerState::Timeout { deadline: 50 });
    // A spurious tick before the deadline fires nothing.
    let (fired, cmd) = timer.tick(49);
    assert!(!fired);
    assert!(cmd.is_none());
    let (fired, cmd) = timer.tick(50);
    assert!(fired);
    assert!(cmd.is_none());
    assert!(!timer.is_active());
    // Once elapsed, the timer is inactive and stays silent.
    let (fired, _) = timer.tick(60);
    assert!(!fired);
}

#[test]
fn timer_interval_rearms_itself() {
    let mut timer = Timer::new();
    let cmd = timer.set_interval_at_weak(WeakAddr::detached(), 10, 25);
    assert!(matches!(cmd, TimerCmd::ScheduleWeak { deadline: 10, .. }));
    assert_eq!(timer.state(), TimerState::Interval { deadline: 10, interval: 25 });
    let (fired, cmd) = timer.tick(12);
    assert!(fired);
    // The timer re-armed one interval later and handed back the task.
    match cmd {
        Some(TimerCmd::ScheduleWeak { deadline, .. }) => assert_eq!(deadline, 35),
        _ => panic!("an elapsed repeating timer schedules its next tick"),
    }
    assert_eq!(timer.state(), TimerState::Interval { deadline: 35, interval: 25 });
    let (fired, cmd) = timer.tick(20);
    assert!(!fired);
    assert!(cmd.is_none());
}

#[test]
fn timer_strong_interval_keeps_handle() {
    let mut timer = Timer::new();
    let addr = Addr::detached();
    let cmd = timer.set_interval_strong(addr, 5, 10);
    assert!(matches!(cmd, TimerCmd::ScheduleStrong { deadline: 5, .. }));
    let (fired, cmd) = timer.tick(5);
    assert!(fired);
    assert!(matches!(cmd, Some(TimerCmd::ScheduleStrong { deadline: 15, .. })));
    match timer.state {
        InternalTimerState::IntervalStrong { deadline, interval, .. } => {
            assert_eq!((deadline, interval), (15, 10));
        }
        _ => panic!("a strong interval timer stays strong"),
    }
}

#[test]
fn timer_timeout_for_adds_duration() {
    let mut timer = Timer::new();
    let cmd = timer.set_timeout_for_strong(Addr::detached(), 100, 30);
    assert!(matches!(cmd, TimerCmd::ScheduleStrong { deadline: 130, .. }));
    assert_eq!(timer.state(), TimerState::Timeout { deadline: 130 });
    timer.clear();
    assert_eq!(timer.state(), TimerState::Inactive);
    let cmd = timer.run_with_timeout_for_weak(WeakAddr::detached(), 7, 3);
    assert!(matches!(cmd, TimerCmd::ScheduleWeak { deadline: 10, .. }));
    assert_eq!(timer.state(), TimerState::Timeout { deadline: 10 });
}

#[test]
fn produces_ok_wraps_value() {
    let r: Result<Produces<u32, u64>, Canceled> = Produces::ok(17);
    match r {
        Ok(Produces::Value(v)) => assert_eq!(v, 17),
        _ => panic!("ok wraps the value directly"),
    }
}

#[test]
fn poll_step_resolves_terminal_cells() {
    let empty: Produces<u32, u64> = Produces::Empty;
    match poll_step(empty, RecvEvent::Dropped) {
        PollStep::Ready(outcome) => assert_eq!(outcome, Err(Canceled)),
        _ => panic!("an empty cell resolves to cancellation"),
    }
    let ready: Produces<u32, u64> = Produces::Value(5);
    match poll_step(ready, RecvEvent::Dropped) {
        PollStep::Ready(outcome) => assert_eq!(outcome, Ok(5)),
        _ => panic!("a ready cell resolves to its value"),
    }
}

#[test]
fn poll_step_follows_the_slot() {
    let deferred: Produces<u32, u64> = Produces::Deferred(9);
    match poll_step(deferred, RecvEvent::Pending(9)) {
        PollStep::NotYet(Produces::Deferred(slot)) => assert_eq!(slot, 9),
        _ => panic!("a pending slot is reinstalled"),
    }
    let deferred: Produces<u32, u64> = Produces::Deferred(9);
    match poll_step(deferred, RecvEvent::Dropped) {
        PollStep::Ready(outcome) => assert_eq!(outcome, Err(Canceled)),
        _ => panic!("a dropped producer resolves to cancellation"),
    }
    // A delivered inner cell collapses one link of indirection and is
    // polled again within the same call.
    let deferred: Produces<u32, u64> = Produces::Deferred(9);
    match poll_step(deferred, RecvEvent::Delivered(Produces::Deferred(10))) {
        PollStep::Collapse(inner) => match poll_step(inner, RecvEvent::Delivered(Produces::Value(3))) {
            PollStep::Collapse(inner2) => match poll_step(inner2, RecvEvent::Dropped) {
                PollStep::Ready(outcome) => assert_eq!(outcome, Ok(3)),
                _ => panic!("the collapsed chain ends in the value"),
            },
            _ => panic!("a delivered cell collapses again"),
        },
        _ => panic!("a delivered cell collapses"),
    }
}

#[test]
fn outcome_rule_for_fire_and_forget() {
    assert!(!outcome_stops_actor(false, true));
    assert!(!outcome_stops_actor(false, false));
    assert!(outcome_stops_actor(true, true));
    assert!(!outcome_stops_actor(true, false));
}

#[test]
fn call_reply_delivers_to_live_caller() {
    let (tx, mut rx) = futures::channel::oneshot::channel();
    let stop = call_reply(tx, Ok::<u32, Canceled>(42), true);
    assert!(!stop);
    assert_eq!(rx.try_recv(), Ok(Some(42)));
}

#[test]
fn call_reply_to_gone_caller_never_stops_actor() {
    let (tx, rx) = futures::channel::oneshot::channel();
    drop(rx);
    let stop = call_reply(tx, Ok::<u32, Canceled>(42), true);
    assert!(!stop);
}

#[test]
fn call_reply_error_consults_hook() {
    let (tx, mut rx) = futures::channel::oneshot::channel::<u32>();
    let stop = call_reply(tx, Err::<u32, Canceled>(Canceled), false);
    assert!(!stop);
    assert_eq!(rx.try_recv(), Err(futures::channel::oneshot::Canceled));
    let (tx, _rx) = futures::channel::oneshot::channel::<u32>();
    let stop = call_reply(tx, Err::<u32, Canceled>(Canceled), true);
    assert!(stop);
}

#[test]
fn into_result_conversions() {
    let plain: Result<u32, Canceled> = IntoResult::<u32, Canceled>::into_result(5u32);
    assert_eq!(plain, Ok(5));
    let already: Result<u32, Canceled> =
        IntoResult::<u32, Canceled>::into_result(Err::<u32, Canceled>(Canceled));
    assert_eq!(already, Err(Canceled));
}

#[test]
fn closure_binds_its_upvar() {
    let closure = Closure::<u32, fn(&u32, u32) -> u32, u32>::new(|_x, y| y, 7);
    assert_eq!(closure.upvar, 7);
    assert_eq!((closure.fun)(&1, closure.upvar), 7);
    let mapped = AsyncMap::new(3u8, 4u8);
    assert_eq!((mapped.fun, mapped.g), (3, 4));
}

#[test]
fn remote_proxy_keeps_inner_value() {
    let remote = Remote::new(11u64);
    assert_eq!(*remote.inner(), 11);
}

#[test]
fn tick_decision_at_extreme_deadline() {
    let latest = TimerState::Timeout { deadline: u64::MAX };
    assert_eq!(tick_decision(latest, u64::MAX - 1), (false, latest));
    assert_eq!(tick_decision(latest, u64::MAX), (true, TimerState::Inactive));
}

#[test]
fn produces_carries_owned_values() {
    let cell: Produces<String, u64> = Produces::Value(String::from("hello"));
    match poll_step(cell, RecvEvent::Dropped) {
        PollStep::Ready(outcome) => assert_eq!(outcome, Ok(String::from("hello"))),
        _ => panic!("a ready cell resolves to its value"),
    }
}
