use act_zero::actor::{poll_step, Canceled, PollStep, Produces, RecvEvent};
use act_zero::addr::Addr;
use act_zero::channel::call_reply;
use act_zero::mailbox::{Decision, Mailbox, Phase};
use act_zero::system::{CallStatus, System};
use act_zero::timer::Timer;

#[test]
fn spawn_runs_started_first() {
    let mut sys = System::new();
    let addr = sys.spawn(7, 100);
    assert!(!matches!(addr.ptr(), None));
    // Externally submitted items line up behind the startup item.
    sys.send_mut(&addr, 200);
    assert_eq!(sys.acquire(0), Decision::Execute(100));
    sys.item_done(0, false);
    assert_eq!(sys.acquire(0), Decision::Execute(200));
    sys.item_done(0, false);
    sys.release(addr);
}

#[test]
fn exclusive_items_run_in_enqueue_order() {
    let mut sys = System::new();
    let addr = sys.spawn(1, 10);
    sys.send_mut(&addr, 11);
    sys.send_mut(&addr, 12);
    sys.send_mut(&addr, 13);
    let mut order = Vec::new();
    loop {
        match sys.acquire(0) {
            Decision::Execute(item) => {
                order.push(item);
                sys.item_done(0, false);
            }
            Decision::Wait => break,
            Decision::Terminate => unreachable!(),
        }
    }
    assert_eq!(order, vec![10, 11, 12, 13]);
    sys.release(addr);
}

#[test]
fn shutdown_after_last_handle_dropped() {
    let mut sys = System::new();
    let addr = sys.spawn(1, 10);
    assert_eq!(sys.acquire(0), Decision::Execute(10));
    sys.item_done(0, false);
    // While a strong handle exists the mailbox waits.
    assert_eq!(sys.acquire(0), Decision::Wait);
    sys.release(addr);
    // The queue is drained and the channel closed: the very next acquire
    // terminates the task and destroys the state, exactly once.
    let decision = sys.acquire(0);
    assert_eq!(decision, Decision::Terminate);
    assert!(sys.actors[0].mailbox.is_terminated());
    assert!(sys.actors[0].mailbox.state_dropped());
}

#[test]
fn queued_work_runs_before_shutdown() {
    let mut sys = System::new();
    let addr = sys.spawn(1, 10);
    sys.send_mut(&addr, 11);
    sys.release(addr);
    // Work enqueued before the last handle went away still runs.
    assert_eq!(sys.acquire(0), Decision::Execute(10));
    sys.item_done(0, false);
    assert_eq!(sys.acquire(0), Decision::Execute(11));
    sys.item_done(0, false);
    assert_eq!(sys.acquire(0), Decision::Terminate);
}

#[test]
fn termination_short_circuit_discards_queued_items() {
    let mut sys = System::new();
    let addr = sys.spawn(1, 10);
    sys.send_mut(&addr, 11);
    sys.send_mut(&addr, 12);
    assert_eq!(sys.acquire(0), Decision::Execute(10));
    // The current item asks for termination: the two items already in the
    // queue are discarded without running, and later sends are dropped.
    sys.item_done(0, true);
    assert!(sys.actors[0].mailbox.is_terminated());
    assert_eq!(sys.actors[0].mailbox.queue_len(), 0);
    sys.send_mut(&addr, 13);
    assert_eq!(sys.actors[0].mailbox.queue_len(), 0);
    assert!(sys.actors[0].mailbox.state_dropped());
    sys.release(addr);
}

#[test]
fn detached_sends_are_silent_noops() {
    let mut sys = System::new();
    let detached = Addr::detached();
    sys.send_mut(&detached, 1);
    sys.send_fut(&detached, 2);
    let weak = detached.downgrade();
    sys.send_mut_weak(&weak, 3);
    sys.send_fut_weak(&weak, 4);
    assert!(sys.actors.is_empty());
    // A call through a detached handle resolves to cancellation.
    let (call, cell) = sys.call_fut::<u32>(&detached);
    assert_eq!(sys.calls[call as usize].status, CallStatus::Cancelled);
    match poll_step(cell, RecvEvent::Dropped) {
        PollStep::Ready(outcome) => assert_eq!(outcome, Err(Canceled)),
        _ => panic!("a cancelled call must resolve"),
    }
}

#[test]
fn upgrade_downgrade_round_trip() {
    let mut sys = System::new();
    let addr = sys.spawn(5, 10);
    let weak = addr.downgrade();
    let again = sys.upgrade(&weak);
    // While the actor lives, the upgraded handle is the same actor.
    assert!(again == addr);
    assert_eq!(sys.actors[0].strong, 2);
    sys.release(again);
    sys.release(addr);
    // Once no strong handle owns the resource, upgrading detaches.
    let gone = sys.upgrade(&weak);
    assert_eq!(gone.ptr(), None);
    assert!(gone == Addr::detached());
    assert_eq!(sys.weak_ptr(&weak), None);
}

#[test]
fn upcast_preserves_identity_and_queue() {
    let mut sys = System::new();
    let addr = sys.spawn(5, 10);
    let wide = addr.upcast(900);
    assert!(wide == addr);
    // Work sent through the upcast handle lands in the same queue.
    sys.send_mut(&wide, 11);
    assert_eq!(sys.acquire(0), Decision::Execute(10));
    sys.item_done(0, false);
    assert_eq!(sys.acquire(0), Decision::Execute(11));
    sys.item_done(0, false);
    sys.release(addr);
    sys.release(wide);
}

#[test]
fn downcast_round_trip_and_mismatch() {
    let mut sys = System::new();
    let addr = sys.spawn(5, 10);
    let wide = addr.upcast(900);
    match wide.downcast(5) {
        Ok(back) => {
            assert!(back == addr);
            assert_eq!(back.facet, 5);
        }
        Err(_) => panic!("downcast to the spawned concrete type must succeed"),
    }
    match wide.downcast(6) {
        Ok(_) => panic!("downcast to a different concrete type must fail"),
        Err(original) => {
            assert!(original == addr);
            assert_eq!(original.facet, 900);
        }
    }
    // A detached handle downcasts trivially into a detached handle.
    match Addr::detached().downcast(5) {
        Ok(d) => assert_eq!(d.ptr(), None),
        Err(_) => panic!("a detached handle always downcasts"),
    }
    sys.release(addr);
}

#[test]
fn echo_call_round_trip() {
    // Scenario: an echo actor answers a call-with-result with its input.
    let mut sys = System::new();
    let addr = sys.spawn(1, 10);
    assert_eq!(sys.acquire(0), Decision::Execute(10));
    sys.item_done(0, false);

    let (tx, mut rx) = futures::channel::oneshot::channel();
    sys.send_mut(&addr, 11);
    assert_eq!(sys.acquire(0), Decision::Execute(11));
    // The item runs the echo method and replies through the channel.
    let input = "test";
    let echoed = input;
    let stop = call_reply(tx, Ok::<&str, Canceled>(echoed), true);
    assert!(!stop);
    sys.item_done(0, stop);

    assert_eq!(rx.try_recv(), Ok(Some("test")));
    sys.release(addr);
}

#[test]
fn failed_call_stops_actor_when_hook_says_so() {
    let mut sys = System::new();
    let addr = sys.spawn(1, 10);
    assert_eq!(sys.acquire(0), Decision::Execute(10));
    sys.item_done(0, false);

    let (tx, mut rx) = futures::channel::oneshot::channel::<u32>();
    sys.send_mut(&addr, 11);
    assert_eq!(sys.acquire(0), Decision::Execute(11));
    let stop = call_reply(tx, Err::<u32, Canceled>(Canceled), true);
    assert!(stop);
    sys.item_done(0, stop);
    assert!(sys.actors[0].mailbox.is_terminated());
    // The caller's side resolves to cancellation, not a value.
    assert_eq!(rx.try_recv(), Err(futures::channel::oneshot::Canceled));
    sys.release(addr);
}

#[test]
fn termination_resolves_only_at_destruction() {
    // Scenario: the termination future stays pending until the actor
    // state is destroyed, and resolves by cancellation exactly then.
    let mut sys = System::new();
    let addr = sys.spawn(1, 10);
    assert_eq!(sys.acquire(0), Decision::Execute(10));
    sys.item_done(0, false);

    let ended = sys.termination(&addr);
    let call = match ended.0 {
        Produces::Deferred(c) => c,
        _ => panic!("termination is a deferred result"),
    };
    assert_eq!(sys.calls[call as usize].status, CallStatus::Pending);

    sys.release(addr);
    assert_eq!(sys.calls[call as usize].status, CallStatus::Pending);
    assert!(!sys.actors[0].mailbox.state_dropped());

    assert_eq!(sys.acquire(0), Decision::Terminate);
    // Destruction happened, and with it the pending call was cancelled.
    assert!(sys.actors[0].mailbox.state_dropped());
    assert_eq!(sys.calls[call as usize].status, CallStatus::Cancelled);
    match poll_step(ended.0, RecvEvent::Dropped) {
        PollStep::Ready(outcome) => assert_eq!(outcome, Err(Canceled)),
        _ => panic!("termination must resolve after destruction"),
    }
}

#[test]
fn weak_timer_does_not_keep_actor_alive() {
    // Scenario: a timer registered through a weak handle does not keep
    // the actor alive, and its tick never arrives once the last strong
    // handle is dropped before the deadline.
    let mut sys = System::new();
    let addr = sys.spawn(1, 10);
    assert_eq!(sys.acquire(0), Decision::Execute(10));
    sys.item_done(0, false);

    let weak = addr.downgrade();
    let mut timer = Timer::new();
    let _cmd = timer.set_timeout_weak(weak, 50);
    // The host registers the tick task as a background future through
    // the weak handle, with a result channel for the observer.
    sys.send_fut_weak(&weak, 77);
    assert_eq!(sys.actors[0].mailbox.inflight_len(), 1);
    let (tx, mut rx) = futures::channel::oneshot::channel::<&str>();

    // The only strong handle goes away before the deadline elapses.
    sys.release(addr);
    assert_eq!(sys.acquire(0), Decision::Terminate);
    assert!(sys.actors[0].mailbox.is_terminated());
    // All in-flight background work was discarded with the task, and the
    // sender it held is dropped without sending.
    assert_eq!(sys.actors[0].mailbox.inflight_len(), 0);
    drop(tx);
    assert_eq!(rx.try_recv(), Err(futures::channel::oneshot::Canceled));

    // Further weak registrations are silent no-ops.
    sys.send_fut_weak(&weak, 78);
    assert_eq!(sys.actors[0].mailbox.inflight_len(), 0);
}

#[test]
fn background_items_join_and_leave_inflight_set() {
    let mut sys = System::new();
    let addr = sys.spawn(1, 10);
    sys.send_fut(&addr, 20);
    sys.send_fut(&addr, 21);
    assert_eq!(sys.actors[0].mailbox.inflight_len(), 2);
    sys.background_done(0, 0);
    assert_eq!(sys.actors[0].mailbox.inflight_len(), 1);
    sys.background_done(0, 0);
    assert_eq!(sys.actors[0].mailbox.inflight_len(), 0);
    sys.release(addr);
}

#[test]
fn delivered_call_stays_delivered_through_shutdown() {
    let mut sys = System::new();
    let addr = sys.spawn(1, 10);
    assert_eq!(sys.acquire(0), Decision::Execute(10));
    sys.item_done(0, false);
    let (call, _cell) = sys.call_fut::<u32>(&addr);
    assert_eq!(sys.calls[call as usize].status, CallStatus::Pending);
    sys.deliver_call(call);
    assert_eq!(sys.calls[call as usize].status, CallStatus::Delivered);
    sys.release(addr);
    assert_eq!(sys.acquire(0), Decision::Terminate);
    assert_eq!(sys.calls[call as usize].status, CallStatus::Delivered);
}

#[test]
fn call_on_terminated_actor_is_cancelled() {
    let mut sys = System::new();
    let addr = sys.spawn(1, 10);
    assert_eq!(sys.acquire(0), Decision::Execute(10));
    sys.item_done(0, true);
    assert!(sys.actors[0].mailbox.is_terminated());
    let (call, _cell) = sys.call_fut::<u32>(&addr);
    assert_eq!(sys.calls[call as usize].status, CallStatus::Cancelled);
    sys.release(addr);
}

#[test]
fn retained_handles_keep_channel_open() {
    let mut sys = System::new();
    let addr = sys.spawn(1, 10);
    let other = sys.retain(&addr);
    assert!(other == addr);
    assert_eq!(sys.actors[0].strong, 2);
    sys.release(addr);
    assert!(!sys.actors[0].mailbox.is_closed());
    sys.release(other);
    assert!(sys.actors[0].mailbox.is_closed());
}

#[test]
fn handles_compare_and_order_by_identity() {
    let mut sys = System::new();
    let a = sys.spawn(1, 10);
    let b = sys.spawn(1, 20);
    assert!(a != b);
    assert!(a == a.upcast(3));
    assert!(Addr::detached() == Addr::detached());
    assert!(Addr::detached() != a);
    assert!(Addr::detached() < a);
    assert!(a < b);
    assert_eq!(a.ptr(), Some(0));
    assert_eq!(b.ptr(), Some(1));
    assert_eq!(Addr::detached().ptr(), None);
    sys.release(a);
    sys.release(b);
}

#[test]
fn standalone_mailbox_discards_after_close() {
    let mut mailbox = Mailbox::new();
    assert_eq!(mailbox.phase(), Phase::Acquiring);
    mailbox.enqueue_exclusive(1);
    mailbox.close();
    assert!(mailbox.is_closed());
    // Arrivals after the channel closed are discarded.
    mailbox.enqueue_exclusive(2);
    assert_eq!(mailbox.queue_len(), 1);
    assert_eq!(mailbox.acquire(), Decision::Execute(1));
    assert_eq!(mailbox.phase(), Phase::Executing);
    mailbox.item_done(false);
    assert_eq!(mailbox.acquire(), Decision::Terminate);
    assert_eq!(mailbox.phase(), Phase::Terminated);
}

#[test]
fn weak_sends_reach_live_actor() {
    let mut sys = System::new();
    let addr = sys.spawn(1, 10);
    let weak = addr.downgrade();
    sys.send_mut_weak(&weak, 11);
    assert_eq!(sys.actors[0].mailbox.queue_len(), 2);
    assert_eq!(sys.weak_ptr(&weak), Some(0));
    sys.release(addr);
}

#[test]
fn background_arrivals_after_termination_are_discarded() {
    let mut sys = System::new();
    let addr = sys.spawn(1, 10);
    assert_eq!(sys.acquire(0), Decision::Execute(10));
    sys.item_done(0, true);
    sys.send_fut(&addr, 20);
    assert_eq!(sys.actors[0].mailbox.inflight_len(), 0);
    sys.release(addr);
}

#[test]
fn spawned_actors_get_distinct_identities() {
    let mut sys = System::new();
    let a = sys.spawn(1, 10);
    let b = sys.spawn(2, 20);
    let c = sys.spawn(1, 30);
    assert_ne!(a.ptr(), b.ptr());
    assert_ne!(b.ptr(), c.ptr());
    assert_ne!(a.ptr(), c.ptr());
    // Identity is the allocation, not the concrete type.
    assert!(a != c);
    sys.release(a);
    sys.release(b);
    sys.release(c);
}
