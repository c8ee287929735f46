//! The mailbox scheduling state machine.
//!
//! Every actor is served by exactly one cooperative mailbox task. The task
//! alternates between an acquire phase, in which it waits for the next
//! exclusive item, and an execute phase, in which it runs the current
//! exclusive item to completion while background futures make progress
//! alongside. Exclusive items run strictly one at a time, in the order in
//! which they were enqueued. The mailbox terminates when an item signals
//! termination, or when the exclusive channel is closed and drained.
//!
//! The asynchronous executor that hosts a mailbox drives this state
//! machine: arrivals, completions and channel closure are reported as
//! steps, and [`Mailbox::acquire`] answers with the scheduling decision.
//!
//! A deliberate design choice: every item that touches actor state is
//! exclusive and goes through the one serialized queue. There is no
//! separate class of concurrently running read-only calls; read-mostly
//! work that needs concurrency belongs in background futures, which never
//! touch the state directly. This keeps exclusivity structural, with one
//! consuming task per actor, and makes the first-in-first-out guarantee
//! below unconditional.

use vstd::prelude::*;

verus! {

/// The phase of a mailbox task.
#[derive(Debug, Clone, Copy, PartialEq, Eq, Structural)]
pub enum Phase {
    /// Waiting for the next exclusive item.
    Acquiring,
    /// Running one exclusive item to completion.
    Executing,
    /// The task has exited and the actor state has been destroyed.
    Terminated,
}

/// What the mailbox decides to do next during its acquire phase.
#[derive(Debug, Clone, Copy, PartialEq, Eq, Structural)]
pub enum Decision {
    /// Run this exclusive item now.
    Execute(u64),
    /// Nothing to run; suspend until a new event arrives.
    Wait,
    /// Exit the task and destroy the actor state.
    Terminate,
}

/// One observable event in the life of a mailbox.
pub ghost enum Step {
    /// An exclusive item arrived on the exclusive channel.
    EnqueueExclusive(u64),
    /// A background future arrived on the background channel.
    EnqueueBackground(u64),
    /// The exclusive channel closed: no handle able to send remains.
    Close,
    /// The in-flight background future at this position completed.
    BackgroundDone(int),
    /// The mailbox looked for the next exclusive item.
    Acquire,
    /// The current exclusive item finished; `true` asks for termination.
    ItemDone(bool),
}

/// The abstract state of a mailbox, including the full history of
/// accepted and started exclusive items.
#[verifier::ext_equal]
pub ghost struct MailboxView {
    /// Exclusive items accepted and not yet started, oldest first.
    pub queue: Seq<u64>,
    /// Background futures currently in flight (no order is meaningful).
    pub inflight: Seq<u64>,
    /// The exclusive item now executing, if any.
    pub current: Option<u64>,
    /// Whether the exclusive channel has closed.
    pub closed: bool,
    /// Whether the actor state has been destroyed.
    pub dropped: bool,
    /// The phase of the task.
    pub phase: Phase,
    /// Every exclusive item ever accepted, in arrival order.
    pub enqueued: Seq<u64>,
    /// Every exclusive item that began execution, in start order.
    pub started: Seq<u64>,
}

impl MailboxView {
    /// The state of a freshly spawned mailbox.
    pub open spec fn init() -> MailboxView {
        MailboxView {
            queue: Seq::empty(),
            inflight: Seq::empty(),
            current: None,
            closed: false,
            dropped: false,
            phase: Phase::Acquiring,
            enqueued: Seq::empty(),
            started: Seq::empty(),
        }
    }

    /// The task has exited.
    pub open spec fn terminated(self) -> bool {
        self.phase == Phase::Terminated
    }

    /// A new exclusive item is accepted while the channel is open and the
    /// task runs.
    pub open spec fn accepts_exclusive(self) -> bool {
        self.phase != Phase::Terminated && !self.closed
    }

    /// A new background future is accepted while the task runs.
    pub open spec fn accepts_background(self) -> bool {
        self.phase != Phase::Terminated
    }

    /// The state after the task exits: all queued and in-flight work is
    /// discarded and the actor state is destroyed.
    pub open spec fn terminate(self) -> MailboxView {
        MailboxView {
            queue: Seq::empty(),
            inflight: Seq::empty(),
            current: None,
            dropped: true,
            phase: Phase::Terminated,
            ..self
        }
    }

    /// The transition relation of the mailbox, one step at a time.
    /// Steps that do not apply in the present phase leave the state
    /// unchanged; in particular a terminated mailbox never moves again.
    pub open spec fn step(self, s: Step) -> MailboxView {
        match s {
            Step::EnqueueExclusive(item) => {
                if self.accepts_exclusive() {
                    MailboxView {
                        queue: self.queue.push(item),
                        enqueued: self.enqueued.push(item),
                        ..self
                    }
                } else {
                    self
                }
            },
            Step::EnqueueBackground(item) => {
                if self.accepts_background() {
                    MailboxView { inflight: self.inflight.push(item), ..self }
                } else {
                    self
                }
            },
            Step::Close => {
                if self.terminated() {
                    self
                } else {
                    MailboxView { closed: true, ..self }
                }
            },
            Step::BackgroundDone(i) => {
                if !self.terminated() && 0 <= i < self.inflight.len() {
                    MailboxView { inflight: self.inflight.remove(i), ..self }
                } else {
                    self
                }
            },
            Step::Acquire => {
                if self.phase == Phase::Acquiring {
                    if self.queue.len() > 0 {
                        MailboxView {
                            queue: self.queue.subrange(1, self.queue.len() as int),
                            current: Some(self.queue[0]),
                            phase: Phase::Executing,
                            started: self.started.push(self.queue[0]),
                            ..self
                        }
                    } else if self.closed {
                        self.terminate()
                    } else {
                        self
                    }
                } else {
                    self
                }
            },
            Step::ItemDone(stop) => {
                if self.phase == Phase::Executing {
                    if stop {
                        self.terminate()
                    } else {
                        MailboxView { current: None, phase: Phase::Acquiring, ..self }
                    }
                } else {
                    self
                }
            },
        }
    }

    /// The state after a whole sequence of steps.
    pub open spec fn run(self, ss: Seq<Step>) -> MailboxView
        decreases ss.len(),
    {
        if ss.len() == 0 {
            self
        } else {
            self.step(ss[0]).run(ss.subrange(1, ss.len() as int))
        }
    }

    /// The invariant every reachable mailbox state satisfies. Its heart
    /// is the serialization guarantee: the items that began execution are
    /// exactly the first accepted items, in arrival order, and while the
    /// task runs the queue holds precisely the accepted items that have
    /// not started yet.
    pub open spec fn inv(self) -> bool {
        &&& self.started.len() <= self.enqueued.len()
        &&& self.started == self.enqueued.take(self.started.len() as int)
        &&& (self.phase != Phase::Terminated ==> self.enqueued == self.started + self.queue)
        &&& (self.phase == Phase::Terminated ==> self.queue.len() == 0 && self.inflight.len()
            == 0 && self.current is None)
        &&& (self.phase == Phase::Executing <==> self.current is Some)
        &&& (self.phase == Phase::Executing ==> self.started.len() > 0 && self.current == Some(
            self.started.last(),
        ))
        &&& (self.dropped <==> self.phase == Phase::Terminated)
    }
}

/// The initial state satisfies the invariant.
pub proof fn lemma_init_inv()
    ensures
        MailboxView::init().inv(),
{
    assert(MailboxView::init().started =~= MailboxView::init().enqueued.take(0));
    assert(MailboxView::init().enqueued =~= MailboxView::init().started
        + MailboxView::init().queue);
}

/// Every step preserves the invariant.
pub proof fn lemma_step_preserves_inv(v: MailboxView, s: Step)
    requires
        v.inv(),
    ensures
        v.step(s).inv(),
{
    let w = v.step(s);
    match s {
        Step::EnqueueExclusive(item) => {
            if v.accepts_exclusive() {
                assert(w.started =~= w.enqueued.take(w.started.len() as int));
                assert(w.enqueued =~= w.started + w.queue);
            }
        },
        Step::Acquire => {
            if v.phase == Phase::Acquiring && v.queue.len() > 0 {
                assert(w.started =~= w.enqueued.take(w.started.len() as int));
                assert(w.enqueued =~= w.started + w.queue);
            }
        },
        _ => {},
    }
}

/// Running any sequence of steps preserves the invariant.
pub proof fn lemma_run_preserves_inv(v: MailboxView, ss: Seq<Step>)
    requires
        v.inv(),
    ensures
        v.run(ss).inv(),
    decreases ss.len(),
{
    if ss.len() > 0 {
        lemma_step_preserves_inv(v, ss[0]);
        lemma_run_preserves_inv(v.step(ss[0]), ss.subrange(1, ss.len() as int));
    }
}

/// Serialization: in every reachable state, the items that began
/// execution are exactly the first accepted items, in the order of their
/// acceptance. Execution order therefore always equals enqueue order.
pub proof fn lemma_execution_order(v: MailboxView, ss: Seq<Step>)
    requires
        v.inv(),
    ensures
        v.run(ss).started == v.run(ss).enqueued.take(v.run(ss).started.len() as int),
{
    lemma_run_preserves_inv(v, ss);
}

/// A terminated mailbox never moves again.
pub proof fn lemma_terminated_is_final(v: MailboxView, s: Step)
    requires
        v.terminated(),
    ensures
        v.step(s) == v,
{
}

/// Termination short-circuit: once the mailbox has terminated, no step
/// sequence changes it, so no further item ever begins execution. In
/// particular, items still queued at termination are discarded forever.
pub proof fn lemma_short_circuit(v: MailboxView, ss: Seq<Step>)
    requires
        v.terminated(),
    ensures
        v.run(ss) == v,
    decreases ss.len(),
{
    if ss.len() > 0 {
        lemma_terminated_is_final(v, ss[0]);
        lemma_short_circuit(v, ss.subrange(1, ss.len() as int));
    }
}

/// Shutdown completeness: once the exclusive channel is closed and the
/// queue has drained, the very next acquire step terminates the task and
/// destroys the actor state, whatever background work is still in flight.
pub proof fn lemma_shutdown(v: MailboxView)
    requires
        v.inv(),
        v.phase == Phase::Acquiring,
        v.closed,
        v.queue.len() == 0,
    ensures
        v.step(Step::Acquire).terminated(),
        v.step(Step::Acquire).dropped,
        v.step(Step::Acquire).started == v.started,
{
}

/// The mailbox scheduler: the executable decision core of one actor's
/// task. The hosting executor reports arrivals, completions and channel
/// closure, and asks it what to run next; histories are kept as ghost
/// state so that the scheduling guarantees can be stated and proved.
pub struct Mailbox {
    queue: Vec<u64>,
    inflight: Vec<u64>,
    current: Option<u64>,
    closed: bool,
    dropped: bool,
    phase: Phase,
    enqueued: Ghost<Seq<u64>>,
    started: Ghost<Seq<u64>>,
}

impl View for Mailbox {
    type V = MailboxView;

    closed spec fn view(&self) -> MailboxView {
        MailboxView {
            queue: self.queue@,
            inflight: self.inflight@,
            current: self.current,
            closed: self.closed,
            dropped: self.dropped,
            phase: self.phase,
            enqueued: self.enqueued@,
            started: self.started@,
        }
    }
}

impl Mailbox {
    /// A freshly spawned mailbox: open channels, nothing queued, waiting
    /// for its first exclusive item.
    pub fn new() -> (m: Mailbox)
        ensures
            m@ == MailboxView::init(),
            m@.inv(),
    {
        proof {
            lemma_init_inv();
        }
        let m = Mailbox {
            queue: Vec::new(),
            inflight: Vec::new(),
            current: None,
            closed: false,
            dropped: false,
            phase: Phase::Acquiring,
            enqueued: Ghost(Seq::empty()),
            started: Ghost(Seq::empty()),
        };
        assert(m@ =~= MailboxView::init());
        m
    }

    /// The phase the task is in.
    pub fn phase(&self) -> (p: Phase)
        ensures
            p == self@.phase,
    {
        self.phase
    }

    /// Whether the task has exited and the actor state was destroyed.
    pub fn is_terminated(&self) -> (b: bool)
        ensures
            b == self@.terminated(),
    {
        match self.phase {
            Phase::Terminated => true,
            _ => false,
        }
    }

    /// Whether the actor state has been destroyed. This is true exactly
    /// when the task has terminated: destruction happens once, at exit.
    pub fn state_dropped(&self) -> (b: bool)
        ensures
            b == self@.dropped,
    {
        self.dropped
    }

    /// Whether the exclusive channel has closed.
    pub fn is_closed(&self) -> (b: bool)
        ensures
            b == self@.closed,
    {
        self.closed
    }

    /// How many exclusive items are accepted and not yet started.
    pub fn queue_len(&self) -> (n: usize)
        ensures
            n == self@.queue.len(),
    {
        self.queue.len()
    }

    /// How many background futures are in flight.
    pub fn inflight_len(&self) -> (n: usize)
        ensures
            n == self@.inflight.len(),
    {
        self.inflight.len()
    }

    /// An exclusive item arrived. It is accepted while the exclusive
    /// channel is open and the task runs; otherwise it is silently
    /// discarded, exactly as a send on a closed channel is.
    pub fn enqueue_exclusive(&mut self, item: u64)
        requires
            old(self)@.inv(),
        ensures
            final(self)@ == old(self)@.step(Step::EnqueueExclusive(item)),
            final(self)@.inv(),
    {
        proof {
            lemma_step_preserves_inv(self@, Step::EnqueueExclusive(item));
        }
        let accepted = match self.phase {
            Phase::Terminated => false,
            _ => !self.closed,
        };
        if accepted {
            self.queue.push(item);
            proof {
                self.enqueued@ = self.enqueued@.push(item);
            }
        }
        assert(self@ =~= old(self)@.step(Step::EnqueueExclusive(item)));
    }

    /// A background future arrived and joins the in-flight set.
    pub fn enqueue_background(&mut self, item: u64)
        requires
            old(self)@.inv(),
        ensures
            final(self)@ == old(self)@.step(Step::EnqueueBackground(item)),
            final(self)@.inv(),
    {
        proof {
            lemma_step_preserves_inv(self@, Step::EnqueueBackground(item));
        }
        let accepted = match self.phase {
            Phase::Terminated => false,
            _ => true,
        };
        if accepted {
            self.inflight.push(item);
        }
        assert(self@ =~= old(self)@.step(Step::EnqueueBackground(item)));
    }

    /// The exclusive channel closed: every handle able to send is gone.
    pub fn close(&mut self)
        requires
            old(self)@.inv(),
        ensures
            final(self)@ == old(self)@.step(Step::Close),
            final(self)@.inv(),
    {
        proof {
            lemma_step_preserves_inv(self@, Step::Close);
        }
        let terminated = match self.phase {
            Phase::Terminated => true,
            _ => false,
        };
        if !terminated {
            self.closed = true;
        }
        assert(self@ =~= old(self)@.step(Step::Close));
    }

    /// The in-flight background future at this position completed and
    /// leaves the in-flight set.
    pub fn background_done(&mut self, i: usize)
        requires
            old(self)@.inv(),
            i < old(self)@.inflight.len(),
        ensures
            final(self)@ == old(self)@.step(Step::BackgroundDone(i as int)),
            final(self)@.inv(),
    {
        proof {
            lemma_step_preserves_inv(self@, Step::BackgroundDone(i as int));
        }
        self.inflight.remove(i);
        assert(self@ =~= old(self)@.step(Step::BackgroundDone(i as int)));
    }

    /// The acquire phase: decide what to do next. The oldest queued
    /// exclusive item runs first; with the queue empty, a closed channel
    /// terminates the task at once, and an open one suspends it.
    pub fn acquire(&mut self) -> (d: Decision)
        requires
            old(self)@.inv(),
            old(self)@.phase == Phase::Acquiring,
        ensures
            final(self)@ == old(self)@.step(Step::Acquire),
            final(self)@.inv(),
            d == (if old(self)@.queue.len() > 0 {
                Decision::Execute(old(self)@.queue[0])
            } else if old(self)@.closed {
                Decision::Terminate
            } else {
                Decision::Wait
            }),
    {
        proof {
            lemma_step_preserves_inv(self@, Step::Acquire);
        }
        if self.queue.len() > 0 {
            let item = self.queue.remove(0);
            self.current = Some(item);
            self.phase = Phase::Executing;
            proof {
                self.started@ = self.started@.push(item);
            }
            assert(self@ =~= old(self)@.step(Step::Acquire));
            Decision::Execute(item)
        } else if self.closed {
            self.inflight = Vec::new();
            self.current = None;
            self.dropped = true;
            self.phase = Phase::Terminated;
            assert(self@ =~= old(self)@.step(Step::Acquire));
            Decision::Terminate
        } else {
            assert(self@ =~= old(self)@.step(Step::Acquire));
            Decision::Wait
        }
    }

    /// The current exclusive item ran to completion. If it signalled
    /// termination, the task exits at once and every queued or in-flight
    /// piece of work is discarded unrun; otherwise the task goes back to
    /// acquiring.
    pub fn item_done(&mut self, stop: bool)
        requires
            old(self)@.inv(),
            old(self)@.phase == Phase::Executing,
        ensures
            final(self)@ == old(self)@.step(Step::ItemDone(stop)),
            final(self)@.inv(),
    {
        proof {
            lemma_step_preserves_inv(self@, Step::ItemDone(stop));
        }
        if stop {
            self.queue = Vec::new();
            self.inflight = Vec::new();
            self.current = None;
            self.dropped = true;
            self.phase = Phase::Terminated;
        } else {
            self.current = None;
            self.phase = Phase::Acquiring;
        }
        assert(self@ =~= old(self)@.step(Step::ItemDone(stop)));
    }
}

} // verus!
