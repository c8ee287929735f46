//! Timer state machine.
//!
//! A timer is either inactive, set to fire once at a deadline, or set to
//! fire at a deadline and then repeat at a fixed interval. Instants and
//! durations are measured in integer ticks on a monotonic clock supplied
//! by the caller.

use vstd::prelude::*;

verus! {

/// The externally visible state of a timer.
#[derive(Debug, Clone, Copy, PartialEq, Eq, Structural)]
pub enum TimerState {
    /// The timer is inactive. This is the default state.
    Inactive,
    /// The timer is configured to tick once, when the deadline is reached.
    Timeout {
        /// When this timer will tick.
        deadline: u64,
    },
    /// The timer is configured to tick when the deadline is reached, and
    /// to repeat at a set interval.
    Interval {
        /// When this timer will next tick.
        deadline: u64,
        /// Interval between ticks.
        interval: u64,
    },
}

impl TimerState {
    /// Returns the point in time when this timer will next fire, or
    /// `None` if the timer is currently inactive.
    pub fn deadline(&self) -> (r: Option<u64>)
        ensures
            r == (match *self {
                TimerState::Inactive => Option::<u64>::None,
                TimerState::Timeout { deadline } => Some(deadline),
                TimerState::Interval { deadline, .. } => Some(deadline),
            }),
    {
        match *self {
            TimerState::Inactive => None,
            TimerState::Timeout { deadline } => Some(deadline),
            TimerState::Interval { deadline, .. } => Some(deadline),
        }
    }

    /// Returns the interval between ticks if the timer is active and set
    /// to repeat.
    pub fn interval(&self) -> (r: Option<u64>)
        ensures
            r == (match *self {
                TimerState::Inactive => Option::<u64>::None,
                TimerState::Timeout { .. } => None,
                TimerState::Interval { interval, .. } => Some(interval),
            }),
    {
        match *self {
            TimerState::Inactive | TimerState::Timeout { .. } => None,
            TimerState::Interval { interval, .. } => Some(interval),
        }
    }
}

impl Default for TimerState {
    /// A fresh timer is inactive.
    fn default() -> (r: Self)
        ensures
            r == TimerState::Inactive,
    {
        TimerState::Inactive
    }
}

/// Timers can be used with runtimes implementing this trait: the one
/// capability a timer needs from its host is a future that completes when
/// a deadline passes.
pub trait SupportsTimers {
    /// The type of future returned by `delay`.
    type Delay;

    /// Create a future which will complete when the deadline is passed.
    fn delay(&self, deadline: u64) -> Self::Delay;
}

/// Whether a timer fires at this instant, and the state it moves to.
///
/// An inactive timer never fires. A one-shot timer fires once its
/// deadline has passed and goes inactive. A repeating timer fires once
/// its deadline has passed and re-arms one interval later; spurious
/// calls before the deadline fire nothing and change nothing.
pub open spec fn spec_tick(state: TimerState, now: u64) -> (bool, TimerState) {
    match state {
        TimerState::Inactive => (false, TimerState::Inactive),
        TimerState::Timeout { deadline } => if deadline <= now {
            (true, TimerState::Inactive)
        } else {
            (false, state)
        },
        TimerState::Interval { deadline, interval } => if deadline <= now {
            (true, TimerState::Interval { deadline: (deadline + interval) as u64, interval })
        } else {
            (false, state)
        },
    }
}

/// Decide whether a timer in this state fires at instant `now`, and what
/// state it moves to. This is the rule [`Timer::tick`] follows; it is
/// exposed on the public state so that hosts driving their own timer
/// bookkeeping can reuse it.
pub fn tick_decision(state: TimerState, now: u64) -> (r: (bool, TimerState))
    requires
        state matches TimerState::Interval { deadline, interval } ==> (deadline <= now
            ==> deadline + interval <= u64::MAX),
    ensures
        r == spec_tick(state, now),
{
    match state {
        TimerState::Inactive => (false, TimerState::Inactive),
        TimerState::Timeout { deadline } => {
            if deadline <= now {
                (true, TimerState::Inactive)
            } else {
                (false, state)
            }
        },
        TimerState::Interval { deadline, interval } => {
            if deadline <= now {
                (true, TimerState::Interval { deadline: deadline + interval, interval })
            } else {
                (false, state)
            }
        },
    }
}

use crate::addr::{Addr, WeakAddr};

/// The full state of a timer. A repeating timer remembers the handle its
/// re-arming tick task is registered through: a weak one lets the actor
/// stop while ticks are outstanding, a strong one keeps it alive.
#[derive(Debug, Clone, Copy)]
pub enum InternalTimerState {
    /// The timer is inactive.
    Inactive,
    /// The timer will tick once at the deadline.
    Timeout {
        /// When this timer will tick.
        deadline: u64,
    },
    /// The timer repeats, registered through a weak handle.
    IntervalWeak {
        /// The handle the tick task is registered through.
        addr: WeakAddr,
        /// When this timer will next tick.
        deadline: u64,
        /// Interval between ticks.
        interval: u64,
    },
    /// The timer repeats, registered through a strong handle.
    IntervalStrong {
        /// The handle the tick task is registered through.
        addr: Addr,
        /// When this timer will next tick.
        deadline: u64,
        /// Interval between ticks.
        interval: u64,
    },
}

impl InternalTimerState {
    /// The externally visible state: the handle kind is hidden.
    pub open spec fn spec_public_state(self) -> TimerState {
        match self {
            InternalTimerState::Inactive => TimerState::Inactive,
            InternalTimerState::Timeout { deadline } => TimerState::Timeout { deadline },
            InternalTimerState::IntervalWeak { deadline, interval, .. } => TimerState::Interval {
                deadline,
                interval,
            },
            InternalTimerState::IntervalStrong { deadline, interval, .. } => TimerState::Interval {
                deadline,
                interval,
            },
        }
    }

    /// Project the externally visible state.
    pub fn public_state(&self) -> (r: TimerState)
        ensures
            r == self.spec_public_state(),
    {
        match *self {
            InternalTimerState::Inactive => TimerState::Inactive,
            InternalTimerState::Timeout { deadline } => TimerState::Timeout { deadline },
            InternalTimerState::IntervalWeak { deadline, interval, .. } => TimerState::Interval {
                deadline,
                interval,
            },
            InternalTimerState::IntervalStrong { deadline, interval, .. } => TimerState::Interval {
                deadline,
                interval,
            },
        }
    }
}

/// What the host must schedule after arming or re-arming a timer: a
/// background future that waits until the deadline passes and then sends
/// a tick to the actor, registered through the given handle.
#[derive(Debug, Clone, Copy)]
pub enum TimerCmd {
    /// Register the tick task through a weak handle: the timer does not
    /// keep the actor alive.
    ScheduleWeak {
        /// The handle to register the tick task through.
        addr: WeakAddr,
        /// When the tick task fires.
        deadline: u64,
    },
    /// Register the tick task through a strong handle: the timer keeps
    /// the actor alive until it fires.
    ScheduleStrong {
        /// The handle to register the tick task through.
        addr: Addr,
        /// When the tick task fires.
        deadline: u64,
    },
}

/// What [`Timer::tick`] fires and schedules: nothing before the deadline
/// or on an inactive or one-shot timer, and the next tick task of a
/// repeating timer, one interval later, through the handle it was armed
/// with.
pub open spec fn spec_tick_cmd(state: InternalTimerState, now: u64) -> Option<TimerCmd> {
    match state {
        InternalTimerState::IntervalWeak { addr, deadline, interval } => if deadline <= now {
            Some(
                TimerCmd::ScheduleWeak { addr, deadline: (deadline + interval) as u64 },
            )
        } else {
            None
        },
        InternalTimerState::IntervalStrong { addr, deadline, interval } => if deadline <= now {
            Some(
                TimerCmd::ScheduleStrong { addr, deadline: (deadline + interval) as u64 },
            )
        } else {
            None
        },
        _ => None,
    }
}

/// The state [`Timer::tick`] moves to.
pub open spec fn spec_tick_next(state: InternalTimerState, now: u64) -> InternalTimerState {
    match state {
        InternalTimerState::Inactive => InternalTimerState::Inactive,
        InternalTimerState::Timeout { deadline } => if deadline <= now {
            InternalTimerState::Inactive
        } else {
            state
        },
        InternalTimerState::IntervalWeak { addr, deadline, interval } => if deadline <= now {
            InternalTimerState::IntervalWeak {
                addr,
                deadline: (deadline + interval) as u64,
                interval,
            }
        } else {
            state
        },
        InternalTimerState::IntervalStrong { addr, deadline, interval } => if deadline <= now {
            InternalTimerState::IntervalStrong {
                addr,
                deadline: (deadline + interval) as u64,
                interval,
            }
        } else {
            state
        },
    }
}

/// A timer suitable for use by actors. Arming it yields the command for
/// the tick task the host must schedule; [`Timer::tick`], called from the
/// actor's tick handler, reports whether the timer really elapsed and
/// re-arms repeating timers.
#[derive(Debug)]
pub struct Timer {
    /// The current state of the timer.
    pub state: InternalTimerState,
}

impl Timer {
    /// Construct a new, inactive timer.
    pub fn new() -> (t: Timer)
        ensures
            t.state == InternalTimerState::Inactive,
    {
        Timer { state: InternalTimerState::Inactive }
    }

    /// Get the externally visible state of the timer.
    pub fn state(&self) -> (r: TimerState)
        ensures
            r == self.state.spec_public_state(),
    {
        self.state.public_state()
    }

    /// True if this timer is expected to tick in the future.
    pub fn is_active(&self) -> (b: bool)
        ensures
            b == (self.state.spec_public_state() != TimerState::Inactive),
    {
        let s = self.state.public_state();
        match s {
            TimerState::Inactive => false,
            _ => true,
        }
    }

    /// Reset the timer to the inactive state.
    pub fn clear(&mut self)
        ensures
            final(self).state == InternalTimerState::Inactive,
    {
        self.state = InternalTimerState::Inactive;
    }

    /// Check whether the timer has elapsed at instant `now`. A repeating
    /// timer that elapsed re-arms itself one interval later and hands
    /// back the tick task to schedule; the expectation is that actors
    /// call this from their tick handler, since spurious ticks may
    /// arrive after the timer was cleared or re-armed.
    pub fn tick(&mut self, now: u64) -> (r: (bool, Option<TimerCmd>))
        requires
            old(self).state matches InternalTimerState::IntervalWeak { deadline, interval, .. }
                ==> (deadline <= now ==> deadline + interval <= u64::MAX),
            old(self).state matches InternalTimerState::IntervalStrong { deadline, interval, .. }
                ==> (deadline <= now ==> deadline + interval <= u64::MAX),
        ensures
            final(self).state == spec_tick_next(old(self).state, now),
            r.0 == spec_tick(old(self).state.spec_public_state(), now).0,
            r.1 == spec_tick_cmd(old(self).state, now),
            final(self).state.spec_public_state() == spec_tick(
                old(self).state.spec_public_state(),
                now,
            ).1,
    {
        match self.state {
            InternalTimerState::Inactive => (false, None),
            InternalTimerState::Timeout { deadline } => {
                if deadline <= now {
                    self.state = InternalTimerState::Inactive;
                    (true, None)
                } else {
                    (false, None)
                }
            },
            InternalTimerState::IntervalWeak { addr, deadline, interval } => {
                if deadline <= now {
                    let next = deadline + interval;
                    self.state = InternalTimerState::IntervalWeak {
                        addr,
                        deadline: next,
                        interval,
                    };
                    (true, Some(TimerCmd::ScheduleWeak { addr, deadline: next }))
                } else {
                    (false, None)
                }
            },
            InternalTimerState::IntervalStrong { addr, deadline, interval } => {
                if deadline <= now {
                    let next = deadline + interval;
                    self.state = InternalTimerState::IntervalStrong {
                        addr,
                        deadline: next,
                        interval,
                    };
                    (true, Some(TimerCmd::ScheduleStrong { addr, deadline: next }))
                } else {
                    (false, None)
                }
            },
        }
    }

    /// Configure the timer to tick at a set interval with an initial
    /// deadline. The timer will not try to keep the actor alive.
    pub fn set_interval_at_weak(&mut self, addr: WeakAddr, start: u64, interval: u64) -> (cmd:
        TimerCmd)
        ensures
            final(self).state == (InternalTimerState::IntervalWeak {
                addr,
                deadline: start,
                interval,
            }),
            cmd == (TimerCmd::ScheduleWeak { addr, deadline: start }),
    {
        self.state = InternalTimerState::IntervalWeak { addr, deadline: start, interval };
        TimerCmd::ScheduleWeak { addr, deadline: start }
    }

    /// Configure the timer to tick at a set interval with an initial
    /// deadline. The timer will try to keep the actor alive.
    pub fn set_interval_at_strong(&mut self, addr: Addr, start: u64, interval: u64) -> (cmd:
        TimerCmd)
        ensures
            final(self).state == (InternalTimerState::IntervalStrong {
                addr,
                deadline: start,
                interval,
            }),
            cmd == (TimerCmd::ScheduleStrong { addr, deadline: start }),
    {
        self.state = InternalTimerState::IntervalStrong { addr, deadline: start, interval };
        TimerCmd::ScheduleStrong { addr, deadline: start }
    }

    /// Configure the timer to tick at a set interval, with the first tick
    /// due immediately at instant `now`. The timer will not try to keep
    /// the actor alive.
    pub fn set_interval_weak(&mut self, addr: WeakAddr, now: u64, interval: u64) -> (cmd: TimerCmd)
        ensures
            final(self).state == (InternalTimerState::IntervalWeak {
                addr,
                deadline: now,
                interval,
            }),
            cmd == (TimerCmd::ScheduleWeak { addr, deadline: now }),
    {
        self.set_interval_at_weak(addr, now, interval)
    }

    /// Configure the timer to tick at a set interval, with the first tick
    /// due immediately at instant `now`. The timer will try to keep the
    /// actor alive.
    pub fn set_interval_strong(&mut self, addr: Addr, now: u64, interval: u64) -> (cmd: TimerCmd)
        ensures
            final(self).state == (InternalTimerState::IntervalStrong {
                addr,
                deadline: now,
                interval,
            }),
            cmd == (TimerCmd::ScheduleStrong { addr, deadline: now }),
    {
        self.set_interval_at_strong(addr, now, interval)
    }

    /// Configure the timer to tick once at the given deadline. The timer
    /// will not try to keep the actor alive.
    pub fn set_timeout_weak(&mut self, addr: WeakAddr, deadline: u64) -> (cmd: TimerCmd)
        ensures
            final(self).state == (InternalTimerState::Timeout { deadline }),
            cmd == (TimerCmd::ScheduleWeak { addr, deadline }),
    {
        self.state = InternalTimerState::Timeout { deadline };
        TimerCmd::ScheduleWeak { addr, deadline }
    }

    /// Configure the timer to tick once at the given deadline. The timer
    /// will try to keep the actor alive until then.
    pub fn set_timeout_strong(&mut self, addr: Addr, deadline: u64) -> (cmd: TimerCmd)
        ensures
            final(self).state == (InternalTimerState::Timeout { deadline }),
            cmd == (TimerCmd::ScheduleStrong { addr, deadline }),
    {
        self.state = InternalTimerState::Timeout { deadline };
        TimerCmd::ScheduleStrong { addr, deadline }
    }

    /// Configure the timer to tick once after a delay from instant `now`.
    /// The timer will not try to keep the actor alive.
    pub fn set_timeout_for_weak(&mut self, addr: WeakAddr, now: u64, duration: u64) -> (cmd:
        TimerCmd)
        requires
            now + duration <= u64::MAX,
        ensures
            final(self).state == (InternalTimerState::Timeout { deadline: (now + duration) as u64 }),
            cmd == (TimerCmd::ScheduleWeak { addr, deadline: (now + duration) as u64 }),
    {
        self.set_timeout_weak(addr, now + duration)
    }

    /// Configure the timer to tick once after a delay from instant `now`.
    /// The timer will try to keep the actor alive until then.
    pub fn set_timeout_for_strong(&mut self, addr: Addr, now: u64, duration: u64) -> (cmd:
        TimerCmd)
        requires
            now + duration <= u64::MAX,
        ensures
            final(self).state == (InternalTimerState::Timeout { deadline: (now + duration) as u64 }),
            cmd == (TimerCmd::ScheduleStrong { addr, deadline: (now + duration) as u64 }),
    {
        self.set_timeout_strong(addr, now + duration)
    }

    /// Configure the timer to tick once at the given deadline, whilst the
    /// host simultaneously runs a task to completion, dropping the task
    /// if the timeout passes first. The timer only manages the deadline;
    /// the racing task itself is the host's to drive. The timer will not
    /// try to keep the actor alive.
    pub fn run_with_timeout_weak(&mut self, addr: WeakAddr, deadline: u64) -> (cmd: TimerCmd)
        ensures
            final(self).state == (InternalTimerState::Timeout { deadline }),
            cmd == (TimerCmd::ScheduleWeak { addr, deadline }),
    {
        self.set_timeout_weak(addr, deadline)
    }

    /// Configure the timer to tick once at the given deadline, whilst the
    /// host simultaneously runs a task to completion, dropping the task
    /// if the timeout passes first. The timer will try to keep the actor
    /// alive until then.
    pub fn run_with_timeout_strong(&mut self, addr: Addr, deadline: u64) -> (cmd: TimerCmd)
        ensures
            final(self).state == (InternalTimerState::Timeout { deadline }),
            cmd == (TimerCmd::ScheduleStrong { addr, deadline }),
    {
        self.set_timeout_strong(addr, deadline)
    }

    /// Like `run_with_timeout_weak`, with the deadline a delay from
    /// instant `now`.
    pub fn run_with_timeout_for_weak(&mut self, addr: WeakAddr, now: u64, duration: u64) -> (cmd:
        TimerCmd)
        requires
            now + duration <= u64::MAX,
        ensures
            final(self).state == (InternalTimerState::Timeout { deadline: (now + duration) as u64 }),
            cmd == (TimerCmd::ScheduleWeak { addr, deadline: (now + duration) as u64 }),
    {
        self.set_timeout_weak(addr, now + duration)
    }

    /// Like `run_with_timeout_strong`, with the deadline a delay from
    /// instant `now`.
    pub fn run_with_timeout_for_strong(&mut self, addr: Addr, now: u64, duration: u64) -> (cmd:
        TimerCmd)
        requires
            now + duration <= u64::MAX,
        ensures
            final(self).state == (InternalTimerState::Timeout { deadline: (now + duration) as u64 }),
            cmd == (TimerCmd::ScheduleStrong { addr, deadline: (now + duration) as u64 }),
    {
        self.set_timeout_strong(addr, now + duration)
    }
}

impl Default for Timer {
    /// A fresh timer is inactive.
    fn default() -> (t: Self)
        ensures
            t.state == InternalTimerState::Inactive,
    {
        Timer { state: InternalTimerState::Inactive }
    }
}

/// Re-arming keeps the projection faithful: what `tick` does to the full
/// timer state projects to exactly what the public rule says happens to
/// the public state.
pub proof fn lemma_tick_projection(state: InternalTimerState, now: u64)
    ensures
        spec_tick_next(state, now).spec_public_state() == spec_tick(
            state.spec_public_state(),
            now,
        ).1,
{
}

} // verus!

