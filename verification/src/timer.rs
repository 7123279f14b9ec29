//! The decisions of a single-shot timer that can be set again and again.
//!
//! The caller owns the clock and whatever wakes a sleeping task. It asks this
//! module what to do when the deadline changes and when the timer is waited
//! upon, and carries the answer out.

use vstd::prelude::*;
use crate::binding::Timestamp;

verus! {

/// What the caller does to its clock after the deadline changed.
#[derive(Clone, Copy, Debug, PartialEq, Eq)]
pub enum TimerAction {
    /// Drop the running sleep, if there is one.
    Disarm,
    /// Move the running sleep to `deadline`.
    Rearm { deadline: Timestamp },
    /// Start a sleep until `deadline`; where `wake` is set, wake the task
    /// that waited while there was none.
    Arm { deadline: Timestamp, wake: bool },
}

/// A timer's deadline, and whether a task waits for it to get one.
#[derive(Clone, Copy, Debug, PartialEq, Eq)]
pub struct TimerState {
    pub deadline: Option<Timestamp>,
    pub waiting: bool,
}

impl TimerState {
    /// What `reset_to` answers for `next`.
    pub open spec fn action_for(self, next: Option<Timestamp>) -> TimerAction {
        match (next, self.deadline) {
            (None, _) => TimerAction::Disarm,
            (Some(deadline), Some(_)) => TimerAction::Rearm { deadline },
            (Some(deadline), None) => TimerAction::Arm { deadline, wake: self.waiting },
        }
    }

    /// The timer after `reset_to` with `next`: it holds the new deadline, and
    /// a waiting task is forgotten once it was woken.
    pub open spec fn after_reset(self, next: Option<Timestamp>) -> TimerState {
        TimerState {
            deadline: next,
            waiting: self.waiting && !(next is Some && self.deadline is None),
        }
    }

    /// The timer after `poll`: a task that found no deadline waits for one.
    pub open spec fn after_wait(self) -> TimerState {
        TimerState { deadline: self.deadline, waiting: self.waiting || self.deadline is None }
    }

    /// A timer without a deadline and without a waiting task.
    pub fn new() -> (timer: Self)
        ensures
            timer == (TimerState { deadline: None, waiting: false }),
    {
        TimerState { deadline: None, waiting: false }
    }

    /// Sets the deadline to `next`, or takes it away, and says what the
    /// caller does to its clock.
    pub fn reset_to(&mut self, next: Option<Timestamp>) -> (action: TimerAction)
        ensures
            action == old(self).action_for(next),
            *final(self) == old(self).after_reset(next),
    {
        let action = match next {
            None => TimerAction::Disarm,
            Some(deadline) => match self.deadline {
                Some(_) => TimerAction::Rearm { deadline },
                None => {
                    let wake = self.waiting;
                    self.waiting = false;
                    TimerAction::Arm { deadline, wake }
                },
            },
        };
        self.deadline = next;
        action
    }

    /// Waits upon the timer: yields the deadline to sleep until, or `None`
    /// where there is none, and then remembers that a task waits.
    pub fn poll(&mut self) -> (deadline: Option<Timestamp>)
        ensures
            deadline == old(self).deadline,
            *final(self) == old(self).after_wait(),
    {
        if self.deadline.is_none() {
            self.waiting = true;
        }
        self.deadline
    }
}

/// A task that waited upon a timer without a deadline is woken as soon as the
/// timer gets one, and only once.
pub proof fn lemma_arming_wakes_waiter(timer: TimerState, deadline: Timestamp)
    requires
        timer.deadline is None,
    ensures
        timer.after_wait().action_for(Some(deadline)) == (TimerAction::Arm { deadline, wake: true }),
        !timer.after_wait().after_reset(Some(deadline)).waiting,
        timer.after_wait().after_reset(Some(deadline)).deadline == Some(deadline),
{
}

/// A timer that was disarmed holds no deadline, and can be armed again.
pub proof fn lemma_disarm_then_arm(timer: TimerState, deadline: Timestamp)
    ensures
        timer.after_reset(None).deadline is None,
        timer.after_reset(None).action_for(Some(deadline)) matches TimerAction::Arm { deadline: d, .. }
            && d == deadline,
{
}

} // verus!
