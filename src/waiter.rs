use vstd::prelude::*;

use crate::errno::Errno;

verus! {

/// The states of a waiter.
#[derive(Debug, Clone, Copy, PartialEq, Eq, Structural)]
pub enum WaiterState {
    Idle,
    Waiting,
    Woken,
}

/// The state of a waiter together with the wake handle of the task that
/// waits on it, if one does.
///
/// `W` is the executor's wake handle. All transitions are taken under one
/// lock by the caller, so each method here is one atomic step.
pub struct WaiterCore<W> {
    pub state: WaiterState,
    pub raw_waker: Option<W>,
}

impl<W> WaiterCore<W> {
    /// A wake handle is held exactly while a task waits.
    pub open spec fn wf(self) -> bool {
        (self.state == WaiterState::Waiting) == self.raw_waker.is_some()
    }

    /// The result that `wake` returns in this state.
    pub open spec fn wake_result(self) -> Option<()> {
        if self.state == WaiterState::Woken {
            None
        } else {
            Some(())
        }
    }

    /// The task handle that `wake` hands back to be woken, in this state.
    pub open spec fn wake_task(self) -> Option<W> {
        if self.state == WaiterState::Waiting {
            self.raw_waker
        } else {
            None
        }
    }

    /// The waiter after `wake`.
    pub open spec fn after_wake(self) -> WaiterCore<W> {
        WaiterCore { state: WaiterState::Woken, raw_waker: None }
    }

    /// Whether a poll of a wait in this state completes.
    pub open spec fn poll_ready(self) -> bool {
        self.state == WaiterState::Woken
    }

    /// The waiter after a wait is polled with the task handle `task`.
    pub open spec fn after_poll(self, task: W) -> WaiterCore<W> {
        if self.state == WaiterState::Woken {
            self
        } else {
            WaiterCore { state: WaiterState::Waiting, raw_waker: Some(task) }
        }
    }

    /// The waiter after a pending wait is abandoned.
    pub open spec fn after_cancel(self) -> WaiterCore<W> {
        if self.state == WaiterState::Waiting {
            WaiterCore { state: WaiterState::Idle, raw_waker: None }
        } else {
            self
        }
    }

    pub fn new() -> (r: WaiterCore<W>)
        ensures
            r.wf(),
            r.state == WaiterState::Idle,
            r.raw_waker.is_none(),
    {
        WaiterCore { state: WaiterState::Idle, raw_waker: None }
    }

    pub fn state(&self) -> (r: WaiterState)
        ensures
            r == self.state,
    {
        self.state
    }

    /// Returns the waiter to `Idle`. No wait may be outstanding; a wake
    /// handle left by one is dropped.
    pub fn reset(&mut self)
        ensures
            final(self).wf(),
            final(self).state == WaiterState::Idle,
            final(self).raw_waker.is_none(),
    {
        self.state = WaiterState::Idle;
        self.raw_waker = None;
    }

    /// Wakes the waiter. Returns `None` if it was already woken; otherwise
    /// `Some(())`, together with the handle of the waiting task, which the
    /// caller must wake.
    pub fn wake(&mut self) -> (r: (Option<()>, Option<W>))
        requires
            old(self).wf(),
        ensures
            final(self).wf(),
            r.0 == old(self).wake_result(),
            r.1 == old(self).wake_task(),
            old(self).state == WaiterState::Waiting ==> r.1.is_some(),
            *final(self) == (if old(self).state == WaiterState::Woken {
                *old(self)
            } else {
                old(self).after_wake()
            }),
    {
        match self.state {
            WaiterState::Idle => {
                self.state = WaiterState::Woken;
                (Some(()), None)
            },
            WaiterState::Waiting => {
                self.state = WaiterState::Woken;
                let task = self.raw_waker.take();
                (Some(()), task)
            },
            WaiterState::Woken => (None, None),
        }
    }

    /// One poll of a wait by the task whose handle is `task`. Returns
    /// `true` when the waiter has been woken; otherwise the waiter keeps
    /// `task` (replacing an older handle) to wake it later.
    pub fn poll_wait(&mut self, task: W) -> (ready: bool)
        requires
            old(self).wf(),
        ensures
            final(self).wf(),
            ready == old(self).poll_ready(),
            *final(self) == old(self).after_poll(task),
    {
        match self.state {
            WaiterState::Woken => true,
            _ => {
                self.state = WaiterState::Waiting;
                self.raw_waker = Some(task);
                false
            },
        }
    }

    /// Abandons a wait: a waiting waiter returns to `Idle` and forgets the
    /// task's handle, so that no later wake reaches a task that is gone.
    pub fn cancel_wait(&mut self)
        requires
            old(self).wf(),
        ensures
            final(self).wf(),
            *final(self) == old(self).after_cancel(),
    {
        if let WaiterState::Waiting = self.state {
            self.raw_waker = None;
            self.state = WaiterState::Idle;
        }
    }
}

/// Once `wake` has succeeded, every later poll of a wait completes at once
/// and leaves the waiter as it is; and a wake that follows a pending poll
/// hands back the handle of the task that polled.
pub proof fn wake_then_poll_is_ready<W>(w: WaiterCore<W>, task: W)
    requires
        w.wf(),
    ensures
        w.after_wake().poll_ready(),
        w.after_wake().after_poll(task) == w.after_wake(),
        !w.poll_ready() ==> w.after_poll(task).wake_task() == Some(task),
        !w.poll_ready() ==> w.after_poll(task).wake_result() == Some(()),
{
}

/// Abandoning a wait that is pending leaves the waiter `Idle` with no task
/// handle.
pub proof fn cancel_restores_idle<W>(w: WaiterCore<W>)
    requires
        w.wf(),
        w.state == WaiterState::Waiting,
    ensures
        w.after_cancel().state == WaiterState::Idle,
        w.after_cancel().raw_waker.is_none(),
{
}

/// A second wake with no reset in between reports "already woken", hands
/// back no task handle and changes nothing: the task is woken at most once.
pub proof fn wake_is_idempotent<W>(w: WaiterCore<W>)
    requires
        w.wf(),
    ensures
        w.after_wake().wake_result().is_none(),
        w.after_wake().wake_task().is_none(),
        w.after_wake().state == WaiterState::Woken,
{
}

/// How one poll of a wait with a deadline ends. The wait is looked at first,
/// so a wake that races with the deadline is not reported as a timeout.
///
/// Returns `None` while neither is ready. Otherwise the result of the wait
/// and the time budget, in nanoseconds, to hand back to the caller: what was
/// left on the timer after a wake, zero after a timeout.
pub fn timed_wait_outcome(wait_ready: bool, timer_ready: bool, remained: u64) -> (r: Option<
    (Result<(), Errno>, u64),
>)
    ensures
        wait_ready ==> r == Some((Ok::<(), Errno>(()), remained)),
        !wait_ready && timer_ready ==> r == Some((Err::<(), Errno>(Errno::ETIMEDOUT), 0u64)),
        !wait_ready && !timer_ready ==> r.is_none(),
{
    if wait_ready {
        Some((Ok(()), remained))
    } else if timer_ready {
        Some((Err(Errno::ETIMEDOUT), 0))
    } else {
        None
    }
}

} // verus!
