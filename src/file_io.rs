use vstd::prelude::*;

use crate::errno::Errno;
use crate::events::{Events, StatusFlags, O_NONBLOCK};

verus! {

/// Whether a file with status `flags` is non-blocking.
pub fn is_nonblocking(flags: StatusFlags) -> (r: bool)
    ensures
        r == flags.has_all(StatusFlags { bits: O_NONBLOCK }),
{
    flags.contains(StatusFlags::from_bits(O_NONBLOCK))
}

/// Whether an I/O result goes back to the caller: always on a non-blocking
/// file, and otherwise unless it is "would block".
pub fn should_io_return(res: &Result<usize, Errno>, is_nonblocking: bool) -> (r: bool)
    ensures
        r == (is_nonblocking || *res != Err::<usize, Errno>(Errno::EAGAIN)),
{
    if is_nonblocking {
        return true;
    }
    match res {
        Err(e) => !e.is_would_block(),
        Ok(_) => true,
    }
}

/// The position of the first non-empty buffer among buffers of lengths
/// `lens`; a vectored read or write without its own implementation uses
/// that buffer alone, and transfers nothing when there is none.
pub fn first_nonempty(lens: &Vec<usize>) -> (r: Option<usize>)
    ensures
        r.is_none() <==> forall|i: int| 0 <= i < lens@.len() ==> lens@[i] == 0,
        r.is_some() ==> ({
            let k = r.unwrap();
            &&& k < lens@.len()
            &&& lens@[k as int] > 0
            &&& forall|i: int| 0 <= i < k ==> lens@[i] == 0
        }),
{
    let mut i: usize = 0;
    while i < lens.len()
        invariant
            i <= lens@.len(),
            forall|j: int| 0 <= j < i ==> lens@[j] == 0,
        decreases lens@.len() - i,
    {
        if lens[i] > 0 {
            return Some(i);
        }
        i = i + 1;
    }
    None
}

/// Where an awaitable read or write stands.
#[derive(Debug, Clone, Copy, PartialEq, Eq, Structural)]
pub enum IoPhase {
    /// The first, non-blocking attempt is to be made.
    FastPath,
    /// A fresh poller is to be subscribed for the direction's event.
    Polling,
    /// The file reported the event; the attempt is to be made again.
    Retrying,
    /// The task is to wait on the poller's waiter.
    Waiting,
    /// The result has gone back to the caller.
    Done,
}

/// What the driver of an awaitable read or write does next.
#[derive(Debug, Clone, Copy)]
pub enum IoAction {
    /// Make the non-blocking I/O call on the inner file, and report its
    /// result with `on_io_result`.
    TryIo,
    /// Make a fresh poller, call the inner file's `poll_by` with it for
    /// these events, and report the events with `on_polled`.
    Subscribe(Events),
    /// Wait on the poller, then drop it and report with `on_woken`.
    Wait,
    /// Return this result to the caller.
    Return(Result<usize, Errno>),
}

/// The decisions of an awaitable read (direction `IN`) or write
/// (direction `OUT`) over a file whose calls never block: try at once;
/// on "would block", subscribe first, then retry, and only then wait.
pub struct IoLoop {
    pub nonblocking: bool,
    pub direction: Events,
    pub phase: IoPhase,
}

impl IoLoop {
    /// The step after an I/O call returned `res`.
    pub open spec fn io_step(self, res: Result<usize, Errno>) -> (IoLoop, IoAction) {
        if self.nonblocking || res != Err::<usize, Errno>(Errno::EAGAIN) {
            (IoLoop { phase: IoPhase::Done, ..self }, IoAction::Return(res))
        } else if self.phase == IoPhase::FastPath {
            (IoLoop { phase: IoPhase::Polling, ..self }, IoAction::Subscribe(self.direction))
        } else {
            (IoLoop { phase: IoPhase::Waiting, ..self }, IoAction::Wait)
        }
    }

    /// The step after `poll_by` reported `events`.
    pub open spec fn poll_step(self, events: Events) -> (IoLoop, IoAction) {
        if events.has_all(self.direction) {
            (IoLoop { phase: IoPhase::Retrying, ..self }, IoAction::TryIo)
        } else {
            (IoLoop { phase: IoPhase::Waiting, ..self }, IoAction::Wait)
        }
    }

    /// The step after the waiter was woken.
    pub open spec fn wake_step(self) -> (IoLoop, IoAction) {
        (IoLoop { phase: IoPhase::Polling, ..self }, IoAction::Subscribe(self.direction))
    }

    /// Starts an operation in `direction` on a file whose status flags are
    /// `flags`, read once here. The first action is `TryIo`.
    pub fn new(flags: StatusFlags, direction: Events) -> (r: IoLoop)
        ensures
            r.nonblocking == flags.has_all(StatusFlags { bits: O_NONBLOCK }),
            r.direction == direction,
            r.phase == IoPhase::FastPath,
    {
        IoLoop { nonblocking: is_nonblocking(flags), direction, phase: IoPhase::FastPath }
    }

    /// Reports the result of the I/O call that `TryIo` asked for.
    pub fn on_io_result(&mut self, res: Result<usize, Errno>) -> (r: IoAction)
        requires
            old(self).phase == IoPhase::FastPath || old(self).phase == IoPhase::Retrying,
        ensures
            (*final(self), r) == old(self).io_step(res),
    {
        if should_io_return(&res, self.nonblocking) {
            self.phase = IoPhase::Done;
            IoAction::Return(res)
        } else if self.phase == IoPhase::FastPath {
            self.phase = IoPhase::Polling;
            IoAction::Subscribe(self.direction)
        } else {
            self.phase = IoPhase::Waiting;
            IoAction::Wait
        }
    }

    /// Reports the events that `poll_by` returned for `Subscribe`.
    pub fn on_polled(&mut self, events: Events) -> (r: IoAction)
        requires
            old(self).phase == IoPhase::Polling,
        ensures
            (*final(self), r) == old(self).poll_step(events),
    {
        if events.contains(self.direction) {
            self.phase = IoPhase::Retrying;
            IoAction::TryIo
        } else {
            self.phase = IoPhase::Waiting;
            IoAction::Wait
        }
    }

    /// Reports that the wait asked for by `Wait` has ended.
    pub fn on_woken(&mut self) -> (r: IoAction)
        requires
            old(self).phase == IoPhase::Waiting,
        ensures
            (*final(self), r) == old(self).wake_step(),
    {
        self.phase = IoPhase::Polling;
        IoAction::Subscribe(self.direction)
    }
}

/// On a non-blocking file the first I/O result goes back to the caller as
/// it is: the operation never subscribes and never waits.
pub proof fn nonblocking_returns_first_result(l: IoLoop, res: Result<usize, Errno>)
    requires
        l.nonblocking,
        l.phase == IoPhase::FastPath,
    ensures
        l.io_step(res).1 == IoAction::Return(res),
        l.io_step(res).0.phase == IoPhase::Done,
{
}

/// On a blocking file no step ever returns "would block" to the caller.
pub proof fn blocking_never_returns_would_block(
    l: IoLoop,
    res: Result<usize, Errno>,
    events: Events,
)
    requires
        !l.nonblocking,
    ensures
        l.io_step(res).1 != IoAction::Return(Err(Errno::EAGAIN)),
        l.poll_step(events).1 is TryIo || l.poll_step(events).1 is Wait,
        l.wake_step().1 is Subscribe,
{
}

/// Every wait is preceded by a subscription: the phase before `Wait` is
/// reached is one in which a subscription has been made in this round.
pub proof fn wait_follows_subscription(l: IoLoop, res: Result<usize, Errno>, events: Events)
    ensures
        l.phase == IoPhase::FastPath ==> l.io_step(res).1 != IoAction::Wait,
        l.poll_step(events).1 == IoAction::Wait ==> !events.has_all(l.direction),
        l.wake_step().1 == IoAction::Subscribe(l.direction),
{
}

} // verus!
