//! The usage poller: at most one periodic refresh task, and the guard that
//! keeps refreshes from probing for rate limits more than once at a time.
//!
//! Tasks are started and aborted by the caller. This module decides which
//! task is the current one, how long it waits between refreshes, and which
//! task has to go.

use vstd::prelude::*;

verus! {

/// The shortest interval between two refreshes, in minutes.
pub const MIN_INTERVAL_MINUTES: i64 = 1;

/// The longest interval between two refreshes, in minutes.
pub const MAX_INTERVAL_MINUTES: i64 = 120;

/// `minutes`, held to the interval from one minute to two hours.
pub open spec fn clamped_minutes(minutes: i64) -> i64 {
    if minutes < MIN_INTERVAL_MINUTES {
        MIN_INTERVAL_MINUTES
    } else if minutes > MAX_INTERVAL_MINUTES {
        MAX_INTERVAL_MINUTES
    } else {
        minutes
    }
}

/// The time between two refreshes, in seconds, for a configured interval of
/// `minutes`.
pub fn poll_interval_secs(minutes: i64) -> (secs: u64)
    ensures
        secs == 60 * clamped_minutes(minutes),
        60 <= secs <= 7200,
{
    let held: i64 = if minutes < MIN_INTERVAL_MINUTES {
        MIN_INTERVAL_MINUTES
    } else if minutes > MAX_INTERVAL_MINUTES {
        MAX_INTERVAL_MINUTES
    } else {
        minutes
    };
    (held as u64) * 60
}

/// The holder of the periodic task. `H` is the caller's handle on a running
/// task.
pub struct Poller<H> {
    pub task: Option<H>,
}

/// What a restart asks of the caller.
pub struct Restart<H> {
    /// The task that ran until now. It is to be aborted.
    pub cancelled: Option<H>,
    /// The interval of the task to start, in seconds; absent where polling
    /// is switched off and no task is to run.
    pub interval_secs: Option<u64>,
}

/// The state of a poller after a restart, and the task that the restart
/// gives up.
pub open spec fn restarted<H>(task: Option<H>) -> (Option<H>, Option<H>) {
    (None, task)
}

/// The state of a poller after `started` was installed, and the task that
/// had to make room.
pub open spec fn installed<H>(task: Option<H>, started: H) -> (Option<H>, Option<H>) {
    (Some(started), task)
}

impl<H> Poller<H> {
    /// A poller with no task.
    pub fn new() -> (poller: Self)
        ensures
            poller.task is None,
    {
        Poller { task: None }
    }

    /// Whether the poller holds a task.
    pub fn is_running(&self) -> (running: bool)
        ensures
            running == self.task is Some,
    {
        self.task.is_some()
    }

    /// Gives up the current task and says whether a new one is to be
    /// started, and with which interval. The poller holds no task afterwards;
    /// the one that the caller starts is handed in with [`Poller::install`].
    pub fn restart(&mut self, enabled: bool, interval_minutes: i64) -> (plan: Restart<H>)
        ensures
            (final(self).task, plan.cancelled) == restarted(old(self).task),
            plan.interval_secs == if enabled {
                Some((60 * clamped_minutes(interval_minutes)) as u64)
            } else {
                None
            },
    {
        let cancelled = self.task.take();
        let interval_secs = if enabled {
            Some(poll_interval_secs(interval_minutes))
        } else {
            None
        };
        Restart { cancelled, interval_secs }
    }

    /// Makes `task` the current task. A task that was current until now is
    /// handed back: it is to be aborted.
    pub fn install(&mut self, task: H) -> (displaced: Option<H>)
        ensures
            (final(self).task, displaced) == installed(old(self).task, task),
    {
        let displaced = self.task.take();
        self.task = Some(task);
        displaced
    }
}

/// Two restarts in a row leave one task, the second: the task of the first
/// restart is given up by the second, and each task that ever ran is either
/// the current one or was handed back to be aborted.
pub proof fn law_one_task_after_restarts<H>(before: Option<H>, first: H, second: H)
    ensures
        ({
            let (idle_a, given_up_a) = restarted(before);
            let (running_a, displaced_a) = installed(idle_a, first);
            let (idle_b, given_up_b) = restarted(running_a);
            let (running_b, displaced_b) = installed(idle_b, second);
            &&& given_up_a == before
            &&& displaced_a is None
            &&& given_up_b == Some(first)
            &&& displaced_b is None
            &&& running_b == Some(second)
        }),
{
}

/// The guard of the rate-limit probe: at most one probe runs at a time.
pub struct ProbeGuard {
    pub in_flight: bool,
}

impl ProbeGuard {
    /// A guard with no probe in flight.
    pub fn new() -> (guard: Self)
        ensures
            !guard.in_flight,
    {
        ProbeGuard { in_flight: false }
    }

    /// Asks for leave to probe. Leave is given when no probe is in flight,
    /// and none is given again until [`ProbeGuard::finish`]; a caller that
    /// gets none skips the probe.
    pub fn try_begin(&mut self) -> (granted: bool)
        ensures
            granted == !old(self).in_flight,
            final(self).in_flight,
    {
        let granted = !self.in_flight;
        self.in_flight = true;
        granted
    }

    /// Marks the probe as over: the next caller gets leave again.
    pub fn finish(&mut self)
        ensures
            !final(self).in_flight,
    {
        self.in_flight = false;
    }
}

} // verus!
