//! A start/stop timer. Time is read from a monotonic clock as whole
//! nanoseconds since the stopwatch was made; every transition also exists
//! in a form that takes that reading as an argument.

use vstd::prelude::*;
use std::time::Instant;
use core::time::Duration;

verus! {

#[verifier::external_type_specification]
#[verifier::external_body]
pub struct ExInstant(Instant);

/// Relies on std::time::Instant::now: a reading of the monotonic clock.
pub assume_specification[ Instant::now ]() -> Instant;

/// Relies on std::time::Instant::elapsed: the time since the reading, zero
/// where the clock reads earlier; it does not panic.
pub assume_specification[ Instant::elapsed ](i: &Instant) -> Duration;

/// Relies on core::time::Duration::as_nanos: the whole duration in nanoseconds.
pub assume_specification[ Duration::as_nanos ](d: &Duration) -> u128;

/// `x` held to the range of `u64`: totals saturate at `u64::MAX`
/// nanoseconds, about 584 years.
pub open spec fn clamp_u64(x: int) -> u64 {
    if x < 0 {
        0
    } else if x > u64::MAX {
        u64::MAX
    } else {
        x as u64
    }
}

/// What a stopwatch holds, clock readings in nanoseconds.
pub struct WatchView {
    /// Time measured by the runs that have ended.
    pub elapsed: u64,
    /// Whether a run is going on.
    pub running: bool,
    /// The clock reading at which the current run began (or the last reset).
    pub started: u64,
}

impl WatchView {
    /// Length of the current run at clock reading `now`: zero where `now`
    /// is earlier than its start.
    pub open spec fn run_length(self, now: u64) -> int {
        if now >= self.started {
            now - self.started
        } else {
            0
        }
    }

    /// Total measured time at clock reading `now`, saturating at `u64::MAX`.
    pub open spec fn elapsed_at(self, now: u64) -> u64 {
        if self.running {
            clamp_u64(self.elapsed + self.run_length(now))
        } else {
            self.elapsed
        }
    }

    /// Starting: a stopped watch begins a run at `now`; a running one is unchanged.
    pub open spec fn start_at(self, now: u64) -> WatchView {
        if self.running {
            self
        } else {
            WatchView { elapsed: self.elapsed, running: true, started: now }
        }
    }

    /// Stopping: a running watch adds the run to its total; a stopped one is unchanged.
    pub open spec fn stop_at(self, now: u64) -> WatchView {
        if self.running {
            WatchView { elapsed: self.elapsed_at(now), running: false, started: self.started }
        } else {
            self
        }
    }

    /// Resetting: a stopped watch goes back to zero; a running one is unchanged.
    pub open spec fn reset_at(self, now: u64) -> WatchView {
        if self.running {
            self
        } else {
            WatchView { elapsed: 0, running: false, started: now }
        }
    }
}

/// A stopwatch that accumulates the length of its runs.
pub struct StopWatch {
    elapsed: u64,
    start: bool,
    instant: u64,
    origin: Instant,
}

impl View for StopWatch {
    type V = WatchView;

    closed spec fn view(&self) -> WatchView {
        WatchView { elapsed: self.elapsed, running: self.start, started: self.instant }
    }
}

/// Nanoseconds between `origin` and now, saturating at `u64::MAX`.
fn nanos_since(origin: &Instant) -> (r: u64) {
    let d = origin.elapsed();
    let n: u128 = d.as_nanos();
    if n > u64::MAX as u128 {
        u64::MAX
    } else {
        n as u64
    }
}

impl StopWatch {
    /// A stopped watch at zero whose clock starts now.
    pub fn new() -> (r: StopWatch)
        ensures
            r@ == (WatchView { elapsed: 0, running: false, started: 0 }),
    {
        StopWatch { elapsed: 0, start: false, instant: 0, origin: Instant::now() }
    }

    /// The current clock reading: nanoseconds since the watch was made.
    pub fn now(&self) -> (r: u64) {
        nanos_since(&self.origin)
    }

    /// Whether a run is going on.
    pub fn is_running(&self) -> (r: bool)
        ensures
            r == self@.running,
    {
        self.start
    }

    /// Starts a run at clock reading `now`, unless one is going on.
    pub fn start_at(&mut self, now: u64)
        ensures
            final(self)@ == old(self)@.start_at(now),
    {
        if !self.start {
            self.start = true;
            self.instant = now;
        }
    }

    /// Ends the current run at clock reading `now`, adding it to the total.
    pub fn stop_at(&mut self, now: u64)
        ensures
            final(self)@ == old(self)@.stop_at(now),
    {
        if self.start {
            self.elapsed = self.elapsed_at(now);
            self.start = false;
        }
    }

    /// Sets a stopped watch back to zero at clock reading `now`; does
    /// nothing while a run is going on.
    pub fn reset_at(&mut self, now: u64)
        ensures
            final(self)@ == old(self)@.reset_at(now),
    {
        if !self.start {
            self.elapsed = 0;
            self.instant = now;
        }
    }

    /// Total measured time at clock reading `now`, in nanoseconds.
    pub fn elapsed_at(&self, now: u64) -> (r: u64)
        ensures
            r == self@.elapsed_at(now),
    {
        if self.start {
            let run: u64 = if now >= self.instant {
                now - self.instant
            } else {
                0
            };
            self.elapsed.saturating_add(run)
        } else {
            self.elapsed
        }
    }

    /// Starts a run now, unless one is going on.
    pub fn start(&mut self)
        ensures
            old(self)@.running ==> final(self)@ == old(self)@,
            !old(self)@.running ==> exists|now: u64| final(self)@ == old(self)@.start_at(now),
    {
        let now = self.now();
        self.start_at(now);
    }

    /// Ends the current run now, adding it to the total.
    pub fn stop(&mut self)
        ensures
            !old(self)@.running ==> final(self)@ == old(self)@,
            old(self)@.running ==> exists|now: u64| final(self)@ == old(self)@.stop_at(now),
    {
        let now = self.now();
        self.stop_at(now);
    }

    /// Sets a stopped watch back to zero now; does nothing while a run is
    /// going on.
    pub fn reset(&mut self)
        ensures
            old(self)@.running ==> final(self)@ == old(self)@,
            !old(self)@.running ==> exists|now: u64| final(self)@ == old(self)@.reset_at(now),
    {
        let now = self.now();
        self.reset_at(now);
    }

    /// Total measured time now, in nanoseconds.
    pub fn elapsed(&self) -> (r: u64)
        ensures
            !self@.running ==> r == self@.elapsed,
            self@.running ==> exists|now: u64| r == self@.elapsed_at(now),
    {
        let now = self.now();
        self.elapsed_at(now)
    }
}

/// Starting at `t0` and stopping at a later `t1` adds exactly `t1 - t0` to
/// a stopped watch (short of saturation); from a reset watch the total is
/// then `t1 - t0`.
pub proof fn lemma_start_stop_measures_interval(w: WatchView, r: u64, t0: u64, t1: u64)
    requires
        !w.running,
        t0 <= t1,
        w.elapsed + (t1 - t0) <= u64::MAX,
    ensures
        w.start_at(t0).stop_at(t1).elapsed == w.elapsed + (t1 - t0),
        !w.start_at(t0).stop_at(t1).running,
        w.reset_at(r).start_at(t0).stop_at(t1).elapsed_at(t1) == t1 - t0,
{
}

/// Resetting a running watch changes nothing.
pub proof fn lemma_reset_while_running_is_noop(w: WatchView, now: u64)
    requires
        w.running,
    ensures
        w.reset_at(now) == w,
{
}

/// The total measured time never goes down as the clock goes forward.
pub proof fn lemma_elapsed_monotone(w: WatchView, t0: u64, t1: u64)
    requires
        t0 <= t1,
    ensures
        w.elapsed_at(t0) <= w.elapsed_at(t1),
{
}

/// A stopped watch reads the same at every clock reading.
pub proof fn lemma_stopped_watch_is_still(w: WatchView, t0: u64, t1: u64)
    requires
        !w.running,
    ensures
        w.elapsed_at(t0) == w.elapsed_at(t1),
{
}

} // verus!
