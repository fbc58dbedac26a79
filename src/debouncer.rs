//! Paces a frequent trigger: a job runs only when a minimum interval has
//! passed since its last run.
use vstd::prelude::*;

verus! {

/// The interval, in milliseconds, at which the server drains the
/// expander's responses.
pub const PROC_MACRO_POLL_INTERVAL_MS: u64 = 10;

/// Runs a job at most once per interval. Times are milliseconds on a clock
/// that the caller reads.
pub struct Debouncer {
    time: u64,
    last_run: Option<u64>,
}

impl Debouncer {
    /// The minimum interval between two runs.
    pub closed spec fn interval(&self) -> nat {
        self.time as nat
    }

    /// When the job last ran; `None` before the first run.
    pub closed spec fn last_run(&self) -> Option<u64> {
        self.last_run
    }

    /// Whether a call at `now` runs the job: always before the first run,
    /// then once `interval` has passed. A clock that went back counts as no
    /// time passed.
    pub open spec fn due(&self, now: u64) -> bool {
        match self.last_run() {
            None => true,
            Some(last) => now >= last && now - last >= self.interval(),
        }
    }

    /// A debouncer with interval `time`, whose first call always runs.
    pub fn new(time: u64) -> (r: Self)
        ensures
            r.interval() == time,
            r.last_run().is_none(),
    {
        Debouncer { time, last_run: None }
    }

    /// Runs `job` if it is due at `now`; returns whether it ran.
    pub fn run_debounced<F: FnOnce()>(&mut self, now: u64, job: F) -> (ran: bool)
        requires
            job.requires(()),
        ensures
            ran == old(self).due(now),
            final(self).interval() == old(self).interval(),
            ran ==> final(self).last_run() == Some(now) && job.ensures((), ()),
            !ran ==> final(self).last_run() == old(self).last_run(),
    {
        let due = match self.last_run {
            None => true,
            Some(last) => now >= last && now - last >= self.time,
        };
        if due {
            self.last_run = Some(now);
            job();
        }
        due
    }
}

/// Two calls: the first always runs the job, whenever the debouncer was
/// made; a second call, at `t2` after the first at `t1`, runs it exactly
/// when the interval has passed in between. `ran_once` is the debouncer
/// as the first call leaves it.
pub proof fn lemma_debounce_two_calls(fresh: Debouncer, ran_once: Debouncer, t1: u64, t2: u64)
    requires
        fresh.last_run().is_none(),
        ran_once.interval() == fresh.interval(),
        ran_once.last_run() == Some(t1),
        t1 <= t2,
    ensures
        fresh.due(t1),
        ran_once.due(t2) <==> t2 - t1 >= fresh.interval(),
{
}

} // verus!
