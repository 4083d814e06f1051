use vstd::prelude::*;

verus! {

/// Seconds a stall must last before a warning is raised, and the least stall
/// after which a recovery is reported.
pub const STALL_WARNING_SECS: u64 = 5;

/// While hung, an extra reminder is raised whenever the stall length is a
/// multiple of this many seconds.
pub const HUNG_REMINDER_SECS: u64 = 30;

/// What one sample of the frame counter reports.
#[derive(Clone, Copy, Debug, PartialEq, Eq, Structural)]
pub enum WatchdogAlert {
    /// Nothing to report.
    Quiet,
    /// The counter has not moved for `seconds` (a warning).
    Stalled { seconds: u64, frame: u64 },
    /// The counter has not moved for at least the timeout (an error);
    /// `reminder` marks the periodic escalation.
    Hung { seconds: u64, frame: u64, reminder: bool },
    /// The counter moved again after a stall of `seconds`.
    Recovered { seconds: u64 },
}

impl WatchdogAlert {
    pub open spec fn is_warning_or_higher(self) -> bool {
        self is Stalled || self is Hung
    }
}

/// Liveness monitor of the stepping loop.
///
/// The stepping path reports its frame number through `heartbeat`; a timer
/// calls `sample` once per second with a monotonic clock reading in seconds.
pub struct SimulationWatchdog {
    last_frame: u64,
    running: bool,
    last_seen_frame: u64,
    stall_start: Option<u64>,
}

/// The watchdog as the contracts see it: the last frame reported, whether
/// the sampling timer should keep running, the frame seen at the previous
/// sample, and when the open stall window, if any, opened.
pub struct WatchdogModel {
    pub last_frame: u64,
    pub running: bool,
    pub last_seen_frame: u64,
    pub stall_start: Option<u64>,
}

impl View for SimulationWatchdog {
    type V = WatchdogModel;

    closed spec fn view(&self) -> WatchdogModel {
        WatchdogModel {
            last_frame: self.last_frame,
            running: self.running,
            last_seen_frame: self.last_seen_frame,
            stall_start: self.stall_start,
        }
    }
}

/// Seconds from `start` to `now` on a monotonic clock (zero if the clock
/// reading is earlier).
pub open spec fn elapsed(now: u64, start: u64) -> u64 {
    if now >= start { (now - start) as u64 } else { 0 }
}

/// The alert raised when the counter is still at `frame` and the stall
/// window opened `seconds` ago.
pub open spec fn stall_alert(seconds: u64, frame: u64, timeout: u64) -> WatchdogAlert {
    if seconds >= timeout {
        WatchdogAlert::Hung { seconds, frame, reminder: seconds % HUNG_REMINDER_SECS == 0 }
    } else if seconds >= STALL_WARNING_SECS {
        WatchdogAlert::Stalled { seconds, frame }
    } else {
        WatchdogAlert::Quiet
    }
}

/// One sample taken at `now` with hung threshold `timeout`: the state
/// afterwards and the alert raised.
pub open spec fn sample_spec(m: WatchdogModel, now: u64, timeout: u64) -> (WatchdogModel, WatchdogAlert) {
    if m.last_frame == m.last_seen_frame {
        match m.stall_start {
            Some(s) => (m, stall_alert(elapsed(now, s), m.last_frame, timeout)),
            None => (WatchdogModel { stall_start: Some(now), ..m }, WatchdogAlert::Quiet),
        }
    } else {
        let alert = match m.stall_start {
            Some(s) => if elapsed(now, s) >= STALL_WARNING_SECS {
                WatchdogAlert::Recovered { seconds: elapsed(now, s) }
            } else {
                WatchdogAlert::Quiet
            },
            None => WatchdogAlert::Quiet,
        };
        (WatchdogModel { last_seen_frame: m.last_frame, stall_start: None, ..m }, alert)
    }
}

impl SimulationWatchdog {
    /// A running watchdog that has seen frame zero and no stall.
    pub fn new() -> (r: SimulationWatchdog)
        ensures
            r@ == (WatchdogModel {
                last_frame: 0,
                running: true,
                last_seen_frame: 0,
                stall_start: None,
            }),
    {
        SimulationWatchdog { last_frame: 0, running: true, last_seen_frame: 0, stall_start: None }
    }

    /// Records the current frame number of the stepping loop.
    pub fn heartbeat(&mut self, frame_number: u64)
        ensures
            final(self)@ == (WatchdogModel { last_frame: frame_number, ..old(self)@ }),
    {
        self.last_frame = frame_number;
    }

    /// Asks the sampling timer to stop.
    pub fn stop(&mut self)
        ensures
            final(self)@ == (WatchdogModel { running: false, ..old(self)@ }),
    {
        self.running = false;
    }

    pub fn is_running(&self) -> (r: bool)
        ensures
            r == self@.running,
    {
        self.running
    }

    pub fn last_frame(&self) -> (r: u64)
        ensures
            r == self@.last_frame,
    {
        self.last_frame
    }

    /// Takes one sample of the frame counter at clock reading `now` (seconds)
    /// and decides which alert, if any, to raise.
    ///
    /// An unchanged counter opens a stall window, or reports on the open one:
    /// a warning from `STALL_WARNING_SECS` on, an error from `timeout_seconds`
    /// on. A counter that moved closes the window, and reports a recovery if
    /// the stall had lasted at least `STALL_WARNING_SECS`.
    pub fn sample(&mut self, now: u64, timeout_seconds: u64) -> (alert: WatchdogAlert)
        ensures
            (final(self)@, alert) == sample_spec(old(self)@, now, timeout_seconds),
    {
        let current_frame = self.last_frame;
        if current_frame == self.last_seen_frame {
            match self.stall_start {
                Some(start) => {
                    let seconds = if now >= start { now - start } else { 0 };
                    if seconds >= timeout_seconds {
                        WatchdogAlert::Hung {
                            seconds,
                            frame: current_frame,
                            reminder: seconds % HUNG_REMINDER_SECS == 0,
                        }
                    } else if seconds >= STALL_WARNING_SECS {
                        WatchdogAlert::Stalled { seconds, frame: current_frame }
                    } else {
                        WatchdogAlert::Quiet
                    }
                },
                None => {
                    self.stall_start = Some(now);
                    WatchdogAlert::Quiet
                },
            }
        } else {
            let alert = match self.stall_start {
                Some(start) => {
                    let seconds = if now >= start { now - start } else { 0 };
                    if seconds >= STALL_WARNING_SECS {
                        WatchdogAlert::Recovered { seconds }
                    } else {
                        WatchdogAlert::Quiet
                    }
                },
                None => WatchdogAlert::Quiet,
            };
            self.stall_start = None;
            self.last_seen_frame = current_frame;
            alert
        }
    }
}

/// The state after sampling at each of `times` in turn, with no heartbeat in
/// between.
pub open spec fn run_state(w: WatchdogModel, times: Seq<u64>, timeout: u64) -> WatchdogModel
    decreases times.len(),
{
    if times.len() == 0 {
        w
    } else {
        sample_spec(run_state(w, times.drop_last(), timeout), times.last(), timeout).0
    }
}

/// The alert raised by the last of the samples at `times`.
pub open spec fn last_alert(w: WatchdogModel, times: Seq<u64>, timeout: u64) -> WatchdogAlert
    recommends
        times.len() > 0,
{
    sample_spec(run_state(w, times.drop_last(), timeout), times.last(), timeout).1
}

/// How many recovery notices the samples at `times` raise.
pub open spec fn recoveries(w: WatchdogModel, times: Seq<u64>, timeout: u64) -> nat
    decreases times.len(),
{
    if times.len() == 0 {
        0
    } else {
        recoveries(w, times.drop_last(), timeout) + if last_alert(w, times, timeout) is Recovered {
            1nat
        } else {
            0nat
        }
    }
}

pub open spec fn increasing(times: Seq<u64>) -> bool {
    forall|i: int, j: int| 0 <= i < j < times.len() ==> times[i] < times[j]
}

proof fn lemma_run_frame(w: WatchdogModel, times: Seq<u64>, timeout: u64)
    ensures
        run_state(w, times, timeout).last_frame == w.last_frame,
        times.len() > 0 ==> run_state(w, times, timeout).last_seen_frame == w.last_frame,
    decreases times.len(),
{
    if times.len() > 0 {
        let prev = run_state(w, times.drop_last(), timeout);
        lemma_run_frame(w, times.drop_last(), timeout);
    }
}

/// A stall window, once open, opened no later than the first sample.
pub open spec fn window_before(w: WatchdogModel, t: u64) -> bool {
    w.stall_start is Some ==> w.stall_start->0 <= t
}

proof fn lemma_run_window_one(w: WatchdogModel, times: Seq<u64>, timeout: u64)
    requires
        times.len() >= 1,
        increasing(times),
        window_before(w, times[0]),
    ensures
        times.len() == 1 ==> window_before(run_state(w, times, timeout), times[0]),
        times.len() >= 2 ==> run_state(w, times, timeout).stall_start is Some,
        times.len() >= 2 ==> window_before(run_state(w, times, timeout), times[1]),
    decreases times.len(),
{
    let prev_times = times.drop_last();
    let prev = run_state(w, prev_times, timeout);
    let t = times.last();
    assert(run_state(w, times, timeout) == sample_spec(prev, t, timeout).0);
    if times.len() == 1 {
        assert(prev == w);
    } else {
        assert(increasing(prev_times));
        lemma_run_window_one(w, prev_times, timeout);
        lemma_run_frame(w, prev_times, timeout);
        assert(prev.last_frame == prev.last_seen_frame);
        assert(times[0] < t);
        if times.len() == 2 {
            assert(times[1] == t);
        } else {
            assert(times[1] < t);
        }
    }
}

/// A stall is always escalated: when no heartbeat arrives during samples
/// taken at increasing times, the sample at or after `timeout_seconds` past
/// the second one raises an error, which is above a warning.
///
/// The first sample after the last heartbeat may only take note of the new
/// frame; the stall window opens at the latest with the second. A window
/// that was already open must have opened no later than the first sample.
pub proof fn lemma_stall_escalates(w: WatchdogModel, times: Seq<u64>, timeout_seconds: u64)
    requires
        times.len() >= 3,
        increasing(times),
        window_before(w, times[0]),
        times.last() >= times[1] + timeout_seconds,
    ensures
        last_alert(w, times, timeout_seconds).is_warning_or_higher(),
        last_alert(w, times, timeout_seconds) is Hung,
{
    let prev_times = times.drop_last();
    let prev = run_state(w, prev_times, timeout_seconds);
    assert(increasing(prev_times));
    lemma_run_window_one(w, prev_times, timeout_seconds);
    lemma_run_frame(w, prev_times, timeout_seconds);
    assert(prev_times[1] == times[1]);
    assert(times[1] < times.last());
    let s = prev.stall_start->0;
    assert(elapsed(times.last(), s) >= timeout_seconds);
}

proof fn lemma_no_recovery_after_first(w: WatchdogModel, times: Seq<u64>, timeout: u64)
    requires
        times.len() >= 2,
    ensures
        !(last_alert(w, times, timeout) is Recovered),
{
    let prev_times = times.drop_last();
    let prev = run_state(w, prev_times, timeout);
    lemma_run_frame(w, prev_times, timeout);
    assert(prev.last_frame == prev.last_seen_frame);
    let r = sample_spec(prev, times.last(), timeout);
    match prev.stall_start {
        Some(s) => {
            assert(r.1 == stall_alert(elapsed(times.last(), s), prev.last_frame, timeout));
        },
        None => {
            assert(r.1 == WatchdogAlert::Quiet);
        },
    }
}

proof fn lemma_recoveries_after_first(w: WatchdogModel, times: Seq<u64>, timeout: u64)
    requires
        times.len() >= 1,
    ensures
        recoveries(w, times, timeout) == recoveries(w, times.take(1), timeout),
    decreases times.len(),
{
    if times.len() > 1 {
        let prev_times = times.drop_last();
        lemma_recoveries_after_first(w, prev_times, timeout);
        assert(prev_times.take(1) =~= times.take(1));
        lemma_no_recovery_after_first(w, times, timeout);
        assert(recoveries(w, times, timeout) == recoveries(w, prev_times, timeout));
    } else {
        assert(times.take(1) =~= times);
    }
}

/// Recovery is reported at most once: after a heartbeat, samples taken with
/// no further heartbeat raise at most one recovery notice.
pub proof fn lemma_single_recovery(w: WatchdogModel, times: Seq<u64>, timeout_seconds: u64)
    ensures
        recoveries(w, times, timeout_seconds) <= 1,
{
    if times.len() >= 1 {
        lemma_recoveries_after_first(w, times, timeout_seconds);
        let first = times.take(1);
        assert(first.drop_last() =~= Seq::<u64>::empty());
        assert(recoveries(w, first.drop_last(), timeout_seconds) == 0);
    }
}

} // verus!
