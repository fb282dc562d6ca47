//! The polling loop as an explicit state machine.
//!
//! The monitor drives repeated aggregation passes at a fixed interval
//! with an optional run-count bound and cooperative cancellation. It
//! holds no clock and performs no I/O: a driver asks for the
//! [`next_action`](Monitor::next_action), performs it (run a batch and
//! deliver the report, or sleep the interval), and reports back through
//! [`record_pass`](Monitor::record_pass) and [`resume`](Monitor::resume).
//! Run-count limits and cancellation are therefore testable without
//! wall-clock waits.

use vstd::prelude::*;

verus! {

/// Where the monitor stands in its `Idle -> Running -> Waiting -> ... ->
/// Stopped` lifecycle.
#[derive(Clone, Copy, Debug, PartialEq, Eq, Structural)]
pub enum MonitorPhase {
    /// Not started yet.
    Idle,
    /// A pass is in flight; a running batch is never aborted, not even by
    /// cancellation.
    Running,
    /// Between passes, sleeping the interval; the one point besides the
    /// start of a pass where cancellation is observed.
    Waiting,
    /// Terminal: the run bound was reached or cancellation was observed.
    Stopped,
}

/// What the driver should do next.
#[derive(Clone, Copy, Debug, PartialEq, Eq, Structural)]
pub enum MonitorAction {
    /// Execute one batch, deliver the report, then call `record_pass`.
    RunBatch,
    /// Sleep the interval, then call `resume`.
    Sleep,
    /// The monitor is finished (or was never started).
    Stop,
}

/// The monitor's whole state: read-only configuration plus progress.
#[derive(Clone, Copy, Debug, PartialEq, Eq, Structural)]
pub struct Monitor {
    /// Seconds between passes; zero means back-to-back passes.
    pub interval_secs: u64,
    /// How many passes to perform; zero means unbounded.
    pub max_runs: u32,
    /// Completed passes.
    pub run_count: u32,
    /// Current lifecycle phase.
    pub phase: MonitorPhase,
}

/// Whether a monitor with bound `max_runs` has performed its last pass
/// once `run_count` passes are done.
pub open spec fn run_bound_reached(max_runs: u32, run_count: u32) -> bool {
    max_runs > 0 && run_count >= max_runs
}

/// [`Monitor::start`] as a function on states.
pub open spec fn spec_start(m: Monitor, cancelled: bool) -> Monitor {
    Monitor { phase: if cancelled {
        MonitorPhase::Stopped
    } else {
        MonitorPhase::Running
    }, ..m }
}

/// [`Monitor::record_pass`] as a function on states.
pub open spec fn spec_record_pass(m: Monitor) -> Monitor {
    Monitor {
        run_count: (m.run_count + 1) as u32,
        phase: if run_bound_reached(m.max_runs, (m.run_count + 1) as u32) {
            MonitorPhase::Stopped
        } else {
            MonitorPhase::Waiting
        },
        ..m
    }
}

/// [`Monitor::resume`] as a function on states.
pub open spec fn spec_resume(m: Monitor, cancelled: bool) -> Monitor {
    Monitor { phase: if cancelled {
        MonitorPhase::Stopped
    } else {
        MonitorPhase::Running
    }, ..m }
}

/// [`Monitor::next_action`] as a function on states.
pub open spec fn spec_next_action(m: Monitor) -> MonitorAction {
    match m.phase {
        MonitorPhase::Running => MonitorAction::RunBatch,
        MonitorPhase::Waiting => MonitorAction::Sleep,
        MonitorPhase::Idle => MonitorAction::Stop,
        MonitorPhase::Stopped => MonitorAction::Stop,
    }
}

/// The bound invariant: with a positive run bound, a monitor that is not
/// yet stopped has strictly fewer completed passes than the bound, and
/// the count never exceeds the bound.
pub open spec fn bound_inv(m: Monitor) -> bool {
    m.max_runs > 0 ==> {
        &&& m.run_count <= m.max_runs
        &&& !(m.phase is Stopped) ==> m.run_count < m.max_runs
    }
}

/// Law: every transition preserves [`bound_inv`], so a monitor with
/// `max_runs = n > 0` performs at most `n` passes — each pass starts in
/// `Running`, where fewer than `n` passes are done — and `record_pass`
/// stops it the moment the bound is reached, with no further waiting.
pub proof fn lemma_bound_invariant_preserved(m: Monitor, cancelled: bool)
    requires
        bound_inv(m),
        m.run_count < u32::MAX,
    ensures
        m.phase is Idle ==> bound_inv(spec_start(m, cancelled)),
        m.phase is Waiting ==> bound_inv(spec_resume(m, cancelled)),
        m.phase is Running ==> bound_inv(spec_record_pass(m)),
        m.phase is Running && run_bound_reached(m.max_runs, (m.run_count + 1) as u32)
            ==> spec_record_pass(m).phase is Stopped,
        m.phase is Running && !run_bound_reached(m.max_runs, (m.run_count + 1) as u32)
            ==> spec_record_pass(m).phase is Waiting,
{
}

/// A driver that performs every requested action and never requests
/// cancellation, taking at most `fuel` steps: the state it leaves the
/// monitor in, and how many passes it performed.
pub open spec fn spec_drive(m: Monitor, fuel: nat) -> (Monitor, nat)
    decreases fuel,
{
    if fuel == 0 {
        (m, 0)
    } else {
        match m.phase {
            MonitorPhase::Idle => spec_drive(spec_start(m, false), (fuel - 1) as nat),
            MonitorPhase::Running => {
                let (end, passes) = spec_drive(spec_record_pass(m), (fuel - 1) as nat);
                (end, passes + 1)
            },
            MonitorPhase::Waiting => spec_drive(spec_resume(m, false), (fuel - 1) as nat),
            MonitorPhase::Stopped => (m, 0),
        }
    }
}

/// Law: a running monitor with a positive bound, driven without
/// cancellation, performs exactly the remaining number of passes and
/// then stands stopped at its bound.
pub proof fn lemma_bounded_drive(m: Monitor, fuel: nat)
    requires
        m.phase is Running,
        m.max_runs > 0,
        m.run_count < m.max_runs,
        fuel >= 2 * (m.max_runs - m.run_count),
    ensures
        spec_drive(m, fuel).0.phase is Stopped,
        spec_drive(m, fuel).0.run_count == m.max_runs,
        spec_drive(m, fuel).1 == m.max_runs - m.run_count,
    decreases m.max_runs - m.run_count,
{
    let m1 = spec_record_pass(m);
    if m.run_count + 1 == m.max_runs {
        assert(m1.phase is Stopped);
        assert(spec_drive(m1, (fuel - 1) as nat) == (m1, 0nat));
    } else {
        assert(m1.phase is Waiting);
        let m2 = spec_resume(m1, false);
        assert(spec_drive(m1, (fuel - 1) as nat) == spec_drive(m2, (fuel - 2) as nat));
        lemma_bounded_drive(m2, (fuel - 2) as nat);
    }
}

/// Law: a fresh monitor with bound `max_runs > 0`, started and driven
/// without cancellation, performs exactly `max_runs` passes and stops.
pub proof fn lemma_monitor_runs_to_bound(interval_secs: u64, max_runs: u32, fuel: nat)
    requires
        max_runs > 0,
        fuel >= 2 * max_runs + 1,
    ensures
        ({
            let m = Monitor { interval_secs, max_runs, run_count: 0, phase: MonitorPhase::Idle };
            &&& spec_drive(m, fuel).0.phase is Stopped
            &&& spec_drive(m, fuel).1 == max_runs
        }),
{
    let m = Monitor { interval_secs, max_runs, run_count: 0, phase: MonitorPhase::Idle };
    let started = spec_start(m, false);
    assert(spec_drive(m, fuel) == spec_drive(started, (fuel - 1) as nat));
    lemma_bounded_drive(started, (fuel - 1) as nat);
}

/// Law: cancellation observed at the waiting boundary stops the monitor
/// before any further pass begins.
pub proof fn lemma_cancellation_honored(m: Monitor)
    requires
        m.phase is Waiting,
    ensures
        spec_resume(m, true).phase is Stopped,
        spec_next_action(spec_resume(m, true)) is Stop,
{
}

impl Monitor {
    /// A monitor that has not started: no pass done, `Idle`.
    pub fn new(interval_secs: u64, max_runs: u32) -> (r: Monitor)
        ensures
            r == (Monitor {
                interval_secs,
                max_runs,
                run_count: 0,
                phase: MonitorPhase::Idle,
            }),
    {
        Monitor { interval_secs, max_runs, run_count: 0, phase: MonitorPhase::Idle }
    }

    /// Begins monitoring: the first pass starts immediately unless
    /// cancellation is already requested.
    pub fn start(&mut self, cancelled: bool)
        requires
            old(self).phase is Idle,
        ensures
            *final(self) == spec_start(*old(self), cancelled),
    {
        self.phase = if cancelled {
            MonitorPhase::Stopped
        } else {
            MonitorPhase::Running
        };
    }

    /// Records that a pass produced its report and the report was handed
    /// to the sink. Reaching the run bound stops the monitor at once,
    /// with no further sleep; otherwise it waits out the interval.
    ///
    /// A bad report never stops the monitor: a fully unhealthy pass is a
    /// normal, reportable outcome, which is why this takes no report.
    pub fn record_pass(&mut self)
        requires
            old(self).phase is Running,
            old(self).run_count < u32::MAX,
        ensures
            *final(self) == spec_record_pass(*old(self)),
    {
        self.run_count = self.run_count + 1;
        self.phase = if self.max_runs > 0 && self.run_count >= self.max_runs {
            MonitorPhase::Stopped
        } else {
            MonitorPhase::Waiting
        };
    }

    /// Wakes from the interval sleep: the next pass begins unless
    /// cancellation was requested meanwhile.
    pub fn resume(&mut self, cancelled: bool)
        requires
            old(self).phase is Waiting,
        ensures
            *final(self) == spec_resume(*old(self), cancelled),
    {
        self.phase = if cancelled {
            MonitorPhase::Stopped
        } else {
            MonitorPhase::Running
        };
    }

    /// What the driver should do next in the current phase.
    pub fn next_action(&self) -> (r: MonitorAction)
        ensures
            r == spec_next_action(*self),
    {
        match self.phase {
            MonitorPhase::Running => MonitorAction::RunBatch,
            MonitorPhase::Waiting => MonitorAction::Sleep,
            MonitorPhase::Idle => MonitorAction::Stop,
            MonitorPhase::Stopped => MonitorAction::Stop,
        }
    }
}

} // verus!
