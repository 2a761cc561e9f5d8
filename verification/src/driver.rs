//! The reporter/driver phase machine. It owns simulation time as plain
//! elapsed milliseconds, decides when to report and when to shut down, and
//! walks the run through its phases in order, never backwards. Reading the
//! clock, printing the report lines and joining threads happen in the
//! surrounding application.

use vstd::prelude::*;

verus! {

/// The phases of one run, in the order they are entered.
#[derive(Debug, Clone, Copy, PartialEq, Eq)]
pub enum Phase {
    Init,
    Running,
    Draining,
    Joined,
    Terminated,
}

/// Where a phase stands in the run's fixed order.
pub open spec fn phase_rank(p: Phase) -> nat {
    match p {
        Phase::Init => 0,
        Phase::Running => 1,
        Phase::Draining => 2,
        Phase::Joined => 3,
        Phase::Terminated => 4,
    }
}

/// What the running driver should do at a poll point.
#[derive(Debug, Clone, Copy, PartialEq, Eq)]
pub enum PollDecision {
    /// The run's duration has not expired and no report is due yet.
    Wait,
    /// A logging interval has elapsed since the last report: query the
    /// aggregator, snapshot the lattice and emit a report line.
    Report,
    /// The run's duration has expired: begin draining.
    Shutdown,
}

/// The driver's state: the configured durations, when the last report was
/// emitted, the last counter value a query returned, and the final count
/// received at the join.
pub struct Driver {
    phase: Phase,
    sim_duration_ms: u64,
    log_step_ms: u64,
    last_report_at_ms: u64,
    last_query: u64,
    final_count: u64,
}

impl Driver {
    /// The phase the run is in.
    pub closed spec fn phase(&self) -> Phase {
        self.phase
    }

    /// The configured total run duration, in milliseconds.
    pub closed spec fn sim_duration_ms(&self) -> u64 {
        self.sim_duration_ms
    }

    /// The configured logging interval, in milliseconds.
    pub closed spec fn log_step_ms(&self) -> u64 {
        self.log_step_ms
    }

    /// The elapsed time at which the last report was emitted.
    pub closed spec fn last_report_at_ms(&self) -> u64 {
        self.last_report_at_ms
    }

    /// The counter value returned by the last successful query.
    pub closed spec fn last_query(&self) -> u64 {
        self.last_query
    }

    /// The final counter value returned by the aggregator at the join.
    pub closed spec fn final_count(&self) -> u64 {
        self.final_count
    }

    /// Once the final count is in hand, it is at least the last queried
    /// value: shutdown loses no transition that an earlier query saw.
    pub open spec fn wf(&self) -> bool {
        phase_rank(self.phase()) >= 3 ==> self.final_count() >= self.last_query()
    }

    /// The counter value returned by the last successful query, for the
    /// caller that must hold new query answers against it.
    pub fn last_query_count(&self) -> (r: u64)
        ensures
            r == self.last_query(),
    {
        self.last_query
    }

    /// A fresh driver in `Init`, before the start time is recorded.
    pub fn new(sim_duration_ms: u64, log_step_ms: u64) -> (r: Driver)
        ensures
            r.wf(),
            r.phase() is Init,
            r.sim_duration_ms() == sim_duration_ms,
            r.log_step_ms() == log_step_ms,
            r.last_report_at_ms() == 0,
            r.last_query() == 0,
    {
        Driver {
            phase: Phase::Init,
            sim_duration_ms,
            log_step_ms,
            last_report_at_ms: 0,
            last_query: 0,
            final_count: 0,
        }
    }

    /// Enters `Running` after the initial query and first report: records
    /// the initial counter value and starts the logging interval at zero
    /// elapsed time.
    pub fn start(&mut self, initial_count: u64)
        requires
            old(self).phase() is Init,
        ensures
            final(self).wf(),
            final(self).phase() is Running,
            phase_rank(final(self).phase()) == phase_rank(old(self).phase()) + 1,
            final(self).sim_duration_ms() == old(self).sim_duration_ms(),
            final(self).log_step_ms() == old(self).log_step_ms(),
            final(self).last_report_at_ms() == 0,
            final(self).last_query() == initial_count,
    {
        self.phase = Phase::Running;
        self.last_report_at_ms = 0;
        self.last_query = initial_count;
    }

    /// The running loop's decision at elapsed time `elapsed_ms`: shut down
    /// once the run duration has expired, report once a full logging
    /// interval has passed since the last report, otherwise wait.
    pub fn on_poll(&self, elapsed_ms: u64) -> (d: PollDecision)
        requires
            self.phase() is Running,
            elapsed_ms >= self.last_report_at_ms(),
        ensures
            d is Shutdown <==> elapsed_ms >= self.sim_duration_ms(),
            d is Report <==> elapsed_ms < self.sim_duration_ms() && elapsed_ms
                - self.last_report_at_ms() >= self.log_step_ms(),
            d is Wait <==> elapsed_ms < self.sim_duration_ms() && elapsed_ms
                - self.last_report_at_ms() < self.log_step_ms(),
    {
        if elapsed_ms >= self.sim_duration_ms {
            PollDecision::Shutdown
        } else if elapsed_ms - self.last_report_at_ms >= self.log_step_ms {
            PollDecision::Report
        } else {
            PollDecision::Wait
        }
    }

    /// Records one periodic report: the queried counter value and the
    /// elapsed time it was emitted at, which restarts the logging interval.
    /// Queries never go backwards, so the recorded value only grows.
    pub fn record_report(&mut self, elapsed_ms: u64, count: u64)
        requires
            old(self).phase() is Running,
            count >= old(self).last_query(),
            elapsed_ms >= old(self).last_report_at_ms(),
        ensures
            final(self).wf(),
            final(self).phase() is Running,
            final(self).sim_duration_ms() == old(self).sim_duration_ms(),
            final(self).log_step_ms() == old(self).log_step_ms(),
            final(self).last_report_at_ms() == elapsed_ms,
            final(self).last_query() == count,
    {
        self.last_report_at_ms = elapsed_ms;
        self.last_query = count;
    }

    /// Enters `Draining` on duration expiry: the application then signals
    /// all walkers and the aggregator to stop, in that order, so no
    /// in-flight event is lost before the aggregator observes its quit.
    pub fn begin_draining(&mut self)
        requires
            old(self).phase() is Running,
        ensures
            final(self).wf(),
            final(self).phase() is Draining,
            phase_rank(final(self).phase()) == phase_rank(old(self).phase()) + 1,
            final(self).last_query() == old(self).last_query(),
    {
        self.phase = Phase::Draining;
    }

    /// Enters `Joined` with the aggregator's final counter value. The
    /// aggregator's counter is monotone and a query's answer covers only
    /// arrivals before it, so the final value is never behind the last
    /// query.
    pub fn on_joined(&mut self, final_count: u64)
        requires
            old(self).phase() is Draining,
            final_count >= old(self).last_query(),
        ensures
            final(self).wf(),
            final(self).phase() is Joined,
            phase_rank(final(self).phase()) == phase_rank(old(self).phase()) + 1,
            final(self).last_query() == old(self).last_query(),
            final(self).final_count() == final_count,
    {
        self.phase = Phase::Joined;
        self.final_count = final_count;
    }

    /// Enters `Terminated` and hands out the final count for the last
    /// report line; it is at least the last periodically queried value.
    pub fn finish(&mut self) -> (r: u64)
        requires
            old(self).phase() is Joined,
            old(self).wf(),
        ensures
            final(self).wf(),
            final(self).phase() is Terminated,
            phase_rank(final(self).phase()) == phase_rank(old(self).phase()) + 1,
            r == old(self).final_count(),
            r >= old(self).last_query(),
    {
        self.phase = Phase::Terminated;
        self.final_count
    }
}

} // verus!
