//! The exit dispatcher: what to do with each reason the virtual CPU
//! stopped.
//!
//! The application's resume loop is unverified plumbing: it resumes the
//! CPU, translates the exit the hardware reports into an [`ExitEvent`],
//! and carries out the [`Action`] decided here. The policy is fixed: an
//! I/O-port write is reported to the observer and followed by a pacing
//! pause; every other reason is fatal.

use vstd::prelude::*;

verus! {

/// Why the virtual CPU stopped: the reason tag with its payload. The
/// application builds one from each exit the hardware reports, or from a
/// failed resume call itself.
#[derive(Clone, Copy, Debug, PartialEq, Eq)]
pub enum ExitEvent {
    /// The guest wrote one byte to an I/O port — its sanctioned way of
    /// talking to the host.
    IoOut { port: u16, data: u8 },
    /// The guest executed a halt instruction.
    Halt,
    /// The guest faulted: shutdown, failed entry, or an internal error.
    Fault,
    /// Any exit reason this harness does not interpret.
    Unsupported,
    /// The resume call itself failed; no guest-side reason exists.
    ResumeFailure,
}

/// One observer report: the port and data byte of an I/O-port write, in
/// the order the guest issued them.
#[derive(Clone, Copy, Debug, PartialEq, Eq)]
pub struct Report {
    pub port: u16,
    pub data: u8,
}

/// How long the dispatcher pauses after reporting an I/O write before
/// the next resume — a pacing aid for a human observer, possibly zero.
#[derive(Clone, Copy, Debug, PartialEq, Eq)]
pub struct PacingPolicy {
    pub delay_millis: u64,
}

/// What the application must do with one exit.
#[derive(Clone, Copy, Debug, PartialEq, Eq)]
pub enum Action {
    /// Report the write to the observer, then pause for `pause_millis`
    /// before the next resume.
    Report { port: u16, data: u8, pause_millis: u64 },
    /// Abort the run, diagnosing `reason`.
    Fatal { reason: ExitEvent },
}

/// The dispatch policy: an I/O-port write is reported and paced; every
/// other reason is fatal.
pub open spec fn action_for(policy: PacingPolicy, event: ExitEvent) -> Action {
    match event {
        ExitEvent::IoOut { port, data } => Action::Report {
            port,
            data,
            pause_millis: policy.delay_millis,
        },
        _ => Action::Fatal { reason: event },
    }
}

/// Decides how one exit is handled.
pub fn dispatch(policy: &PacingPolicy, event: &ExitEvent) -> (a: Action)
    ensures
        a == action_for(*policy, *event),
{
    match *event {
        ExitEvent::IoOut { port, data } => Action::Report {
            port,
            data,
            pause_millis: policy.delay_millis,
        },
        _ => Action::Fatal { reason: *event },
    }
}

/// The report an I/O-write exit produces.
pub open spec fn report_of(event: ExitEvent) -> Report
    recommends
        event is IoOut,
{
    match event {
        ExitEvent::IoOut { port, data } => Report { port, data },
        _ => Report { port: 0, data: 0 },
    }
}

/// The reports a run with these exits emits: one per I/O write, in
/// program order, up to the first exit of any other kind.
pub open spec fn run_reports(events: Seq<ExitEvent>) -> Seq<Report>
    decreases events.len(),
{
    if events.len() == 0 {
        seq![]
    } else if events[0] is IoOut {
        seq![report_of(events[0])] + run_reports(events.drop_first())
    } else {
        seq![]
    }
}

/// The exit such a run aborts on: the first that is not an I/O write,
/// if any.
pub open spec fn run_stop(events: Seq<ExitEvent>) -> Option<ExitEvent>
    decreases events.len(),
{
    if events.len() == 0 {
        None
    } else if events[0] is IoOut {
        run_stop(events.drop_first())
    } else {
        Some(events[0])
    }
}

/// How many leading exits are I/O writes.
pub open spec fn io_prefix_len(events: Seq<ExitEvent>) -> int
    decreases events.len(),
{
    if events.len() == 0 {
        0
    } else if events[0] is IoOut {
        1 + io_prefix_len(events.drop_first())
    } else {
        0
    }
}

/// What a run dispatches, exit by exit: the reports match the leading
/// I/O writes one for one, in order, and the run stops exactly at the
/// first exit of any other kind.
pub proof fn lemma_run_trace(events: Seq<ExitEvent>)
    ensures
        0 <= io_prefix_len(events) <= events.len(),
        run_reports(events).len() == io_prefix_len(events),
        forall|i: int|
            0 <= i < io_prefix_len(events) ==> (#[trigger] events[i]) is IoOut
                && run_reports(events)[i] == report_of(events[i]),
        io_prefix_len(events) < events.len() ==> {
            &&& !(events[io_prefix_len(events)] is IoOut)
            &&& run_stop(events) == Some(events[io_prefix_len(events)])
        },
        io_prefix_len(events) == events.len() ==> run_stop(events) is None,
    decreases events.len(),
{
    if events.len() == 0 {
    } else if events[0] is IoOut {
        let rest = events.drop_first();
        lemma_run_trace(rest);
        assert forall|i: int|
            0 <= i < io_prefix_len(events) implies (#[trigger] events[i]) is IoOut
            && run_reports(events)[i] == report_of(events[i]) by {
            if i > 0 {
                assert(rest[i - 1] is IoOut);
                assert(run_reports(rest)[i - 1] == report_of(rest[i - 1]));
                assert(events[i] == rest[i - 1]);
            }
        }
        if io_prefix_len(events) < events.len() {
            assert(events[io_prefix_len(events)] == rest[io_prefix_len(rest)]);
        }
    } else {
    }
}

/// When every exit of a run is an I/O write, the dispatcher reports each
/// one — exactly one report per exit, in program order, ports and data
/// matching — and aborts on none.
pub proof fn lemma_io_only_run(events: Seq<ExitEvent>)
    requires
        forall|i: int| 0 <= i < events.len() ==> (#[trigger] events[i]) is IoOut,
    ensures
        run_reports(events).len() == events.len(),
        forall|i: int|
            0 <= i < events.len() ==> run_reports(events)[i] == report_of(#[trigger] events[i]),
        run_stop(events) is None,
{
    lemma_run_trace(events);
    if io_prefix_len(events) < events.len() {
        assert(events[io_prefix_len(events)] is IoOut);
    }
}

/// What one whole run dispatches: the reports emitted, in order, and the
/// exit it aborted on, if it did.
pub struct RunTrace {
    pub reports: Vec<Report>,
    pub stop: Option<ExitEvent>,
}

/// Dispatches a whole sequence of exits as the resume loop would: each
/// leading I/O write becomes one report, and the first exit of any other
/// kind stops the run.
pub fn dispatch_run(policy: &PacingPolicy, events: &Vec<ExitEvent>) -> (t: RunTrace)
    ensures
        t.reports@ == run_reports(events@),
        t.stop == run_stop(events@),
{
    let mut reports: Vec<Report> = Vec::new();
    let mut n: usize = 0;
    while n < events.len()
        invariant
            n <= events@.len(),
            forall|i: int| 0 <= i < n ==> (#[trigger] events@[i]) is IoOut,
            reports@.len() == n,
            forall|i: int| 0 <= i < n ==> (#[trigger] reports@[i]) == report_of(events@[i]),
        decreases events@.len() - n,
    {
        match dispatch(policy, &events[n]) {
            Action::Report { port, data, pause_millis: _ } => {
                reports.push(Report { port, data });
            },
            Action::Fatal { reason } => {
                proof {
                    lemma_run_trace(events@);
                    assert(io_prefix_len(events@) == n) by {
                        if io_prefix_len(events@) < n {
                            assert(events@[io_prefix_len(events@)] is IoOut);
                        }
                        if io_prefix_len(events@) > n {
                            assert(events@[n as int] is IoOut);
                        }
                    }
                    assert forall|i: int|
                        0 <= i < reports@.len() implies reports@[i] == run_reports(
                        events@,
                    )[i] by {
                        assert(events@[i] is IoOut);
                    }
                    assert(reports@ =~= run_reports(events@));
                }
                return RunTrace { reports, stop: Some(reason) };
            },
        }
        n = n + 1;
    }
    proof {
        lemma_run_trace(events@);
        assert(io_prefix_len(events@) == n) by {
            if io_prefix_len(events@) < n {
                assert(events@[io_prefix_len(events@)] is IoOut);
            }
        }
        assert forall|i: int| 0 <= i < reports@.len() implies reports@[i] == run_reports(
            events@,
        )[i] by {
            assert(events@[i] is IoOut);
        }
        assert(reports@ =~= run_reports(events@));
    }
    RunTrace { reports, stop: None }
}

} // verus!
