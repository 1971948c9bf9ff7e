//! The port-scan and outer-retry policy. The caller enumerates candidate
//! ports, runs the handshake on each, and reports what happened; this
//! machine decides what follows: the first conclusive classification wins,
//! a per-candidate failure is only counted and never aborts the remaining
//! candidates, and an exhausted scan reports everything accumulated before
//! a pause and a fresh scan.

use vstd::prelude::*;

verus! {

/// What the caller observed while working through the candidates: one
/// candidate's conclusive classification or failure, or the end of the
/// candidate list with nothing conclusive found.
#[derive(Clone, Copy, Debug, PartialEq, Eq, Structural)]
pub enum ScanEvent {
    CandidateMainMenu,
    CandidateInGame,
    CandidateFailed,
    CandidatesExhausted,
}

/// What the caller must do next. For an exhausted scan it reports either
/// that no port was found or every accumulated failure, then pauses and
/// rescans; the caller keeps the failure descriptions themselves.
#[derive(Clone, Copy, Debug, PartialEq, Eq, Structural)]
pub enum ScanAction {
    PauseThenRescan,
    RunSession,
    TryNextCandidate,
    ReportNoPortsThenRescan,
    ReportFailuresThenRescan,
}

/// The action the scan policy takes on an event, given how many candidates
/// have failed so far in the current scan.
pub open spec fn spec_scan_action(failures_before: u64, event: ScanEvent) -> ScanAction {
    match event {
        ScanEvent::CandidateMainMenu => ScanAction::PauseThenRescan,
        ScanEvent::CandidateInGame => ScanAction::RunSession,
        ScanEvent::CandidateFailed => ScanAction::TryNextCandidate,
        ScanEvent::CandidatesExhausted => if failures_before == 0 {
            ScanAction::ReportNoPortsThenRescan
        } else {
            ScanAction::ReportFailuresThenRescan
        },
    }
}

/// The failure count after an event: a failure adds one (saturating at the
/// counter's limit), while anything that ends the scan, a conclusive
/// classification or an exhausted candidate list, starts the next scan
/// afresh: failures are never retained across scans.
pub open spec fn spec_scan_failures(failures_before: u64, event: ScanEvent) -> u64 {
    match event {
        ScanEvent::CandidateMainMenu => 0,
        ScanEvent::CandidateInGame => 0,
        ScanEvent::CandidateFailed => if failures_before == u64::MAX {
            u64::MAX
        } else {
            (failures_before + 1) as u64
        },
        ScanEvent::CandidatesExhausted => 0,
    }
}

/// One scan's progress: how many candidates have failed so far.
#[derive(Clone, Copy, Debug)]
pub struct Scan {
    pub failures: u64,
}

impl Scan {
    /// A fresh scan: no candidate has failed yet.
    pub fn new() -> (s: Scan)
        ensures
            s.failures == 0,
    {
        Scan { failures: 0 }
    }

    /// Takes what the caller observed and decides what follows, counting
    /// failed candidates so that an exhausted scan knows whether there is
    /// anything to report.
    pub fn on_event(&mut self, event: ScanEvent) -> (action: ScanAction)
        ensures
            action == spec_scan_action(old(self).failures, event),
            final(self).failures == spec_scan_failures(old(self).failures, event),
    {
        match event {
            ScanEvent::CandidateMainMenu => {
                self.failures = 0;
                ScanAction::PauseThenRescan
            },
            ScanEvent::CandidateInGame => {
                self.failures = 0;
                ScanAction::RunSession
            },
            ScanEvent::CandidateFailed => {
                if self.failures < u64::MAX {
                    self.failures = self.failures + 1;
                }
                ScanAction::TryNextCandidate
            },
            ScanEvent::CandidatesExhausted => {
                let had_failures = self.failures > 0;
                self.failures = 0;
                if had_failures {
                    ScanAction::ReportFailuresThenRescan
                } else {
                    ScanAction::ReportNoPortsThenRescan
                }
            },
        }
    }
}

/// A failing candidate never affects the evaluation of the remaining
/// candidates: whatever has happened before, the scan's only response to a
/// candidate failure is to move on to the next one.
pub proof fn lemma_failure_is_isolated(failures_before: u64)
    ensures
        spec_scan_action(failures_before, ScanEvent::CandidateFailed)
            == ScanAction::TryNextCandidate,
{
}

/// An exhausted scan always reports before rescanning, and reports the
/// accumulated failures exactly when there are any.
pub proof fn lemma_exhaustion_reports(failures_before: u64)
    ensures
        failures_before == 0 ==> spec_scan_action(failures_before, ScanEvent::CandidatesExhausted)
            == ScanAction::ReportNoPortsThenRescan,
        failures_before > 0 ==> spec_scan_action(failures_before, ScanEvent::CandidatesExhausted)
            == ScanAction::ReportFailuresThenRescan,
        spec_scan_failures(failures_before, ScanEvent::CandidatesExhausted) == 0,
{
}

} // verus!
