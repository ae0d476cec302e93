//! The decisions of the export workers, and the statistics that they keep.

use vstd::prelude::*;

use crate::admission;
use crate::diagnostic::DiagnosticRecord;
use crate::signal;
use crate::signal::OtelSignal;
use crate::signal_laws;

verus! {

/// Failure reported by an `OTel` exporter.
#[derive(Clone, Copy, Debug, Eq, PartialEq)]
pub enum ExportError {
    /// The exporter rejected a signal without changing App behavior.
    Rejected,
    /// The exporter is currently unavailable.
    Unavailable,
}

/// A no-op exporter useful for compositions that only need propagation.
#[derive(Clone, Copy, Debug)]
pub struct NoopExporter;

impl NoopExporter {
    /// Accepts one signal and does nothing with it.
    pub fn export(&self, _signal: OtelSignal) -> (result: Result<(), ExportError>)
        ensures
            result is Ok,
    {
        Ok(())
    }
}

impl Default for NoopExporter {
    fn default() -> (exporter: Self)
        ensures
            exporter == NoopExporter,
    {
        NoopExporter
    }
}

/// The next count, up to the largest number that a counter can hold.
pub open spec fn counted(count: u64) -> u64 {
    if count == u64::MAX {
        u64::MAX
    } else {
        (count + 1) as u64
    }
}

/// The two counts of exporter outcomes.
pub struct StatsView {
    /// How many signals the exporter accepted.
    pub exported: u64,
    /// How many exports failed or panicked.
    pub failed: u64,
}

impl StatsView {
    /// The counts after one successful export.
    pub open spec fn with_exported(self) -> StatsView {
        StatsView { exported: counted(self.exported), ..self }
    }

    /// The counts after one failed export.
    pub open spec fn with_failed(self) -> StatsView {
        StatsView { failed: counted(self.failed), ..self }
    }

    /// The counts after one export ended.
    pub open spec fn after(self, outcome: ExportOutcome) -> StatsView {
        match outcome {
            ExportOutcome::Completed(Ok(())) => self.with_exported(),
            ExportOutcome::Cancelled => self,
            _ => self.with_failed(),
        }
    }
}

/// Counts exporter outcomes without entering the Kernel diagnostic feed.
#[derive(Debug)]
pub struct OtelExportStats {
    exported: u64,
    failed: u64,
}

impl View for OtelExportStats {
    type V = StatsView;

    closed spec fn view(&self) -> StatsView {
        StatsView { exported: self.exported, failed: self.failed }
    }
}

impl OtelExportStats {
    /// Creates empty exporter statistics.
    pub fn new() -> (stats: Self)
        ensures
            stats@ == (StatsView { exported: 0, failed: 0 }),
    {
        OtelExportStats { exported: 0, failed: 0 }
    }

    /// Returns the number of signals accepted by the exporter.
    pub fn exported_count(&self) -> (count: u64)
        ensures
            count == self@.exported,
    {
        self.exported
    }

    /// Returns the number of exporter failures or panics.
    pub fn failed_count(&self) -> (count: u64)
        ensures
            count == self@.failed,
    {
        self.failed
    }

    /// Records one successful export.
    pub fn record_exported(&mut self)
        ensures
            final(self)@ == old(self)@.with_exported(),
    {
        self.exported = self.exported.saturating_add(1);
    }

    /// Records one failed or panicking export.
    pub fn record_failed(&mut self)
        ensures
            final(self)@ == old(self)@.with_failed(),
    {
        self.failed = self.failed.saturating_add(1);
    }
}

impl Default for OtelExportStats {
    fn default() -> (stats: Self)
        ensures
            stats@ == (StatsView { exported: 0, failed: 0 }),
    {
        Self::new()
    }
}

/// What an export worker that waits for its next item is told.
pub enum Arrival<T> {
    /// The worker was cancelled before an item arrived.
    Cancelled,
    /// The source handed out an item, or `None` because it has ended.
    Received(Option<T>),
}

/// How one export ended.
#[derive(Clone, Copy, Debug, Eq, PartialEq)]
pub enum ExportOutcome {
    /// The exporter panicked before it handed out its work.
    StartPanicked,
    /// The exporter panicked while it worked.
    Panicked,
    /// The exporter finished with a result.
    Completed(Result<(), ExportError>),
    /// The worker was cancelled before the exporter finished.
    Cancelled,
}

/// What an export worker does next.
pub enum ExportAction {
    /// Wait for the next item or for cancellation.
    Receive,
    /// Hand a signal to the exporter.
    Export(OtelSignal),
    /// End.
    Stop,
}

/// Whether this is what the diagnostics worker does with what it was told, and how the counts
/// change. A diagnostic becomes a log. A log that is not admissible counts as a failure and
/// is left out.
pub open spec fn decides_diagnostic(
    before: StatsView,
    arrival: Arrival<DiagnosticRecord>,
    action: ExportAction,
    after: StatsView,
) -> bool {
    match arrival {
        Arrival::Received(Some(record)) => if signal_laws::identities_fit(record.event) {
            &&& action matches ExportAction::Export(log) && {
                &&& signal::is_diagnostic_log(log, record)
                &&& admission::valid_signal(log)
            }
            &&& after == before
        } else {
            &&& action is Receive
            &&& after == before.with_failed()
        },
        Arrival::Received(None) => {
            &&& action is Stop
            &&& after == before
        },
        Arrival::Cancelled => {
            &&& action is Stop
            &&& after == before
        },
    }
}

/// What the application worker does with what it was told. Every signal that it receives is
/// exported as it is.
pub open spec fn application_action(arrival: Arrival<OtelSignal>) -> ExportAction {
    match arrival {
        Arrival::Received(Some(signal)) => ExportAction::Export(signal),
        Arrival::Received(None) => ExportAction::Stop,
        Arrival::Cancelled => ExportAction::Stop,
    }
}

/// Decides what the diagnostics worker does with what it was told.
pub fn export_diagnostics(stats: &mut OtelExportStats, arrival: Arrival<DiagnosticRecord>) -> (
    action: ExportAction)
    ensures
        decides_diagnostic(old(stats)@, arrival, action, final(stats)@),
{
    match arrival {
        Arrival::Received(Some(record)) => {
            let log = signal::diagnostic_to_signal(&record);
            proof {
                signal_laws::law_diagnostic_is_admitted(log, record);
            }
            match admission::validate_signal(&log) {
                Ok(()) => ExportAction::Export(log),
                Err(_) => {
                    stats.record_failed();
                    ExportAction::Receive
                },
            }
        },
        Arrival::Received(None) => ExportAction::Stop,
        Arrival::Cancelled => ExportAction::Stop,
    }
}

/// Decides what the application worker does with what it was told.
pub fn export_application_signals(arrival: Arrival<OtelSignal>) -> (action: ExportAction)
    ensures
        action == application_action(arrival),
{
    match arrival {
        Arrival::Received(Some(signal)) => ExportAction::Export(signal),
        Arrival::Received(None) => ExportAction::Stop,
        Arrival::Cancelled => ExportAction::Stop,
    }
}

/// Counts how an export ended, and decides what its worker does next. A failed or panicking
/// export does not end the worker; cancellation does, and counts as neither.
pub fn export_one(stats: &mut OtelExportStats, outcome: ExportOutcome) -> (action: ExportAction)
    ensures
        action is Stop <==> outcome is Cancelled,
        action is Receive <==> !(outcome is Cancelled),
        final(stats)@ == old(stats)@.after(outcome),
{
    match outcome {
        ExportOutcome::StartPanicked => {
            stats.record_failed();
        },
        ExportOutcome::Panicked => {
            stats.record_failed();
        },
        ExportOutcome::Completed(Ok(())) => {
            stats.record_exported();
        },
        ExportOutcome::Completed(Err(_)) => {
            stats.record_failed();
        },
        ExportOutcome::Cancelled => {
            return ExportAction::Stop;
        },
    }
    ExportAction::Receive
}

} // verus!
