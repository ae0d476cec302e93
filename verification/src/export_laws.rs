//! Laws of whole runs of the export workers.

use vstd::prelude::*;

use crate::admission;
use crate::diagnostic::DiagnosticRecord;
use crate::export;
use crate::export::{Arrival, ExportAction, ExportOutcome, StatsView};
use crate::signal;
use crate::signal::OtelSignal;
use crate::signal_laws;

verus! {

/// The counts after one export after another ended.
pub open spec fn after_all(stats: StatsView, outcomes: Seq<ExportOutcome>) -> StatsView
    decreases outcomes.len(),
{
    if outcomes.len() == 0 {
        stats
    } else {
        after_all(stats, outcomes.drop_last()).after(outcomes.last())
    }
}

/// How many exports in a run succeeded.
pub open spec fn successes(outcomes: Seq<ExportOutcome>) -> nat {
    outcomes.filter(|outcome: ExportOutcome| outcome matches ExportOutcome::Completed(Ok(_))).len()
}

/// How many exports in a run were cut short.
pub open spec fn cancellations(outcomes: Seq<ExportOutcome>) -> nat {
    outcomes.filter(|outcome: ExportOutcome| outcome is Cancelled).len()
}

/// The least of a number and what a counter can hold.
pub open spec fn capped(count: int) -> int {
    if count <= u64::MAX {
        count
    } else {
        u64::MAX as int
    }
}

/// The statistics are exact: they count each success once as exported, each other finished
/// export once as failed, and nothing else, up to the largest number that a counter can hold.
pub proof fn law_stats_count_each_outcome_once(stats: StatsView, outcomes: Seq<ExportOutcome>)
    ensures
        after_all(stats, outcomes).exported == capped(stats.exported + successes(outcomes)),
        after_all(stats, outcomes).failed == capped(
            stats.failed + outcomes.len() - successes(outcomes) - cancellations(outcomes),
        ),
        successes(outcomes) + cancellations(outcomes) <= outcomes.len(),
    decreases outcomes.len(),
{
    reveal(Seq::filter);
    if outcomes.len() > 0 {
        law_stats_count_each_outcome_once(stats, outcomes.drop_last());
    }
}

/// The signals that a row of actions hands to the exporter.
pub open spec fn exports(actions: Seq<ExportAction>) -> Seq<OtelSignal>
    decreases actions.len(),
{
    if actions.len() == 0 {
        Seq::empty()
    } else {
        match actions.last() {
            ExportAction::Export(signal) => exports(actions.drop_last()).push(signal),
            _ => exports(actions.drop_last()),
        }
    }
}

/// The records of a row whose logs are admissible.
pub open spec fn admissible(records: Seq<DiagnosticRecord>) -> Seq<DiagnosticRecord>
    decreases records.len(),
{
    if records.len() == 0 {
        Seq::empty()
    } else if signal_laws::identities_fit(records.last().event) {
        admissible(records.drop_last()).push(records.last())
    } else {
        admissible(records.drop_last())
    }
}

/// What the diagnostics worker did with one record.
pub struct DiagnosticStep {
    /// The record that arrived.
    pub record: DiagnosticRecord,
    /// What was decided on its arrival.
    pub action: ExportAction,
    /// How the export ended, where there was one.
    pub outcome: ExportOutcome,
}

/// Whether the worker may take this step between these counts: it decides on the record, and
/// where it exports, it counts how the export ended.
pub open spec fn takes(before: StatsView, step: DiagnosticStep, after: StatsView) -> bool {
    exists|decided: StatsView| #[trigger]
        export::decides_diagnostic(
            before,
            Arrival::Received(Some(step.record)),
            step.action,
            decided,
        ) && after == (if step.action is Export {
            decided.after(step.outcome)
        } else {
            decided
        })
}

/// Whether the worker may take these steps, with these counts before, between and after them.
pub open spec fn diagnostics_run(steps: Seq<DiagnosticStep>, counts: Seq<StatsView>) -> bool {
    &&& counts.len() == steps.len() + 1
    &&& forall|i: int|
        0 <= i < steps.len() ==> takes(counts[i], #[trigger] steps[i], counts[i + 1])
}

/// The records of a run.
pub open spec fn records_of(steps: Seq<DiagnosticStep>) -> Seq<DiagnosticRecord> {
    steps.map_values(|step: DiagnosticStep| step.record)
}

/// The actions of a run.
pub open spec fn actions_of(steps: Seq<DiagnosticStep>) -> Seq<ExportAction> {
    steps.map_values(|step: DiagnosticStep| step.action)
}

/// How many exports of a run succeeded.
pub open spec fn exported_by(steps: Seq<DiagnosticStep>) -> nat
    decreases steps.len(),
{
    if steps.len() == 0 {
        0
    } else {
        let earlier = exported_by(steps.drop_last());
        if steps.last().action is Export && (steps.last().outcome matches
            ExportOutcome::Completed(Ok(_))) {
            earlier + 1
        } else {
            earlier
        }
    }
}

/// The diagnostics worker hands out the logs of the admissible records and of no others, in
/// the order in which the records arrived. Every record of a run without cancellation is
/// counted exactly once, as exported where its export succeeded and as failed otherwise, the
/// records that are refused included; so the two counts grow together by the number of
/// records, as far as a counter can hold that.
pub proof fn law_diagnostics_run(steps: Seq<DiagnosticStep>, counts: Seq<StatsView>)
    requires
        diagnostics_run(steps, counts),
        forall|i: int|
            0 <= i < steps.len() && (#[trigger] steps[i]).action is Export
                ==> !(steps[i].outcome is Cancelled),
    ensures
        exports(actions_of(steps)).len() == admissible(records_of(steps)).len(),
        forall|k: int|
            0 <= k < admissible(records_of(steps)).len() ==> {
                &&& signal::is_diagnostic_log(
                    #[trigger] exports(actions_of(steps))[k],
                    admissible(records_of(steps))[k],
                )
                &&& admission::valid_signal(exports(actions_of(steps))[k])
            },
        exported_by(steps) <= admissible(records_of(steps)).len() <= steps.len(),
        counts.last().exported == capped(counts[0].exported + exported_by(steps)),
        counts.last().failed == capped(counts[0].failed + steps.len() - exported_by(steps)),
        counts[0].exported + counts[0].failed + steps.len() <= u64::MAX ==> counts.last().exported
            + counts.last().failed == counts[0].exported + counts[0].failed + steps.len(),
    decreases steps.len(),
{
    if steps.len() > 0 {
        let n = steps.len() - 1;
        let earlier = steps.drop_last();
        let earlier_counts = counts.drop_last();
        assert(diagnostics_run(earlier, earlier_counts)) by {
            assert forall|i: int| 0 <= i < earlier.len() implies takes(
                earlier_counts[i],
                #[trigger] earlier[i],
                earlier_counts[i + 1],
            ) by {
                assert(takes(counts[i], steps[i], counts[i + 1]));
            }
        }
        assert forall|i: int|
            0 <= i < earlier.len() && (#[trigger] earlier[i]).action is Export implies !(
        earlier[i].outcome is Cancelled) by {
            assert(earlier[i] == steps[i]);
        }
        law_diagnostics_run(earlier, earlier_counts);
        assert(records_of(steps).drop_last() =~= records_of(earlier));
        assert(actions_of(steps).drop_last() =~= actions_of(earlier));
        assert(takes(counts[n], steps[n], counts[n + 1]));
        assert(earlier_counts.last() == counts[n]);
    }
}

/// The application worker hands every signal that it receives to the exporter, unchanged and
/// in the order in which they arrived.
pub proof fn law_application_run(signals: Seq<OtelSignal>, actions: Seq<ExportAction>)
    requires
        actions == signals.map_values(
            |signal: OtelSignal| export::application_action(Arrival::Received(Some(signal))),
        ),
    ensures
        exports(actions) == signals,
    decreases signals.len(),
{
    if signals.len() > 0 {
        assert(actions.drop_last() =~= signals.drop_last().map_values(
            |signal: OtelSignal| export::application_action(Arrival::Received(Some(signal))),
        ));
        law_application_run(signals.drop_last(), actions.drop_last());
        assert(signals =~= signals.drop_last().push(signals.last()));
    } else {
        assert(signals =~= Seq::empty());
    }
}

/// What the diagnostics worker decides, given the log of the record that arrived. It stops
/// exactly when it is cancelled or its source has ended. It exports the log of a record exactly
/// if that log is admissible; otherwise it counts one failure and goes on.
pub proof fn law_diagnostic_decision(
    before: StatsView,
    arrival: Arrival<DiagnosticRecord>,
    log: OtelSignal,
    action: ExportAction,
    after: StatsView,
)
    requires
        export::decides_diagnostic(before, arrival, action, after),
        arrival matches Arrival::Received(Some(record)) ==> signal::is_diagnostic_log(log, record),
    ensures
        action is Stop <==> arrival is Cancelled || arrival->Received_0 is None,
        after.exported == before.exported,
        action is Stop || action is Export ==> after.failed == before.failed,
        arrival matches Arrival::Received(Some(record)) ==> {
            &&& action is Export <==> admission::valid_signal(log)
            &&& action matches ExportAction::Export(exported) ==> signal::is_diagnostic_log(
                exported,
                record,
            )
            &&& action is Receive ==> after.failed == capped(before.failed + 1)
        },
{
    if let Arrival::Received(Some(record)) = arrival {
        signal_laws::law_diagnostic_is_admitted(log, record);
    }
}

/// What the application worker decides: it stops exactly when it is cancelled or its source has
/// ended, and otherwise exports the very signal that arrived.
pub proof fn law_application_decision(arrival: Arrival<OtelSignal>)
    ensures
        export::application_action(arrival) is Stop <==> arrival is Cancelled
            || arrival->Received_0 is None,
        arrival matches Arrival::Received(Some(signal)) ==> export::application_action(arrival)
            == ExportAction::Export(signal),
{
}

/// How one export is counted: a success as exported, a cancelled one not at all, and every
/// other end as failed.
pub proof fn law_outcome_is_counted(before: StatsView, outcome: ExportOutcome)
    ensures
        ({
            let after = before.after(outcome);
            let succeeded = outcome is Completed && outcome->Completed_0 is Ok;
            &&& after.exported == (if succeeded {
                capped(before.exported + 1)
            } else {
                before.exported as int
            })
            &&& after.failed == (if succeeded || outcome is Cancelled {
                before.failed as int
            } else {
                capped(before.failed + 1)
            })
        }),
{
}

} // verus!
