//! Laws of the structural logs that Runtime Diagnostics become.

use vstd::prelude::*;

use crate::admission;
use crate::diagnostic;
use crate::diagnostic::{
    DiagnosticAdmission, DiagnosticEvent, DiagnosticOutcome, DiagnosticRecord,
    DiagnosticShutdownOutcome, DiagnosticSource, ModuleLifecyclePhase, RuntimeFailureKind,
};
use crate::signal;
use crate::signal::OtelSignal;
use crate::text;

verus! {

/// The keys that a diagnostic log may carry.
pub open spec fn structural_key(key: Seq<char>) -> bool {
    ||| key == "lenso.diagnostic.sequence"@
    ||| key == "lenso.diagnostic.timestamp_nanos"@
    ||| key == "lenso.diagnostic.source"@
    ||| key == "lenso.diagnostic.event"@
    ||| key == "lenso.diagnostic.outcome"@
    ||| key == "lenso.diagnostic.elapsed_nanos"@
    ||| key == "lenso.app.module_count"@
    ||| key == "lenso.module.instance"@
    ||| key == "lenso.module.generation"@
    ||| key == "lenso.module.phase"@
    ||| key == "lenso.request.id"@
    ||| key == "lenso.caller.instance"@
    ||| key == "lenso.provider.instance"@
    ||| key == "lenso.capability.id"@
    ||| key == "lenso.operation.name"@
    ||| key == "lenso.admission.outcome"@
    ||| key == "lenso.event.publisher_instance"@
    ||| key == "lenso.event.subscriber_instance"@
    ||| key == "lenso.supervision.attempt"@
    ||| key == "lenso.supervision.attempts"@
    ||| key == "lenso.supervision.delay_nanos"@
    ||| key == "lenso.supervision.terminal"@
    ||| key == "lenso.runtime_failure.kind"@
    ||| key == "lenso.shutdown.outcome"@
}

/// A diagnostic log carries structural attributes and no others, whatever the record holds.
pub proof fn law_diagnostic_keys_are_structural(record: DiagnosticRecord, key: Seq<char>)
    requires
        signal::diagnostic_attributes(record).contains_key(key),
    ensures
        structural_key(key),
{
}

/// The lengths of the structural keys; no two of them are the same key.
proof fn lemma_keys()
    ensures
        "lenso.diagnostic.sequence"@.len() == 25,
        "lenso.diagnostic.timestamp_nanos"@.len() == 32,
        "lenso.diagnostic.source"@.len() == 23,
        "lenso.diagnostic.event"@.len() == 22,
        "lenso.diagnostic.outcome"@.len() == 24,
        "lenso.diagnostic.elapsed_nanos"@.len() == 30,
        "lenso.app.module_count"@.len() == 22,
        "lenso.module.instance"@.len() == 21,
        "lenso.module.generation"@.len() == 23,
        "lenso.module.phase"@.len() == 18,
        "lenso.request.id"@.len() == 16,
        "lenso.caller.instance"@.len() == 21,
        "lenso.provider.instance"@.len() == 23,
        "lenso.capability.id"@.len() == 19,
        "lenso.operation.name"@.len() == 20,
        "lenso.admission.outcome"@.len() == 23,
        "lenso.event.publisher_instance"@.len() == 30,
        "lenso.event.subscriber_instance"@.len() == 31,
        "lenso.supervision.attempt"@.len() == 25,
        "lenso.supervision.attempts"@.len() == 26,
        "lenso.supervision.delay_nanos"@.len() == 29,
        "lenso.supervision.terminal"@.len() == 26,
        "lenso.runtime_failure.kind"@.len() == 26,
        "lenso.shutdown.outcome"@.len() == 22,
        "lenso.diagnostic.sequence"@ != "lenso.supervision.attempt"@,
        "lenso.diagnostic.source"@ != "lenso.module.generation"@,
        "lenso.diagnostic.source"@ != "lenso.provider.instance"@,
        "lenso.diagnostic.source"@ != "lenso.admission.outcome"@,
        "lenso.module.generation"@ != "lenso.provider.instance"@,
        "lenso.module.generation"@ != "lenso.admission.outcome"@,
        "lenso.provider.instance"@ != "lenso.admission.outcome"@,
        "lenso.diagnostic.event"@ != "lenso.app.module_count"@,
        "lenso.diagnostic.event"@ != "lenso.shutdown.outcome"@,
        "lenso.app.module_count"@ != "lenso.shutdown.outcome"@,
        "lenso.module.instance"@ != "lenso.caller.instance"@,
        "lenso.diagnostic.elapsed_nanos"@ != "lenso.event.publisher_instance"@,
        "lenso.supervision.attempts"@ != "lenso.supervision.terminal"@,
        "lenso.supervision.attempts"@ != "lenso.runtime_failure.kind"@,
        "lenso.supervision.terminal"@ != "lenso.runtime_failure.kind"@,
{
    reveal_strlit("lenso.diagnostic.sequence");
    reveal_strlit("lenso.diagnostic.timestamp_nanos");
    reveal_strlit("lenso.diagnostic.source");
    reveal_strlit("lenso.diagnostic.event");
    reveal_strlit("lenso.diagnostic.outcome");
    reveal_strlit("lenso.diagnostic.elapsed_nanos");
    reveal_strlit("lenso.app.module_count");
    reveal_strlit("lenso.module.instance");
    reveal_strlit("lenso.module.generation");
    reveal_strlit("lenso.module.phase");
    reveal_strlit("lenso.request.id");
    reveal_strlit("lenso.caller.instance");
    reveal_strlit("lenso.provider.instance");
    reveal_strlit("lenso.capability.id");
    reveal_strlit("lenso.operation.name");
    reveal_strlit("lenso.admission.outcome");
    reveal_strlit("lenso.event.publisher_instance");
    reveal_strlit("lenso.event.subscriber_instance");
    reveal_strlit("lenso.supervision.attempt");
    reveal_strlit("lenso.supervision.attempts");
    reveal_strlit("lenso.supervision.delay_nanos");
    reveal_strlit("lenso.supervision.terminal");
    reveal_strlit("lenso.runtime_failure.kind");
    reveal_strlit("lenso.shutdown.outcome");
    assert("lenso.diagnostic.sequence"@[6] == 'd' && "lenso.supervision.attempt"@[6] == 's');
    assert("lenso.diagnostic.source"@[6] == 'd' && "lenso.module.generation"@[6] == 'm');
    assert("lenso.provider.instance"@[6] == 'p' && "lenso.admission.outcome"@[6] == 'a');
    assert("lenso.diagnostic.event"@[6] == 'd' && "lenso.app.module_count"@[6] == 'a');
    assert("lenso.shutdown.outcome"@[6] == 's');
    assert("lenso.module.instance"@[6] == 'm' && "lenso.caller.instance"@[6] == 'c');
    assert("lenso.diagnostic.elapsed_nanos"@[6] == 'd');
    assert("lenso.event.publisher_instance"@[6] == 'e');
    assert("lenso.supervision.attempts"@[18] == 'a' && "lenso.supervision.terminal"@[18] == 't');
    assert("lenso.supervision.attempts"@[6] == 's' && "lenso.supervision.terminal"@[6] == 's');
    assert("lenso.runtime_failure.kind"@[6] == 'r');
}

/// Every diagnostic log says which record it stands for: sequence, timestamp, source and
/// event name of the record, whatever the event adds.
pub proof fn law_diagnostic_identifies_its_record(record: DiagnosticRecord)
    ensures
        ({
            let entries = signal::diagnostic_attributes(record);
            &&& entries.contains_key("lenso.diagnostic.sequence"@)
            &&& entries["lenso.diagnostic.sequence"@] == text::decimal(record.sequence as nat)
            &&& entries.contains_key("lenso.diagnostic.timestamp_nanos"@)
            &&& entries["lenso.diagnostic.timestamp_nanos"@] == text::decimal(
                record.timestamp as nat,
            )
            &&& entries.contains_key("lenso.diagnostic.source"@)
            &&& entries["lenso.diagnostic.source"@] == diagnostic::source_name(record.source)
            &&& entries.contains_key("lenso.diagnostic.event"@)
            &&& entries["lenso.diagnostic.event"@] == diagnostic::event_name(record.event)
        }),
{
    lemma_keys();
}

/// A text takes at most four bytes to a character.
proof fn lemma_utf8_len_bound(content: Seq<char>)
    ensures
        text::utf8_len(content) <= 4 * content.len(),
    decreases content.len(),
{
    if content.len() > 0 {
        lemma_utf8_len_bound(content.drop_first());
    }
}

/// Whether a key and a value may stand as an attribute.
spec fn entry_fits(key: Seq<char>, value: Seq<char>) -> bool {
    &&& admission::fits(key, admission::MAX_OTEL_ATTRIBUTE_KEY_BYTES as nat, true)
    &&& admission::fits(value, admission::MAX_OTEL_ATTRIBUTE_VALUE_BYTES as nat, false)
}

/// Whether a map has at most `count` entries, each of which may stand as an attribute.
spec fn tame(entries: Map<Seq<char>, Seq<char>>, count: nat) -> bool {
    &&& entries.dom().finite()
    &&& entries.dom().len() <= count
    &&& forall|key: Seq<char>| #[trigger]
        entries.contains_key(key) ==> entry_fits(key, entries[key])
}

/// One more entry with a short key.
proof fn lemma_tame_insert(
    entries: Map<Seq<char>, Seq<char>>,
    count: nat,
    key: Seq<char>,
    value: Seq<char>,
)
    requires
        tame(entries, count),
        0 < key.len() <= 64,
        text::utf8_len(value) <= admission::MAX_OTEL_ATTRIBUTE_VALUE_BYTES,
    ensures
        tame(entries.insert(key, value), count + 1),
{
    lemma_utf8_len_bound(key);
}

/// The encoded size of a map with few entries.
proof fn lemma_tame_bytes(entries: Map<Seq<char>, Seq<char>>, count: nat)
    requires
        tame(entries, count),
    ensures
        admission::attributes_bytes(entries) <= count * 4368,
    decreases count,
{
    if entries.dom().len() > 0 {
        let key = entries.dom().choose();
        assert(entries.dom().contains(key));
        assert(entries.contains_key(key));
        assert(entry_fits(key, entries[key]));
        let rest = entries.remove(key);
        assert forall|other: Seq<char>| #[trigger] rest.contains_key(other) implies entry_fits(
            other,
            rest[other],
        ) by {
            assert(entries.contains_key(other));
        }
        lemma_tame_bytes(rest, (count - 1) as nat);
        assert(count * 4368 == (count - 1) * 4368 + 4368) by (nonlinear_arith);
    }
}

/// Whether a text fits an attribute value.
pub open spec fn value_fits(value: Seq<char>) -> bool {
    text::utf8_len(value) <= admission::MAX_OTEL_ATTRIBUTE_VALUE_BYTES
}

/// Whether an optional text fits an attribute value.
pub open spec fn optional_fits(value: Option<Seq<char>>) -> bool {
    value matches Some(value) ==> value_fits(value)
}

/// Whether every identity that an event carries fits an attribute value.
pub open spec fn identities_fit(event: DiagnosticEvent) -> bool {
    match event {
        DiagnosticEvent::LifecycleStarted { instance, .. } => value_fits(instance@),
        DiagnosticEvent::LifecycleCompleted { instance, .. } => value_fits(instance@),
        DiagnosticEvent::InvocationStarted {
            caller_instance,
            provider_instance,
            capability,
            operation,
            ..
        } => {
            &&& optional_fits(signal::optional_string(caller_instance))
            &&& optional_fits(signal::optional_string(provider_instance))
            &&& value_fits(capability@)
            &&& optional_fits(signal::optional_str(operation))
        },
        DiagnosticEvent::InvocationCompleted {
            caller_instance,
            provider_instance,
            capability,
            operation,
            ..
        } => {
            &&& optional_fits(signal::optional_string(caller_instance))
            &&& optional_fits(signal::optional_string(provider_instance))
            &&& value_fits(capability@)
            &&& optional_fits(signal::optional_str(operation))
        },
        DiagnosticEvent::AdmissionRejected {
            caller_instance,
            provider_instance,
            capability,
            operation,
            ..
        } => {
            &&& optional_fits(signal::optional_string(caller_instance))
            &&& optional_fits(signal::optional_string(provider_instance))
            &&& value_fits(capability@)
            &&& optional_fits(signal::optional_str(operation))
        },
        DiagnosticEvent::EventAdmission {
            publisher_instance,
            subscriber_instance,
            capability,
            operation,
            ..
        } => {
            &&& value_fits(publisher_instance@)
            &&& value_fits(subscriber_instance@)
            &&& value_fits(capability@)
            &&& optional_fits(signal::optional_str(operation))
        },
        DiagnosticEvent::GenerationUnavailable { instance, .. } => value_fits(instance@),
        DiagnosticEvent::GenerationReady { instance, .. } => value_fits(instance@),
        DiagnosticEvent::RestartScheduled { instance, .. } => value_fits(instance@),
        DiagnosticEvent::RestartExhausted { instance, .. } => value_fits(instance@),
        DiagnosticEvent::RuntimeFailure { instance, .. } => optional_fits(
            signal::optional_string(instance),
        ),
        _ => true,
    }
}

/// The stable names are short.
proof fn lemma_names(record: DiagnosticRecord)
    ensures
        diagnostic::source_name(record.source).len() <= 64,
        diagnostic::event_name(record.event).len() <= 64,
        "true"@.len() <= 64,
        "false"@.len() <= 64,
        "lenso.runtime.diagnostic"@.len() == 24,
{
    reveal_strlit("lifecycle");
    reveal_strlit("invocation");
    reveal_strlit("admission");
    reveal_strlit("supervision");
    reveal_strlit("shutdown");
    reveal_strlit("runtime_failure");
    reveal_strlit("app_started");
    reveal_strlit("app_ready");
    reveal_strlit("lifecycle_started");
    reveal_strlit("lifecycle_completed");
    reveal_strlit("invocation_started");
    reveal_strlit("invocation_completed");
    reveal_strlit("admission_rejected");
    reveal_strlit("event_admission");
    reveal_strlit("generation_unavailable");
    reveal_strlit("generation_ready");
    reveal_strlit("restart_scheduled");
    reveal_strlit("restart_exhausted");
    reveal_strlit("shutdown_admission_closed");
    reveal_strlit("shutdown_cleanup_started");
    reveal_strlit("shutdown_completed");
    reveal_strlit("true");
    reveal_strlit("false");
    reveal_strlit("lenso.runtime.diagnostic");
}

/// The stable names of phases and outcomes are short.
proof fn lemma_outcome_names()
    ensures
        forall|phase: diagnostic::ModuleLifecyclePhase| (
        #[trigger] diagnostic::phase_name(phase)).len() <= 64,
        forall|outcome: diagnostic::DiagnosticOutcome| (
        #[trigger] diagnostic::outcome_text(outcome)).len() <= 64,
        forall|outcome: diagnostic::DiagnosticAdmission| (
        #[trigger] diagnostic::admission_text(outcome)).len() <= 64,
        forall|outcome: diagnostic::DiagnosticShutdownOutcome| (
        #[trigger] diagnostic::shutdown_outcome_text(outcome)).len() <= 64,
        forall|kind: diagnostic::RuntimeFailureKind| (
        #[trigger] diagnostic::failure_text(kind)).len() <= 64,
{
    reveal_strlit("prepare");
    reveal_strlit("activate");
    reveal_strlit("ready");
    reveal_strlit("deactivate");
    reveal_strlit("succeeded");
    reveal_strlit("domain_error");
    reveal_strlit("runtime_failure");
    reveal_strlit("accepted");
    reveal_strlit("unavailable");
    reveal_strlit("exhausted");
    reveal_strlit("closed");
    reveal_strlit("clean");
    reveal_strlit("timeout");
    reveal_strlit("unknown_operation");
    reveal_strlit("ambiguous_binding");
    reveal_strlit("protocol_violation");
    reveal_strlit("missing_module_factory");
    reveal_strlit("unavailable_execution_class");
    reveal_strlit("invalid_resolved_plan");
    reveal_strlit("admission_closed");
    reveal_strlit("resource_exhausted");
    reveal_strlit("deadline_exceeded");
    reveal_strlit("cancelled");
    reveal_strlit("internal");
    reveal_strlit("module_failure");
    reveal_strlit("module_restart_exhausted");
}

/// One more entry with a short key and a short value.
proof fn lemma_tame_insert_short(
    entries: Map<Seq<char>, Seq<char>>,
    count: nat,
    key: Seq<char>,
    value: Seq<char>,
)
    requires
        tame(entries, count),
        0 < key.len() <= 64,
        value.len() <= 64,
    ensures
        tame(entries.insert(key, value), count + 1),
{
    lemma_utf8_len_bound(value);
    lemma_tame_insert(entries, count, key, value);
}

/// One more entry with a short key and a number.
proof fn lemma_tame_insert_number(
    entries: Map<Seq<char>, Seq<char>>,
    count: nat,
    key: Seq<char>,
    number: u128,
)
    requires
        tame(entries, count),
        0 < key.len() <= 64,
    ensures
        tame(entries.insert(key, text::decimal(number as nat)), count + 1),
{
    text::lemma_machine_decimal_len(number);
    lemma_tame_insert_short(entries, count, key, text::decimal(number as nat));
}

/// One more entry with a short key, where there is a value for it.
proof fn lemma_tame_insert_optional(
    entries: Map<Seq<char>, Seq<char>>,
    count: nat,
    key: Seq<char>,
    value: Option<Seq<char>>,
)
    requires
        tame(entries, count),
        0 < key.len() <= 64,
        optional_fits(value),
    ensures
        tame(signal::with_optional(entries, key, value), count + 1),
{
    if let Some(value) = value {
        lemma_tame_insert(entries, count, key, value);
    }
}

/// The four entries that every diagnostic has.
proof fn lemma_tame_record(record: DiagnosticRecord)
    ensures
        tame(signal::record_attributes(record), 4),
{
    lemma_keys();
    lemma_names(record);
    let none = Map::<Seq<char>, Seq<char>>::empty();
    let sequenced = none.insert(
        "lenso.diagnostic.sequence"@,
        text::decimal(record.sequence as nat),
    );
    let timed = sequenced.insert(
        "lenso.diagnostic.timestamp_nanos"@,
        text::decimal(record.timestamp as nat),
    );
    let sourced = timed.insert(
        "lenso.diagnostic.source"@,
        diagnostic::source_name(record.source),
    );
    lemma_tame_insert_number(none, 0, "lenso.diagnostic.sequence"@, record.sequence as u128);
    lemma_tame_insert_number(
        sequenced,
        1,
        "lenso.diagnostic.timestamp_nanos"@,
        record.timestamp,
    );
    lemma_tame_insert_short(
        timed,
        2,
        "lenso.diagnostic.source"@,
        diagnostic::source_name(record.source),
    );
    lemma_tame_insert_short(
        sourced,
        3,
        "lenso.diagnostic.event"@,
        diagnostic::event_name(record.event),
    );
}

/// The entries that describe one invocation.
proof fn lemma_tame_invocation(
    entries: Map<Seq<char>, Seq<char>>,
    count: nat,
    request_id: u64,
    caller_instance: Option<Seq<char>>,
    provider_instance: Option<Seq<char>>,
    capability: Seq<char>,
    operation: Option<Seq<char>>,
)
    requires
        tame(entries, count),
        optional_fits(caller_instance),
        optional_fits(provider_instance),
        value_fits(capability),
        optional_fits(operation),
    ensures
        tame(
            signal::with_invocation(
                entries,
                request_id,
                caller_instance,
                provider_instance,
                capability,
                operation,
            ),
            count + 5,
        ),
{
    lemma_keys();
    let identified = entries.insert("lenso.request.id"@, text::decimal(request_id as nat));
    let called = signal::with_optional(identified, "lenso.caller.instance"@, caller_instance);
    let provided = signal::with_optional(called, "lenso.provider.instance"@, provider_instance);
    let capable = provided.insert("lenso.capability.id"@, capability);
    lemma_tame_insert_number(entries, count, "lenso.request.id"@, request_id as u128);
    lemma_tame_insert_optional(identified, count + 1, "lenso.caller.instance"@, caller_instance);
    lemma_tame_insert_optional(called, count + 2, "lenso.provider.instance"@, provider_instance);
    lemma_tame_insert(provided, count + 3, "lenso.capability.id"@, capability);
    lemma_tame_insert_optional(capable, count + 4, "lenso.operation.name"@, operation);
}

/// A map that is tame with few entries is tame with more.
proof fn lemma_tame_weaken(entries: Map<Seq<char>, Seq<char>>, count: nat, larger: nat)
    requires
        tame(entries, count),
        count <= larger,
    ensures
        tame(entries, larger),
{
}

/// The outcome and the duration of something that completed.
proof fn lemma_tame_completion(
    entries: Map<Seq<char>, Seq<char>>,
    count: nat,
    outcome: diagnostic::DiagnosticOutcome,
    elapsed: u128,
)
    requires
        tame(entries, count),
    ensures
        tame(
            entries.insert(
                "lenso.diagnostic.outcome"@,
                diagnostic::outcome_text(outcome),
            ).insert("lenso.diagnostic.elapsed_nanos"@, text::decimal(elapsed as nat)),
            count + 2,
        ),
{
    lemma_keys();
    lemma_outcome_names();
    let outcome_name = diagnostic::outcome_text(outcome);
    lemma_tame_insert_short(entries, count, "lenso.diagnostic.outcome"@, outcome_name);
    lemma_tame_insert_number(
        entries.insert("lenso.diagnostic.outcome"@, outcome_name),
        count + 1,
        "lenso.diagnostic.elapsed_nanos"@,
        elapsed,
    );
}

/// The instance and the generation of a Module.
proof fn lemma_tame_generation(
    entries: Map<Seq<char>, Seq<char>>,
    count: nat,
    instance: Seq<char>,
    generation: u64,
)
    requires
        tame(entries, count),
        value_fits(instance),
    ensures
        tame(
            entries.insert("lenso.module.instance"@, instance).insert(
                "lenso.module.generation"@,
                text::decimal(generation as nat),
            ),
            count + 2,
        ),
{
    lemma_keys();
    lemma_tame_insert(entries, count, "lenso.module.instance"@, instance);
    lemma_tame_insert_number(
        entries.insert("lenso.module.instance"@, instance),
        count + 1,
        "lenso.module.generation"@,
        generation as u128,
    );
}

/// The entries that one event adds: seven at most.
proof fn lemma_tame_event(record: DiagnosticRecord)
    requires
        identities_fit(record.event),
    ensures
        tame(signal::diagnostic_attributes(record), 11),
{
    lemma_keys();
    lemma_outcome_names();
    lemma_names(record);
    lemma_tame_record(record);
    let entries = signal::record_attributes(record);
    let whole = signal::diagnostic_attributes(record);
    match record.event {
        DiagnosticEvent::AppStarted { module_count } => {
            lemma_tame_insert_number(entries, 4, "lenso.app.module_count"@, module_count as u128);
            lemma_tame_weaken(whole, 5, 11);
        },
        DiagnosticEvent::AppReady => {
            lemma_tame_weaken(whole, 4, 11);
        },
        DiagnosticEvent::ShutdownAdmissionClosed => {
            lemma_tame_weaken(whole, 4, 11);
        },
        DiagnosticEvent::ShutdownCleanupStarted { .. } => {
            lemma_tame_weaken(whole, 4, 11);
        },
        DiagnosticEvent::LifecycleStarted { instance, generation, phase } => {
            lemma_tame_generation(entries, 4, instance@, generation);
            lemma_tame_insert_short(
                entries.insert("lenso.module.instance"@, instance@).insert(
                    "lenso.module.generation"@,
                    text::decimal(generation as nat),
                ),
                6,
                "lenso.module.phase"@,
                diagnostic::phase_name(phase),
            );
            lemma_tame_weaken(whole, 7, 11);
        },
        DiagnosticEvent::LifecycleCompleted { instance, generation, phase, outcome, elapsed } => {
            let located = entries.insert("lenso.module.instance"@, instance@).insert(
                "lenso.module.generation"@,
                text::decimal(generation as nat),
            );
            let phased = located.insert("lenso.module.phase"@, diagnostic::phase_name(phase));
            lemma_tame_generation(entries, 4, instance@, generation);
            lemma_tame_insert_short(
                located,
                6,
                "lenso.module.phase"@,
                diagnostic::phase_name(phase),
            );
            lemma_tame_completion(phased, 7, outcome, elapsed);
            lemma_tame_weaken(whole, 9, 11);
        },
        DiagnosticEvent::InvocationStarted {
            request_id,
            caller_instance,
            provider_instance,
            capability,
            operation,
        } => {
            lemma_tame_invocation(
                entries,
                4,
                request_id,
                signal::optional_string(caller_instance),
                signal::optional_string(provider_instance),
                capability@,
                signal::optional_str(operation),
            );
            lemma_tame_weaken(whole, 9, 11);
        },
        DiagnosticEvent::InvocationCompleted {
            request_id,
            caller_instance,
            provider_instance,
            capability,
            operation,
            outcome,
            elapsed,
        } => {
            let caller = signal::optional_string(caller_instance);
            let provider = signal::optional_string(provider_instance);
            let named = signal::optional_str(operation);
            lemma_tame_invocation(
                entries,
                4,
                request_id,
                caller,
                provider,
                capability@,
                named,
            );
            lemma_tame_completion(
                signal::with_invocation(
                    entries,
                    request_id,
                    caller,
                    provider,
                    capability@,
                    named,
                ),
                9,
                outcome,
                elapsed,
            );
        },
        DiagnosticEvent::AdmissionRejected {
            request_id,
            caller_instance,
            provider_instance,
            capability,
            operation,
            outcome,
        } => {
            let caller = signal::optional_string(caller_instance);
            let provider = signal::optional_string(provider_instance);
            let named = signal::optional_str(operation);
            lemma_tame_invocation(
                entries,
                4,
                request_id,
                caller,
                provider,
                capability@,
                named,
            );
            lemma_tame_insert_short(
                signal::with_invocation(
                    entries,
                    request_id,
                    caller,
                    provider,
                    capability@,
                    named,
                ),
                9,
                "lenso.admission.outcome"@,
                diagnostic::admission_text(outcome),
            );
            lemma_tame_weaken(whole, 10, 11);
        },
        DiagnosticEvent::EventAdmission {
            request_id,
            publisher_instance,
            subscriber_instance,
            capability,
            operation,
            outcome,
        } => {
            let identified = entries.insert(
                "lenso.request.id"@,
                text::decimal(request_id as nat),
            );
            let published = identified.insert(
                "lenso.event.publisher_instance"@,
                publisher_instance@,
            );
            let subscribed = published.insert(
                "lenso.event.subscriber_instance"@,
                subscriber_instance@,
            );
            let capable = subscribed.insert("lenso.capability.id"@, capability@);
            let named = signal::optional_str(operation);
            lemma_tame_insert_number(entries, 4, "lenso.request.id"@, request_id as u128);
            lemma_tame_insert(
                identified,
                5,
                "lenso.event.publisher_instance"@,
                publisher_instance@,
            );
            lemma_tame_insert(
                published,
                6,
                "lenso.event.subscriber_instance"@,
                subscriber_instance@,
            );
            lemma_tame_insert(subscribed, 7, "lenso.capability.id"@, capability@);
            lemma_tame_insert_optional(capable, 8, "lenso.operation.name"@, named);
            lemma_tame_insert_short(
                signal::with_optional(capable, "lenso.operation.name"@, named),
                9,
                "lenso.admission.outcome"@,
                diagnostic::admission_text(outcome),
            );
            lemma_tame_weaken(whole, 10, 11);
        },
        DiagnosticEvent::GenerationUnavailable { instance, generation } => {
            lemma_tame_generation(entries, 4, instance@, generation);
            lemma_tame_weaken(whole, 6, 11);
        },
        DiagnosticEvent::GenerationReady { instance, generation } => {
            lemma_tame_generation(entries, 4, instance@, generation);
            lemma_tame_weaken(whole, 6, 11);
        },
        DiagnosticEvent::RestartScheduled { instance, attempt, delay } => {
            let located = entries.insert("lenso.module.instance"@, instance@);
            let counted = located.insert(
                "lenso.supervision.attempt"@,
                text::decimal(attempt as nat),
            );
            lemma_tame_insert(entries, 4, "lenso.module.instance"@, instance@);
            lemma_tame_insert_number(
                located,
                5,
                "lenso.supervision.attempt"@,
                attempt as u128,
            );
            lemma_tame_insert_number(counted, 6, "lenso.supervision.delay_nanos"@, delay);
            lemma_tame_weaken(whole, 7, 11);
        },
        DiagnosticEvent::RestartExhausted { instance, attempts, terminal } => {
            let located = entries.insert("lenso.module.instance"@, instance@);
            let counted = located.insert(
                "lenso.supervision.attempts"@,
                text::decimal(attempts as nat),
            );
            lemma_tame_insert(entries, 4, "lenso.module.instance"@, instance@);
            lemma_tame_insert_number(
                located,
                5,
                "lenso.supervision.attempts"@,
                attempts as u128,
            );
            lemma_tame_insert_short(
                counted,
                6,
                "lenso.supervision.terminal"@,
                if terminal {
                    "true"@
                } else {
                    "false"@
                },
            );
            lemma_tame_weaken(whole, 7, 11);
        },
        DiagnosticEvent::RuntimeFailure { instance, kind } => {
            let named = signal::optional_string(instance);
            lemma_tame_insert_optional(entries, 4, "lenso.module.instance"@, named);
            lemma_tame_insert_short(
                signal::with_optional(entries, "lenso.module.instance"@, named),
                5,
                "lenso.runtime_failure.kind"@,
                diagnostic::failure_text(kind),
            );
            lemma_tame_weaken(whole, 6, 11);
        },
        DiagnosticEvent::ShutdownCompleted { outcome, elapsed } => {
            let ended = entries.insert(
                "lenso.shutdown.outcome"@,
                diagnostic::shutdown_outcome_text(outcome),
            );
            lemma_tame_insert_short(
                entries,
                4,
                "lenso.shutdown.outcome"@,
                diagnostic::shutdown_outcome_text(outcome),
            );
            lemma_tame_insert_number(ended, 5, "lenso.diagnostic.elapsed_nanos"@, elapsed);
            lemma_tame_weaken(whole, 6, 11);
        },
    }
}

/// A value that does not fit has the whole map refused.
proof fn lemma_oversized_value(entries: Map<Seq<char>, Seq<char>>, key: Seq<char>)
    requires
        entries.contains_key(key),
        !value_fits(entries[key]),
    ensures
        !admission::attributes_fit(entries),
{
}

/// An identity that an event carries stands in the map as a value.
proof fn lemma_oversized_identity(record: DiagnosticRecord)
    requires
        !identities_fit(record.event),
    ensures
        !admission::attributes_fit(signal::diagnostic_attributes(record)),
{
    lemma_keys();
    let whole = signal::diagnostic_attributes(record);
    match record.event {
        DiagnosticEvent::InvocationStarted {
            caller_instance,
            provider_instance,
            capability,
            ..
        } => {
            if !value_fits(capability@) {
                lemma_oversized_value(whole, "lenso.capability.id"@);
            } else if !optional_fits(signal::optional_string(caller_instance)) {
                lemma_oversized_value(whole, "lenso.caller.instance"@);
            } else if !optional_fits(signal::optional_string(provider_instance)) {
                lemma_oversized_value(whole, "lenso.provider.instance"@);
            } else {
                lemma_oversized_value(whole, "lenso.operation.name"@);
            }
        },
        DiagnosticEvent::InvocationCompleted {
            caller_instance,
            provider_instance,
            capability,
            ..
        } => {
            if !value_fits(capability@) {
                lemma_oversized_value(whole, "lenso.capability.id"@);
            } else if !optional_fits(signal::optional_string(caller_instance)) {
                lemma_oversized_value(whole, "lenso.caller.instance"@);
            } else if !optional_fits(signal::optional_string(provider_instance)) {
                lemma_oversized_value(whole, "lenso.provider.instance"@);
            } else {
                lemma_oversized_value(whole, "lenso.operation.name"@);
            }
        },
        DiagnosticEvent::AdmissionRejected {
            caller_instance,
            provider_instance,
            capability,
            ..
        } => {
            if !value_fits(capability@) {
                lemma_oversized_value(whole, "lenso.capability.id"@);
            } else if !optional_fits(signal::optional_string(caller_instance)) {
                lemma_oversized_value(whole, "lenso.caller.instance"@);
            } else if !optional_fits(signal::optional_string(provider_instance)) {
                lemma_oversized_value(whole, "lenso.provider.instance"@);
            } else {
                lemma_oversized_value(whole, "lenso.operation.name"@);
            }
        },
        DiagnosticEvent::EventAdmission {
            publisher_instance,
            subscriber_instance,
            capability,
            ..
        } => {
            if !value_fits(capability@) {
                lemma_oversized_value(whole, "lenso.capability.id"@);
            } else if !value_fits(publisher_instance@) {
                lemma_oversized_value(whole, "lenso.event.publisher_instance"@);
            } else if !value_fits(subscriber_instance@) {
                lemma_oversized_value(whole, "lenso.event.subscriber_instance"@);
            } else {
                lemma_oversized_value(whole, "lenso.operation.name"@);
            }
        },
        _ => {
            lemma_oversized_value(whole, "lenso.module.instance"@);
        },
    }
}

/// The log of a diagnostic passes every admission bound exactly when each identity in the
/// record (instances, capability, operation) fits an attribute value. Nothing else in a
/// record can have its log refused.
pub proof fn law_diagnostic_is_admitted(log: OtelSignal, record: DiagnosticRecord)
    requires
        signal::is_diagnostic_log(log, record),
    ensures
        admission::valid_signal(log) <==> identities_fit(record.event),
{
    lemma_names(record);
    lemma_utf8_len_bound("lenso.runtime.diagnostic"@);
    let entries = signal::diagnostic_attributes(record);
    if identities_fit(record.event) {
        lemma_tame_event(record);
        lemma_tame_bytes(entries, 11);
        assert forall|key: Seq<char>| #[trigger] entries.contains_key(key) implies admission::fits(
            key,
            admission::MAX_OTEL_ATTRIBUTE_KEY_BYTES as nat,
            true,
        ) && admission::fits(
            entries[key],
            admission::MAX_OTEL_ATTRIBUTE_VALUE_BYTES as nat,
            false,
        ) by {
            assert(entry_fits(key, entries[key]));
        }
    } else {
        lemma_oversized_identity(record);
    }
}

/// The stable word for an event.
pub open spec fn event_word(value: DiagnosticEvent) -> Seq<char> {
    match value {
        DiagnosticEvent::AppStarted { .. } => "app_started"@,
        DiagnosticEvent::AppReady => "app_ready"@,
        DiagnosticEvent::LifecycleStarted { .. } => "lifecycle_started"@,
        DiagnosticEvent::LifecycleCompleted { .. } => "lifecycle_completed"@,
        DiagnosticEvent::InvocationStarted { .. } => "invocation_started"@,
        DiagnosticEvent::InvocationCompleted { .. } => "invocation_completed"@,
        DiagnosticEvent::AdmissionRejected { .. } => "admission_rejected"@,
        DiagnosticEvent::EventAdmission { .. } => "event_admission"@,
        DiagnosticEvent::GenerationUnavailable { .. } => "generation_unavailable"@,
        DiagnosticEvent::GenerationReady { .. } => "generation_ready"@,
        DiagnosticEvent::RestartScheduled { .. } => "restart_scheduled"@,
        DiagnosticEvent::RestartExhausted { .. } => "restart_exhausted"@,
        DiagnosticEvent::RuntimeFailure { .. } => "runtime_failure"@,
        DiagnosticEvent::ShutdownAdmissionClosed => "shutdown_admission_closed"@,
        DiagnosticEvent::ShutdownCleanupStarted { .. } => "shutdown_cleanup_started"@,
        DiagnosticEvent::ShutdownCompleted { .. } => "shutdown_completed"@,
    }
}

/// The stable word for a source.
pub open spec fn source_word(value: DiagnosticSource) -> Seq<char> {
    match value {
        DiagnosticSource::Lifecycle => "lifecycle"@,
        DiagnosticSource::Invocation => "invocation"@,
        DiagnosticSource::Admission => "admission"@,
        DiagnosticSource::Supervision => "supervision"@,
        DiagnosticSource::Shutdown => "shutdown"@,
        DiagnosticSource::RuntimeFailure => "runtime_failure"@,
    }
}

/// The stable word for a lifecycle phase.
pub open spec fn phase_word(value: ModuleLifecyclePhase) -> Seq<char> {
    match value {
        ModuleLifecyclePhase::Prepare => "prepare"@,
        ModuleLifecyclePhase::Activate => "activate"@,
        ModuleLifecyclePhase::Ready => "ready"@,
        ModuleLifecyclePhase::Deactivate => "deactivate"@,
    }
}

/// The stable word for an outcome. A failure is not told by its category.
pub open spec fn outcome_word(value: DiagnosticOutcome) -> Seq<char> {
    match value {
        DiagnosticOutcome::Succeeded => "succeeded"@,
        DiagnosticOutcome::DomainError => "domain_error"@,
        DiagnosticOutcome::RuntimeFailure(_) => "runtime_failure"@,
    }
}

/// The stable word for an admission.
pub open spec fn admission_word(value: DiagnosticAdmission) -> Seq<char> {
    match value {
        DiagnosticAdmission::Accepted => "accepted"@,
        DiagnosticAdmission::Unavailable => "unavailable"@,
        DiagnosticAdmission::Exhausted => "exhausted"@,
        DiagnosticAdmission::Closed => "closed"@,
    }
}

/// The stable word for a shutdown outcome.
pub open spec fn shutdown_word(value: DiagnosticShutdownOutcome) -> Seq<char> {
    match value {
        DiagnosticShutdownOutcome::Clean => "clean"@,
        DiagnosticShutdownOutcome::RuntimeFailure => "runtime_failure"@,
        DiagnosticShutdownOutcome::Timeout => "timeout"@,
    }
}

/// The stable word for a failure category.
pub open spec fn failure_word(value: RuntimeFailureKind) -> Seq<char> {
    match value {
        RuntimeFailureKind::Unavailable => "unavailable"@,
        RuntimeFailureKind::UnknownOperation => "unknown_operation"@,
        RuntimeFailureKind::AmbiguousBinding => "ambiguous_binding"@,
        RuntimeFailureKind::ProtocolViolation => "protocol_violation"@,
        RuntimeFailureKind::MissingModuleFactory => "missing_module_factory"@,
        RuntimeFailureKind::UnavailableExecutionClass => "unavailable_execution_class"@,
        RuntimeFailureKind::InvalidResolvedPlan => "invalid_resolved_plan"@,
        RuntimeFailureKind::AdmissionClosed => "admission_closed"@,
        RuntimeFailureKind::ResourceExhausted => "resource_exhausted"@,
        RuntimeFailureKind::DeadlineExceeded => "deadline_exceeded"@,
        RuntimeFailureKind::Cancelled => "cancelled"@,
        RuntimeFailureKind::Internal => "internal"@,
        RuntimeFailureKind::ModuleFailure => "module_failure"@,
        RuntimeFailureKind::ModuleRestartExhausted => "module_restart_exhausted"@,
    }
}

/// Whether a key has the expected value in a map, or is absent where none is expected.
pub open spec fn holds(
    entries: Map<Seq<char>, Seq<char>>,
    key: Seq<char>,
    expected: Option<Seq<char>>,
) -> bool {
    match expected {
        Some(value) => entries.contains_key(key) && entries[key] == value,
        None => !entries.contains_key(key),
    }
}

/// The severity of the log that comes out. It is an error exactly for a Runtime Failure and
/// for a restart budget that is exhausted for good, a warning exactly for work that a full or
/// closed admission turned away, and informational for everything else. The log keeps the
/// instant of the record, and its body is the same for every record.
pub proof fn law_diagnostic_severity(log: OtelSignal, record: DiagnosticRecord)
    requires
        signal::is_diagnostic_log(log, record),
    ensures
        log matches OtelSignal::Log(log) && {
            &&& log.timestamp == record.timestamp
            &&& log.body@ == "lenso.runtime.diagnostic"@
            &&& log.severity is Error <==> record.event is RuntimeFailure || (record.event matches
                DiagnosticEvent::RestartExhausted { terminal, .. } && terminal)
            &&& log.severity is Warn <==> (record.event matches
                DiagnosticEvent::AdmissionRejected { outcome, .. } && (outcome is Exhausted
                || outcome is Closed))
        },
{
}

/// The attributes of the log that comes out, key by key: which events carry a key, and with
/// what value. No other key occurs.
pub proof fn law_diagnostic_attributes(log: OtelSignal, record: DiagnosticRecord)
    requires
        signal::is_diagnostic_log(log, record),
    ensures
        log matches OtelSignal::Log(log) && {
            let entries = log.attributes@;
            &&& holds(
                entries,
                "lenso.diagnostic.sequence"@,
                Some(text::decimal(record.sequence as nat)),
            )
            &&& holds(
                entries,
                "lenso.diagnostic.timestamp_nanos"@,
                Some(text::decimal(record.timestamp as nat)),
            )
            &&& holds(entries, "lenso.diagnostic.source"@, Some(source_word(record.source)))
            &&& holds(entries, "lenso.diagnostic.event"@, Some(event_word(record.event)))
            &&& holds(entries, "lenso.app.module_count"@, match record.event {
                DiagnosticEvent::AppStarted { module_count } => Some(text::decimal(module_count as nat)),
                _ => None,
            })
            &&& holds(entries, "lenso.module.instance"@, match record.event {
                DiagnosticEvent::LifecycleStarted { instance, .. } => Some(instance@),
                DiagnosticEvent::LifecycleCompleted { instance, .. } => Some(instance@),
                DiagnosticEvent::GenerationUnavailable { instance, .. } => Some(instance@),
                DiagnosticEvent::GenerationReady { instance, .. } => Some(instance@),
                DiagnosticEvent::RestartScheduled { instance, .. } => Some(instance@),
                DiagnosticEvent::RestartExhausted { instance, .. } => Some(instance@),
                DiagnosticEvent::RuntimeFailure { instance, .. } => match instance { Some(text) => Some(text@), None => None },
                _ => None,
            })
            &&& holds(entries, "lenso.module.generation"@, match record.event {
                DiagnosticEvent::LifecycleStarted { generation, .. } => Some(text::decimal(generation as nat)),
                DiagnosticEvent::LifecycleCompleted { generation, .. } => Some(text::decimal(generation as nat)),
                DiagnosticEvent::GenerationUnavailable { generation, .. } => Some(text::decimal(generation as nat)),
                DiagnosticEvent::GenerationReady { generation, .. } => Some(text::decimal(generation as nat)),
                _ => None,
            })
            &&& holds(entries, "lenso.module.phase"@, match record.event {
                DiagnosticEvent::LifecycleStarted { phase, .. } => Some(phase_word(phase)),
                DiagnosticEvent::LifecycleCompleted { phase, .. } => Some(phase_word(phase)),
                _ => None,
            })
            &&& holds(entries, "lenso.diagnostic.outcome"@, match record.event {
                DiagnosticEvent::LifecycleCompleted { outcome, .. } => Some(outcome_word(outcome)),
                DiagnosticEvent::InvocationCompleted { outcome, .. } => Some(outcome_word(outcome)),
                _ => None,
            })
            &&& holds(entries, "lenso.diagnostic.elapsed_nanos"@, match record.event {
                DiagnosticEvent::LifecycleCompleted { elapsed, .. } => Some(text::decimal(elapsed as nat)),
                DiagnosticEvent::InvocationCompleted { elapsed, .. } => Some(text::decimal(elapsed as nat)),
                DiagnosticEvent::ShutdownCompleted { elapsed, .. } => Some(text::decimal(elapsed as nat)),
                _ => None,
            })
            &&& holds(entries, "lenso.request.id"@, match record.event {
                DiagnosticEvent::InvocationStarted { request_id, .. } => Some(text::decimal(request_id as nat)),
                DiagnosticEvent::InvocationCompleted { request_id, .. } => Some(text::decimal(request_id as nat)),
                DiagnosticEvent::AdmissionRejected { request_id, .. } => Some(text::decimal(request_id as nat)),
                DiagnosticEvent::EventAdmission { request_id, .. } => Some(text::decimal(request_id as nat)),
                _ => None,
            })
            &&& holds(entries, "lenso.caller.instance"@, match record.event {
                DiagnosticEvent::InvocationStarted { caller_instance, .. } => match caller_instance { Some(text) => Some(text@), None => None },
                DiagnosticEvent::InvocationCompleted { caller_instance, .. } => match caller_instance { Some(text) => Some(text@), None => None },
                DiagnosticEvent::AdmissionRejected { caller_instance, .. } => match caller_instance { Some(text) => Some(text@), None => None },
                _ => None,
            })
            &&& holds(entries, "lenso.provider.instance"@, match record.event {
                DiagnosticEvent::InvocationStarted { provider_instance, .. } => match provider_instance { Some(text) => Some(text@), None => None },
                DiagnosticEvent::InvocationCompleted { provider_instance, .. } => match provider_instance { Some(text) => Some(text@), None => None },
                DiagnosticEvent::AdmissionRejected { provider_instance, .. } => match provider_instance { Some(text) => Some(text@), None => None },
                _ => None,
            })
            &&& holds(entries, "lenso.capability.id"@, match record.event {
                DiagnosticEvent::InvocationStarted { capability, .. } => Some(capability@),
                DiagnosticEvent::InvocationCompleted { capability, .. } => Some(capability@),
                DiagnosticEvent::AdmissionRejected { capability, .. } => Some(capability@),
                DiagnosticEvent::EventAdmission { capability, .. } => Some(capability@),
                _ => None,
            })
            &&& holds(entries, "lenso.operation.name"@, match record.event {
                DiagnosticEvent::InvocationStarted { operation, .. } => match operation { Some(text) => Some(text@), None => None },
                DiagnosticEvent::InvocationCompleted { operation, .. } => match operation { Some(text) => Some(text@), None => None },
                DiagnosticEvent::AdmissionRejected { operation, .. } => match operation { Some(text) => Some(text@), None => None },
                DiagnosticEvent::EventAdmission { operation, .. } => match operation { Some(text) => Some(text@), None => None },
                _ => None,
            })
            &&& holds(entries, "lenso.admission.outcome"@, match record.event {
                DiagnosticEvent::AdmissionRejected { outcome, .. } => Some(admission_word(outcome)),
                DiagnosticEvent::EventAdmission { outcome, .. } => Some(admission_word(outcome)),
                _ => None,
            })
            &&& holds(entries, "lenso.event.publisher_instance"@, match record.event {
                DiagnosticEvent::EventAdmission { publisher_instance, .. } => Some(publisher_instance@),
                _ => None,
            })
            &&& holds(entries, "lenso.event.subscriber_instance"@, match record.event {
                DiagnosticEvent::EventAdmission { subscriber_instance, .. } => Some(subscriber_instance@),
                _ => None,
            })
            &&& holds(entries, "lenso.supervision.attempt"@, match record.event {
                DiagnosticEvent::RestartScheduled { attempt, .. } => Some(text::decimal(attempt as nat)),
                _ => None,
            })
            &&& holds(entries, "lenso.supervision.delay_nanos"@, match record.event {
                DiagnosticEvent::RestartScheduled { delay, .. } => Some(text::decimal(delay as nat)),
                _ => None,
            })
            &&& holds(entries, "lenso.supervision.attempts"@, match record.event {
                DiagnosticEvent::RestartExhausted { attempts, .. } => Some(text::decimal(attempts as nat)),
                _ => None,
            })
            &&& holds(entries, "lenso.supervision.terminal"@, match record.event {
                DiagnosticEvent::RestartExhausted { terminal, .. } => Some(if terminal { "true"@ } else { "false"@ }),
                _ => None,
            })
            &&& holds(entries, "lenso.runtime_failure.kind"@, match record.event {
                DiagnosticEvent::RuntimeFailure { kind, .. } => Some(failure_word(kind)),
                _ => None,
            })
            &&& holds(entries, "lenso.shutdown.outcome"@, match record.event {
                DiagnosticEvent::ShutdownCompleted { outcome, .. } => Some(shutdown_word(outcome)),
                _ => None,
            })
            &&& forall|key: Seq<char>| #[trigger]
                entries.contains_key(key) ==> structural_key(key)
        },
{
    lemma_keys();
}

} // verus!
