//! `OTel` signals, and the structural log that a Runtime Diagnostic becomes.

use vstd::prelude::*;

use crate::attributes::Attributes;
use crate::diagnostic;
use crate::diagnostic::{
    DiagnosticAdmission, DiagnosticEvent, DiagnosticOutcome, DiagnosticRecord, Nanos,
};
use crate::text;
use crate::trace::TraceContext;

verus! {

/// `OTel` severity assigned to one exported signal.
#[derive(Clone, Copy, Debug, Eq, PartialEq)]
pub enum OtelSeverity {
    /// Informational runtime or application signal.
    Info,
    /// A lossy runtime condition worth operator attention.
    Warn,
    /// A sanitized Runtime Failure category.
    Error,
}

/// A numeric measurement, as the bits of an IEEE 754 binary64 number: one sign bit, eleven
/// exponent bits and fifty-two fraction bits.
#[derive(Clone, Copy, Debug)]
pub struct MetricValue {
    /// The binary64 representation.
    pub bits: u64,
}

impl MetricValue {
    /// Whether the number is neither infinite nor a NaN: its exponent bits are not all ones.
    pub open spec fn finite(self) -> bool {
        self.bits as nat / 0x10_0000_0000_0000 % 0x800 != 0x7ff
    }

    /// Whether the value is a NaN: its exponent bits are all ones and its fraction is not
    /// zero.
    pub open spec fn nan(self) -> bool {
        !self.finite() && self.bits as nat % 0x10_0000_0000_0000 != 0
    }

    /// Whether the number is zero, of either sign.
    pub open spec fn zero(self) -> bool {
        self.bits as nat % 0x8000_0000_0000_0000 == 0
    }

    /// Returns whether the number is neither infinite nor a NaN.
    pub fn is_finite(&self) -> (finite: bool)
        ensures
            finite == self.finite(),
    {
        self.bits / 0x10_0000_0000_0000 % 0x800 != 0x7ff
    }

    /// Returns whether the value is a NaN.
    pub fn is_nan(&self) -> (nan: bool)
        ensures
            nan == self.nan(),
    {
        !self.is_finite() && self.bits % 0x10_0000_0000_0000 != 0
    }
}

impl PartialEq for MetricValue {
    fn eq(&self, other: &Self) -> (same: bool) {
        if self.is_nan() || other.is_nan() {
            false
        } else {
            self.bits == other.bits || (self.bits % 0x8000_0000_0000_0000 == 0 && other.bits
                % 0x8000_0000_0000_0000 == 0)
        }
    }
}

impl vstd::std_specs::cmp::PartialEqSpecImpl for MetricValue {
    open spec fn obeys_eq_spec() -> bool {
        true
    }

    open spec fn eq_spec(&self, other: &Self) -> bool {
        &&& !self.nan() && !other.nan()
        &&& self.bits == other.bits || (self.zero() && other.zero())
    }
}

/// An explicit application span signal.
#[derive(Clone, Debug, PartialEq)]
pub struct OtelSpan {
    /// Instrumentation operation name.
    pub name: String,
    /// W3C trace and current span identity.
    pub trace_context: TraceContext,
    /// Parent span identity when the application created a child span.
    pub parent_span_id: Option<[u8; 8]>,
    /// Driver-monotonic start instant supplied by the application or Adapter.
    pub started_at: Nanos,
    /// Driver-monotonic completion instant, when the span has ended.
    pub ended_at: Option<Nanos>,
    /// Explicit application attributes; Runtime Diagnostics never populate this map from payloads.
    pub attributes: Attributes,
}

/// An explicit application metric signal.
#[derive(Clone, Debug, PartialEq)]
pub struct OtelMetric {
    /// Metric identity.
    pub name: String,
    /// Numeric measurement.
    pub value: MetricValue,
    /// Optional OpenTelemetry unit.
    pub unit: Option<String>,
    /// Driver-monotonic measurement instant.
    pub timestamp: Nanos,
    /// Explicit application attributes.
    pub attributes: Attributes,
}

/// A structural Runtime Diagnostic or explicit application log signal.
#[derive(Clone, Debug, PartialEq)]
pub struct OtelLog {
    /// Driver-monotonic observation instant.
    pub timestamp: Nanos,
    /// Normalized severity.
    pub severity: OtelSeverity,
    /// Stable log body or event name.
    pub body: String,
    /// Sanitized structural or explicitly supplied attributes.
    pub attributes: Attributes,
}

/// Signal accepted by an `OTel` Module exporter.
#[derive(Clone, Debug, PartialEq)]
pub enum OtelSignal {
    /// A span created by application instrumentation.
    Span(OtelSpan),
    /// A metric created by application instrumentation.
    Metric(OtelMetric),
    /// A Runtime Diagnostic or explicit application log.
    Log(OtelLog),
}

/// A value that an attribute can carry as text.
pub trait AttributeValue: Sized {
    /// The text of the value.
    spec fn attribute_text(&self) -> Seq<char>;

    /// Writes the value as text.
    fn to_attribute(&self) -> (written: String)
        ensures
            written@ == self.attribute_text(),
    ;
}

impl AttributeValue for u128 {
    open spec fn attribute_text(&self) -> Seq<char> {
        text::decimal(*self as nat)
    }

    fn to_attribute(&self) -> (written: String) {
        let mut written = String::new();
        text::push_decimal(&mut written, *self);
        assert(written@ =~= text::decimal(*self as nat));
        written
    }
}

impl AttributeValue for u64 {
    open spec fn attribute_text(&self) -> Seq<char> {
        text::decimal(*self as nat)
    }

    fn to_attribute(&self) -> (written: String) {
        (*self as u128).to_attribute()
    }
}

impl AttributeValue for usize {
    open spec fn attribute_text(&self) -> Seq<char> {
        text::decimal(*self as nat)
    }

    fn to_attribute(&self) -> (written: String) {
        (*self as u128).to_attribute()
    }
}

impl AttributeValue for bool {
    open spec fn attribute_text(&self) -> Seq<char> {
        if *self {
            "true"@
        } else {
            "false"@
        }
    }

    fn to_attribute(&self) -> (written: String) {
        if *self {
            "true".to_owned()
        } else {
            "false".to_owned()
        }
    }
}

impl<'a> AttributeValue for &'a str {
    open spec fn attribute_text(&self) -> Seq<char> {
        self@
    }

    fn to_attribute(&self) -> (written: String) {
        (*self).to_owned()
    }
}

/// Sets an attribute to the text of a value.
pub fn attribute<T: AttributeValue>(attributes: &mut Attributes, key: &str, value: T)
    ensures
        final(attributes)@ == old(attributes)@.insert(key@, value.attribute_text()),
{
    attributes.insert(key.to_owned(), value.to_attribute());
}

/// A map with one more entry, where there is a value for it.
pub open spec fn with_optional(
    attributes: Map<Seq<char>, Seq<char>>,
    key: Seq<char>,
    value: Option<Seq<char>>,
) -> Map<Seq<char>, Seq<char>> {
    match value {
        Some(value) => attributes.insert(key, value),
        None => attributes,
    }
}

/// The text of an optional borrowed string.
pub open spec fn optional_str(value: Option<&str>) -> Option<Seq<char>> {
    match value {
        Some(value) => Some(value@),
        None => None,
    }
}

/// The text of an optional owned string.
pub open spec fn optional_string(value: Option<String>) -> Option<Seq<char>> {
    match value {
        Some(value) => Some(value@),
        None => None,
    }
}

/// Borrows an optional string.
fn borrowed(value: &Option<String>) -> (borrowed: Option<&str>)
    ensures
        optional_str(borrowed) == optional_string(*value),
{
    match value {
        Some(value) => Some(value.as_str()),
        None => None,
    }
}

/// Sets an attribute, where there is a value for it.
pub fn optional_attribute(attributes: &mut Attributes, key: &str, value: Option<&str>)
    ensures
        final(attributes)@ == with_optional(old(attributes)@, key@, optional_str(value)),
{
    if let Some(value) = value {
        attribute(attributes, key, value);
    }
}

/// A map with the entries that describe one invocation.
pub open spec fn with_invocation(
    attributes: Map<Seq<char>, Seq<char>>,
    request_id: u64,
    caller_instance: Option<Seq<char>>,
    provider_instance: Option<Seq<char>>,
    capability: Seq<char>,
    operation: Option<Seq<char>>,
) -> Map<Seq<char>, Seq<char>> {
    let identified = attributes.insert("lenso.request.id"@, text::decimal(request_id as nat));
    let called = with_optional(identified, "lenso.caller.instance"@, caller_instance);
    let provided = with_optional(called, "lenso.provider.instance"@, provider_instance);
    with_optional(
        provided.insert("lenso.capability.id"@, capability),
        "lenso.operation.name"@,
        operation,
    )
}

/// Sets the attributes that describe one invocation.
pub fn invocation_attributes(
    attributes: &mut Attributes,
    request_id: u64,
    caller_instance: Option<&str>,
    provider_instance: Option<&str>,
    capability: &'static str,
    operation: Option<&'static str>,
)
    ensures
        final(attributes)@ == with_invocation(
            old(attributes)@,
            request_id,
            optional_str(caller_instance),
            optional_str(provider_instance),
            capability@,
            optional_str(operation),
        ),
{
    attribute(attributes, "lenso.request.id", request_id);
    optional_attribute(attributes, "lenso.caller.instance", caller_instance);
    optional_attribute(attributes, "lenso.provider.instance", provider_instance);
    attribute(attributes, "lenso.capability.id", capability);
    optional_attribute(attributes, "lenso.operation.name", operation);
}

/// The severity of a diagnostic: a failure or a terminal exhaustion is an error, a refused
/// admission that lost work is a warning, all else is informational.
pub open spec fn severity_of(event: DiagnosticEvent) -> OtelSeverity {
    match event {
        DiagnosticEvent::RuntimeFailure { .. } => OtelSeverity::Error,
        DiagnosticEvent::RestartExhausted { terminal, .. } => if terminal {
            OtelSeverity::Error
        } else {
            OtelSeverity::Info
        },
        DiagnosticEvent::AdmissionRejected { outcome, .. } => if outcome
            == DiagnosticAdmission::Exhausted || outcome == DiagnosticAdmission::Closed {
            OtelSeverity::Warn
        } else {
            OtelSeverity::Info
        },
        _ => OtelSeverity::Info,
    }
}

/// The entries that every diagnostic has.
pub open spec fn record_attributes(record: DiagnosticRecord) -> Map<Seq<char>, Seq<char>> {
    Map::empty().insert(
        "lenso.diagnostic.sequence"@,
        text::decimal(record.sequence as nat),
    ).insert(
        "lenso.diagnostic.timestamp_nanos"@,
        text::decimal(record.timestamp as nat),
    ).insert("lenso.diagnostic.source"@, diagnostic::source_name(record.source)).insert(
        "lenso.diagnostic.event"@,
        diagnostic::event_name(record.event),
    )
}

/// A map with the entries that one event adds.
pub open spec fn with_event(
    attributes: Map<Seq<char>, Seq<char>>,
    event: DiagnosticEvent,
) -> Map<Seq<char>, Seq<char>> {
    match event {
        DiagnosticEvent::AppStarted { module_count } => attributes.insert(
            "lenso.app.module_count"@,
            text::decimal(module_count as nat),
        ),
        DiagnosticEvent::AppReady => attributes,
        DiagnosticEvent::ShutdownAdmissionClosed => attributes,
        DiagnosticEvent::ShutdownCleanupStarted { .. } => attributes,
        DiagnosticEvent::LifecycleStarted { instance, generation, phase } => attributes.insert(
            "lenso.module.instance"@,
            instance@,
        ).insert("lenso.module.generation"@, text::decimal(generation as nat)).insert(
            "lenso.module.phase"@,
            diagnostic::phase_name(phase),
        ),
        DiagnosticEvent::LifecycleCompleted { instance, generation, phase, outcome, elapsed } =>
            attributes.insert("lenso.module.instance"@, instance@).insert(
            "lenso.module.generation"@,
            text::decimal(generation as nat),
        ).insert("lenso.module.phase"@, diagnostic::phase_name(phase)).insert(
            "lenso.diagnostic.outcome"@,
            diagnostic::outcome_text(outcome),
        ).insert("lenso.diagnostic.elapsed_nanos"@, text::decimal(elapsed as nat)),
        DiagnosticEvent::InvocationStarted {
            request_id,
            caller_instance,
            provider_instance,
            capability,
            operation,
        } => with_invocation(
            attributes,
            request_id,
            optional_string(caller_instance),
            optional_string(provider_instance),
            capability@,
            optional_str(operation),
        ),
        DiagnosticEvent::InvocationCompleted {
            request_id,
            caller_instance,
            provider_instance,
            capability,
            operation,
            outcome,
            elapsed,
        } => with_invocation(
            attributes,
            request_id,
            optional_string(caller_instance),
            optional_string(provider_instance),
            capability@,
            optional_str(operation),
        ).insert("lenso.diagnostic.outcome"@, diagnostic::outcome_text(outcome)).insert(
            "lenso.diagnostic.elapsed_nanos"@,
            text::decimal(elapsed as nat),
        ),
        DiagnosticEvent::AdmissionRejected {
            request_id,
            caller_instance,
            provider_instance,
            capability,
            operation,
            outcome,
        } => with_invocation(
            attributes,
            request_id,
            optional_string(caller_instance),
            optional_string(provider_instance),
            capability@,
            optional_str(operation),
        ).insert("lenso.admission.outcome"@, diagnostic::admission_text(outcome)),
        DiagnosticEvent::EventAdmission {
            request_id,
            publisher_instance,
            subscriber_instance,
            capability,
            operation,
            outcome,
        } => with_optional(
            attributes.insert("lenso.request.id"@, text::decimal(request_id as nat)).insert(
                "lenso.event.publisher_instance"@,
                publisher_instance@,
            ).insert("lenso.event.subscriber_instance"@, subscriber_instance@).insert(
                "lenso.capability.id"@,
                capability@,
            ),
            "lenso.operation.name"@,
            optional_str(operation),
        ).insert("lenso.admission.outcome"@, diagnostic::admission_text(outcome)),
        DiagnosticEvent::GenerationUnavailable { instance, generation } => attributes.insert(
            "lenso.module.instance"@,
            instance@,
        ).insert("lenso.module.generation"@, text::decimal(generation as nat)),
        DiagnosticEvent::GenerationReady { instance, generation } => attributes.insert(
            "lenso.module.instance"@,
            instance@,
        ).insert("lenso.module.generation"@, text::decimal(generation as nat)),
        DiagnosticEvent::RestartScheduled { instance, attempt, delay } => attributes.insert(
            "lenso.module.instance"@,
            instance@,
        ).insert("lenso.supervision.attempt"@, text::decimal(attempt as nat)).insert(
            "lenso.supervision.delay_nanos"@,
            text::decimal(delay as nat),
        ),
        DiagnosticEvent::RestartExhausted { instance, attempts, terminal } => attributes.insert(
            "lenso.module.instance"@,
            instance@,
        ).insert("lenso.supervision.attempts"@, text::decimal(attempts as nat)).insert(
            "lenso.supervision.terminal"@,
            terminal.attribute_text(),
        ),
        DiagnosticEvent::RuntimeFailure { instance, kind } => with_optional(
            attributes,
            "lenso.module.instance"@,
            optional_string(instance),
        ).insert("lenso.runtime_failure.kind"@, diagnostic::failure_text(kind)),
        DiagnosticEvent::ShutdownCompleted { outcome, elapsed } => attributes.insert(
            "lenso.shutdown.outcome"@,
            diagnostic::shutdown_outcome_text(outcome),
        ).insert("lenso.diagnostic.elapsed_nanos"@, text::decimal(elapsed as nat)),
    }
}

/// The attributes of the log that a diagnostic becomes.
pub open spec fn diagnostic_attributes(record: DiagnosticRecord) -> Map<Seq<char>, Seq<char>> {
    with_event(record_attributes(record), record.event)
}

/// Whether a signal is the structural log of a diagnostic.
pub open spec fn is_diagnostic_log(signal: OtelSignal, record: DiagnosticRecord) -> bool {
    signal matches OtelSignal::Log(log) && {
        &&& log.timestamp == record.timestamp
        &&& log.severity == severity_of(record.event)
        &&& log.body@ == "lenso.runtime.diagnostic"@
        &&& log.attributes@ == diagnostic_attributes(record)
    }
}

/// The severity of a diagnostic.
pub fn diagnostic_severity(event: &DiagnosticEvent) -> (severity: OtelSeverity)
    ensures
        severity == severity_of(*event),
{
    match event {
        DiagnosticEvent::RuntimeFailure { .. } => OtelSeverity::Error,
        DiagnosticEvent::RestartExhausted { terminal, .. } => if *terminal {
            OtelSeverity::Error
        } else {
            OtelSeverity::Info
        },
        DiagnosticEvent::AdmissionRejected { outcome, .. } => match outcome {
            DiagnosticAdmission::Exhausted => OtelSeverity::Warn,
            DiagnosticAdmission::Closed => OtelSeverity::Warn,
            DiagnosticAdmission::Accepted => OtelSeverity::Info,
            DiagnosticAdmission::Unavailable => OtelSeverity::Info,
        },
        _ => OtelSeverity::Info,
    }
}

/// Sets the outcome and the duration of something that completed.
fn completion_attributes(attributes: &mut Attributes, outcome: DiagnosticOutcome, elapsed: Nanos)
    ensures
        final(attributes)@ == old(attributes)@.insert(
            "lenso.diagnostic.outcome"@,
            diagnostic::outcome_text(outcome),
        ).insert("lenso.diagnostic.elapsed_nanos"@, text::decimal(elapsed as nat)),
{
    attribute(attributes, "lenso.diagnostic.outcome", diagnostic::outcome_name(outcome));
    attribute(attributes, "lenso.diagnostic.elapsed_nanos", elapsed);
}

/// Sets the attributes that one event adds.
fn event_attributes(attributes: &mut Attributes, event: &DiagnosticEvent)
    ensures
        final(attributes)@ == with_event(old(attributes)@, *event),
{
    match event {
        DiagnosticEvent::AppStarted { module_count } => {
            attribute(attributes, "lenso.app.module_count", *module_count);
        },
        DiagnosticEvent::AppReady => {},
        DiagnosticEvent::ShutdownAdmissionClosed => {},
        DiagnosticEvent::ShutdownCleanupStarted { .. } => {},
        DiagnosticEvent::LifecycleStarted { instance, generation, phase } => {
            attribute(attributes, "lenso.module.instance", instance.as_str());
            attribute(attributes, "lenso.module.generation", *generation);
            attribute(attributes, "lenso.module.phase", diagnostic::lifecycle_phase_name(*phase));
        },
        DiagnosticEvent::LifecycleCompleted { instance, generation, phase, outcome, elapsed } => {
            attribute(attributes, "lenso.module.instance", instance.as_str());
            attribute(attributes, "lenso.module.generation", *generation);
            attribute(attributes, "lenso.module.phase", diagnostic::lifecycle_phase_name(*phase));
            completion_attributes(attributes, *outcome, *elapsed);
        },
        DiagnosticEvent::InvocationStarted {
            request_id,
            caller_instance,
            provider_instance,
            capability,
            operation,
        } => {
            invocation_attributes(
                attributes,
                *request_id,
                borrowed(caller_instance),
                borrowed(provider_instance),
                capability,
                *operation,
            );
        },
        DiagnosticEvent::InvocationCompleted {
            request_id,
            caller_instance,
            provider_instance,
            capability,
            operation,
            outcome,
            elapsed,
        } => {
            invocation_attributes(
                attributes,
                *request_id,
                borrowed(caller_instance),
                borrowed(provider_instance),
                capability,
                *operation,
            );
            completion_attributes(attributes, *outcome, *elapsed);
        },
        DiagnosticEvent::AdmissionRejected {
            request_id,
            caller_instance,
            provider_instance,
            capability,
            operation,
            outcome,
        } => {
            invocation_attributes(
                attributes,
                *request_id,
                borrowed(caller_instance),
                borrowed(provider_instance),
                capability,
                *operation,
            );
            attribute(attributes, "lenso.admission.outcome", diagnostic::admission_name(*outcome));
        },
        DiagnosticEvent::EventAdmission {
            request_id,
            publisher_instance,
            subscriber_instance,
            capability,
            operation,
            outcome,
        } => {
            attribute(attributes, "lenso.request.id", *request_id);
            attribute(attributes, "lenso.event.publisher_instance", publisher_instance.as_str());
            attribute(attributes, "lenso.event.subscriber_instance", subscriber_instance.as_str());
            attribute(attributes, "lenso.capability.id", *capability);
            optional_attribute(attributes, "lenso.operation.name", *operation);
            attribute(attributes, "lenso.admission.outcome", diagnostic::admission_name(*outcome));
        },
        DiagnosticEvent::GenerationUnavailable { instance, generation } => {
            attribute(attributes, "lenso.module.instance", instance.as_str());
            attribute(attributes, "lenso.module.generation", *generation);
        },
        DiagnosticEvent::GenerationReady { instance, generation } => {
            attribute(attributes, "lenso.module.instance", instance.as_str());
            attribute(attributes, "lenso.module.generation", *generation);
        },
        DiagnosticEvent::RestartScheduled { instance, attempt, delay } => {
            attribute(attributes, "lenso.module.instance", instance.as_str());
            attribute(attributes, "lenso.supervision.attempt", *attempt);
            attribute(attributes, "lenso.supervision.delay_nanos", *delay);
        },
        DiagnosticEvent::RestartExhausted { instance, attempts, terminal } => {
            attribute(attributes, "lenso.module.instance", instance.as_str());
            attribute(attributes, "lenso.supervision.attempts", *attempts);
            attribute(attributes, "lenso.supervision.terminal", *terminal);
        },
        DiagnosticEvent::RuntimeFailure { instance, kind } => {
            optional_attribute(attributes, "lenso.module.instance", borrowed(instance));
            attribute(
                attributes,
                "lenso.runtime_failure.kind",
                diagnostic::runtime_failure_name(*kind),
            );
        },
        DiagnosticEvent::ShutdownCompleted { outcome, elapsed } => {
            attribute(
                attributes,
                "lenso.shutdown.outcome",
                diagnostic::shutdown_outcome_name(*outcome),
            );
            attribute(attributes, "lenso.diagnostic.elapsed_nanos", *elapsed);
        },
    }
}

/// Converts one sanitized Kernel Runtime Diagnostic into a structural `OTel` Log.
///
/// The conversion deliberately enumerates every allowed Diagnostic Event field.
/// It never formats or serializes the source record, so payloads, configuration,
/// secrets, and arbitrary extensions cannot leak into an exported signal.
pub fn diagnostic_to_signal(record: &DiagnosticRecord) -> (signal: OtelSignal)
    ensures
        is_diagnostic_log(signal, *record),
{
    let mut attributes = Attributes::new();
    attribute(&mut attributes, "lenso.diagnostic.sequence", record.sequence);
    attribute(&mut attributes, "lenso.diagnostic.timestamp_nanos", record.timestamp);
    attribute(
        &mut attributes,
        "lenso.diagnostic.source",
        diagnostic::diagnostic_source_name(record.source),
    );
    attribute(
        &mut attributes,
        "lenso.diagnostic.event",
        diagnostic::diagnostic_event_name(&record.event),
    );
    event_attributes(&mut attributes, &record.event);
    OtelSignal::Log(
        OtelLog {
            timestamp: record.timestamp,
            severity: diagnostic_severity(&record.event),
            body: "lenso.runtime.diagnostic".to_owned(),
            attributes,
        },
    )
}

} // verus!
