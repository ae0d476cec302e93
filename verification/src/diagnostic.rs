//! Sanitized Runtime Diagnostics of the Kernel, as plain values.

use vstd::prelude::*;

verus! {

/// A Driver-monotonic instant or a span of time, in nanoseconds.
pub type Nanos = u128;

/// The Kernel subsystem that produced one Runtime Diagnostic.
#[derive(Clone, Copy, Debug, Eq, PartialEq)]
pub enum DiagnosticSource {
    /// Module generation preparation, activation, readiness, or deactivation.
    Lifecycle,
    /// A Request or Stream-open operation entered or left the Kernel.
    Invocation,
    /// Bounded work admission or Event delivery was accepted or rejected.
    Admission,
    /// Provider generation replacement and restart-budget decisions.
    Supervision,
    /// App shutdown admission and cleanup.
    Shutdown,
    /// A sanitized Runtime Failure fact.
    RuntimeFailure,
}

/// A sanitized category of Runtime Failure.
#[derive(Clone, Copy, Debug, Eq, PartialEq)]
pub enum RuntimeFailureKind {
    /// No current provider generation is available.
    Unavailable,
    /// The requested Operation is not in the resolved Descriptor.
    UnknownOperation,
    /// A singular handle was used for several providers.
    AmbiguousBinding,
    /// The generated contract and endpoint disagreed.
    ProtocolViolation,
    /// A selected Module factory was not linked.
    MissingModuleFactory,
    /// The selected Execution Adapter is unavailable.
    UnavailableExecutionClass,
    /// The resolved Plan or prepared endpoint set is invalid.
    InvalidResolvedPlan,
    /// New work was rejected because App admission is closed.
    AdmissionClosed,
    /// A bounded admission queue was full.
    ResourceExhausted,
    /// A monotonic invocation deadline expired.
    DeadlineExceeded,
    /// Invocation cancellation won the race.
    Cancelled,
    /// The Driver or Adapter reported an internal failure.
    Internal,
    /// A Module generation reported a failure.
    ModuleFailure,
    /// A finite Module restart budget was exhausted.
    ModuleRestartExhausted,
}

/// An outcome that is safe to expose without a Domain Error body.
#[derive(Clone, Copy, Debug, Eq, PartialEq)]
pub enum DiagnosticOutcome {
    /// The operation or lifecycle phase completed successfully.
    Succeeded,
    /// The Capability returned a Domain Error; its body is deliberately absent.
    DomainError,
    /// The Kernel returned a sanitized Runtime Failure category.
    RuntimeFailure(RuntimeFailureKind),
}

/// A bounded admission outcome.
#[derive(Clone, Copy, Debug, Eq, PartialEq)]
pub enum DiagnosticAdmission {
    /// The value or operation entered the selected bounded queue.
    Accepted,
    /// The selected provider or subscriber generation is unavailable.
    Unavailable,
    /// The selected bounded queue is full.
    Exhausted,
    /// App admission was already closed.
    Closed,
}

/// A sanitized App shutdown outcome.
#[derive(Clone, Copy, Debug, Eq, PartialEq)]
pub enum DiagnosticShutdownOutcome {
    /// All managed work and resources were released.
    Clean,
    /// Cleanup reported a Runtime Failure.
    RuntimeFailure,
    /// The global cleanup deadline expired.
    Timeout,
}

/// The lifecycle phase represented by a Module context.
#[derive(Clone, Copy, Debug, Eq, PartialEq)]
pub enum ModuleLifecyclePhase {
    /// The Module may validate configuration and reserve reversible resources.
    Prepare,
    /// The Module may initialize against already prepared dependencies.
    Activate,
    /// The App Ready Gate has opened and externally triggered work may begin.
    Ready,
    /// The Module must release work and resources owned by this generation.
    Deactivate,
}

/// Structural metadata emitted by the Kernel. It has no payload, configuration, secret or
/// Domain Error fields.
#[derive(Clone, Debug, Eq, PartialEq)]
pub enum DiagnosticEvent {
    /// The Kernel created a running App runtime.
    AppStarted { module_count: usize },
    /// Every selected Module generation has activated and App admission opened.
    AppReady,
    /// A Module lifecycle phase began.
    LifecycleStarted { instance: String, generation: u64, phase: ModuleLifecyclePhase },
    /// A Module lifecycle phase completed with a sanitized outcome and duration.
    LifecycleCompleted {
        instance: String,
        generation: u64,
        phase: ModuleLifecyclePhase,
        outcome: DiagnosticOutcome,
        elapsed: Nanos,
    },
    /// A typed request or stream operation began.
    InvocationStarted {
        request_id: u64,
        caller_instance: Option<String>,
        provider_instance: Option<String>,
        capability: &'static str,
        operation: Option<&'static str>,
    },
    /// A typed request or stream operation completed.
    InvocationCompleted {
        request_id: u64,
        caller_instance: Option<String>,
        provider_instance: Option<String>,
        capability: &'static str,
        operation: Option<&'static str>,
        outcome: DiagnosticOutcome,
        elapsed: Nanos,
    },
    /// Bounded request admission rejected an operation.
    AdmissionRejected {
        request_id: u64,
        caller_instance: Option<String>,
        provider_instance: Option<String>,
        capability: &'static str,
        operation: Option<&'static str>,
        outcome: DiagnosticAdmission,
    },
    /// One Event subscriber received an independent admission outcome.
    EventAdmission {
        request_id: u64,
        publisher_instance: String,
        subscriber_instance: String,
        capability: &'static str,
        operation: Option<&'static str>,
        outcome: DiagnosticAdmission,
    },
    /// A provider generation became unavailable.
    GenerationUnavailable { instance: String, generation: u64 },
    /// A replacement provider generation became ready.
    GenerationReady { instance: String, generation: u64 },
    /// Supervision scheduled one bounded restart attempt.
    RestartScheduled { instance: String, attempt: usize, delay: Nanos },
    /// Supervision exhausted its finite restart budget.
    RestartExhausted { instance: String, attempts: usize, terminal: bool },
    /// A Runtime Failure category was observed without its detail or payload.
    RuntimeFailure { instance: Option<String>, kind: RuntimeFailureKind },
    /// App admission closed and cooperative cancellation began.
    ShutdownAdmissionClosed,
    /// App cleanup began with one global timeout.
    ShutdownCleanupStarted { timeout: Nanos },
    /// App cleanup completed with a sanitized outcome and duration.
    ShutdownCompleted { outcome: DiagnosticShutdownOutcome, elapsed: Nanos },
}

/// One sequenced, timestamped Runtime Diagnostic record.
#[derive(Clone, Debug, Eq, PartialEq)]
pub struct DiagnosticRecord {
    /// Monotonic sequence within the supplied diagnostics port.
    pub sequence: u64,
    /// Driver-monotonic timestamp at emission.
    pub timestamp: Nanos,
    /// Kernel subsystem that emitted the record.
    pub source: DiagnosticSource,
    /// Sanitized structural metadata.
    pub event: DiagnosticEvent,
}

/// The stable name of a source.
pub open spec fn source_name(source: DiagnosticSource) -> Seq<char> {
    match source {
        DiagnosticSource::Lifecycle => "lifecycle"@,
        DiagnosticSource::Invocation => "invocation"@,
        DiagnosticSource::Admission => "admission"@,
        DiagnosticSource::Supervision => "supervision"@,
        DiagnosticSource::Shutdown => "shutdown"@,
        DiagnosticSource::RuntimeFailure => "runtime_failure"@,
    }
}

/// The stable name of a source.
pub fn diagnostic_source_name(source: DiagnosticSource) -> (name: &'static str)
    ensures
        name@ == source_name(source),
{
    match source {
        DiagnosticSource::Lifecycle => "lifecycle",
        DiagnosticSource::Invocation => "invocation",
        DiagnosticSource::Admission => "admission",
        DiagnosticSource::Supervision => "supervision",
        DiagnosticSource::Shutdown => "shutdown",
        DiagnosticSource::RuntimeFailure => "runtime_failure",
    }
}

/// The stable name of an event.
pub open spec fn event_name(event: DiagnosticEvent) -> Seq<char> {
    match event {
        DiagnosticEvent::AppStarted { .. } => "app_started"@,
        DiagnosticEvent::AppReady => "app_ready"@,
        DiagnosticEvent::LifecycleStarted { .. } => "lifecycle_started"@,
        DiagnosticEvent::LifecycleCompleted { .. } => "lifecycle_completed"@,
        DiagnosticEvent::InvocationStarted { .. } => "invocation_started"@,
        DiagnosticEvent::InvocationCompleted { .. } => "invocation_completed"@,
        DiagnosticEvent::AdmissionRejected { .. } => "admission_rejected"@,
        DiagnosticEvent::EventAdmission { .. } => "event_admission"@,
        DiagnosticEvent::GenerationUnavailable { .. } => "generation_unavailable"@,
        DiagnosticEvent::GenerationReady { .. } => "generation_ready"@,
        DiagnosticEvent::RestartScheduled { .. } => "restart_scheduled"@,
        DiagnosticEvent::RestartExhausted { .. } => "restart_exhausted"@,
        DiagnosticEvent::RuntimeFailure { .. } => "runtime_failure"@,
        DiagnosticEvent::ShutdownAdmissionClosed => "shutdown_admission_closed"@,
        DiagnosticEvent::ShutdownCleanupStarted { .. } => "shutdown_cleanup_started"@,
        DiagnosticEvent::ShutdownCompleted { .. } => "shutdown_completed"@,
    }
}

/// The stable name of an event.
pub fn diagnostic_event_name(event: &DiagnosticEvent) -> (name: &'static str)
    ensures
        name@ == event_name(*event),
{
    match event {
        DiagnosticEvent::AppStarted { .. } => "app_started",
        DiagnosticEvent::AppReady => "app_ready",
        DiagnosticEvent::LifecycleStarted { .. } => "lifecycle_started",
        DiagnosticEvent::LifecycleCompleted { .. } => "lifecycle_completed",
        DiagnosticEvent::InvocationStarted { .. } => "invocation_started",
        DiagnosticEvent::InvocationCompleted { .. } => "invocation_completed",
        DiagnosticEvent::AdmissionRejected { .. } => "admission_rejected",
        DiagnosticEvent::EventAdmission { .. } => "event_admission",
        DiagnosticEvent::GenerationUnavailable { .. } => "generation_unavailable",
        DiagnosticEvent::GenerationReady { .. } => "generation_ready",
        DiagnosticEvent::RestartScheduled { .. } => "restart_scheduled",
        DiagnosticEvent::RestartExhausted { .. } => "restart_exhausted",
        DiagnosticEvent::RuntimeFailure { .. } => "runtime_failure",
        DiagnosticEvent::ShutdownAdmissionClosed => "shutdown_admission_closed",
        DiagnosticEvent::ShutdownCleanupStarted { .. } => "shutdown_cleanup_started",
        DiagnosticEvent::ShutdownCompleted { .. } => "shutdown_completed",
    }
}

/// The stable name of a lifecycle phase.
pub open spec fn phase_name(phase: ModuleLifecyclePhase) -> Seq<char> {
    match phase {
        ModuleLifecyclePhase::Prepare => "prepare"@,
        ModuleLifecyclePhase::Activate => "activate"@,
        ModuleLifecyclePhase::Ready => "ready"@,
        ModuleLifecyclePhase::Deactivate => "deactivate"@,
    }
}

/// The stable name of a lifecycle phase.
pub fn lifecycle_phase_name(phase: ModuleLifecyclePhase) -> (name: &'static str)
    ensures
        name@ == phase_name(phase),
{
    match phase {
        ModuleLifecyclePhase::Prepare => "prepare",
        ModuleLifecyclePhase::Activate => "activate",
        ModuleLifecyclePhase::Ready => "ready",
        ModuleLifecyclePhase::Deactivate => "deactivate",
    }
}

/// The stable name of an outcome; the category of a failure is not part of it.
pub open spec fn outcome_text(outcome: DiagnosticOutcome) -> Seq<char> {
    match outcome {
        DiagnosticOutcome::Succeeded => "succeeded"@,
        DiagnosticOutcome::DomainError => "domain_error"@,
        DiagnosticOutcome::RuntimeFailure(_) => "runtime_failure"@,
    }
}

/// The stable name of an outcome; the category of a failure is not part of it.
pub fn outcome_name(outcome: DiagnosticOutcome) -> (name: &'static str)
    ensures
        name@ == outcome_text(outcome),
{
    match outcome {
        DiagnosticOutcome::Succeeded => "succeeded",
        DiagnosticOutcome::DomainError => "domain_error",
        DiagnosticOutcome::RuntimeFailure(_) => "runtime_failure",
    }
}

/// The stable name of an admission outcome.
pub open spec fn admission_text(outcome: DiagnosticAdmission) -> Seq<char> {
    match outcome {
        DiagnosticAdmission::Accepted => "accepted"@,
        DiagnosticAdmission::Unavailable => "unavailable"@,
        DiagnosticAdmission::Exhausted => "exhausted"@,
        DiagnosticAdmission::Closed => "closed"@,
    }
}

/// The stable name of an admission outcome.
pub fn admission_name(outcome: DiagnosticAdmission) -> (name: &'static str)
    ensures
        name@ == admission_text(outcome),
{
    match outcome {
        DiagnosticAdmission::Accepted => "accepted",
        DiagnosticAdmission::Unavailable => "unavailable",
        DiagnosticAdmission::Exhausted => "exhausted",
        DiagnosticAdmission::Closed => "closed",
    }
}

/// The stable name of a shutdown outcome.
pub open spec fn shutdown_outcome_text(outcome: DiagnosticShutdownOutcome) -> Seq<char> {
    match outcome {
        DiagnosticShutdownOutcome::Clean => "clean"@,
        DiagnosticShutdownOutcome::RuntimeFailure => "runtime_failure"@,
        DiagnosticShutdownOutcome::Timeout => "timeout"@,
    }
}

/// The stable name of a shutdown outcome.
pub fn shutdown_outcome_name(outcome: DiagnosticShutdownOutcome) -> (name: &'static str)
    ensures
        name@ == shutdown_outcome_text(outcome),
{
    match outcome {
        DiagnosticShutdownOutcome::Clean => "clean",
        DiagnosticShutdownOutcome::RuntimeFailure => "runtime_failure",
        DiagnosticShutdownOutcome::Timeout => "timeout",
    }
}

/// The stable name of a failure category.
pub open spec fn failure_text(kind: RuntimeFailureKind) -> Seq<char> {
    match kind {
        RuntimeFailureKind::Unavailable => "unavailable"@,
        RuntimeFailureKind::UnknownOperation => "unknown_operation"@,
        RuntimeFailureKind::AmbiguousBinding => "ambiguous_binding"@,
        RuntimeFailureKind::ProtocolViolation => "protocol_violation"@,
        RuntimeFailureKind::MissingModuleFactory => "missing_module_factory"@,
        RuntimeFailureKind::UnavailableExecutionClass => "unavailable_execution_class"@,
        RuntimeFailureKind::InvalidResolvedPlan => "invalid_resolved_plan"@,
        RuntimeFailureKind::AdmissionClosed => "admission_closed"@,
        RuntimeFailureKind::ResourceExhausted => "resource_exhausted"@,
        RuntimeFailureKind::DeadlineExceeded => "deadline_exceeded"@,
        RuntimeFailureKind::Cancelled => "cancelled"@,
        RuntimeFailureKind::Internal => "internal"@,
        RuntimeFailureKind::ModuleFailure => "module_failure"@,
        RuntimeFailureKind::ModuleRestartExhausted => "module_restart_exhausted"@,
    }
}

/// The stable name of a failure category.
pub fn runtime_failure_name(kind: RuntimeFailureKind) -> (name: &'static str)
    ensures
        name@ == failure_text(kind),
{
    match kind {
        RuntimeFailureKind::Unavailable => "unavailable",
        RuntimeFailureKind::UnknownOperation => "unknown_operation",
        RuntimeFailureKind::AmbiguousBinding => "ambiguous_binding",
        RuntimeFailureKind::ProtocolViolation => "protocol_violation",
        RuntimeFailureKind::MissingModuleFactory => "missing_module_factory",
        RuntimeFailureKind::UnavailableExecutionClass => "unavailable_execution_class",
        RuntimeFailureKind::InvalidResolvedPlan => "invalid_resolved_plan",
        RuntimeFailureKind::AdmissionClosed => "admission_closed",
        RuntimeFailureKind::ResourceExhausted => "resource_exhausted",
        RuntimeFailureKind::DeadlineExceeded => "deadline_exceeded",
        RuntimeFailureKind::Cancelled => "cancelled",
        RuntimeFailureKind::Internal => "internal",
        RuntimeFailureKind::ModuleFailure => "module_failure",
        RuntimeFailureKind::ModuleRestartExhausted => "module_restart_exhausted",
    }
}

} // verus!
