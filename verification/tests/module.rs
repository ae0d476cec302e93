use std::{
    any::Any,
    cell::{Cell, RefCell},
    fmt,
    future::poll_fn,
    rc::Rc,
    task::{Poll, Waker},
    time::Duration,
};

use futures::future::{Either, LocalBoxFuture, select};
use lenso_app_plan::{AppComposition, ModuleInstancePlan, ResolvedAppPlan};
use lenso_app_plan::{CapabilityBinding, CapabilityEndpointPlan, CapabilityRequirementPlan};
use lenso_kernel::{
    ActivateContext, CancellationToken, DeactivateContext, DeterministicDriver, DiagnosticObserver,
    InvocationContext, Kernel, ModuleFuture, ModuleLifecycle, NativeRequestEndpoint,
    RequestCapability, RuntimeDiagnostics, RuntimeDriver, RuntimeFailure, ShutdownOutcome,
};
use lenso_native_adapter::{
    NativeModuleFactory, NativeModuleFactoryContext, NativeModuleInstance, NativeModuleRegistry,
};
use lenso_otel_module::attributes::Attributes;
use lenso_otel_module::diagnostic::{
    DiagnosticAdmission, DiagnosticEvent, DiagnosticOutcome, DiagnosticRecord,
    DiagnosticShutdownOutcome, DiagnosticSource, ModuleLifecyclePhase, RuntimeFailureKind,
};
use lenso_otel_module::export::{Arrival, ExportAction, ExportOutcome};
use lenso_otel_module::module::{ActivationAction, ActivationEvent, OtelModuleFailure};
use lenso_otel_module::telemetry::{GenerationTelemetry, Reception};
use lenso_otel_module::{
    ExportError, OTEL_MODULE_PACKAGE_ID, OTEL_TELEMETRY_CAPABILITY_ID,
    OTEL_TELEMETRY_DESCRIPTOR_VERSION, OTEL_TELEMETRY_OPERATION, OtelExportStats, OtelLog,
    OtelModuleConfig, OtelSeverity, OtelSignal, TelemetryAdmission, TelemetryError,
    TelemetryResponse,
};

// The Module as a Kernel composition links it.

/// Converts one record, field by field.
fn diagnostic_record(record: lenso_kernel::DiagnosticRecord) -> DiagnosticRecord {
    DiagnosticRecord {
        sequence: record.sequence,
        timestamp: record.timestamp.as_nanos(),
        source: diagnostic_source(record.source),
        event: diagnostic_event(record.event),
    }
}

fn diagnostic_source(source: lenso_kernel::DiagnosticSource) -> DiagnosticSource {
    match source {
        lenso_kernel::DiagnosticSource::Lifecycle => DiagnosticSource::Lifecycle,
        lenso_kernel::DiagnosticSource::Invocation => DiagnosticSource::Invocation,
        lenso_kernel::DiagnosticSource::Admission => DiagnosticSource::Admission,
        lenso_kernel::DiagnosticSource::Supervision => DiagnosticSource::Supervision,
        lenso_kernel::DiagnosticSource::Shutdown => DiagnosticSource::Shutdown,
        lenso_kernel::DiagnosticSource::RuntimeFailure => DiagnosticSource::RuntimeFailure,
    }
}

fn lifecycle_phase(phase: lenso_kernel::ModuleLifecyclePhase) -> ModuleLifecyclePhase {
    match phase {
        lenso_kernel::ModuleLifecyclePhase::Prepare => ModuleLifecyclePhase::Prepare,
        lenso_kernel::ModuleLifecyclePhase::Activate => ModuleLifecyclePhase::Activate,
        lenso_kernel::ModuleLifecyclePhase::Ready => ModuleLifecyclePhase::Ready,
        lenso_kernel::ModuleLifecyclePhase::Deactivate => ModuleLifecyclePhase::Deactivate,
    }
}

fn runtime_failure_kind(kind: lenso_kernel::RuntimeFailureKind) -> RuntimeFailureKind {
    match kind {
        lenso_kernel::RuntimeFailureKind::Unavailable => RuntimeFailureKind::Unavailable,
        lenso_kernel::RuntimeFailureKind::UnknownOperation => RuntimeFailureKind::UnknownOperation,
        lenso_kernel::RuntimeFailureKind::AmbiguousBinding => RuntimeFailureKind::AmbiguousBinding,
        lenso_kernel::RuntimeFailureKind::ProtocolViolation => RuntimeFailureKind::ProtocolViolation,
        lenso_kernel::RuntimeFailureKind::MissingModuleFactory => {
            RuntimeFailureKind::MissingModuleFactory
        }
        lenso_kernel::RuntimeFailureKind::UnavailableExecutionClass => {
            RuntimeFailureKind::UnavailableExecutionClass
        }
        lenso_kernel::RuntimeFailureKind::InvalidResolvedPlan => RuntimeFailureKind::InvalidResolvedPlan,
        lenso_kernel::RuntimeFailureKind::AdmissionClosed => RuntimeFailureKind::AdmissionClosed,
        lenso_kernel::RuntimeFailureKind::ResourceExhausted => RuntimeFailureKind::ResourceExhausted,
        lenso_kernel::RuntimeFailureKind::DeadlineExceeded => RuntimeFailureKind::DeadlineExceeded,
        lenso_kernel::RuntimeFailureKind::Cancelled => RuntimeFailureKind::Cancelled,
        lenso_kernel::RuntimeFailureKind::Internal => RuntimeFailureKind::Internal,
        lenso_kernel::RuntimeFailureKind::ModuleFailure => RuntimeFailureKind::ModuleFailure,
        lenso_kernel::RuntimeFailureKind::ModuleRestartExhausted => {
            RuntimeFailureKind::ModuleRestartExhausted
        }
    }
}

fn diagnostic_outcome(outcome: lenso_kernel::DiagnosticOutcome) -> DiagnosticOutcome {
    match outcome {
        lenso_kernel::DiagnosticOutcome::Succeeded => DiagnosticOutcome::Succeeded,
        lenso_kernel::DiagnosticOutcome::DomainError => DiagnosticOutcome::DomainError,
        lenso_kernel::DiagnosticOutcome::RuntimeFailure(kind) => {
            DiagnosticOutcome::RuntimeFailure(runtime_failure_kind(kind))
        }
    }
}

fn diagnostic_admission(outcome: lenso_kernel::DiagnosticAdmission) -> DiagnosticAdmission {
    match outcome {
        lenso_kernel::DiagnosticAdmission::Accepted => DiagnosticAdmission::Accepted,
        lenso_kernel::DiagnosticAdmission::Unavailable => DiagnosticAdmission::Unavailable,
        lenso_kernel::DiagnosticAdmission::Exhausted => DiagnosticAdmission::Exhausted,
        lenso_kernel::DiagnosticAdmission::Closed => DiagnosticAdmission::Closed,
    }
}

fn shutdown_outcome(outcome: lenso_kernel::DiagnosticShutdownOutcome) -> DiagnosticShutdownOutcome {
    match outcome {
        lenso_kernel::DiagnosticShutdownOutcome::Clean => DiagnosticShutdownOutcome::Clean,
        lenso_kernel::DiagnosticShutdownOutcome::RuntimeFailure => {
            DiagnosticShutdownOutcome::RuntimeFailure
        }
        lenso_kernel::DiagnosticShutdownOutcome::Timeout => DiagnosticShutdownOutcome::Timeout,
    }
}

fn diagnostic_event(event: lenso_kernel::DiagnosticEvent) -> DiagnosticEvent {
    match event {
        lenso_kernel::DiagnosticEvent::AppStarted { module_count } => DiagnosticEvent::AppStarted { module_count },
        lenso_kernel::DiagnosticEvent::AppReady => DiagnosticEvent::AppReady,
        lenso_kernel::DiagnosticEvent::LifecycleStarted {
            instance,
            generation,
            phase,
        } => DiagnosticEvent::LifecycleStarted {
            instance,
            generation,
            phase: lifecycle_phase(phase),
        },
        lenso_kernel::DiagnosticEvent::LifecycleCompleted {
            instance,
            generation,
            phase,
            outcome,
            elapsed,
        } => DiagnosticEvent::LifecycleCompleted {
            instance,
            generation,
            phase: lifecycle_phase(phase),
            outcome: diagnostic_outcome(outcome),
            elapsed: elapsed.as_nanos(),
        },
        lenso_kernel::DiagnosticEvent::InvocationStarted {
            request_id,
            caller_instance,
            provider_instance,
            capability,
            operation,
        } => DiagnosticEvent::InvocationStarted {
            request_id,
            caller_instance,
            provider_instance,
            capability,
            operation,
        },
        lenso_kernel::DiagnosticEvent::InvocationCompleted {
            request_id,
            caller_instance,
            provider_instance,
            capability,
            operation,
            outcome,
            elapsed,
        } => DiagnosticEvent::InvocationCompleted {
            request_id,
            caller_instance,
            provider_instance,
            capability,
            operation,
            outcome: diagnostic_outcome(outcome),
            elapsed: elapsed.as_nanos(),
        },
        lenso_kernel::DiagnosticEvent::AdmissionRejected {
            request_id,
            caller_instance,
            provider_instance,
            capability,
            operation,
            outcome,
        } => DiagnosticEvent::AdmissionRejected {
            request_id,
            caller_instance,
            provider_instance,
            capability,
            operation,
            outcome: diagnostic_admission(outcome),
        },
        lenso_kernel::DiagnosticEvent::EventAdmission {
            request_id,
            publisher_instance,
            subscriber_instance,
            capability,
            operation,
            outcome,
        } => DiagnosticEvent::EventAdmission {
            request_id,
            publisher_instance,
            subscriber_instance,
            capability,
            operation,
            outcome: diagnostic_admission(outcome),
        },
        lenso_kernel::DiagnosticEvent::GenerationUnavailable {
            instance,
            generation,
        } => DiagnosticEvent::GenerationUnavailable {
            instance,
            generation,
        },
        lenso_kernel::DiagnosticEvent::GenerationReady {
            instance,
            generation,
        } => DiagnosticEvent::GenerationReady {
            instance,
            generation,
        },
        lenso_kernel::DiagnosticEvent::RestartScheduled {
            instance,
            attempt,
            delay,
        } => DiagnosticEvent::RestartScheduled {
            instance,
            attempt,
            delay: delay.as_nanos(),
        },
        lenso_kernel::DiagnosticEvent::RestartExhausted {
            instance,
            attempts,
            terminal,
        } => DiagnosticEvent::RestartExhausted {
            instance,
            attempts,
            terminal,
        },
        lenso_kernel::DiagnosticEvent::RuntimeFailure { instance, kind } => DiagnosticEvent::RuntimeFailure {
            instance,
            kind: runtime_failure_kind(kind),
        },
        lenso_kernel::DiagnosticEvent::ShutdownAdmissionClosed => DiagnosticEvent::ShutdownAdmissionClosed,
        lenso_kernel::DiagnosticEvent::ShutdownCleanupStarted { timeout } => DiagnosticEvent::ShutdownCleanupStarted {
            timeout: timeout.as_nanos(),
        },
        lenso_kernel::DiagnosticEvent::ShutdownCompleted { outcome, elapsed } => DiagnosticEvent::ShutdownCompleted {
            outcome: shutdown_outcome(outcome),
            elapsed: elapsed.as_nanos(),
        },
    }
}

/// The state that a factory shares with its handles, generations and workers.
struct Shared {
    factory: RefCell<lenso_otel_module::OtelModuleFactory>,
    wakers: RefCell<Vec<(String, GenerationTelemetry, Waker)>>,
}

impl fmt::Debug for Shared {
    fn fmt(&self, formatter: &mut fmt::Formatter<'_>) -> fmt::Result {
        formatter.debug_struct("Shared").finish_non_exhaustive()
    }
}

impl Shared {
    fn new() -> Rc<Self> {
        Rc::new(Self {
            factory: RefCell::new(lenso_otel_module::OtelModuleFactory::new()),
            wakers: RefCell::new(Vec::new()),
        })
    }

    fn with_route<R>(
        &self,
        instance_key: &str,
        act: impl FnOnce(&mut lenso_otel_module::TelemetryHandle) -> R,
    ) -> R {
        let result = act(self.factory.borrow_mut().telemetry_for(instance_key));
        self.deliver_wakes(instance_key);
        result
    }

    fn deliver_wakes(&self, instance_key: &str) {
        let due = {
            let mut factory = self.factory.borrow_mut();
            let route = factory.telemetry_for(instance_key);
            self.take_wakers(|key, generation| {
                key == instance_key && route.has_generation(generation) && generation.take_wake(route)
            })
        };
        for waker in due {
            waker.wake();
        }
    }

    fn wait(&self, instance_key: &str, generation: GenerationTelemetry, waker: &Waker) {
        let replaced = self.forget(instance_key, generation);
        self.wakers
            .borrow_mut()
            .push((instance_key.to_owned(), generation, waker.clone()));
        drop(replaced);
    }

    fn forget(&self, instance_key: &str, generation: GenerationTelemetry) -> Vec<Waker> {
        self.take_wakers(|key, waiting| {
            key == instance_key && waiting.number() == generation.number()
        })
    }

    /// Moves the chosen wakers out of the list, so that none is dropped while it is borrowed.
    fn take_wakers(
        &self,
        mut chosen: impl FnMut(&str, &GenerationTelemetry) -> bool,
    ) -> Vec<Waker> {
        let (taken, kept): (Vec<_>, Vec<_>) = std::mem::take(&mut *self.wakers.borrow_mut())
            .into_iter()
            .partition(|(key, generation, _)| chosen(key, generation));
        *self.wakers.borrow_mut() = kept;
        taken.into_iter().map(|(_, _, waker)| waker).collect()
    }
}

/// Non-blocking handle for explicit application signals supplied by the host.
#[derive(Clone, Debug)]
struct TelemetryHandle {
    shared: Rc<Shared>,
    instance_key: String,
}

impl TelemetryHandle {
    fn new(shared: Rc<Shared>, instance_key: String) -> Self {
        shared.with_route(&instance_key, |_| ());
        Self {
            shared,
            instance_key,
        }
    }

    /// Attempts to enqueue a signal without awaiting exporter or queue progress.
    fn try_emit(&self, signal: OtelSignal) -> Result<TelemetryAdmission, TelemetryError> {
        self.shared
            .with_route(&self.instance_key, |route| route.try_emit(signal))
    }

    /// Returns drops recorded by the currently active generation, or zero while inactive.
    fn dropped_count(&self) -> u64 {
        self.shared
            .with_route(&self.instance_key, |route| route.dropped_count())
    }
}

/// One generation, shared by its lifecycle, its endpoint and its application worker.
struct Generation {
    shared: Rc<Shared>,
    instance_key: String,
    telemetry: GenerationTelemetry,
}

impl fmt::Debug for Generation {
    fn fmt(&self, formatter: &mut fmt::Formatter<'_>) -> fmt::Result {
        formatter
            .debug_struct("Generation")
            .field("instance_key", &self.instance_key)
            .field("number", &self.telemetry.number())
            .finish()
    }
}

impl Generation {
    fn new(
        shared: Rc<Shared>,
        instance_key: String,
        telemetry: GenerationTelemetry,
    ) -> Rc<Self> {
        Rc::new(Self {
            shared,
            instance_key,
            telemetry,
        })
    }

    /// Acts on the route of the generation's Module Instance.
    fn with_route<R>(
        &self,
        act: impl FnOnce(&mut lenso_otel_module::TelemetryHandle, GenerationTelemetry) -> R,
    ) -> R {
        self.shared.with_route(&self.instance_key, |route| {
            assert!(
                route.has_generation(&self.telemetry),
                "a generation stays on the route that it was prepared on"
            );
            act(route, self.telemetry)
        })
    }

    fn receive(generation: Rc<Self>) -> LocalBoxFuture<'static, Option<OtelSignal>> {
        Box::pin(poll_fn(move |context| {
            match generation.with_route(|route, telemetry| telemetry.receive(route)) {
                Reception::Signal(signal) => Poll::Ready(Some(signal)),
                Reception::Closed => Poll::Ready(None),
                Reception::Waiting => {
                    generation.shared.wait(
                        &generation.instance_key,
                        generation.telemetry,
                        context.waker(),
                    );
                    Poll::Pending
                }
            }
        }))
    }
}

impl Drop for Generation {
    fn drop(&mut self) {
        self.with_route(|route, telemetry| telemetry.release(route));
        drop(self.shared.forget(&self.instance_key, self.telemetry));
    }
}

/// Exporter seam implemented by an OTLP, console, test, or host-specific Module Adapter.
trait OtelExporter: fmt::Debug + 'static {
    /// Exports one already-sanitized or explicitly authored `OTel` signal.
    fn export(&self, signal: OtelSignal) -> LocalBoxFuture<'static, Result<(), ExportError>>;
}

/// Counts exporter outcomes without entering the Kernel diagnostic feed.
#[derive(Clone, Debug)]
struct SharedStats {
    shared: Rc<Shared>,
}

impl SharedStats {
    /// Returns the number of exporter failures or panics.
    fn failed_count(&self) -> u64 {
        self.shared.factory.borrow().stats().failed_count()
    }
}

async fn export_diagnostics(
    mut observer: DiagnosticObserver,
    exporter: Rc<dyn OtelExporter>,
    shared: Rc<Shared>,
    cancellation: CancellationToken,
) {
    loop {
        let receive = Box::pin(observer.recv());
        let cancelled = cancellation.cancelled();
        let arrival = match select(receive, cancelled).await {
            Either::Left((record, _)) => Arrival::Received(record.map(diagnostic_record)),
            Either::Right(((), _)) => Arrival::Cancelled,
        };
        let action =
            lenso_otel_module::export::export_diagnostics(shared.factory.borrow_mut().stats_mut(), arrival);
        if !perform(action, &exporter, &shared, &cancellation).await {
            return;
        }
    }
}

async fn export_application_signals(
    generation: Rc<Generation>,
    exporter: Rc<dyn OtelExporter>,
    shared: Rc<Shared>,
    cancellation: CancellationToken,
) {
    loop {
        let receive = Generation::receive(generation.clone());
        let cancelled = cancellation.cancelled();
        let arrival = match select(receive, cancelled).await {
            Either::Left((signal, _)) => Arrival::Received(signal),
            Either::Right(((), _)) => Arrival::Cancelled,
        };
        let action = lenso_otel_module::export::export_application_signals(arrival);
        if !perform(action, &exporter, &shared, &cancellation).await {
            return;
        }
    }
}

/// Performs one action, and returns whether the worker goes on.
async fn perform(
    action: ExportAction,
    exporter: &Rc<dyn OtelExporter>,
    shared: &Rc<Shared>,
    cancellation: &CancellationToken,
) -> bool {
    let signal = match action {
        ExportAction::Stop => return false,
        ExportAction::Receive => return true,
        ExportAction::Export(signal) => signal,
    };
    let outcome = export_one(exporter, signal, cancellation).await;
    let next = lenso_otel_module::export::export_one(shared.factory.borrow_mut().stats_mut(), outcome);
    matches!(next, ExportAction::Receive)
}

async fn export_one(
    exporter: &Rc<dyn OtelExporter>,
    signal: OtelSignal,
    cancellation: &CancellationToken,
) -> ExportOutcome {
    match select(exporter.export(signal), cancellation.cancelled()).await {
        Either::Left((result, _)) => ExportOutcome::Completed(result),
        Either::Right(((), _)) => ExportOutcome::Cancelled,
    }
}

fn runtime_failure(failure: OtelModuleFailure) -> RuntimeFailure {
    match failure {
        OtelModuleFailure::UnknownOperation {
            capability,
            operation,
        } => RuntimeFailure::UnknownOperation {
            capability,
            operation,
        },
        OtelModuleFailure::ProtocolViolation { capability } => {
            RuntimeFailure::ProtocolViolation { capability }
        }
        OtelModuleFailure::InvalidResolvedPlan { detail } => {
            RuntimeFailure::InvalidResolvedPlan { detail }
        }
        OtelModuleFailure::Internal { detail } => RuntimeFailure::Internal { detail },
    }
}

/// Marker for the local explicit application telemetry Capability.
#[derive(Debug)]
struct OtelTelemetry;

impl RequestCapability for OtelTelemetry {
    type Request = OtelSignal;
    type Response = TelemetryResponse;
    type DomainError = TelemetryError;
    const ID: &'static str = OTEL_TELEMETRY_CAPABILITY_ID;
    const DESCRIPTOR_VERSION: &'static str = OTEL_TELEMETRY_DESCRIPTOR_VERSION;
}

/// Native Rust factory for the removable `OTel` Module.
#[derive(Debug)]
struct OtelModuleFactory {
    diagnostics: RuntimeDiagnostics,
    exporter: Rc<dyn OtelExporter>,
    shared: Rc<Shared>,
}

impl OtelModuleFactory {
    /// Creates a diagnostics/export Module with no required exporter behavior.
    fn new<E: OtelExporter>(diagnostics: RuntimeDiagnostics, exporter: E) -> Self {
        Self {
            diagnostics,
            exporter: Rc::new(exporter),
            shared: Shared::new(),
        }
    }

    /// Applies Module-owned queue and source policy before the factory is linked.
    fn with_config(self, config: OtelModuleConfig) -> Self {
        self.shared
            .factory
            .replace_with(|factory| take(factory).with_config(config));
        self
    }

    /// Exposes the explicit application telemetry Capability in this Module plan.
    fn with_telemetry_capability(self) -> Self {
        self.shared
            .factory
            .replace_with(|factory| take(factory).with_telemetry_capability());
        self
    }

    /// Returns the stable host telemetry route for one App-local Module Instance.
    fn telemetry_for(&self, instance_key: impl Into<String>) -> TelemetryHandle {
        TelemetryHandle::new(self.shared.clone(), instance_key.into())
    }

    /// Returns host-observed exporter outcomes aggregated across this factory's generations.
    fn stats(&self) -> SharedStats {
        SharedStats {
            shared: self.shared.clone(),
        }
    }
}

fn take(factory: &mut lenso_otel_module::OtelModuleFactory) -> lenso_otel_module::OtelModuleFactory {
    std::mem::replace(factory, lenso_otel_module::OtelModuleFactory::new())
}

impl NativeModuleFactory for OtelModuleFactory {
    fn package_id(&self) -> &'static str {
        OTEL_MODULE_PACKAGE_ID
    }

    fn instantiate(
        &self,
        context: NativeModuleFactoryContext<'_>,
    ) -> Result<NativeModuleInstance, RuntimeFailure> {
        let subscription = {
            let factory = self.shared.factory.borrow();
            self.diagnostics.subscribe(
                factory.config().diagnostic_filter(),
                factory.config().diagnostic_queue_capacity(),
            )
        };
        let (observer, subscribed) = match subscription {
            Ok(observer) => (Some(observer), Ok(())),
            Err(error) => (None, Err(format!("{error:?}"))),
        };
        let instance = self
            .shared
            .factory
            .borrow_mut()
            .instantiate(context.instance_key(), subscribed)
            .map_err(runtime_failure)?;
        let generation = Generation::new(
            self.shared.clone(),
            context.instance_key().to_owned(),
            instance.lifecycle.telemetry(),
        );
        let endpoints = instance
            .endpoint
            .into_iter()
            .map(|endpoint| {
                Rc::new(OtelTelemetryEndpoint {
                    endpoint: Rc::new(endpoint),
                    generation: generation.clone(),
                }) as Rc<dyn NativeRequestEndpoint>
            })
            .collect();
        let lifecycle = OtelModuleLifecycle {
            observer: RefCell::new(observer),
            lifecycle: Rc::new(RefCell::new(instance.lifecycle)),
            generation,
            exporter: self.exporter.clone(),
            shared: self.shared.clone(),
        };
        Ok(NativeModuleInstance::with_lifecycle(endpoints, lifecycle))
    }
}

struct OtelModuleLifecycle {
    observer: RefCell<Option<DiagnosticObserver>>,
    lifecycle: Rc<RefCell<lenso_otel_module::module::OtelModuleLifecycle>>,
    generation: Rc<Generation>,
    exporter: Rc<dyn OtelExporter>,
    shared: Rc<Shared>,
}

impl fmt::Debug for OtelModuleLifecycle {
    fn fmt(&self, formatter: &mut fmt::Formatter<'_>) -> fmt::Result {
        formatter
            .debug_struct("OtelModuleLifecycle")
            .field("observer", &self.observer)
            .field("generation", &self.generation)
            .field("exporter", &self.exporter)
            .finish_non_exhaustive()
    }
}

impl ModuleLifecycle for OtelModuleLifecycle {
    fn activate(&self, context: ActivateContext) -> ModuleFuture {
        let mut observer = self.observer.borrow_mut().take();
        let lifecycle = self.lifecycle.clone();
        let generation = self.generation.clone();
        let exporter = self.exporter.clone();
        let shared = self.shared.clone();
        let owner = generation.clone();
        let step = move |event: ActivationEvent| {
            owner.with_route(|route, _| lifecycle.borrow_mut().activate(route, event))
        };
        let requested = step(ActivationEvent::Requested);
        Box::pin(async move {
            let mut action = requested;
            loop {
                let event = match (action, observer.take()) {
                    (ActivationAction::ScheduleDiagnostics, Some(observer)) => {
                        let worker = export_diagnostics(
                            observer,
                            exporter.clone(),
                            shared.clone(),
                            context.cancellation(),
                        );
                        let scheduled = context.tasks().spawn_local(Box::pin(worker));
                        ActivationEvent::DiagnosticsScheduled(
                            scheduled.map(drop).map_err(|error| format!("{error:?}")),
                        )
                    }
                    (ActivationAction::ScheduleDiagnostics, None) => {
                        unreachable!("the observer is taken with the first request")
                    }
                    (ActivationAction::ScheduleTelemetry, _) => {
                        let worker = export_application_signals(
                            generation.clone(),
                            exporter.clone(),
                            shared.clone(),
                            context.cancellation(),
                        );
                        let scheduled = context.tasks().spawn_local(Box::pin(worker));
                        ActivationEvent::TelemetryScheduled(
                            scheduled.map(drop).map_err(|error| format!("{error:?}")),
                        )
                    }
                    (ActivationAction::Complete, _) => return Ok(()),
                    (ActivationAction::Fail(failure), _) => return Err(runtime_failure(failure)),
                };
                action = step(event);
            }
        })
    }

    fn deactivate(&self, _context: DeactivateContext) -> ModuleFuture {
        let lifecycle = self.lifecycle.borrow();
        self.generation
            .with_route(|route, _| lifecycle.deactivate(route));
        Box::pin(futures::future::ready(Ok(())))
    }
}

struct OtelTelemetryEndpoint {
    endpoint: Rc<lenso_otel_module::module::OtelTelemetryEndpoint>,
    generation: Rc<Generation>,
}

impl fmt::Debug for OtelTelemetryEndpoint {
    fn fmt(&self, formatter: &mut fmt::Formatter<'_>) -> fmt::Result {
        formatter
            .debug_struct("OtelTelemetryEndpoint")
            .field("generation", &self.generation)
            .finish_non_exhaustive()
    }
}

impl NativeRequestEndpoint for OtelTelemetryEndpoint {
    fn capability_id(&self) -> &'static str {
        OTEL_TELEMETRY_CAPABILITY_ID
    }

    fn descriptor_version(&self) -> &'static str {
        OTEL_TELEMETRY_DESCRIPTOR_VERSION
    }

    fn operations(&self) -> &'static [&'static str] {
        &[OTEL_TELEMETRY_OPERATION]
    }

    fn invoke(
        &self,
        operation: &str,
        request: Box<dyn Any>,
        _context: InvocationContext,
    ) -> LocalBoxFuture<'static, Result<Result<Box<dyn Any>, Box<dyn Any>>, RuntimeFailure>> {
        let endpoint = self.endpoint.clone();
        let generation = self.generation.clone();
        let operation = operation.to_owned();
        let signal = request.downcast::<OtelSignal>().ok().map(|signal| *signal);
        Box::pin(async move {
            let answer =
                generation.with_route(|route, _| endpoint.invoke(route, &operation, signal));
            match answer {
                Ok(Ok(response)) => Ok(Ok(Box::new(response) as Box<dyn Any>)),
                Ok(Err(error)) => Ok(Err(Box::new(error) as Box<dyn Any>)),
                Err(failure) => Err(runtime_failure(failure)),
            }
        })
    }
}

// The compositions under test.

const CALLER_PACKAGE_ID: &str = "test.otel-caller";
const BUSINESS_PACKAGE_ID: &str = "test.business-provider";
const BUSINESS_CAPABILITY_ID: &str = "test.business@1";
const BUSINESS_OPERATION: &str = "echo";

#[derive(Debug)]
struct NoopFactory;

impl NativeModuleFactory for NoopFactory {
    fn package_id(&self) -> &'static str {
        CALLER_PACKAGE_ID
    }

    fn instantiate(
        &self,
        _context: NativeModuleFactoryContext<'_>,
    ) -> Result<NativeModuleInstance, lenso_kernel::RuntimeFailure> {
        Ok(NativeModuleInstance::default())
    }
}

#[derive(Debug)]
struct Business;

impl RequestCapability for Business {
    type Request = String;
    type Response = String;
    type DomainError = String;

    const ID: &'static str = BUSINESS_CAPABILITY_ID;
    const DESCRIPTOR_VERSION: &'static str = "1.0.0";
}

#[derive(Debug)]
struct BusinessEndpoint;

impl NativeRequestEndpoint for BusinessEndpoint {
    fn capability_id(&self) -> &'static str {
        BUSINESS_CAPABILITY_ID
    }

    fn descriptor_version(&self) -> &'static str {
        Business::DESCRIPTOR_VERSION
    }

    fn operations(&self) -> &'static [&'static str] {
        &[BUSINESS_OPERATION]
    }

    fn invoke(
        &self,
        operation: &str,
        request: Box<dyn Any>,
        _context: InvocationContext,
    ) -> LocalBoxFuture<'static, Result<Result<Box<dyn Any>, Box<dyn Any>>, RuntimeFailure>> {
        if operation != BUSINESS_OPERATION {
            return Box::pin(futures::future::ready(Err(
                RuntimeFailure::UnknownOperation {
                    capability: BUSINESS_CAPABILITY_ID,
                    operation: operation.to_owned(),
                },
            )));
        }
        let Ok(request) = request.downcast::<String>() else {
            return Box::pin(futures::future::ready(Err(
                RuntimeFailure::ProtocolViolation {
                    capability: BUSINESS_CAPABILITY_ID,
                },
            )));
        };
        Box::pin(futures::future::ready(Ok(Ok(request as Box<dyn Any>))))
    }
}

#[derive(Debug)]
struct BusinessFactory;

impl NativeModuleFactory for BusinessFactory {
    fn package_id(&self) -> &'static str {
        BUSINESS_PACKAGE_ID
    }

    fn instantiate(
        &self,
        _context: NativeModuleFactoryContext<'_>,
    ) -> Result<NativeModuleInstance, RuntimeFailure> {
        Ok(NativeModuleInstance::new(vec![Rc::new(BusinessEndpoint)]))
    }
}

#[derive(Clone, Debug)]
struct RecordingExporter {
    signals: Rc<RefCell<Vec<OtelSignal>>>,
    fail: Rc<Cell<bool>>,
}

impl RecordingExporter {
    fn new() -> Self {
        Self {
            signals: Rc::new(RefCell::new(Vec::new())),
            fail: Rc::new(Cell::new(false)),
        }
    }

    fn signals(&self) -> Vec<OtelSignal> {
        self.signals.borrow().clone()
    }
}

impl OtelExporter for RecordingExporter {
    fn export(
        &self,
        signal: OtelSignal,
    ) -> LocalBoxFuture<'static, Result<(), ExportError>> {
        let signals = self.signals.clone();
        let fail = self.fail.clone();
        Box::pin(async move {
            if fail.get() {
                return Err(ExportError::Rejected);
            }
            signals.borrow_mut().push(signal);
            Ok(())
        })
    }
}

#[derive(Clone, Debug)]
struct PendingExporter;

impl OtelExporter for PendingExporter {
    fn export(
        &self,
        _signal: OtelSignal,
    ) -> LocalBoxFuture<'static, Result<(), ExportError>> {
        Box::pin(futures::future::pending())
    }
}

fn plan() -> ResolvedAppPlan {
    AppComposition::new(
        vec![ModuleInstancePlan::new("otel", OTEL_MODULE_PACKAGE_ID)],
        Vec::new(),
    )
    .resolve()
    .expect("the diagnostics-only OTel Module plan should resolve")
}

fn telemetry_plan() -> ResolvedAppPlan {
    let caller = ModuleInstancePlan::new("caller", CALLER_PACKAGE_ID).with_requirement(
        CapabilityRequirementPlan::one(
            OTEL_TELEMETRY_CAPABILITY_ID,
            OTEL_TELEMETRY_DESCRIPTOR_VERSION,
        ),
    );
    let otel = ModuleInstancePlan::new("otel", OTEL_MODULE_PACKAGE_ID).with_capability(
        CapabilityEndpointPlan::new(
            OTEL_TELEMETRY_CAPABILITY_ID,
            OTEL_TELEMETRY_DESCRIPTOR_VERSION,
            [OTEL_TELEMETRY_OPERATION],
        ),
    );
    AppComposition::new(
        vec![caller, otel],
        vec![CapabilityBinding::new(
            "caller",
            OTEL_TELEMETRY_CAPABILITY_ID,
            OTEL_TELEMETRY_DESCRIPTOR_VERSION,
            "otel",
        )],
    )
    .resolve()
    .expect("the explicit telemetry Capability plan should resolve")
}

fn business_plan(include_otel: bool) -> ResolvedAppPlan {
    let caller = ModuleInstancePlan::new("caller", CALLER_PACKAGE_ID).with_requirement(
        CapabilityRequirementPlan::one(BUSINESS_CAPABILITY_ID, Business::DESCRIPTOR_VERSION),
    );
    let provider = ModuleInstancePlan::new("business", BUSINESS_PACKAGE_ID).with_capability(
        CapabilityEndpointPlan::new(
            BUSINESS_CAPABILITY_ID,
            Business::DESCRIPTOR_VERSION,
            [BUSINESS_OPERATION],
        ),
    );
    let mut instances = vec![caller, provider];
    if include_otel {
        instances.push(ModuleInstancePlan::new("otel", OTEL_MODULE_PACKAGE_ID));
    }
    AppComposition::new(
        instances,
        vec![CapabilityBinding::new(
            "caller",
            BUSINESS_CAPABILITY_ID,
            Business::DESCRIPTOR_VERSION,
            "business",
        )],
    )
    .resolve()
    .expect("business plan should resolve with or without OTel")
}

fn log_signal(body: &str) -> OtelSignal {
    OtelSignal::Log(OtelLog {
        timestamp: Duration::ZERO.as_nanos(),
        severity: OtelSeverity::Info,
        body: body.to_owned(),
        attributes: Attributes::new(),
    })
}

fn start(
    driver: &DeterministicDriver,
    diagnostics: RuntimeDiagnostics,
    factory: OtelModuleFactory,
) -> lenso_kernel::NativeApp {
    driver
        .run(Kernel::start_native_with_diagnostics(
            plan(),
            driver.clone(),
            NativeModuleRegistry::new().with_factory(factory),
            diagnostics,
        ))
        .expect("the OTel Module must not gate App readiness")
}

fn start_with_telemetry_capability(
    driver: &DeterministicDriver,
    diagnostics: RuntimeDiagnostics,
    factory: OtelModuleFactory,
) -> lenso_kernel::NativeApp {
    driver
        .run(Kernel::start_native_with_diagnostics(
            telemetry_plan(),
            driver.clone(),
            NativeModuleRegistry::new()
                .with_factory(factory)
                .with_factory(NoopFactory),
            diagnostics,
        ))
        .expect("the explicit telemetry Capability must not gate App readiness")
}

#[test]
fn exporter_is_async_and_explicit_telemetry_does_not_gate_readiness() {
    let driver = DeterministicDriver::new();
    let diagnostics = RuntimeDiagnostics::new();
    let exporter = RecordingExporter::new();
    let factory = OtelModuleFactory::new(diagnostics.clone(), exporter.clone());
    let telemetry = factory.telemetry_for("otel");
    let app = start(&driver, diagnostics, factory);

    assert!(app.is_ready());
    assert_eq!(
        telemetry.try_emit(log_signal("application.signal")),
        Ok(TelemetryAdmission::Accepted)
    );
    driver.run(driver.yield_now());

    let signals = exporter.signals();
    assert!(signals.iter().any(|signal| {
        matches!(signal, OtelSignal::Log(log) if log.body == "application.signal")
    }));
    assert!(signals.iter().any(|signal| {
        matches!(signal, OtelSignal::Log(log) if log.body == "lenso.runtime.diagnostic")
    }));
    assert_eq!(
        driver.run(app.shutdown(Duration::from_secs(1))),
        ShutdownOutcome::Clean
    );
}

#[test]
fn explicit_telemetry_capability_enqueues_through_a_declared_binding() {
    let driver = DeterministicDriver::new();
    let diagnostics = RuntimeDiagnostics::new();
    let exporter = RecordingExporter::new();
    let factory =
        OtelModuleFactory::new(diagnostics.clone(), exporter.clone()).with_telemetry_capability();
    let app = start_with_telemetry_capability(&driver, diagnostics, factory);

    let response = driver.run(app.invoke::<OtelTelemetry>(
        "caller",
        OTEL_TELEMETRY_OPERATION,
        log_signal("declared.capability"),
    ));
    assert!(matches!(
        response,
        Ok(Ok(response)) if response.admission == TelemetryAdmission::Accepted
    ));
    driver.run(driver.yield_now());
    assert!(exporter.signals().iter().any(|signal| {
        matches!(signal, OtelSignal::Log(log) if log.body == "declared.capability")
    }));
    assert_eq!(
        driver.run(app.shutdown(Duration::from_secs(1))),
        ShutdownOutcome::Clean
    );
}

#[test]
fn exporter_failures_are_isolated_from_app_terminal_outcomes() {
    let driver = DeterministicDriver::new();
    let diagnostics = RuntimeDiagnostics::new();
    let exporter = RecordingExporter::new();
    exporter.fail.set(true);
    let factory = OtelModuleFactory::new(diagnostics.clone(), exporter)
        .with_config(OtelModuleConfig::default().with_diagnostic_queue_capacity(2));
    let stats = factory.stats();
    let telemetry = factory.telemetry_for("otel");
    let app = start(&driver, diagnostics, factory);
    assert!(app.is_ready());
    assert_eq!(
        telemetry.try_emit(log_signal("will.fail")),
        Ok(TelemetryAdmission::Accepted)
    );
    driver.run(driver.yield_now());
    assert!(stats.failed_count() > 0);
    assert!(!app.is_failed());
    assert_eq!(
        driver.run(app.shutdown(Duration::from_secs(1))),
        ShutdownOutcome::Clean
    );
}

#[test]
fn slow_exporter_drops_bounded_telemetry_and_shutdown_remains_bounded() {
    let driver = DeterministicDriver::new();
    let diagnostics = RuntimeDiagnostics::new();
    let factory = OtelModuleFactory::new(diagnostics.clone(), PendingExporter).with_config(
        OtelModuleConfig::default()
            .with_diagnostic_queue_capacity(1)
            .with_telemetry_queue_capacity(1),
    );
    let telemetry = factory.telemetry_for("otel");
    let app = start(&driver, diagnostics, factory);

    assert!(app.is_ready());
    assert_eq!(
        telemetry.try_emit(log_signal("first")),
        Ok(TelemetryAdmission::Accepted)
    );
    assert_eq!(
        telemetry.try_emit(log_signal("second")),
        Ok(TelemetryAdmission::Dropped)
    );
    assert_eq!(telemetry.dropped_count(), 1);
    assert_eq!(
        driver.run(app.shutdown(Duration::from_secs(1))),
        ShutdownOutcome::Clean
    );
    assert_eq!(
        telemetry.try_emit(log_signal("after.shutdown")),
        Ok(TelemetryAdmission::Closed)
    );
}

#[test]
fn telemetry_queues_are_isolated_by_module_instance_and_close_on_shutdown() {
    let driver = DeterministicDriver::new();
    let diagnostics = RuntimeDiagnostics::new();
    let factory = OtelModuleFactory::new(diagnostics.clone(), PendingExporter)
        .with_config(OtelModuleConfig::default().with_telemetry_queue_capacity(1));
    let first = factory.telemetry_for("otel-a");
    let second = factory.telemetry_for("otel-b");
    let plan = AppComposition::new(
        vec![
            ModuleInstancePlan::new("otel-a", OTEL_MODULE_PACKAGE_ID),
            ModuleInstancePlan::new("otel-b", OTEL_MODULE_PACKAGE_ID),
        ],
        Vec::new(),
    )
    .resolve()
    .expect("two OTel instances should resolve independently");
    let app = driver
        .run(Kernel::start_native_with_diagnostics(
            plan,
            driver.clone(),
            NativeModuleRegistry::new().with_factory(factory),
            diagnostics,
        ))
        .expect("two OTel generations should activate independently");

    assert_eq!(
        first.try_emit(log_signal("first.1")),
        Ok(TelemetryAdmission::Accepted)
    );
    assert_eq!(
        first.try_emit(log_signal("first.2")),
        Ok(TelemetryAdmission::Dropped)
    );
    assert_eq!(
        second.try_emit(log_signal("second.1")),
        Ok(TelemetryAdmission::Accepted)
    );
    assert_eq!(
        driver.run(app.shutdown(Duration::from_secs(1))),
        ShutdownOutcome::Clean
    );
    assert_eq!(
        first.try_emit(log_signal("first.closed")),
        Ok(TelemetryAdmission::Closed)
    );
    assert_eq!(
        second.try_emit(log_signal("second.closed")),
        Ok(TelemetryAdmission::Closed)
    );
}

fn run_business_plan(include_otel: bool) -> (bool, bool, String, ShutdownOutcome) {
    let driver = DeterministicDriver::new();
    let diagnostics = RuntimeDiagnostics::new();
    let registry = NativeModuleRegistry::new()
        .with_factory(NoopFactory)
        .with_factory(BusinessFactory);
    let registry = if include_otel {
        registry.with_factory(OtelModuleFactory::new(diagnostics.clone(), PendingExporter))
    } else {
        registry
    };
    let app = driver
        .run(Kernel::start_native_with_diagnostics(
            business_plan(include_otel),
            driver.clone(),
            registry,
            diagnostics,
        ))
        .expect("business App should start with or without OTel");
    let ready = app.is_ready();
    let response = driver
        .run(app.invoke::<Business>("caller", BUSINESS_OPERATION, "unchanged".to_owned()))
        .expect("business request should have a runtime outcome")
        .expect("business request should succeed");
    let failed = app.is_failed();
    let shutdown = driver.run(app.shutdown(Duration::from_secs(1)));
    (ready, failed, response, shutdown)
}

#[test]
fn removing_otel_preserves_business_and_app_outcomes() {
    assert_eq!(run_business_plan(false), run_business_plan(true));
}

#[test]
fn exporter_stats_are_observable_without_becoming_runtime_diagnostics() {
    let mut stats = OtelExportStats::new();
    stats.record_exported();
    stats.record_failed();
    assert_eq!(stats.exported_count(), 1);
    assert_eq!(stats.failed_count(), 1);
}
