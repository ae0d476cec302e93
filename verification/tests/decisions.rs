use lenso_kernel::{DiagnosticFilter, DiagnosticSource as KernelSource, RuntimeFailure};
use lenso_otel_module::attributes::Attributes;
use lenso_otel_module::diagnostic::{DiagnosticEvent, DiagnosticRecord, DiagnosticSource};
use lenso_otel_module::export::{
    Arrival, ExportAction, ExportOutcome, export_application_signals, export_diagnostics,
    export_one,
};
use lenso_otel_module::module::{ActivationAction, ActivationEvent, OtelModuleFailure};
use lenso_otel_module::{
    ExportError, NoopExporter, OTEL_TELEMETRY_CAPABILITY_ID, OtelExportStats, OtelLog,
    OtelModuleConfig, OtelModuleFactory, OtelSeverity, OtelSignal, OtelTelemetry,
    TelemetryAdmission, TelemetryError, TelemetryInvocationError, TelemetryResponse,
    diagnostic_to_signal,
};

fn log(body: &str) -> OtelSignal {
    OtelSignal::Log(OtelLog {
        timestamp: 0,
        severity: OtelSeverity::Info,
        body: body.to_owned(),
        attributes: Attributes::new(),
    })
}

fn ready(instance: String) -> DiagnosticRecord {
    DiagnosticRecord {
        sequence: 1,
        timestamp: 2,
        source: DiagnosticSource::Supervision,
        event: DiagnosticEvent::GenerationReady {
            instance,
            generation: 3,
        },
    }
}

fn counts(stats: &OtelExportStats) -> (u64, u64) {
    (stats.exported_count(), stats.failed_count())
}

#[test]
fn diagnostics_worker_exports_admissible_records_and_counts_the_others() {
    let mut stats = OtelExportStats::default();
    let record = ready("a".to_owned());
    let action = export_diagnostics(&mut stats, Arrival::Received(Some(record.clone())));
    assert!(
        matches!(action, ExportAction::Export(signal) if signal == diagnostic_to_signal(&record))
    );
    assert_eq!(counts(&stats), (0, 0));
    let action = export_diagnostics(
        &mut stats,
        Arrival::Received(Some(ready("a".repeat(4 * 1024 + 1)))),
    );
    assert!(matches!(action, ExportAction::Receive));
    assert_eq!(counts(&stats), (0, 1));
    let action = export_diagnostics(&mut stats, Arrival::Received(None));
    assert!(matches!(action, ExportAction::Stop));
    let action = export_diagnostics(&mut stats, Arrival::Cancelled);
    assert!(matches!(action, ExportAction::Stop));
    assert_eq!(counts(&stats), (0, 1));
}

#[test]
fn application_worker_exports_what_it_receives() {
    let action = export_application_signals(Arrival::Received(Some(log("a"))));
    assert!(matches!(action, ExportAction::Export(signal) if signal == log("a")));
    assert!(matches!(
        export_application_signals(Arrival::Received(None)),
        ExportAction::Stop
    ));
    assert!(matches!(
        export_application_signals(Arrival::Cancelled),
        ExportAction::Stop
    ));
}

#[test]
fn a_run_of_diagnostics_is_counted_record_by_record() {
    let mut stats = OtelExportStats::new();
    let mut exported = Vec::new();
    let names = ["a".to_owned(), "b".repeat(4 * 1024 + 1), "c".to_owned()];
    for name in names.clone() {
        let arrival = Arrival::Received(Some(ready(name)));
        if let ExportAction::Export(signal) = export_diagnostics(&mut stats, arrival) {
            exported.push(signal);
            export_one(&mut stats, ExportOutcome::Completed(Ok(())));
        }
    }
    assert_eq!(
        exported,
        vec![
            diagnostic_to_signal(&ready(names[0].clone())),
            diagnostic_to_signal(&ready(names[2].clone())),
        ]
    );
    assert_eq!(counts(&stats), (2, 1));
}

#[test]
fn every_finished_export_is_counted_once() {
    let mut stats = OtelExportStats::new();
    let finished = [
        (ExportOutcome::Completed(Ok(())), (1, 0)),
        (
            ExportOutcome::Completed(Err(ExportError::Rejected)),
            (1, 1),
        ),
        (
            ExportOutcome::Completed(Err(ExportError::Unavailable)),
            (1, 2),
        ),
        (ExportOutcome::Panicked, (1, 3)),
        (ExportOutcome::StartPanicked, (1, 4)),
        (ExportOutcome::Completed(Ok(())), (2, 4)),
    ];
    for (outcome, expected) in finished {
        assert!(matches!(
            export_one(&mut stats, outcome),
            ExportAction::Receive
        ));
        assert_eq!(counts(&stats), expected);
    }
    assert!(matches!(
        export_one(&mut stats, ExportOutcome::Cancelled),
        ExportAction::Stop
    ));
    assert_eq!(counts(&stats), (2, 4));
}

#[test]
fn the_noop_exporter_accepts_everything() {
    assert_eq!(NoopExporter::default().export(log("a")), Ok(()));
}

#[test]
fn the_default_configuration_selects_every_source() {
    let config = OtelModuleConfig::new();
    for source in [
        KernelSource::Lifecycle,
        KernelSource::Invocation,
        KernelSource::Admission,
        KernelSource::Supervision,
        KernelSource::Shutdown,
        KernelSource::RuntimeFailure,
    ] {
        assert!(config.diagnostic_filter().includes(source));
    }
    assert_eq!(config.diagnostic_queue_capacity(), 256);
    assert_eq!(config.telemetry_queue_capacity(), 256);
}

#[test]
fn configuration_changes_one_thing_at_a_time() {
    let config = OtelModuleConfig::default()
        .with_diagnostic_filter(DiagnosticFilter::only(KernelSource::Shutdown))
        .with_diagnostic_queue_capacity(0)
        .with_telemetry_queue_capacity(7);
    assert!(config.diagnostic_filter().includes(KernelSource::Shutdown));
    assert!(!config.diagnostic_filter().includes(KernelSource::Lifecycle));
    assert_eq!(config.diagnostic_queue_capacity(), 1);
    assert_eq!(config.telemetry_queue_capacity(), 7);
    let copy = config.clone();
    assert_eq!(copy.telemetry_queue_capacity(), 7);
    assert_eq!(copy.diagnostic_filter(), config.diagnostic_filter());
}

#[test]
fn routes_are_stable_and_isolated_by_instance() {
    let mut factory = OtelModuleFactory::new()
        .with_config(OtelModuleConfig::new().with_telemetry_queue_capacity(1));
    for key in ["otel-a", "otel-b"] {
        let mut instance = factory.instantiate(key, Ok(())).unwrap();
        let route = factory.telemetry_for(key);
        let action = instance.lifecycle.activate(route, ActivationEvent::Requested);
        assert!(matches!(action, ActivationAction::ScheduleDiagnostics));
        let action = instance
            .lifecycle
            .activate(route, ActivationEvent::TelemetryScheduled(Ok(())));
        assert!(matches!(action, ActivationAction::Complete));
    }
    let emit = |factory: &mut OtelModuleFactory, key: &str| {
        factory.telemetry_for(key).try_emit(log("a"))
    };
    assert_eq!(
        emit(&mut factory, "otel-a"),
        Ok(TelemetryAdmission::Accepted)
    );
    assert_eq!(
        emit(&mut factory, "otel-a"),
        Ok(TelemetryAdmission::Dropped)
    );
    assert_eq!(
        emit(&mut factory, "otel-b"),
        Ok(TelemetryAdmission::Accepted)
    );
    assert_eq!(emit(&mut factory, "otel-c"), Ok(TelemetryAdmission::Closed));
    assert_eq!(factory.telemetry_for("otel-a").dropped_count(), 1);
    assert_eq!(factory.telemetry_for("otel-b").dropped_count(), 0);
}

#[test]
fn a_failed_subscription_fails_the_instantiation() {
    let mut factory = OtelModuleFactory::new();
    assert_eq!(
        factory
            .instantiate("otel", Err("ZeroCapacity".to_owned()))
            .err(),
        Some(OtelModuleFailure::InvalidResolvedPlan {
            detail: "OTel diagnostics observer could not be created: ZeroCapacity".to_owned()
        })
    );
    assert_eq!(factory.config().telemetry_queue_capacity(), 256);
}

#[test]
fn the_endpoint_exists_where_the_capability_is_exposed() {
    let mut hidden = OtelModuleFactory::new();
    assert!(hidden.instantiate("otel", Ok(())).unwrap().endpoint.is_none());
    let mut exposed = OtelModuleFactory::new().with_telemetry_capability();
    let instance = exposed.instantiate("otel", Ok(())).unwrap();
    let endpoint = instance.endpoint.unwrap();
    let route = exposed.telemetry_for("otel");
    assert_eq!(
        endpoint.invoke(route, "other", Some(log("a"))),
        Err(OtelModuleFailure::UnknownOperation {
            capability: OTEL_TELEMETRY_CAPABILITY_ID,
            operation: "other".to_owned()
        })
    );
    assert_eq!(
        endpoint.invoke(route, "emit", None),
        Err(OtelModuleFailure::ProtocolViolation {
            capability: "lenso.otel.telemetry@1"
        })
    );
    assert_eq!(
        endpoint.invoke(route, "emit", Some(log(""))),
        Ok(Err(TelemetryError::InvalidSignal))
    );
    // The endpoint feeds the queue of its own generation, whether that is active or not.
    assert_eq!(
        endpoint.invoke(route, "emit", Some(log("a"))),
        Ok(Ok(TelemetryResponse {
            admission: TelemetryAdmission::Accepted
        }))
    );
    instance.lifecycle.deactivate(route);
    assert_eq!(
        endpoint.invoke(route, "emit", Some(log("a"))),
        Ok(Ok(TelemetryResponse {
            admission: TelemetryAdmission::Closed
        }))
    );
}

#[test]
fn an_activation_schedules_both_workers_before_it_opens_the_route() {
    let mut factory = OtelModuleFactory::new();
    let mut instance = factory.instantiate("otel", Ok(())).unwrap();
    let route = factory.telemetry_for("otel");
    let action = instance.lifecycle.activate(route, ActivationEvent::Requested);
    assert!(matches!(action, ActivationAction::ScheduleDiagnostics));
    let action = instance
        .lifecycle
        .activate(route, ActivationEvent::DiagnosticsScheduled(Ok(())));
    assert!(matches!(action, ActivationAction::ScheduleTelemetry));
    assert_eq!(route.try_emit(log("a")), Ok(TelemetryAdmission::Closed));
    let action = instance
        .lifecycle
        .activate(route, ActivationEvent::TelemetryScheduled(Ok(())));
    assert!(matches!(action, ActivationAction::Complete));
    assert_eq!(route.try_emit(log("a")), Ok(TelemetryAdmission::Accepted));
    instance.lifecycle.deactivate(route);
    assert_eq!(route.try_emit(log("a")), Ok(TelemetryAdmission::Closed));
}

#[test]
fn a_failed_activation_names_what_failed() {
    let detail = |action: ActivationAction| match action {
        ActivationAction::Fail(OtelModuleFailure::Internal { detail }) => detail,
        _ => panic!("the activation should fail"),
    };
    let mut factory = OtelModuleFactory::new();
    let mut instance = factory.instantiate("otel", Ok(())).unwrap();
    let route = factory.telemetry_for("otel");
    let lifecycle = &mut instance.lifecycle;
    assert_eq!(
        detail(lifecycle.activate(
            route,
            ActivationEvent::DiagnosticsScheduled(Err("ScopeClosed".to_owned()))
        )),
        "failed to schedule OTel diagnostics export: ScopeClosed"
    );
    assert_eq!(
        detail(lifecycle.activate(
            route,
            ActivationEvent::TelemetryScheduled(Err("ScopeClosed".to_owned()))
        )),
        "failed to schedule OTel application export: ScopeClosed"
    );
    assert_eq!(route.try_emit(log("a")), Ok(TelemetryAdmission::Closed));
    let action = lifecycle.activate(route, ActivationEvent::Requested);
    assert!(matches!(action, ActivationAction::ScheduleDiagnostics));
    assert_eq!(
        detail(lifecycle.activate(route, ActivationEvent::Requested)),
        "OTel diagnostics observer was activated twice"
    );
}

#[test]
fn a_factory_aggregates_the_outcomes_of_all_generations() {
    let mut factory = OtelModuleFactory::new();
    export_one(factory.stats_mut(), ExportOutcome::Completed(Ok(())));
    export_one(factory.stats_mut(), ExportOutcome::Panicked);
    assert_eq!(counts(factory.stats()), (1, 1));
}

#[test]
fn the_client_reports_both_error_channels() {
    let response = TelemetryResponse {
        admission: TelemetryAdmission::Dropped,
    };
    assert_eq!(
        OtelTelemetry::invocation_result(Ok(Ok(response))),
        Ok(response)
    );
    assert_eq!(
        OtelTelemetry::invocation_result(Ok(Err(TelemetryError::InvalidSignal))),
        Err(TelemetryInvocationError::Domain(
            TelemetryError::InvalidSignal
        ))
    );
    let failure = TelemetryInvocationError::Runtime(RuntimeFailure::Internal {
        detail: "driver".to_owned(),
    });
    assert_eq!(failure.clone(), failure);
    assert_eq!(
        OtelTelemetry::invocation_result(Err(RuntimeFailure::AdmissionClosed)),
        Err(TelemetryInvocationError::Runtime(
            RuntimeFailure::AdmissionClosed
        ))
    );
}
