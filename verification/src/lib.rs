//! Optional OpenTelemetry propagation and export Module for Lenso.
//!
//! - [`trace`] parses and writes W3C trace contexts over [`hex`] and [`text`];
//!   [`signature`], [`invocation`] and [`propagation`] carry them as sealed extensions of
//!   invocation contexts.
//! - [`diagnostic`] and [`signal`] turn Runtime Diagnostics into structural logs over
//!   [`attributes`]; [`admission`] bounds every signal.
//! - [`telemetry`] queues signals per Module generation, [`export`] decides what the export
//!   workers do, and [`module`] ties generations, routes and the telemetry Capability together.
//!
//! The modules whose names end in `_laws` state what holds across these.

pub mod text;
pub mod text_laws;
pub mod hex;
pub mod hex_laws;
pub mod trace;
pub mod trace_laws;
pub mod signature;
pub mod invocation;
pub mod propagation;
pub mod propagation_laws;
pub mod attributes;
pub mod diagnostic;
pub mod signal;
pub mod admission;
pub mod admission_laws;
pub mod signal_laws;
pub mod telemetry;
pub mod telemetry_laws;
pub mod export;
pub mod export_laws;
pub mod module;
pub mod module_laws;

pub use admission::{
    TelemetryError, MAX_OTEL_ATTRIBUTES, MAX_OTEL_ATTRIBUTE_KEY_BYTES,
    MAX_OTEL_ATTRIBUTE_VALUE_BYTES, MAX_OTEL_LOG_BODY_BYTES, MAX_OTEL_METRIC_UNIT_BYTES,
    MAX_OTEL_SIGNAL_ENCODED_BYTES, MAX_OTEL_SIGNAL_NAME_BYTES,
};
pub use export::{ExportError, NoopExporter, OtelExportStats};
pub use module::{
    OtelModuleConfig, OtelModuleFactory, OtelTelemetry, TelemetryInvocationError,
    TelemetryResponse, DEFAULT_DIAGNOSTIC_QUEUE_CAPACITY, DEFAULT_TELEMETRY_QUEUE_CAPACITY,
    OTEL_MODULE_PACKAGE_ID, OTEL_TELEMETRY_CAPABILITY_ID, OTEL_TELEMETRY_DESCRIPTOR_VERSION,
    OTEL_TELEMETRY_OPERATION,
};
pub use propagation::{
    TraceContextConfigError, TraceContextError, TraceContextPropagator,
    DEFAULT_TRACE_CONTEXT_ISSUER, TRACE_CONTEXT_EXTENSION_KEY,
};
pub use signal::{diagnostic_to_signal, OtelLog, OtelMetric, OtelSeverity, OtelSignal, OtelSpan};
pub use telemetry::{TelemetryAdmission, TelemetryHandle};
pub use trace::{TraceContext, TraceContextParseError};
