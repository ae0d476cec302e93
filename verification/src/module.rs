//! The OpenTelemetry Module: its configuration, its generations and its telemetry Capability.

use vstd::prelude::*;

use crate::admission;
use crate::admission::TelemetryError;
use crate::diagnostic::DiagnosticSource;
use crate::export::{OtelExportStats, StatsView};
use crate::signal::OtelSignal;
use crate::telemetry;
use crate::telemetry::{
    GenerationTelemetry, GenerationView, RouteView, TelemetryAdmission, TelemetryHandle,
};
use crate::text;

verus! {

/// Package identity for the optional OpenTelemetry Module.
pub const OTEL_MODULE_PACKAGE_ID: &'static str = "lenso.opentelemetry.module";

/// Capability identity for explicit application telemetry input.
pub const OTEL_TELEMETRY_CAPABILITY_ID: &'static str = "lenso.otel.telemetry@1";

/// Descriptor version for [`OtelTelemetry`].
pub const OTEL_TELEMETRY_DESCRIPTOR_VERSION: &'static str = "1.0.0";

/// Operation that accepts one explicit application signal.
pub const OTEL_TELEMETRY_OPERATION: &'static str = "emit";

/// Default Runtime Diagnostics queue capacity owned by one `OTel` Module generation.
pub const DEFAULT_DIAGNOSTIC_QUEUE_CAPACITY: usize = 256;

/// Default explicit application telemetry queue capacity.
pub const DEFAULT_TELEMETRY_QUEUE_CAPACITY: usize = 256;

/// The Kernel's allowlist of diagnostic sources. The Module hands it on unread.
#[verifier::external_type_specification]
#[verifier::external_body]
pub struct ExDiagnosticFilter(lenso_kernel::DiagnosticFilter);

/// The Kernel's failure of a Capability invocation. The Module hands it on unread.
#[verifier::external_type_specification]
#[verifier::external_body]
pub struct ExRuntimeFailure(lenso_kernel::RuntimeFailure);

/// `RuntimeFailure::clone`: the impl that `lenso_kernel` derives copies every field, so the
/// copy is the same failure.
pub assume_specification[ <lenso_kernel::RuntimeFailure as Clone>::clone ](
    failure: &lenso_kernel::RuntimeFailure,
) -> (copy: lenso_kernel::RuntimeFailure)
    ensures
        copy == *failure,
;

/// The diagnostic sources that a Kernel filter includes.
pub uninterp spec fn filter_sources(filter: lenso_kernel::DiagnosticFilter) -> Set<
    DiagnosticSource,
>;

/// Calls `lenso_kernel::DiagnosticFilter::all`. The contract claims that the filter includes
/// every diagnostic source.
#[verifier::external_body]
fn all_sources() -> (filter: lenso_kernel::DiagnosticFilter)
    ensures
        forall|source: DiagnosticSource| #[trigger] filter_sources(filter).contains(source),
{
    lenso_kernel::DiagnosticFilter::all()
}

/// What a configuration selects.
pub struct ConfigView {
    /// Which diagnostics become logs.
    pub diagnostic_filter: lenso_kernel::DiagnosticFilter,
    /// How many diagnostics may be pending.
    pub diagnostic_queue_capacity: usize,
    /// How many application signals may be pending.
    pub telemetry_queue_capacity: usize,
}

impl ConfigView {
    /// Both queues have room.
    pub open spec fn wf(self) -> bool {
        &&& 1 <= self.diagnostic_queue_capacity
        &&& 1 <= self.telemetry_queue_capacity
    }

    /// The all-source configuration with the default queues.
    pub open spec fn is_default(self) -> bool {
        &&& forall|source: DiagnosticSource| #[trigger]
            filter_sources(self.diagnostic_filter).contains(source)
        &&& self.diagnostic_queue_capacity == DEFAULT_DIAGNOSTIC_QUEUE_CAPACITY
        &&& self.telemetry_queue_capacity == DEFAULT_TELEMETRY_QUEUE_CAPACITY
    }
}

/// `OTel` Runtime Diagnostics and application-signal selection.
#[derive(Debug)]
pub struct OtelModuleConfig {
    diagnostic_filter: lenso_kernel::DiagnosticFilter,
    diagnostic_queue_capacity: usize,
    telemetry_queue_capacity: usize,
}

impl View for OtelModuleConfig {
    type V = ConfigView;

    closed spec fn view(&self) -> ConfigView {
        ConfigView {
            diagnostic_filter: self.diagnostic_filter,
            diagnostic_queue_capacity: self.diagnostic_queue_capacity,
            telemetry_queue_capacity: self.telemetry_queue_capacity,
        }
    }
}

impl OtelModuleConfig {
    #[verifier::type_invariant]
    spec fn well_formed(self) -> bool {
        self@.wf()
    }

    /// Creates the default all-source, bounded `OTel` configuration.
    pub fn new() -> (config: Self)
        ensures
            config@.is_default(),
    {
        Self::default()
    }

    /// Selects which Kernel Diagnostic sources become `OTel` Logs.
    #[must_use]
    pub fn with_diagnostic_filter(self, filter: lenso_kernel::DiagnosticFilter) -> (config: Self)
        ensures
            config@ == (ConfigView { diagnostic_filter: filter, ..self@ }),
    {
        proof {
            use_type_invariant(&self);
        }
        OtelModuleConfig { diagnostic_filter: filter, ..self }
    }

    /// Sets the independently bounded Runtime Diagnostics queue.
    #[must_use]
    pub fn with_diagnostic_queue_capacity(self, capacity: usize) -> (config: Self)
        ensures
            config@ == (ConfigView {
                diagnostic_queue_capacity: telemetry::normalized(capacity),
                ..self@
            }),
    {
        proof {
            use_type_invariant(&self);
        }
        OtelModuleConfig {
            diagnostic_queue_capacity: telemetry::normalize_capacity(capacity),
            ..self
        }
    }

    /// Sets the independently bounded explicit application telemetry queue.
    #[must_use]
    pub fn with_telemetry_queue_capacity(self, capacity: usize) -> (config: Self)
        ensures
            config@ == (ConfigView {
                telemetry_queue_capacity: telemetry::normalized(capacity),
                ..self@
            }),
    {
        proof {
            use_type_invariant(&self);
        }
        OtelModuleConfig {
            telemetry_queue_capacity: telemetry::normalize_capacity(capacity),
            ..self
        }
    }

    /// Returns the selected diagnostic sources.
    pub fn diagnostic_filter(&self) -> (filter: lenso_kernel::DiagnosticFilter)
        ensures
            filter == self@.diagnostic_filter,
    {
        self.diagnostic_filter
    }

    /// Returns the bound on pending diagnostics.
    pub fn diagnostic_queue_capacity(&self) -> (capacity: usize)
        ensures
            capacity == self@.diagnostic_queue_capacity,
            1 <= capacity,
    {
        proof {
            use_type_invariant(self);
        }
        self.diagnostic_queue_capacity
    }

    /// Returns the bound on pending application signals.
    pub fn telemetry_queue_capacity(&self) -> (capacity: usize)
        ensures
            capacity == self@.telemetry_queue_capacity,
            1 <= capacity,
    {
        proof {
            use_type_invariant(self);
        }
        self.telemetry_queue_capacity
    }
}

impl Default for OtelModuleConfig {
    fn default() -> (config: Self)
        ensures
            config@.is_default(),
    {
        OtelModuleConfig {
            diagnostic_filter: all_sources(),
            diagnostic_queue_capacity: DEFAULT_DIAGNOSTIC_QUEUE_CAPACITY,
            telemetry_queue_capacity: DEFAULT_TELEMETRY_QUEUE_CAPACITY,
        }
    }
}

impl Clone for OtelModuleConfig {
    fn clone(&self) -> (copy: Self)
        ensures
            copy@ == self@,
    {
        proof {
            use_type_invariant(self);
        }
        OtelModuleConfig {
            diagnostic_filter: self.diagnostic_filter,
            diagnostic_queue_capacity: self.diagnostic_queue_capacity,
            telemetry_queue_capacity: self.telemetry_queue_capacity,
        }
    }
}

/// One response from the explicit application telemetry Capability.
#[derive(Clone, Copy, Debug, Eq, PartialEq)]
pub struct TelemetryResponse {
    /// Whether the signal entered the `OTel` Module queue.
    pub admission: TelemetryAdmission,
}

/// Error channel for the explicit application telemetry Capability client.
#[derive(Debug, Eq, PartialEq)]
pub enum TelemetryInvocationError {
    /// The signal was malformed according to the Module-owned input contract.
    Domain(TelemetryError),
    /// The Kernel or Adapter could not execute the Capability.
    Runtime(lenso_kernel::RuntimeFailure),
}

impl Clone for TelemetryInvocationError {
    fn clone(&self) -> (copy: Self)
        ensures
            copy == *self,
    {
        match self {
            TelemetryInvocationError::Domain(error) => TelemetryInvocationError::Domain(*error),
            TelemetryInvocationError::Runtime(failure) => TelemetryInvocationError::Runtime(
                failure.clone(),
            ),
        }
    }
}

/// Marker for the local explicit application telemetry Capability.
#[derive(Debug)]
pub struct OtelTelemetry;

impl OtelTelemetry {
    /// Merges the two error channels of one invocation into the one that its client reports.
    pub fn invocation_result(
        outcome: Result<Result<TelemetryResponse, TelemetryError>, lenso_kernel::RuntimeFailure>,
    ) -> (result: Result<TelemetryResponse, TelemetryInvocationError>)
        ensures
            result == (match outcome {
                Ok(Ok(response)) => Ok::<TelemetryResponse, TelemetryInvocationError>(response),
                Ok(Err(error)) => Err(TelemetryInvocationError::Domain(error)),
                Err(failure) => Err(TelemetryInvocationError::Runtime(failure)),
            }),
    {
        match outcome {
            Ok(Ok(response)) => Ok(response),
            Ok(Err(error)) => Err(TelemetryInvocationError::Domain(error)),
            Err(failure) => Err(TelemetryInvocationError::Runtime(failure)),
        }
    }
}

/// A failure that the Module itself reports to the Kernel.
#[derive(Clone, Debug, Eq, PartialEq)]
pub enum OtelModuleFailure {
    /// The Capability does not have the requested Operation.
    UnknownOperation {
        /// Identity of the Capability.
        capability: &'static str,
        /// The Operation that was asked for.
        operation: String,
    },
    /// The request did not carry what the Operation takes.
    ProtocolViolation {
        /// Identity of the Capability.
        capability: &'static str,
    },
    /// The Module could not be instantiated in this App.
    InvalidResolvedPlan {
        /// What went wrong.
        detail: String,
    },
    /// A generation could not be activated.
    Internal {
        /// What went wrong.
        detail: String,
    },
}

/// Joins two texts.
fn joined(head: &str, tail: &str) -> (whole: String)
    ensures
        whole@ == head@ + tail@,
{
    let mut whole = head.to_owned();
    whole.append(tail);
    whole
}

/// The state of a factory.
#[verifier::ext_equal]
pub struct FactoryView {
    /// The queue and source policy of new generations.
    pub config: ConfigView,
    /// The route of each Module Instance that was asked for.
    pub routes: Map<Seq<char>, RouteView>,
    /// Exporter outcomes of all generations.
    pub stats: StatsView,
    /// Whether new generations offer the telemetry Capability.
    pub exposes_telemetry: bool,
}

impl FactoryView {
    /// Every route is in order.
    pub open spec fn wf(self) -> bool {
        forall|instance_key: Seq<char>| #[trigger]
            self.routes.contains_key(instance_key) ==> self.routes[instance_key].wf()
    }

    /// The route of a Module Instance. Where nobody has asked for it yet, it is a new one with
    /// this identity.
    pub open spec fn route(self, instance_key: Seq<char>, identity: int) -> RouteView {
        if self.routes.contains_key(instance_key) {
            self.routes[instance_key]
        } else {
            RouteView::empty(identity)
        }
    }

    /// The factory after the route of a Module Instance changed.
    pub open spec fn with_route(self, instance_key: Seq<char>, route: RouteView) -> FactoryView {
        FactoryView { routes: self.routes.insert(instance_key, route), ..self }
    }
}

/// The routes of a list. Where a key occurs twice, the first one counts.
spec fn routes_map(routes: Seq<(String, TelemetryHandle)>) -> Map<Seq<char>, RouteView>
    decreases routes.len(),
{
    if routes.len() == 0 {
        Map::empty()
    } else {
        routes_map(routes.drop_first()).insert(routes[0].0@, routes[0].1@)
    }
}

/// Whether a key occurs first at this place of a list.
spec fn first_at(routes: Seq<(String, TelemetryHandle)>, key: Seq<char>, i: int) -> bool {
    &&& 0 <= i < routes.len()
    &&& routes[i].0@ == key
    &&& forall|j: int| 0 <= j < i ==> (#[trigger] routes[j]).0@ != key
}

/// A key that occurs in the list occurs in the map, and its route changes in both alike.
proof fn lemma_route_found(
    routes: Seq<(String, TelemetryHandle)>,
    key: Seq<char>,
    i: int,
    handle: TelemetryHandle,
)
    requires
        first_at(routes, key, i),
    ensures
        routes_map(routes).contains_key(key),
        routes_map(routes)[key] == routes[i].1@,
        routes_map(routes.update(i, (routes[i].0, handle))) == routes_map(routes).insert(
            key,
            handle@,
        ),
    decreases i,
{
    let rest = routes.drop_first();
    let after = routes.update(i, (routes[i].0, handle));
    if i == 0 {
        assert(after.drop_first() =~= rest);
    } else {
        assert forall|j: int| 0 <= j < i - 1 implies (#[trigger] rest[j]).0@ != key by {
            assert(routes[j + 1].0@ != key);
        }
        lemma_route_found(rest, key, i - 1, handle);
        assert(after.drop_first() =~= rest.update(i - 1, (rest[i - 1].0, handle)));
        assert(routes[0].0@ != key);
    }
    assert(routes_map(after) =~= routes_map(routes).insert(key, handle@));
}

/// A key that does not occur in the list does not occur in the map, and can be added to both
/// alike.
proof fn lemma_route_absent(
    routes: Seq<(String, TelemetryHandle)>,
    added: (String, TelemetryHandle),
)
    requires
        forall|i: int| 0 <= i < routes.len() ==> (#[trigger] routes[i]).0@ != added.0@,
    ensures
        !routes_map(routes).contains_key(added.0@),
        routes_map(routes.push(added)) == routes_map(routes).insert(added.0@, added.1@),
    decreases routes.len(),
{
    let after = routes.push(added);
    if routes.len() == 0 {
        assert(after.drop_first() =~= routes);
    } else {
        let rest = routes.drop_first();
        assert forall|i: int| 0 <= i < rest.len() implies (#[trigger] rest[i]).0@
            != added.0@ by {
            assert(routes[i + 1].0@ != added.0@);
        }
        lemma_route_absent(rest, added);
        assert(after.drop_first() =~= rest.push(added));
        assert(routes[0].0@ != added.0@);
    }
    assert(routes_map(after) =~= routes_map(routes).insert(added.0@, added.1@));
}

/// Native Rust factory for the removable `OTel` Module.
pub struct OtelModuleFactory {
    config: OtelModuleConfig,
    telemetry_routes: Vec<(String, TelemetryHandle)>,
    stats: OtelExportStats,
    expose_telemetry_capability: bool,
}

impl View for OtelModuleFactory {
    type V = FactoryView;

    closed spec fn view(&self) -> FactoryView {
        FactoryView {
            config: self.config@,
            routes: routes_map(self.telemetry_routes@),
            stats: self.stats@,
            exposes_telemetry: self.expose_telemetry_capability,
        }
    }
}

impl OtelModuleFactory {
    /// Creates a factory with the default configuration, without routes, which does not offer
    /// the telemetry Capability.
    pub fn new() -> (factory: Self)
        ensures
            factory@.config.is_default(),
            factory@.routes == Map::<Seq<char>, RouteView>::empty(),
            factory@.stats == (StatsView { exported: 0, failed: 0 }),
            !factory@.exposes_telemetry,
            factory@.wf(),
    {
        OtelModuleFactory {
            config: OtelModuleConfig::default(),
            telemetry_routes: Vec::new(),
            stats: OtelExportStats::new(),
            expose_telemetry_capability: false,
        }
    }

    /// The place of a Module Instance in the list of routes.
    fn position(&self, instance_key: &str) -> (found: Option<usize>)
        ensures
            match found {
                Some(i) => first_at(self.telemetry_routes@, instance_key@, i as int),
                None => forall|i: int|
                    0 <= i < self.telemetry_routes@.len() ==> (
                    #[trigger] self.telemetry_routes@[i]).0@ != instance_key@,
            },
    {
        for i in 0..self.telemetry_routes.len()
            invariant
                forall|j: int|
                    0 <= j < i ==> (#[trigger] self.telemetry_routes@[j]).0@ != instance_key@,
        {
            if text::same_text(self.telemetry_routes[i].0.as_str(), instance_key) {
                return Some(i);
            }
        }
        None
    }

    /// Returns the stable host telemetry route for one App-local Module Instance.
    pub fn telemetry_for(&mut self, instance_key: &str) -> (handle: &mut TelemetryHandle)
        ensures
            handle@ == old(self)@.route(instance_key@, handle@.identity),
            handle@.wf(),
            final(self)@ == old(self)@.with_route(instance_key@, final(handle)@),
    {
        let ghost before = self.telemetry_routes@;
        let i = match self.position(instance_key) {
            Some(i) => i,
            None => {
                let i = self.telemetry_routes.len();
                self.telemetry_routes.push((instance_key.to_owned(), TelemetryHandle::new()));
                proof {
                    lemma_route_absent(before, self.telemetry_routes@[i as int]);
                }
                i
            },
        };
        let ghost listed = self.telemetry_routes@;
        proof {
            assert(first_at(listed, instance_key@, i as int));
            lemma_route_found(listed, instance_key@, i as int, listed[i as int].1);
            assert forall|handle: TelemetryHandle| #[trigger]
                routes_map(listed.update(i as int, (listed[i as int].0, handle))) == routes_map(
                    before,
                ).insert(instance_key@, handle@) by {
                lemma_route_found(listed, instance_key@, i as int, handle);
                assert(routes_map(listed).insert(instance_key@, handle@) =~= routes_map(
                    before,
                ).insert(instance_key@, handle@));
            }
        }
        let handle = &mut self.telemetry_routes[i].1;
        proof {
            use_type_invariant(&*handle);
        }
        handle
    }

    /// Applies Module-owned queue and source policy before the factory is linked.
    #[must_use]
    pub fn with_config(self, config: OtelModuleConfig) -> (factory: Self)
        ensures
            factory@ == (FactoryView { config: config@, ..self@ }),
    {
        OtelModuleFactory { config, ..self }
    }

    /// Exposes the explicit application telemetry Capability in this Module plan.
    #[must_use]
    pub fn with_telemetry_capability(self) -> (factory: Self)
        ensures
            factory@ == (FactoryView { exposes_telemetry: true, ..self@ }),
    {
        OtelModuleFactory { expose_telemetry_capability: true, ..self }
    }

    /// Returns the queue and source policy of new generations.
    pub fn config(&self) -> (config: &OtelModuleConfig)
        ensures
            config@ == self@.config,
    {
        &self.config
    }

    /// Returns host-observed exporter outcomes aggregated across this factory's generations.
    pub fn stats(&self) -> (stats: &OtelExportStats)
        ensures
            stats@ == self@.stats,
    {
        &self.stats
    }

    /// Returns the statistics that the export workers of all generations add to.
    pub fn stats_mut(&mut self) -> (stats: &mut OtelExportStats)
        ensures
            stats@ == old(self)@.stats,
            final(self)@ == (FactoryView { stats: final(stats)@, ..old(self)@ }),
    {
        &mut self.stats
    }

    /// Prepares one generation of a Module Instance, given whether its subscription to the
    /// Runtime Diagnostics succeeded. The generation has a telemetry queue of its own in the
    /// route of the instance, and an endpoint where the Capability is exposed.
    pub fn instantiate(&mut self, instance_key: &str, subscription: Result<(), String>) -> (result:
        Result<OtelModuleInstance, OtelModuleFailure>)
        ensures
            old(self)@.wf() ==> final(self)@.wf(),
            match subscription {
                Ok(_) => {
                    let identity = final(self)@.routes[instance_key@].identity;
                    let route = old(self)@.route(instance_key@, identity);
                    &&& final(self)@.routes[instance_key@].wf()
                    &&& final(self)@ == old(self)@.with_route(
                        instance_key@,
                        route.prepared(old(self)@.config.telemetry_queue_capacity),
                    )
                    &&& result matches Ok(instance) && {
                        &&& instance.lifecycle@.observed
                        &&& instance.lifecycle@.generation == (GenerationView {
                            route: identity,
                            number: route.queues.len() as usize,
                        })
                        &&& final(self)@.routes[instance_key@].has(instance.lifecycle@.generation)
                        &&& instance.endpoint matches Some(endpoint)
                            ==> endpoint@ == instance.lifecycle@.generation
                        &&& instance.endpoint is Some <==> old(self)@.exposes_telemetry
                    }
                },
                Err(error) => {
                    &&& final(self)@ == old(self)@
                    &&& result matches Err(OtelModuleFailure::InvalidResolvedPlan { detail })
                        && detail@ == "OTel diagnostics observer could not be created: "@ + error@
                },
            },
    {
        match subscription {
            Ok(()) => {
                let capacity = self.config.telemetry_queue_capacity();
                let exposed = self.expose_telemetry_capability;
                let telemetry = GenerationTelemetry::new(self.telemetry_for(instance_key), capacity);
                let endpoint = if exposed {
                    Some(OtelTelemetryEndpoint { telemetry })
                } else {
                    None
                };
                Ok(
                    OtelModuleInstance {
                        lifecycle: OtelModuleLifecycle { observed: true, telemetry },
                        endpoint,
                    },
                )
            },
            Err(error) => Err(
                OtelModuleFailure::InvalidResolvedPlan {
                    detail: joined(
                        "OTel diagnostics observer could not be created: ",
                        error.as_str(),
                    ),
                },
            ),
        }
    }
}

/// What one generation of the Module consists of.
pub struct OtelModuleInstance {
    /// Activates and deactivates the generation.
    pub lifecycle: OtelModuleLifecycle,
    /// Serves the telemetry Capability, where it is exposed.
    pub endpoint: Option<OtelTelemetryEndpoint>,
}

/// The state of one generation's lifecycle.
pub struct LifecycleView {
    /// Whether the subscription to the Runtime Diagnostics still waits for its worker.
    pub observed: bool,
    /// The generation.
    pub generation: GenerationView,
}

/// Activates and deactivates one generation.
pub struct OtelModuleLifecycle {
    observed: bool,
    telemetry: GenerationTelemetry,
}

impl View for OtelModuleLifecycle {
    type V = LifecycleView;

    closed spec fn view(&self) -> LifecycleView {
        LifecycleView { observed: self.observed, generation: self.telemetry@ }
    }
}

/// What an activation is told.
pub enum ActivationEvent {
    /// The Kernel asks for the activation.
    Requested,
    /// The diagnostics worker was scheduled, or why not.
    DiagnosticsScheduled(Result<(), String>),
    /// The application worker was scheduled, or why not.
    TelemetryScheduled(Result<(), String>),
}

/// What an activation does next.
pub enum ActivationAction {
    /// Schedule the worker that exports diagnostics.
    ScheduleDiagnostics,
    /// Schedule the worker that exports application signals.
    ScheduleTelemetry,
    /// The generation is active.
    Complete,
    /// The generation could not be activated.
    Fail(OtelModuleFailure),
}

/// Whether an action reports an internal failure with this detail.
pub open spec fn fails_with(action: ActivationAction, expected: Seq<char>) -> bool {
    action matches ActivationAction::Fail(OtelModuleFailure::Internal { detail })
        && detail@ == expected
}

/// Whether an action is what follows an event: first the diagnostics worker is scheduled,
/// which takes the one subscription, then the application worker. Any refusal fails.
pub open spec fn follows(
    lifecycle: LifecycleView,
    event: ActivationEvent,
    action: ActivationAction,
) -> bool {
    match event {
        ActivationEvent::Requested => if lifecycle.observed {
            action is ScheduleDiagnostics
        } else {
            fails_with(action, "OTel diagnostics observer was activated twice"@)
        },
        ActivationEvent::DiagnosticsScheduled(Ok(_)) => action is ScheduleTelemetry,
        ActivationEvent::DiagnosticsScheduled(Err(error)) => fails_with(
            action,
            "failed to schedule OTel diagnostics export: "@ + error@,
        ),
        ActivationEvent::TelemetryScheduled(Ok(_)) => action is Complete,
        ActivationEvent::TelemetryScheduled(Err(error)) => fails_with(
            action,
            "failed to schedule OTel application export: "@ + error@,
        ),
    }
}

/// The lifecycle after an event.
pub open spec fn lifecycle_after(lifecycle: LifecycleView, event: ActivationEvent) -> LifecycleView {
    match event {
        ActivationEvent::Requested => LifecycleView { observed: false, ..lifecycle },
        _ => lifecycle,
    }
}

/// The route of the instance after an event: it leads to the generation once both workers
/// are scheduled.
pub open spec fn route_after(
    lifecycle: LifecycleView,
    route: RouteView,
    event: ActivationEvent,
) -> RouteView {
    match event {
        ActivationEvent::TelemetryScheduled(Ok(_)) => route.activated(lifecycle.generation.number),
        _ => route,
    }
}

/// A failure with this detail.
fn internal(detail: String) -> (action: ActivationAction)
    ensures
        fails_with(action, detail@),
{
    ActivationAction::Fail(OtelModuleFailure::Internal { detail })
}

impl OtelModuleLifecycle {
    /// The queue of the generation.
    pub fn telemetry(&self) -> (telemetry: GenerationTelemetry)
        ensures
            telemetry@ == self@.generation,
    {
        self.telemetry
    }

    /// Decides the next step of an activation.
    pub fn activate(&mut self, host: &mut TelemetryHandle, event: ActivationEvent) -> (action:
        ActivationAction)
        requires
            old(host)@.has(old(self)@.generation),
        ensures
            follows(old(self)@, event, action),
            final(self)@ == lifecycle_after(old(self)@, event),
            final(host)@ == route_after(old(self)@, old(host)@, event),
            final(host)@.wf(),
            final(host)@.has(final(self)@.generation),
    {
        proof {
            use_type_invariant(&*host);
        }
        match event {
            ActivationEvent::Requested => {
                let observed = self.observed;
                self.observed = false;
                if observed {
                    ActivationAction::ScheduleDiagnostics
                } else {
                    internal("OTel diagnostics observer was activated twice".to_owned())
                }
            },
            ActivationEvent::DiagnosticsScheduled(Ok(())) => ActivationAction::ScheduleTelemetry,
            ActivationEvent::DiagnosticsScheduled(Err(error)) => internal(
                joined("failed to schedule OTel diagnostics export: ", error.as_str()),
            ),
            ActivationEvent::TelemetryScheduled(Ok(())) => {
                host.activate(&self.telemetry);
                ActivationAction::Complete
            },
            ActivationEvent::TelemetryScheduled(Err(error)) => internal(
                joined("failed to schedule OTel application export: ", error.as_str()),
            ),
        }
    }

    /// Closes the generation.
    pub fn deactivate(&self, host: &mut TelemetryHandle)
        requires
            old(host)@.has(self@.generation),
        ensures
            final(host)@ == old(host)@.deactivated(self@.generation.number),
            final(host)@.wf(),
            final(host)@.has(self@.generation),
    {
        host.deactivate(&self.telemetry);
    }
}

/// Serves the telemetry Capability for one generation.
pub struct OtelTelemetryEndpoint {
    telemetry: GenerationTelemetry,
}

impl View for OtelTelemetryEndpoint {
    type V = GenerationView;

    closed spec fn view(&self) -> GenerationView {
        self.telemetry@
    }
}

impl OtelTelemetryEndpoint {
    /// Answers one request. `request` is the signal that the request carries, if it carries
    /// one. Only the `emit` Operation is known, and it takes a signal.
    pub fn invoke(
        &self,
        host: &mut TelemetryHandle,
        operation: &str,
        request: Option<OtelSignal>,
    ) -> (result: Result<Result<TelemetryResponse, TelemetryError>, OtelModuleFailure>)
        requires
            old(host)@.has(self@),
        ensures
            final(host)@.wf(),
            final(host)@.has(self@),
            operation@ != OTEL_TELEMETRY_OPERATION@ ==> {
                &&& result matches Err(
                    OtelModuleFailure::UnknownOperation { capability, operation: unknown },
                ) && capability@ == OTEL_TELEMETRY_CAPABILITY_ID@ && unknown@ == operation@
                &&& final(host)@ == old(host)@
            },
            operation@ == OTEL_TELEMETRY_OPERATION@ && request is None ==> {
                &&& result matches Err(OtelModuleFailure::ProtocolViolation { capability })
                    && capability@ == OTEL_TELEMETRY_CAPABILITY_ID@
                &&& final(host)@ == old(host)@
            },
            operation@ == OTEL_TELEMETRY_OPERATION@ && (request matches Some(signal)
                && !admission::valid_signal(signal)) ==> {
                &&& result matches Ok(Err(error)) && error == TelemetryError::InvalidSignal
                &&& final(host)@ == old(host)@
            },
            operation@ == OTEL_TELEMETRY_OPERATION@ ==> (request matches Some(signal) ==> (
            admission::valid_signal(signal) ==> {
                let queue = old(host)@.queues[self@.number as int];
                &&& result matches Ok(Ok(response)) && response.admission == queue.admission()
                &&& final(host)@ == old(host)@.with_queue(self@.number, queue.enqueued(signal))
            })),
    {
        proof {
            use_type_invariant(&*host);
        }
        if !text::same_text(operation, OTEL_TELEMETRY_OPERATION) {
            return Err(
                OtelModuleFailure::UnknownOperation {
                    capability: OTEL_TELEMETRY_CAPABILITY_ID,
                    operation: operation.to_owned(),
                },
            );
        }
        match request {
            None => Err(
                OtelModuleFailure::ProtocolViolation { capability: OTEL_TELEMETRY_CAPABILITY_ID },
            ),
            Some(signal) => match self.telemetry.try_emit(host, signal) {
                Ok(admission) => Ok(Ok(TelemetryResponse { admission })),
                Err(error) => Ok(Err(error)),
            },
        }
    }
}

} // verus!
