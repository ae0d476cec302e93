//! Laws of the Module's factory and of the lifecycle of its generations.

use vstd::prelude::*;

use crate::diagnostic::DiagnosticSource;
use crate::module;
use crate::module::{
    ActivationAction, ActivationEvent, ConfigView, FactoryView, LifecycleView,
};
use crate::signal::OtelSignal;
use crate::telemetry;
use crate::telemetry::{QueueView, RouteView, TelemetryAdmission};
use crate::telemetry_laws;

verus! {

/// The route of a Module Instance is stable: whoever asks for it again finds it as it was
/// left.
pub proof fn law_route_is_stable(
    factory: FactoryView,
    instance_key: Seq<char>,
    route: RouteView,
    identity: int,
)
    ensures
        factory.with_route(instance_key, route).route(instance_key, identity) == route,
{
}

/// The telemetry of Module Instances is isolated: what happens on the route of one leaves the
/// route of every other as it is.
pub proof fn law_instances_are_isolated(
    factory: FactoryView,
    instance_key: Seq<char>,
    route: RouteView,
    other: Seq<char>,
    identity: int,
)
    requires
        other != instance_key,
    ensures
        factory.with_route(instance_key, route).route(other, identity) == factory.route(
            other,
            identity,
        ),
{
}

/// A generation that is only prepared disturbs nothing: the generations before it and the
/// answers that the host gets stay as they are.
pub proof fn law_preparation_disturbs_nothing(route: RouteView, capacity: usize)
    requires
        route.wf(),
    ensures
        route.prepared(capacity).active == route.active,
        route.prepared(capacity).admission() == route.admission(),
        route.prepared(capacity).queues.drop_last() == route.queues,
        route.prepared(capacity).queues.last() == QueueView::empty(capacity),
{
    assert(route.prepared(capacity).queues.drop_last() =~= route.queues);
}

/// Whatever happens on its routes, a factory keeps every one of them in order.
pub proof fn law_factory_stays_in_order(
    factory: FactoryView,
    instance_key: Seq<char>,
    route: RouteView,
)
    requires
        factory.wf(),
        route.wf(),
    ensures
        factory.with_route(instance_key, route).wf(),
{
}

/// No event of an activation but the scheduling of the application worker changes the route.
pub proof fn law_other_events_leave_the_route(
    lifecycle: LifecycleView,
    route: RouteView,
    event: ActivationEvent,
)
    requires
        !(event matches ActivationEvent::TelemetryScheduled(Ok(_))),
    ensures
        module::route_after(lifecycle, route, event) == route,
{
}

/// Whether an event reports on what an action asked for.
pub open spec fn reports_on(action: ActivationAction, event: ActivationEvent) -> bool {
    match action {
        ActivationAction::ScheduleDiagnostics => event is DiagnosticsScheduled,
        ActivationAction::ScheduleTelemetry => event is TelemetryScheduled,
        ActivationAction::Complete => false,
        ActivationAction::Fail(_) => false,
    }
}

/// Whether these events and actions are an activation, up to some point: it starts with the
/// request, each action follows its event, and each further event reports on the action
/// before it.
pub open spec fn activation(
    lifecycle: LifecycleView,
    events: Seq<ActivationEvent>,
    actions: Seq<ActivationAction>,
) -> bool {
    &&& events.len() == actions.len()
    &&& events.len() > 0 ==> events[0] is Requested
    &&& forall|i: int|
        0 <= i < events.len() ==> module::follows(
            after_events(lifecycle, events.take(i)),
            #[trigger] events[i],
            actions[i],
        )
    &&& forall|i: int|
        0 < i < events.len() ==> reports_on(actions[i - 1], #[trigger] events[i])
}

/// The route of the instance after one event after another.
pub open spec fn route_after_events(
    lifecycle: LifecycleView,
    route: RouteView,
    events: Seq<ActivationEvent>,
) -> RouteView
    decreases events.len(),
{
    if events.len() == 0 {
        route
    } else {
        module::route_after(
            after_events(lifecycle, events.drop_last()),
            route_after_events(lifecycle, route, events.drop_last()),
            events.last(),
        )
    }
}

/// The host's signals reach a generation only after both of its workers were scheduled, the
/// one for diagnostics first: an activation that consists of the request and these two reports
/// leads the route to the generation, and every other one leaves the route as it was.
pub proof fn law_route_opens_after_both_workers(
    lifecycle: LifecycleView,
    route: RouteView,
    events: Seq<ActivationEvent>,
    actions: Seq<ActivationAction>,
)
    requires
        activation(lifecycle, events, actions),
    ensures
        events.len() <= 3,
        ({
            let opened = events.len() == 3 && (events[1] matches
                ActivationEvent::DiagnosticsScheduled(Ok(_))) && (events[2] matches
                ActivationEvent::TelemetryScheduled(Ok(_)));
            &&& opened ==> actions[2] is Complete && route_after_events(lifecycle, route, events)
                == route.activated(lifecycle.generation.number)
            &&& !opened ==> route_after_events(lifecycle, route, events) == route
        }),
{
    reveal_with_fuel(route_after_events, 4);
    reveal_with_fuel(after_events, 4);
    if events.len() > 1 {
        assert(reports_on(actions[0], events[1]));
    }
    if events.len() > 2 {
        assert(reports_on(actions[1], events[2]));
    }
    if events.len() > 3 {
        assert(reports_on(actions[2], events[3]));
    }
}

/// A failed activation leaves the route as it was, and a completed one leads it to the
/// generation.
pub proof fn law_activation_is_all_or_nothing(
    lifecycle: LifecycleView,
    route: RouteView,
    event: ActivationEvent,
    action: ActivationAction,
)
    requires
        module::follows(lifecycle, event, action),
    ensures
        action is Fail ==> module::route_after(lifecycle, route, event) == route,
        action is Complete ==> module::route_after(lifecycle, route, event).active == Some(
            lifecycle.generation.number,
        ),
{
}

/// A generation is activated at most once: after the first request every further one fails,
/// whatever happened in between.
pub proof fn law_second_activation_fails(
    lifecycle: LifecycleView,
    events: Seq<ActivationEvent>,
    action: ActivationAction,
)
    requires
        module::follows(
            after_events(module::lifecycle_after(lifecycle, ActivationEvent::Requested), events),
            ActivationEvent::Requested,
            action,
        ),
    ensures
        module::fails_with(action, "OTel diagnostics observer was activated twice"@),
{
    lemma_observer_stays_taken(
        module::lifecycle_after(lifecycle, ActivationEvent::Requested),
        events,
    );
}

/// A lifecycle after one event after another.
pub open spec fn after_events(lifecycle: LifecycleView, events: Seq<ActivationEvent>) -> LifecycleView
    decreases events.len(),
{
    if events.len() == 0 {
        lifecycle
    } else {
        module::lifecycle_after(after_events(lifecycle, events.drop_last()), events.last())
    }
}

/// A subscription that was taken does not come back.
proof fn lemma_observer_stays_taken(lifecycle: LifecycleView, events: Seq<ActivationEvent>)
    requires
        !lifecycle.observed,
    ensures
        !after_events(lifecycle, events).observed,
    decreases events.len(),
{
    if events.len() > 0 {
        lemma_observer_stays_taken(lifecycle, events.drop_last());
    }
}

/// From preparation to shutdown: a new generation answers the host once it is activated, with
/// room for at least one signal, and refuses the host once it is deactivated.
pub proof fn law_generation_serves_while_active(route: RouteView, capacity: usize)
    requires
        route.wf(),
        route.queues.len() < usize::MAX,
    ensures
        ({
            let generation = route.queues.len() as usize;
            let active = route.prepared(capacity).activated(generation);
            &&& active.admission() == TelemetryAdmission::Accepted
            &&& active.deactivated(generation).admission() == TelemetryAdmission::Closed
        }),
{
}

/// The stable identities and the default capacities.
pub proof fn law_identities()
    ensures
        module::OTEL_MODULE_PACKAGE_ID@ == "lenso.opentelemetry.module"@,
        module::OTEL_TELEMETRY_CAPABILITY_ID@ == "lenso.otel.telemetry@1"@,
        module::OTEL_TELEMETRY_DESCRIPTOR_VERSION@ == "1.0.0"@,
        module::OTEL_TELEMETRY_OPERATION@ == "emit"@,
        module::DEFAULT_DIAGNOSTIC_QUEUE_CAPACITY == 256,
        module::DEFAULT_TELEMETRY_QUEUE_CAPACITY == 256,
{
}

/// The default configuration selects every diagnostic source and queues of 256.
pub proof fn law_default_configuration(config: ConfigView, source: DiagnosticSource)
    requires
        config.is_default(),
    ensures
        module::filter_sources(config.diagnostic_filter).contains(source),
        config.diagnostic_queue_capacity == 256,
        config.telemetry_queue_capacity == 256,
{
}

/// A configured capacity is taken as it is, and zero as one.
pub proof fn law_configured_capacity(capacity: usize)
    ensures
        capacity > 0 ==> telemetry::normalized(capacity) == capacity,
        capacity == 0 ==> telemetry::normalized(capacity) == 1,
{
}

/// What an activation does on each event. The first request schedules the diagnostics worker,
/// any later one fails; each worker that was scheduled leads to the next step, and each that
/// was not fails with the reason that was given. The request takes the one subscription, and
/// nothing else changes the lifecycle.
pub proof fn law_activation_verdict(
    lifecycle: LifecycleView,
    event: ActivationEvent,
    action: ActivationAction,
)
    requires
        module::follows(lifecycle, event, action),
    ensures
        event is Requested && lifecycle.observed ==> action is ScheduleDiagnostics,
        event is Requested && !lifecycle.observed ==> internal_failure(
            action,
            "OTel diagnostics observer was activated twice"@,
        ),
        event matches ActivationEvent::DiagnosticsScheduled(scheduled) ==> match scheduled {
            Ok(_) => action is ScheduleTelemetry,
            Err(error) => internal_failure(
                action,
                "failed to schedule OTel diagnostics export: "@ + error@,
            ),
        },
        event matches ActivationEvent::TelemetryScheduled(scheduled) ==> match scheduled {
            Ok(_) => action is Complete,
            Err(error) => internal_failure(
                action,
                "failed to schedule OTel application export: "@ + error@,
            ),
        },
        module::lifecycle_after(lifecycle, event).generation == lifecycle.generation,
        module::lifecycle_after(lifecycle, event).observed == (lifecycle.observed
            && !(event is Requested)),
{
}

/// Whether an activation ends in an internal failure with this detail.
pub open spec fn internal_failure(action: ActivationAction, detail: Seq<char>) -> bool {
    &&& action is Fail
    &&& action->Fail_0 is Internal
    &&& action->Fail_0->Internal_detail@ == detail
}

/// A route that changes is the only thing of a factory that changes, and a Module Instance
/// that nobody has asked for has a route without generations.
pub proof fn law_factory_verdict(
    factory: FactoryView,
    instance_key: Seq<char>,
    route: RouteView,
    identity: int,
)
    ensures
        factory.with_route(instance_key, route).routes == factory.routes.insert(
            instance_key,
            route,
        ),
        factory.with_route(instance_key, route).config == factory.config,
        factory.with_route(instance_key, route).stats == factory.stats,
        factory.with_route(instance_key, route).exposes_telemetry == factory.exposes_telemetry,
        factory.routes.contains_key(instance_key) ==> factory.route(instance_key, identity)
            == factory.routes[instance_key],
        !factory.routes.contains_key(instance_key) ==> factory.route(
            instance_key,
            identity,
        ).queues.len() == 0 && factory.route(instance_key, identity).active is None,
{
}

/// A generation that is prepared and activated with a configured capacity takes a burst of as
/// many admissible signals as that, whole and in order, before the host is told that one was
/// dropped.
pub proof fn law_generation_takes_its_capacity(
    route: RouteView,
    capacity: usize,
    signals: Seq<OtelSignal>,
)
    requires
        route.wf(),
        route.queues.len() < usize::MAX,
        capacity > 0,
    ensures
        ({
            let number = route.queues.len() as usize;
            let active = route.prepared(capacity).activated(number);
            let queue = active.queues[number as int];
            let after = telemetry_laws::offered(queue, signals);
            &&& active.active_queue() == Some(queue)
            &&& queue.capacity == capacity
            &&& signals.len() <= capacity ==> after.pending == signals && after.dropped == 0
            &&& signals.len() == capacity ==> after.admission() is Dropped
            &&& signals.len() < capacity ==> after.admission() is Accepted
        }),
{
    let number = route.queues.len() as usize;
    let prepared = route.prepared(capacity);
    let active = prepared.activated(number);
    assert(active.queues[number as int] == QueueView::empty(capacity));
    telemetry_laws::law_new_queue(capacity);
    telemetry_laws::law_new_queue_takes_its_capacity(capacity, signals);
}

} // verus!
