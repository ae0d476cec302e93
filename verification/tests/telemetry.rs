use lenso_otel_module::attributes::Attributes;
use lenso_otel_module::telemetry::{
    GenerationTelemetry, Reception, TelemetryQueue, normalize_capacity,
};
use lenso_otel_module::{
    OtelLog, OtelSeverity, OtelSignal, TelemetryAdmission, TelemetryError, TelemetryHandle,
};

fn log(body: &str) -> OtelSignal {
    OtelSignal::Log(OtelLog {
        timestamp: 0,
        severity: OtelSeverity::Info,
        body: body.to_owned(),
        attributes: Attributes::new(),
    })
}

#[test]
fn capacities_are_at_least_one() {
    assert_eq!(normalize_capacity(0), 1);
    assert_eq!(normalize_capacity(1), 1);
    assert_eq!(normalize_capacity(usize::MAX), usize::MAX);
    let mut queue = TelemetryQueue::new(0);
    assert_eq!(queue.enqueue(log("a")), TelemetryAdmission::Accepted);
    assert_eq!(queue.enqueue(log("b")), TelemetryAdmission::Dropped);
}

#[test]
fn a_burst_keeps_its_first_signals_in_order() {
    let mut handle = TelemetryHandle::new();
    let generation = GenerationTelemetry::new(&mut handle, 2);
    handle.activate(&generation);
    assert_eq!(handle.capacity(), 2);
    for (body, admission) in [
        ("a", TelemetryAdmission::Accepted),
        ("b", TelemetryAdmission::Accepted),
        ("c", TelemetryAdmission::Dropped),
        ("d", TelemetryAdmission::Dropped),
    ] {
        assert_eq!(handle.try_emit(log(body)), Ok(admission));
    }
    assert_eq!(handle.pending_count(), 2);
    assert_eq!(handle.dropped_count(), 2);
    assert_eq!(generation.receive(&mut handle), Reception::Signal(log("a")));
    assert_eq!(
        handle.try_emit(log("e")),
        Ok(TelemetryAdmission::Accepted)
    );
    assert_eq!(generation.receive(&mut handle), Reception::Signal(log("b")));
    assert_eq!(generation.receive(&mut handle), Reception::Signal(log("e")));
    assert_eq!(generation.receive(&mut handle), Reception::Waiting);
    assert_eq!(handle.dropped_count(), 2);
}

#[test]
fn a_closed_queue_drains_and_stays_closed() {
    let mut queue = TelemetryQueue::new(2);
    assert_eq!(queue.enqueue(log("a")), TelemetryAdmission::Accepted);
    queue.close();
    queue.close();
    assert_eq!(queue.enqueue(log("b")), TelemetryAdmission::Closed);
    assert_eq!(queue.receive(), Reception::Signal(log("a")));
    assert_eq!(queue.receive(), Reception::Closed);
    assert_eq!(queue.enqueue(log("b")), TelemetryAdmission::Closed);
}

#[test]
fn a_waiting_receiver_is_owed_one_wake_up() {
    let mut queue = TelemetryQueue::new(1);
    assert!(!queue.take_wake());
    assert_eq!(queue.receive(), Reception::Waiting);
    assert!(!queue.take_wake());
    assert_eq!(queue.enqueue(log("a")), TelemetryAdmission::Accepted);
    assert!(queue.take_wake());
    assert!(!queue.take_wake());
    assert_eq!(queue.receive(), Reception::Signal(log("a")));
    assert_eq!(queue.receive(), Reception::Waiting);
    queue.close();
    assert!(queue.take_wake());
    assert_eq!(queue.receive(), Reception::Closed);
}

#[test]
fn an_owed_wake_up_is_kept_until_it_is_taken() {
    let mut queue = TelemetryQueue::new(2);
    assert_eq!(queue.receive(), Reception::Waiting);
    assert_eq!(queue.enqueue(log("a")), TelemetryAdmission::Accepted);
    assert_eq!(queue.enqueue(log("b")), TelemetryAdmission::Accepted);
    queue.close();
    assert_eq!(queue.receive(), Reception::Signal(log("a")));
    assert!(queue.take_wake());
}

#[test]
fn a_released_queue_is_closed_and_empty() {
    let mut queue = TelemetryQueue::new(1);
    assert_eq!(queue.enqueue(log("a")), TelemetryAdmission::Accepted);
    queue.release();
    assert_eq!(queue.receive(), Reception::Closed);
    assert_eq!(queue.enqueue(log("b")), TelemetryAdmission::Closed);
}

#[test]
fn an_inactive_route_counts_nothing() {
    let mut handle = TelemetryHandle::new();
    assert_eq!(handle.try_emit(log("a")), Ok(TelemetryAdmission::Closed));
    assert_eq!(
        handle.try_emit(log("")),
        Err(TelemetryError::InvalidSignal)
    );
    assert_eq!(handle.dropped_count(), 0);
    assert_eq!(handle.pending_count(), 0);
    assert_eq!(handle.capacity(), 0);
}

#[test]
fn a_replaced_generation_drains_behind_the_new_one() {
    let mut handle = TelemetryHandle::new();
    let first = GenerationTelemetry::new(&mut handle, 1);
    handle.activate(&first);
    assert_eq!(handle.try_emit(log("a")), Ok(TelemetryAdmission::Accepted));
    let second = GenerationTelemetry::new(&mut handle, 3);
    // A prepared generation changes nothing for the host.
    assert_eq!(handle.try_emit(log("b")), Ok(TelemetryAdmission::Dropped));
    assert_eq!(handle.dropped_count(), 1);
    handle.activate(&second);
    assert_eq!(handle.dropped_count(), 0);
    assert_eq!(handle.capacity(), 3);
    assert_eq!(handle.try_emit(log("c")), Ok(TelemetryAdmission::Accepted));
    assert_eq!(first.receive(&mut handle), Reception::Signal(log("a")));
    assert_eq!(first.receive(&mut handle), Reception::Closed);
    // A stale deactivation leaves the active generation alone.
    handle.deactivate(&first);
    assert_eq!(handle.pending_count(), 1);
    assert_eq!(second.receive(&mut handle), Reception::Signal(log("c")));
}

#[test]
fn activating_the_active_generation_again_closes_it() {
    let mut handle = TelemetryHandle::new();
    let generation = GenerationTelemetry::new(&mut handle, 1);
    handle.activate(&generation);
    handle.activate(&generation);
    assert_eq!(handle.try_emit(log("a")), Ok(TelemetryAdmission::Closed));
    assert_eq!(handle.capacity(), 1);
}

#[test]
fn a_generation_is_released_unless_the_route_leads_to_it() {
    let mut handle = TelemetryHandle::new();
    let generation = GenerationTelemetry::new(&mut handle, 2);
    handle.activate(&generation);
    assert_eq!(handle.try_emit(log("a")), Ok(TelemetryAdmission::Accepted));
    generation.release(&mut handle);
    assert_eq!(handle.pending_count(), 1);
    handle.deactivate(&generation);
    generation.release(&mut handle);
    assert_eq!(generation.receive(&mut handle), Reception::Closed);
}

#[test]
fn a_route_knows_its_generations() {
    let mut handle = TelemetryHandle::new();
    let first = GenerationTelemetry::new(&mut handle, 1);
    let second = GenerationTelemetry::new(&mut handle, 1);
    assert_eq!((first.number(), second.number()), (0, 1));
    assert!(handle.has_generation(&first));
    assert!(handle.has_generation(&second));
    assert!(!TelemetryHandle::new().has_generation(&first));
    assert_eq!(second.receive(&mut handle), Reception::Waiting);
    assert!(!second.take_wake(&mut handle));
    assert_eq!(
        second.try_emit(&mut handle, log("a")),
        Ok(TelemetryAdmission::Accepted)
    );
    assert!(second.take_wake(&mut handle));
    assert!(!first.take_wake(&mut handle));
    assert_eq!(
        first.try_emit(&mut handle, log("")),
        Err(TelemetryError::InvalidSignal)
    );
}
