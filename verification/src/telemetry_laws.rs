//! Laws of the telemetry queues and of the route that leads to the active one.

use vstd::prelude::*;

use crate::admission;
use crate::signal::OtelSignal;
use crate::telemetry::{
    GenerationView, QueueView, Receiver, Reception, RouteView, TelemetryAdmission,
};

verus! {

/// Whatever happens to a queue, it never holds more than its capacity allows, and nobody
/// waits for a queue that holds something or is closed.
pub proof fn law_queue_stays_bounded(queue: QueueView, signal: OtelSignal)
    requires
        queue.wf(),
    ensures
        queue.enqueued(signal).wf(),
        queue.received().wf(),
        queue.shut().wf(),
        queue.settled().wf(),
        queue.released().wf(),
{
}

/// As long as only admissible signals are offered, only admissible signals are pending.
pub proof fn law_queue_stays_admissible(queue: QueueView, signal: OtelSignal)
    requires
        queue.admissible(),
    ensures
        admission::valid_signal(signal) ==> queue.enqueued(signal).admissible(),
        queue.received().admissible(),
        queue.shut().admissible(),
        queue.settled().admissible(),
        queue.released().admissible(),
{
    let after = queue.received();
    assert forall|i: int| 0 <= i < after.pending.len() implies admission::valid_signal(
        #[trigger] after.pending[i],
    ) by {
        if queue.pending.len() > 0 {
            assert(after.pending[i] == queue.pending[i + 1]);
        }
    }
}

/// The encoded size of a row of signals.
pub open spec fn total_bytes(signals: Seq<OtelSignal>) -> nat
    decreases signals.len(),
{
    if signals.len() == 0 {
        0
    } else {
        total_bytes(signals.drop_last()) + admission::encoded_size(signals.last())
    }
}

/// The size of a queue is bounded in bytes, not only in signals: it never holds more than
/// its capacity times the largest admissible signal.
pub proof fn law_pending_bytes_are_bounded(queue: QueueView)
    requires
        queue.wf(),
        queue.admissible(),
    ensures
        total_bytes(queue.pending) <= queue.capacity * admission::MAX_OTEL_SIGNAL_ENCODED_BYTES,
{
    lemma_total_bytes(queue.pending);
    assert(queue.pending.len() * admission::MAX_OTEL_SIGNAL_ENCODED_BYTES <= queue.capacity
        * admission::MAX_OTEL_SIGNAL_ENCODED_BYTES) by (nonlinear_arith)
        requires
            queue.pending.len() <= queue.capacity,
    ;
}

/// Each admissible signal adds a bounded size.
proof fn lemma_total_bytes(signals: Seq<OtelSignal>)
    requires
        forall|i: int| 0 <= i < signals.len() ==> admission::valid_signal(#[trigger] signals[i]),
    ensures
        total_bytes(signals) <= signals.len() * admission::MAX_OTEL_SIGNAL_ENCODED_BYTES,
    decreases signals.len(),
{
    if signals.len() > 0 {
        let earlier = signals.drop_last();
        assert forall|i: int| 0 <= i < earlier.len() implies admission::valid_signal(
            #[trigger] earlier[i],
        ) by {
            assert(earlier[i] == signals[i]);
        }
        lemma_total_bytes(earlier);
        assert(admission::valid_signal(signals[signals.len() - 1]));
        assert(signals.len() * admission::MAX_OTEL_SIGNAL_ENCODED_BYTES == (signals.len() - 1)
            * admission::MAX_OTEL_SIGNAL_ENCODED_BYTES + admission::MAX_OTEL_SIGNAL_ENCODED_BYTES)
            by (nonlinear_arith);
    }
}

/// A new queue is in order, and has room for at least one signal.
pub proof fn law_new_queue_has_room(capacity: usize)
    ensures
        QueueView::empty(capacity).wf(),
        QueueView::empty(capacity).admissible(),
        !QueueView::empty(capacity).full(),
        QueueView::empty(capacity).admission() == TelemetryAdmission::Accepted,
{
}

/// Whatever happens to a route that is offered admissible signals only, its queues stay
/// bounded and hold admissible signals only, and the active generation stays one of its own.
pub proof fn law_route_stays_in_order(
    route: RouteView,
    generation: usize,
    signal: OtelSignal,
    capacity: usize,
)
    requires
        route.wf(),
        route.has_number(generation),
    ensures
        admission::valid_signal(signal) ==> route.emitted(signal).wf(),
        route.prepared(capacity).wf(),
        route.activated(generation).wf(),
        route.deactivated(generation).wf(),
        route.released(generation).wf(),
        admission::valid_signal(signal) ==> route.with_queue(
            generation,
            route.queues[generation as int].enqueued(signal),
        ).wf(),
        route.with_queue(generation, route.queues[generation as int].received()).wf(),
        route.with_queue(generation, route.queues[generation as int].settled()).wf(),
{
    law_queue_stays_bounded(route.queues[generation as int], signal);
    law_queue_stays_admissible(route.queues[generation as int], signal);
    if let Some(active) = route.active {
        law_queue_stays_bounded(route.queues[active as int], signal);
        law_queue_stays_admissible(route.queues[active as int], signal);
    }
}

/// A queue that is offered one signal after another.
pub open spec fn offered(queue: QueueView, signals: Seq<OtelSignal>) -> QueueView
    decreases signals.len(),
{
    if signals.len() == 0 {
        queue
    } else {
        offered(queue, signals.drop_last()).enqueued(signals.last())
    }
}

/// How many more signals fit.
pub open spec fn room(queue: QueueView) -> nat {
    if queue.pending.len() >= queue.capacity {
        0
    } else {
        (queue.capacity - queue.pending.len()) as nat
    }
}

/// Out of a burst of signals an open queue keeps the first ones that fit, in their order,
/// behind what was pending before. All others are dropped, and each drop is counted, up to
/// the largest number that the counter can hold.
pub proof fn law_burst_keeps_the_first(queue: QueueView, signals: Seq<OtelSignal>)
    requires
        queue.wf(),
        !queue.closed,
    ensures
        ({
            let kept = if signals.len() <= room(queue) {
                signals.len()
            } else {
                room(queue)
            };
            let counted = queue.dropped + (signals.len() - kept);
            &&& offered(queue, signals).pending == queue.pending + signals.take(kept as int)
            &&& offered(queue, signals).dropped == (if counted <= u64::MAX {
                counted
            } else {
                u64::MAX as int
            })
            &&& !offered(queue, signals).closed
            &&& offered(queue, signals).capacity == queue.capacity
        }),
    decreases signals.len(),
{
    if signals.len() == 0 {
        assert(queue.pending =~= queue.pending + signals.take(0));
    } else {
        let earlier = signals.drop_last();
        law_burst_keeps_the_first(queue, earlier);
        if earlier.len() < room(queue) {
            assert(signals.take(signals.len() as int) =~= earlier.take(earlier.len() as int).push(
                signals.last(),
            ));
            assert(queue.pending + signals.take(signals.len() as int) =~= (queue.pending
                + earlier.take(earlier.len() as int)).push(signals.last()));
        } else {
            assert(signals.take(room(queue) as int) =~= earlier.take(room(queue) as int));
        }
    }
}

/// A queue after so many attempts to receive.
pub open spec fn drained(queue: QueueView, attempts: nat) -> QueueView
    decreases attempts,
{
    if attempts == 0 {
        queue
    } else {
        drained(queue, (attempts - 1) as nat).received()
    }
}

/// Signals come out in the order in which they went in: the attempt number `attempts` finds
/// the signal at that place, and what stood before it is gone. A closed queue is drained in
/// the same way.
pub proof fn law_signals_come_out_in_order(queue: QueueView, attempts: nat)
    requires
        attempts < queue.pending.len(),
    ensures
        drained(queue, attempts).reception() == Reception::Signal(queue.pending[attempts as int]),
        drained(queue, attempts).pending == queue.pending.skip(attempts as int),
        drained(queue, attempts).closed == queue.closed,
        drained(queue, attempts).dropped == queue.dropped,
    decreases attempts,
{
    if attempts == 0 {
        assert(queue.pending =~= queue.pending.skip(0));
    } else {
        let before = (attempts - 1) as nat;
        law_signals_come_out_in_order(queue, before);
        assert(queue.pending.skip(before as int).drop_first() =~= queue.pending.skip(
            attempts as int,
        ));
    }
}

/// A closed queue takes no signal and stays closed, whatever happens to it; closing it again
/// changes nothing.
pub proof fn law_closed_queue_stays_closed(queue: QueueView, signal: OtelSignal)
    requires
        queue.closed,
    ensures
        queue.admission() == TelemetryAdmission::Closed,
        queue.enqueued(signal) == queue,
        queue.shut() == queue,
        queue.received().closed,
        queue.settled().closed,
        queue.released().closed,
        queue.pending.len() == 0 ==> queue.reception() == Reception::Closed,
{
}

/// No wake-up is lost: a receiver that waits is owed one as soon as a signal enters or the
/// queue is closed, and is owed none before that.
pub proof fn law_waiting_receiver_is_woken(queue: QueueView, signal: OtelSignal)
    requires
        queue.wf(),
        queue.receiver == Receiver::Waiting,
    ensures
        queue.admission() == TelemetryAdmission::Accepted,
        queue.enqueued(signal).receiver == Receiver::Woken,
        queue.shut().receiver == Receiver::Woken,
        queue.reception() == Reception::Waiting,
        queue.settled() == queue,
{
}

/// A wake-up, once owed, stays owed until it is taken over or the receiver waits anew for an
/// open, empty queue.
pub proof fn law_owed_wake_is_kept(queue: QueueView, signal: OtelSignal)
    requires
        queue.receiver == Receiver::Woken,
    ensures
        queue.enqueued(signal).receiver == Receiver::Woken,
        queue.shut().receiver == Receiver::Woken,
        queue.received().receiver == Receiver::Waiting <==> queue.pending.len() == 0
            && !queue.closed,
        queue.pending.len() > 0 || queue.closed ==> queue.received().receiver == Receiver::Woken,
{
}

/// While no generation is active, every valid signal of the host is refused, and nothing
/// changes.
pub proof fn law_inactive_route_refuses(route: RouteView, signal: OtelSignal)
    requires
        route.active is None,
    ensures
        route.admission() == TelemetryAdmission::Closed,
        route.emitted(signal) == route,
{
}

/// A generation that replaces another takes over the route: what was active is closed and
/// refuses all further signals, its pending signals stay receivable, and the route answers
/// as the new generation does.
pub proof fn law_activation_replaces(route: RouteView, previous: usize, next: usize)
    requires
        route.wf(),
        route.has_number(next),
        route.active == Some(previous),
        previous != next,
    ensures
        route.activated(next).active == Some(next),
        route.activated(next).queues[previous as int].admission() == TelemetryAdmission::Closed,
        route.activated(next).queues[previous as int].pending
            == route.queues[previous as int].pending,
        route.activated(next).admission() == route.queues[next as int].admission(),
        forall|other: int|
            0 <= other < route.queues.len() && other != previous ==> #[trigger] route.activated(
                next,
            ).queues[other] == route.queues[other],
{
}

/// Deactivating a generation that is no longer the active one leaves the active one alone:
/// the host's signals are answered and kept as before.
pub proof fn law_stale_deactivation_is_harmless(route: RouteView, stale: usize)
    requires
        route.wf(),
        route.has_number(stale),
        route.active != Some(stale),
    ensures
        route.deactivated(stale).active == route.active,
        route.deactivated(stale).active_queue() == route.active_queue(),
        route.deactivated(stale).admission() == route.admission(),
{
}

/// Deactivating the active generation closes the route: from then on every signal of the
/// host is refused.
pub proof fn law_deactivation_closes(route: RouteView, generation: usize)
    requires
        route.wf(),
        route.has_number(generation),
        route.active == Some(generation),
    ensures
        route.deactivated(generation).active is None,
        route.deactivated(generation).admission() == TelemetryAdmission::Closed,
        route.deactivated(generation).queues[generation as int].admission()
            == TelemetryAdmission::Closed,
{
}

/// A signal of the host enters the active generation and no other.
pub proof fn law_generations_are_isolated(route: RouteView, signal: OtelSignal, other: int)
    requires
        route.wf(),
        0 <= other < route.queues.len(),
        route.active matches Some(active) ==> active != other,
    ensures
        route.emitted(signal).queues[other] == route.queues[other],
        route.emitted(signal).active == route.active,
{
}

/// A new queue has exactly the capacity that it was made for, and one where that is zero. It
/// is open and empty, nothing was dropped, and nobody waits.
pub proof fn law_new_queue(capacity: usize)
    ensures
        QueueView::empty(capacity).capacity == (if capacity == 0 {
            1
        } else {
            capacity as int
        }),
        QueueView::empty(capacity).pending.len() == 0,
        QueueView::empty(capacity).dropped == 0,
        !QueueView::empty(capacity).closed,
        QueueView::empty(capacity).receiver is Idle,
{
}

/// A new queue takes a burst of as many signals as it was made for, whole and in order, and
/// drops only what comes after; where it was made for none, it takes one.
pub proof fn law_new_queue_takes_its_capacity(capacity: usize, signals: Seq<OtelSignal>)
    ensures
        ({
            let places = if capacity == 0 {
                1
            } else {
                capacity as int
            };
            let after = offered(QueueView::empty(capacity), signals);
            &&& signals.len() <= places ==> after.pending == signals && after.dropped == 0
            &&& signals.len() > places ==> after.pending == signals.take(places)
            &&& signals.len() > places && signals.len() - places <= u64::MAX ==> after.dropped
                == signals.len() - places
            &&& signals.len() < places <==> after.admission() is Accepted
            &&& signals.len() >= places <==> after.admission() is Dropped
        }),
{
    let queue = QueueView::empty(capacity);
    law_burst_keeps_the_first(queue, signals);
    assert(queue.pending =~= Seq::empty());
    if signals.len() <= room(queue) {
        assert(queue.pending + signals.take(signals.len() as int) =~= signals);
    } else {
        assert(queue.pending + signals.take(room(queue) as int) =~= signals.take(
            room(queue) as int,
        ));
    }
}

/// What offering a signal comes to. A closed queue refuses it and stays as it is. An open
/// queue with as many pending signals as its capacity drops it and counts that, up to the
/// largest number that the counter can hold. Any other queue takes it behind all pending ones,
/// and wakes a receiver that waits.
pub proof fn law_offer_verdict(queue: QueueView, signal: OtelSignal)
    ensures
        queue.closed ==> queue.admission() is Closed && queue.enqueued(signal) == queue,
        !queue.closed && queue.pending.len() >= queue.capacity ==> {
            let after = queue.enqueued(signal);
            &&& queue.admission() is Dropped
            &&& after.dropped == (if queue.dropped < u64::MAX {
                queue.dropped + 1
            } else {
                u64::MAX as int
            })
            &&& after.pending == queue.pending
            &&& after.capacity == queue.capacity
            &&& !after.closed
            &&& after.receiver == queue.receiver
        },
        !queue.closed && queue.pending.len() < queue.capacity ==> {
            let after = queue.enqueued(signal);
            &&& queue.admission() is Accepted
            &&& after.pending == queue.pending.push(signal)
            &&& after.dropped == queue.dropped
            &&& after.capacity == queue.capacity
            &&& !after.closed
            &&& after.receiver == (if queue.receiver is Waiting {
                Receiver::Woken
            } else {
                queue.receiver
            })
        },
{
}

/// What receiving comes to. The oldest pending signal is taken, whether the queue is open or
/// closed. Where nothing is pending, a closed queue says so, and an open one has its receiver
/// wait. Nothing else changes.
pub proof fn law_receive_verdict(queue: QueueView)
    ensures
        queue.pending.len() > 0 ==> queue.reception() == Reception::Signal(queue.pending[0])
            && queue.received() == (QueueView { pending: queue.pending.skip(1), ..queue }),
        queue.pending.len() == 0 && queue.closed ==> queue.reception() is Closed
            && queue.received() == queue,
        queue.pending.len() == 0 && !queue.closed ==> queue.reception() is Waiting
            && queue.received() == (QueueView { receiver: Receiver::Waiting, ..queue }),
{
    if queue.pending.len() > 0 {
        assert(queue.pending.drop_first() =~= queue.pending.skip(1));
    }
}

/// What closing, taking over a wake-up and letting go come to. Closing keeps what is pending
/// and wakes a receiver that waits; closing twice is closing once. A wake-up is taken over
/// once. A queue that is let go is closed and empty.
pub proof fn law_close_verdict(queue: QueueView)
    ensures
        queue.closed ==> queue.shut() == queue,
        !queue.closed ==> queue.shut() == (QueueView {
            closed: true,
            receiver: if queue.receiver is Waiting {
                Receiver::Woken
            } else {
                queue.receiver
            },
            ..queue
        }),
        queue.receiver is Woken ==> queue.settled() == (QueueView {
            receiver: Receiver::Idle,
            ..queue
        }),
        !(queue.receiver is Woken) ==> queue.settled() == queue,
        queue.released().closed,
        queue.released().pending.len() == 0,
        queue.released().receiver is Idle,
        queue.released().capacity == queue.capacity,
        queue.released().dropped == queue.dropped,
{
}

/// What holds of every queue: a capacity of at least one, no more pending signals than that,
/// and a waiting receiver only for an open queue without pending signals.
pub proof fn law_queue_is_well_formed(queue: QueueView)
    ensures
        queue.wf() <==> 1 <= queue.capacity && queue.pending.len() <= queue.capacity && !(
        queue.receiver is Waiting && (queue.pending.len() > 0 || queue.closed)),
        queue.admissible() <==> (forall|i: int|
            #![trigger queue.pending[i]]
            0 <= i < queue.pending.len() ==> admission::valid_signal(queue.pending[i])),
{
}

/// What a route does with a signal of the host: without an active generation it refuses it,
/// and otherwise it answers as the queue of the active generation does, changes that queue and
/// no other, and stays with that generation. The counts that the host sees are those of that
/// queue.
pub proof fn law_emit_verdict(route: RouteView, signal: OtelSignal)
    requires
        route.wf(),
    ensures
        route.active is None ==> route.admission() is Closed && route.emitted(signal) == route
            && route.active_queue() is None,
        route.active matches Some(active) ==> {
            let after = route.emitted(signal);
            &&& active < route.queues.len()
            &&& route.active_queue() == Some(route.queues[active as int])
            &&& route.admission() == route.queues[active as int].admission()
            &&& after.active == route.active
            &&& after.identity == route.identity
            &&& after.queues.len() == route.queues.len()
            &&& after.queues[active as int] == route.queues[active as int].enqueued(signal)
            &&& forall|i: int|
                #![trigger after.queues[i]]
                0 <= i < route.queues.len() && i != active ==> after.queues[i] == route.queues[i]
        },
{
}

/// What becomes of a route when a generation is prepared, activated, deactivated or let go. A
/// prepared generation comes last, with a new queue, and is not active. An activated one is
/// active, and the one that was active, be it the same, is closed. A deactivated one is closed
/// and no longer active, and another active one stays so. One that is let go is emptied unless
/// it is active. No other queue changes, and the route keeps its identity.
pub proof fn law_route_verdict(route: RouteView, number: usize, capacity: usize, other: int)
    requires
        route.wf(),
        number < route.queues.len(),
        0 <= other < route.queues.len(),
    ensures
        route.prepared(capacity).queues == route.queues.push(QueueView::empty(capacity)),
        route.prepared(capacity).active == route.active,
        route.prepared(capacity).identity == route.identity,
        route.activated(number).active == Some(number),
        route.activated(number).identity == route.identity,
        route.activated(number).queues.len() == route.queues.len(),
        route.activated(number).queues[other] == (if route.active is Some && route.active->0
            == other {
            route.queues[other].shut()
        } else {
            route.queues[other]
        }),
        route.deactivated(number).active == (if route.active == Some(number) {
            None
        } else {
            route.active
        }),
        route.deactivated(number).identity == route.identity,
        route.deactivated(number).queues.len() == route.queues.len(),
        route.deactivated(number).queues[other] == (if other == number {
            route.queues[other].shut()
        } else {
            route.queues[other]
        }),
        route.released(number).active == route.active,
        route.released(number).identity == route.identity,
        route.released(number).queues.len() == route.queues.len(),
        route.released(number).queues[other] == (if other == number && route.active != Some(
            number,
        ) {
            route.queues[other].released()
        } else {
            route.queues[other]
        }),
{
}

/// A new route has no generation and is inactive, and a route knows the generations that were
/// prepared on it and no others.
pub proof fn law_route_membership(route: RouteView, generation: GenerationView)
    ensures
        RouteView::empty(route.identity).queues.len() == 0,
        RouteView::empty(route.identity).active is None,
        RouteView::empty(route.identity).identity == route.identity,
        route.has(generation) <==> generation.route == route.identity && generation.number
            < route.queues.len(),
        route.wf() <==> (forall|i: int|
            #![trigger route.queues[i]]
            0 <= i < route.queues.len() ==> route.queues[i].wf() && route.queues[i].admissible())
            && (route.active is Some ==> route.active->0 < route.queues.len()),
{
}

} // verus!
