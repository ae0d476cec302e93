//! Bounded telemetry queues and the stable route that leads to the active one.

use std::collections::VecDeque;

use vstd::prelude::*;

use crate::admission;
use crate::admission::TelemetryError;
use crate::signal::OtelSignal;
use crate::telemetry_laws;

verus! {

/// Admission result for one explicit application signal.
#[derive(Clone, Copy, Debug, Eq, PartialEq)]
pub enum TelemetryAdmission {
    /// The signal entered the bounded `OTel` Module queue.
    Accepted,
    /// The queue was full and the signal was intentionally dropped.
    Dropped,
    /// The Module generation has closed its queue.
    Closed,
}

/// What the receiving side of a queue is doing.
#[derive(Clone, Copy, Debug, Eq, PartialEq)]
pub enum Receiver {
    /// Nobody waits for the queue.
    Idle,
    /// The receiver found nothing and waits to be woken.
    Waiting,
    /// The receiver is owed a wake-up.
    Woken,
}

/// What one attempt to receive finds.
#[derive(Clone, Debug, PartialEq)]
pub enum Reception {
    /// The oldest pending signal.
    Signal(OtelSignal),
    /// The queue is closed, and nothing is left in it.
    Closed,
    /// Nothing is pending: the receiver is woken when that changes.
    Waiting,
}

/// The least capacity is one.
pub open spec fn normalized(capacity: usize) -> usize {
    if capacity == 0 {
        1
    } else {
        capacity
    }
}

/// Raises a capacity to at least one.
pub fn normalize_capacity(capacity: usize) -> (normal: usize)
    ensures
        normal == normalized(capacity),
{
    if capacity == 0 {
        1
    } else {
        capacity
    }
}

/// The state of one queue.
#[verifier::ext_equal]
pub struct QueueView {
    /// How many signals may be pending.
    pub capacity: usize,
    /// The pending signals, oldest first.
    pub pending: Seq<OtelSignal>,
    /// How many signals were dropped because the queue was full.
    pub dropped: u64,
    /// Whether the queue takes no more signals.
    pub closed: bool,
    /// The receiving side.
    pub receiver: Receiver,
}

impl QueueView {
    /// A new queue.
    pub open spec fn empty(capacity: usize) -> QueueView {
        QueueView {
            capacity: normalized(capacity),
            pending: Seq::empty(),
            dropped: 0,
            closed: false,
            receiver: Receiver::Idle,
        }
    }

    /// The bound on what is pending, and that nobody waits for a queue that has something
    /// to say.
    pub open spec fn wf(self) -> bool {
        &&& 1 <= self.capacity
        &&& self.pending.len() <= self.capacity
        &&& self.receiver == Receiver::Waiting ==> self.pending.len() == 0 && !self.closed
    }

    /// Whether every pending signal passes admission.
    pub open spec fn admissible(self) -> bool {
        forall|i: int|
            0 <= i < self.pending.len() ==> admission::valid_signal(#[trigger] self.pending[i])
    }

    /// Whether a signal that is offered now finds the queue full.
    pub open spec fn full(self) -> bool {
        self.pending.len() >= self.capacity
    }

    /// The answer to a signal that is offered now.
    pub open spec fn admission(self) -> TelemetryAdmission {
        if self.closed {
            TelemetryAdmission::Closed
        } else if self.full() {
            TelemetryAdmission::Dropped
        } else {
            TelemetryAdmission::Accepted
        }
    }

    /// The receiving side after something happened that it may wait for.
    pub open spec fn woken(self) -> Receiver {
        if self.receiver == Receiver::Waiting {
            Receiver::Woken
        } else {
            self.receiver
        }
    }

    /// The queue after a signal was offered to it.
    pub open spec fn enqueued(self, signal: OtelSignal) -> QueueView {
        match self.admission() {
            TelemetryAdmission::Closed => self,
            TelemetryAdmission::Dropped => QueueView {
                dropped: if self.dropped == u64::MAX {
                    u64::MAX
                } else {
                    (self.dropped + 1) as u64
                },
                ..self
            },
            TelemetryAdmission::Accepted => QueueView {
                pending: self.pending.push(signal),
                receiver: self.woken(),
                ..self
            },
        }
    }

    /// What an attempt to receive finds now.
    pub open spec fn reception(self) -> Reception {
        if self.pending.len() > 0 {
            Reception::Signal(self.pending[0])
        } else if self.closed {
            Reception::Closed
        } else {
            Reception::Waiting
        }
    }

    /// The queue after an attempt to receive.
    pub open spec fn received(self) -> QueueView {
        match self.reception() {
            Reception::Signal(_) => QueueView { pending: self.pending.drop_first(), ..self },
            Reception::Closed => self,
            Reception::Waiting => QueueView { receiver: Receiver::Waiting, ..self },
        }
    }

    /// The queue after it was closed.
    pub open spec fn shut(self) -> QueueView {
        if self.closed {
            self
        } else {
            QueueView { closed: true, receiver: self.woken(), ..self }
        }
    }

    /// The queue after the wake-up that its receiver is owed was taken over.
    pub open spec fn settled(self) -> QueueView {
        if self.receiver == Receiver::Woken {
            QueueView { receiver: Receiver::Idle, ..self }
        } else {
            self
        }
    }

    /// The queue after nobody can receive from it any more.
    pub open spec fn released(self) -> QueueView {
        QueueView { pending: Seq::empty(), closed: true, receiver: Receiver::Idle, ..self }
    }
}

/// A bounded first-in first-out queue of signals. It is in order at all times.
#[derive(Debug)]
pub struct TelemetryQueue {
    capacity: usize,
    pending: VecDeque<OtelSignal>,
    dropped: u64,
    closed: bool,
    receiver: Receiver,
}

impl View for TelemetryQueue {
    type V = QueueView;

    closed spec fn view(&self) -> QueueView {
        QueueView {
            capacity: self.capacity,
            pending: self.pending@,
            dropped: self.dropped,
            closed: self.closed,
            receiver: self.receiver,
        }
    }
}

impl TelemetryQueue {
    #[verifier::type_invariant]
    spec fn well_formed(self) -> bool {
        self@.wf()
    }

    /// Creates an open, empty queue for at least one signal.
    pub fn new(capacity: usize) -> (queue: Self)
        ensures
            queue@ == QueueView::empty(capacity),
            queue@.wf(),
    {
        TelemetryQueue {
            capacity: normalize_capacity(capacity),
            pending: VecDeque::new(),
            dropped: 0,
            closed: false,
            receiver: Receiver::Idle,
        }
    }

    /// Wakes the receiver, if it waits.
    fn wake(&mut self)
        ensures
            final(self)@ == (QueueView { receiver: old(self)@.woken(), ..old(self)@ }),
    {
        proof {
            use_type_invariant(&*self);
        }
        match self.receiver {
            Receiver::Waiting => {
                self.receiver = Receiver::Woken;
            },
            Receiver::Idle => {},
            Receiver::Woken => {},
        }
    }

    /// Offers a signal to the queue: it enters, or is dropped and counted where the queue is
    /// full, or is refused where the queue is closed.
    pub fn enqueue(&mut self, signal: OtelSignal) -> (admission: TelemetryAdmission)
        ensures
            admission == old(self)@.admission(),
            final(self)@ == old(self)@.enqueued(signal),
            final(self)@.wf(),
    {
        proof {
            use_type_invariant(&*self);
        }
        if self.closed {
            return TelemetryAdmission::Closed;
        }
        if self.pending.len() >= self.capacity {
            self.dropped = self.dropped.saturating_add(1);
            return TelemetryAdmission::Dropped;
        }
        self.wake();
        let mut pending = VecDeque::new();
        std::mem::swap(&mut pending, &mut self.pending);
        pending.push_back(signal);
        self.pending = pending;
        TelemetryAdmission::Accepted
    }

    /// Takes the oldest pending signal. Where nothing is pending in an open queue, the
    /// receiver waits from here on.
    pub fn receive(&mut self) -> (reception: Reception)
        ensures
            reception == old(self)@.reception(),
            final(self)@ == old(self)@.received(),
            final(self)@.wf(),
    {
        proof {
            use_type_invariant(&*self);
        }
        let mut pending = VecDeque::new();
        std::mem::swap(&mut pending, &mut self.pending);
        let oldest = pending.pop_front();
        self.pending = pending;
        if let Some(signal) = oldest {
            return Reception::Signal(signal);
        }
        if self.closed {
            return Reception::Closed;
        }
        self.receiver = Receiver::Waiting;
        Reception::Waiting
    }

    /// Closes the queue. What is pending can still be received.
    pub fn close(&mut self)
        ensures
            final(self)@ == old(self)@.shut(),
            final(self)@.wf(),
    {
        proof {
            use_type_invariant(&*self);
        }
        if self.closed {
            return;
        }
        self.wake();
        self.closed = true;
    }

    /// Takes over the wake-up that the receiver is owed, if it is owed one.
    pub fn take_wake(&mut self) -> (owed: bool)
        ensures
            owed == (old(self)@.receiver == Receiver::Woken),
            final(self)@ == old(self)@.settled(),
            final(self)@.wf(),
    {
        proof {
            use_type_invariant(&*self);
        }
        match self.receiver {
            Receiver::Woken => {
                self.receiver = Receiver::Idle;
                true
            },
            Receiver::Idle => false,
            Receiver::Waiting => false,
        }
    }

    /// Closes the queue and lets go of what is pending.
    pub fn release(&mut self)
        ensures
            final(self)@ == old(self)@.released(),
            final(self)@.wf(),
    {
        proof {
            use_type_invariant(&*self);
        }
        self.pending = VecDeque::new();
        self.receiver = Receiver::Idle;
        self.closed = true;
    }
}

/// Which generation of which route.
pub struct GenerationView {
    /// The identity of the route that the generation was prepared on.
    pub route: int,
    /// The place of the generation among those of its route, oldest first.
    pub number: usize,
}

/// The state of one route: the queues of its generations, oldest first, and which of them
/// is active.
#[verifier::ext_equal]
pub struct RouteView {
    /// What tells the route from others. It never changes.
    pub identity: int,
    /// The queue of each generation.
    pub queues: Seq<QueueView>,
    /// The generation that signals of the host enter.
    pub active: Option<usize>,
}

impl RouteView {
    /// A route without a generation.
    pub open spec fn empty(identity: int) -> RouteView {
        RouteView { identity, queues: Seq::empty(), active: None }
    }

    /// Whether there is a generation at this place.
    pub open spec fn has_number(self, number: usize) -> bool {
        number < self.queues.len()
    }

    /// Whether a generation was prepared on this route.
    pub open spec fn has(self, generation: GenerationView) -> bool {
        &&& generation.route == self.identity
        &&& self.has_number(generation.number)
    }

    /// Every queue is in order and holds admissible signals, and the active generation
    /// exists.
    pub open spec fn wf(self) -> bool {
        &&& forall|generation: int|
            #![trigger self.queues[generation]]
            0 <= generation < self.queues.len() ==> self.queues[generation].wf()
                && self.queues[generation].admissible()
        &&& self.active matches Some(active) ==> self.has_number(active)
    }

    /// The route after one of its queues changed.
    pub open spec fn with_queue(self, generation: usize, queue: QueueView) -> RouteView {
        RouteView { queues: self.queues.update(generation as int, queue), ..self }
    }

    /// The queue of the active generation.
    pub open spec fn active_queue(self) -> Option<QueueView> {
        match self.active {
            Some(active) => Some(self.queues[active as int]),
            None => None,
        }
    }

    /// The answer to a valid signal that the host offers now.
    pub open spec fn admission(self) -> TelemetryAdmission {
        match self.active_queue() {
            Some(queue) => queue.admission(),
            None => TelemetryAdmission::Closed,
        }
    }

    /// The route after the host offered a valid signal.
    pub open spec fn emitted(self, signal: OtelSignal) -> RouteView {
        match self.active {
            Some(active) => self.with_queue(active, self.queues[active as int].enqueued(signal)),
            None => self,
        }
    }

    /// The route with one more generation, which is not active yet.
    pub open spec fn prepared(self, capacity: usize) -> RouteView {
        RouteView { queues: self.queues.push(QueueView::empty(capacity)), ..self }
    }

    /// The route after a generation became the active one: what was active is closed.
    pub open spec fn activated(self, generation: usize) -> RouteView {
        let closed = match self.active {
            Some(previous) => self.with_queue(previous, self.queues[previous as int].shut()),
            None => self,
        };
        RouteView { active: Some(generation), ..closed }
    }

    /// The route after a generation was closed: it is inactive from here on, and any other
    /// active generation stays active.
    pub open spec fn deactivated(self, generation: usize) -> RouteView {
        let closed = self.with_queue(generation, self.queues[generation as int].shut());
        if self.active == Some(generation) {
            RouteView { active: None, ..closed }
        } else {
            closed
        }
    }

    /// The route after a generation was let go: its queue lives on only while it is active.
    pub open spec fn released(self, generation: usize) -> RouteView {
        if self.active == Some(generation) {
            self
        } else {
            self.with_queue(generation, self.queues[generation as int].released())
        }
    }
}

/// The generations of one Module Instance.
struct TelemetryRoute {
    identity: Ghost<int>,
    queues: Vec<TelemetryQueue>,
    active: Option<usize>,
}

impl View for TelemetryRoute {
    type V = RouteView;

    closed spec fn view(&self) -> RouteView {
        RouteView {
            identity: self.identity@,
            queues: Seq::new(self.queues@.len(), |i: int| self.queues@[i]@),
            active: self.active,
        }
    }
}

impl TelemetryRoute {
    fn new() -> (route: Self)
        ensures
            route@ == RouteView::empty(route@.identity),
    {
        let route = TelemetryRoute {
            identity: Ghost(arbitrary()),
            queues: Vec::new(),
            active: None,
        };
        assert(route@.queues =~= Seq::empty());
        route
    }

    fn enqueue(&mut self, signal: OtelSignal) -> (admission: TelemetryAdmission)
        requires
            old(self)@.wf(),
        ensures
            admission == old(self)@.admission(),
            final(self)@ == old(self)@.emitted(signal),
    {
        match self.active {
            Some(active) => {
                let admission = self.queues[active].enqueue(signal);
                assert(self@.queues =~= old(self)@.emitted(signal).queues);
                admission
            },
            None => TelemetryAdmission::Closed,
        }
    }

    fn activate(&mut self, generation: usize)
        requires
            old(self)@.wf(),
            old(self)@.has_number(generation),
        ensures
            final(self)@ == old(self)@.activated(generation),
    {
        if let Some(previous) = self.active {
            self.queues[previous].close();
        }
        self.active = Some(generation);
        assert(self@.queues =~= old(self)@.activated(generation).queues);
    }

    fn deactivate(&mut self, generation: usize)
        requires
            old(self)@.wf(),
            old(self)@.has_number(generation),
        ensures
            final(self)@ == old(self)@.deactivated(generation),
    {
        if let Some(active) = self.active {
            if active == generation {
                self.active = None;
            }
        }
        self.queues[generation].close();
        assert(self@.queues =~= old(self)@.deactivated(generation).queues);
    }
}

/// Non-blocking handle for explicit application signals supplied by the host. Each handle is
/// a route of its own, and no two that were created apart are known to be the same.
pub struct TelemetryHandle {
    route: TelemetryRoute,
}

impl View for TelemetryHandle {
    type V = RouteView;

    closed spec fn view(&self) -> RouteView {
        self.route@
    }
}

impl TelemetryHandle {
    /// A handle is a route in order at all times.
    #[verifier::type_invariant]
    pub open spec fn well_formed(self) -> bool {
        self@.wf()
    }

    /// Creates a route without a generation: it is inactive.
    pub fn new() -> (handle: Self)
        ensures
            handle@ == RouteView::empty(handle@.identity),
            handle@.wf(),
    {
        TelemetryHandle { route: TelemetryRoute::new() }
    }

    /// Attempts to enqueue a signal without awaiting exporter or queue progress. An invalid
    /// signal is refused before it reaches a queue.
    pub fn try_emit(&mut self, signal: OtelSignal) -> (result: Result<
        TelemetryAdmission,
        TelemetryError,
    >)
        ensures
            admission::valid_signal(signal) ==> {
                &&& result == Ok::<TelemetryAdmission, TelemetryError>(old(self)@.admission())
                &&& final(self)@ == old(self)@.emitted(signal)
            },
            !admission::valid_signal(signal) ==> {
                &&& result == Err::<TelemetryAdmission, TelemetryError>(
                    TelemetryError::InvalidSignal,
                )
                &&& final(self)@ == old(self)@
            },
            final(self)@.wf(),
    {
        proof {
            use_type_invariant(&*self);
        }
        let ghost before = self@;
        match admission::validate_signal(&signal) {
            Ok(()) => {
                let mut route = TelemetryRoute::new();
                std::mem::swap(&mut route, &mut self.route);
                let admission = route.enqueue(signal);
                proof {
                    if let Some(active) = before.active {
                        telemetry_laws::law_route_stays_in_order(before, active, signal, 0);
                    }
                }
                self.route = route;
                Ok(admission)
            },
            Err(error) => Err(error),
        }
    }

    /// Returns drops recorded by the currently active generation, or zero while inactive.
    pub fn dropped_count(&self) -> (dropped: u64)
        ensures
            dropped == (match self@.active_queue() {
                Some(queue) => queue.dropped,
                None => 0,
            }),
    {
        proof {
            use_type_invariant(self);
        }
        match self.route.active {
            Some(active) => self.route.queues[active].dropped,
            None => 0,
        }
    }

    /// Returns pending signals for the currently active generation, or zero while inactive.
    pub fn pending_count(&self) -> (pending: usize)
        ensures
            pending == (match self@.active_queue() {
                Some(queue) => queue.pending.len(),
                None => 0,
            }),
    {
        proof {
            use_type_invariant(self);
        }
        match self.route.active {
            Some(active) => self.route.queues[active].pending.len(),
            None => 0,
        }
    }

    /// Returns the active generation's queue capacity, or zero while inactive.
    pub fn capacity(&self) -> (capacity: usize)
        ensures
            capacity == (match self@.active_queue() {
                Some(queue) => queue.capacity,
                None => 0,
            }),
    {
        proof {
            use_type_invariant(self);
        }
        match self.route.active {
            Some(active) => self.route.queues[active].capacity,
            None => 0,
        }
    }

    /// Returns whether the route has a generation at the place that a generation names. On
    /// which route that one was prepared cannot be told at run time.
    pub fn has_generation(&self, generation: &GenerationTelemetry) -> (known: bool)
        ensures
            known == self@.has_number(generation@.number),
    {
        generation.generation < self.route.queues.len()
    }

    /// Makes a generation the one that signals enter, and closes the one before it.
    pub fn activate(&mut self, generation: &GenerationTelemetry)
        requires
            old(self)@.has(generation@),
        ensures
            final(self)@ == old(self)@.activated(generation@.number),
            final(self)@.wf(),
    {
        proof {
            use_type_invariant(&*self);
            telemetry_laws::law_route_stays_in_order(self@, generation@.number, arbitrary(), 0);
        }
        let mut route = TelemetryRoute::new();
        std::mem::swap(&mut route, &mut self.route);
        route.activate(generation.generation);
        self.route = route;
    }

    /// Closes a generation. Where it was the active one, the route is inactive from here on.
    pub fn deactivate(&mut self, generation: &GenerationTelemetry)
        requires
            old(self)@.has(generation@),
        ensures
            final(self)@ == old(self)@.deactivated(generation@.number),
            final(self)@.wf(),
    {
        proof {
            use_type_invariant(&*self);
            telemetry_laws::law_route_stays_in_order(self@, generation@.number, arbitrary(), 0);
        }
        let mut route = TelemetryRoute::new();
        std::mem::swap(&mut route, &mut self.route);
        route.deactivate(generation.generation);
        self.route = route;
    }
}

/// The queue of one Module generation, as a place in the route that it was prepared on.
#[derive(Clone, Copy)]
pub struct GenerationTelemetry {
    route: Ghost<int>,
    generation: usize,
}

impl View for GenerationTelemetry {
    type V = GenerationView;

    closed spec fn view(&self) -> GenerationView {
        GenerationView { route: self.route@, number: self.generation }
    }
}

impl GenerationTelemetry {
    /// Prepares a generation with an open queue of its own. Signals of the host do not enter
    /// it before it is activated.
    pub fn new(host: &mut TelemetryHandle, capacity: usize) -> (generation: Self)
        ensures
            generation@.number == old(host)@.queues.len(),
            final(host)@ == old(host)@.prepared(capacity),
            final(host)@.has(generation@),
            final(host)@.wf(),
    {
        proof {
            use_type_invariant(&*host);
        }
        let ghost before = host@;
        let generation = host.route.queues.len();
        let mut route = TelemetryRoute::new();
        std::mem::swap(&mut route, &mut host.route);
        route.queues.push(TelemetryQueue::new(capacity));
        assert(route@.queues =~= before.prepared(capacity).queues);
        host.route = route;
        GenerationTelemetry { route: Ghost(before.identity), generation }
    }

    /// Returns the place of the generation among those of its route.
    pub fn number(&self) -> (number: usize)
        ensures
            number == self@.number,
    {
        self.generation
    }

    /// Offers a signal to the queue of this generation, active or not.
    pub fn try_emit(&self, host: &mut TelemetryHandle, signal: OtelSignal) -> (result: Result<
        TelemetryAdmission,
        TelemetryError,
    >)
        requires
            old(host)@.has(self@),
        ensures
            admission::valid_signal(signal) ==> {
                &&& result == Ok::<TelemetryAdmission, TelemetryError>(
                    old(host)@.queues[self@.number as int].admission(),
                )
                &&& final(host)@ == old(host)@.with_queue(
                    self@.number,
                    old(host)@.queues[self@.number as int].enqueued(signal),
                )
            },
            !admission::valid_signal(signal) ==> {
                &&& result == Err::<TelemetryAdmission, TelemetryError>(
                    TelemetryError::InvalidSignal,
                )
                &&& final(host)@ == old(host)@
            },
            final(host)@.wf(),
    {
        proof {
            use_type_invariant(&*host);
            telemetry_laws::law_route_stays_in_order(host@, self@.number, signal, 0);
        }
        let ghost before = host@;
        match admission::validate_signal(&signal) {
            Ok(()) => {
                let mut route = TelemetryRoute::new();
                std::mem::swap(&mut route, &mut host.route);
                let admission = route.queues[self.generation].enqueue(signal);
                assert(route@.queues =~= before.with_queue(
                    self@.number,
                    before.queues[self@.number as int].enqueued(signal),
                ).queues);
                host.route = route;
                Ok(admission)
            },
            Err(error) => Err(error),
        }
    }

    /// Attempts to receive the oldest pending signal of this generation. What is received
    /// passed admission.
    pub fn receive(&self, host: &mut TelemetryHandle) -> (reception: Reception)
        requires
            old(host)@.has(self@),
        ensures
            reception == old(host)@.queues[self@.number as int].reception(),
            reception matches Reception::Signal(signal) ==> admission::valid_signal(signal),
            final(host)@ == old(host)@.with_queue(
                self@.number,
                old(host)@.queues[self@.number as int].received(),
            ),
            final(host)@.wf(),
    {
        proof {
            use_type_invariant(&*host);
            telemetry_laws::law_route_stays_in_order(host@, self@.number, arbitrary(), 0);
        }
        let ghost before = host@;
        let mut route = TelemetryRoute::new();
        std::mem::swap(&mut route, &mut host.route);
        let reception = route.queues[self.generation].receive();
        assert(route@.queues =~= before.with_queue(
            self@.number,
            before.queues[self@.number as int].received(),
        ).queues);
        host.route = route;
        reception
    }

    /// Takes over the wake-up that the receiver of this generation is owed, if any.
    pub fn take_wake(&self, host: &mut TelemetryHandle) -> (owed: bool)
        requires
            old(host)@.has(self@),
        ensures
            owed == (old(host)@.queues[self@.number as int].receiver == Receiver::Woken),
            final(host)@ == old(host)@.with_queue(
                self@.number,
                old(host)@.queues[self@.number as int].settled(),
            ),
            final(host)@.wf(),
    {
        proof {
            use_type_invariant(&*host);
            telemetry_laws::law_route_stays_in_order(host@, self@.number, arbitrary(), 0);
        }
        let ghost before = host@;
        let mut route = TelemetryRoute::new();
        std::mem::swap(&mut route, &mut host.route);
        let owed = route.queues[self.generation].take_wake();
        assert(route@.queues =~= before.with_queue(
            self@.number,
            before.queues[self@.number as int].settled(),
        ).queues);
        host.route = route;
        owed
    }

    /// Lets the generation go. Unless the route still leads to it, nothing is left in its
    /// queue.
    pub fn release(&self, host: &mut TelemetryHandle)
        requires
            old(host)@.has(self@),
        ensures
            final(host)@ == old(host)@.released(self@.number),
            final(host)@.wf(),
    {
        proof {
            use_type_invariant(&*host);
            telemetry_laws::law_route_stays_in_order(host@, self@.number, arbitrary(), 0);
        }
        let ghost before = host@;
        if let Some(active) = host.route.active {
            if active == self.generation {
                return;
            }
        }
        let mut route = TelemetryRoute::new();
        std::mem::swap(&mut route, &mut host.route);
        route.queues[self.generation].release();
        assert(route@.queues =~= before.released(self@.number).queues);
        host.route = route;
    }
}

} // verus!
