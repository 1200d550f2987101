//! Listener configuration and lifecycle: the handler interface, the priority
//! tiers, the builder that assembles a listener, and the guard whose closing
//! deactivates it.
//!
//! In the running host a guard shares an atomic `closed` flag with the
//! registered listener and its destructor sets that flag.  Here the shared
//! flag is modelled by a listener identifier: closing a guard against the
//! worker marks the listener with that identifier as closed, and the
//! scheduler contract proves that a closed listener is never invoked again
//! and is eventually evicted.

use vstd::prelude::*;

use crate::event::Event;
use crate::event::FromEvent;
use crate::worker::Worker;

verus! {

/// The five ordered priority tiers.  `Top` is dispatched first, `Base` last.
#[derive(Clone, Copy, PartialEq, Eq, Structural, Debug)]
pub enum Priority {
    Top,
    High,
    Middle,
    Low,
    Base,
}

impl Priority {
    /// The position of the tier in dispatch order, `Top` being 0.
    pub open spec fn rank(self) -> int {
        match self {
            Priority::Top => 0,
            Priority::High => 1,
            Priority::Middle => 2,
            Priority::Low => 3,
            Priority::Base => 4,
        }
    }

    pub fn index(&self) -> (r: u8)
        ensures
            r as int == self.rank(),
    {
        match self {
            Priority::Top => 0,
            Priority::High => 1,
            Priority::Middle => 2,
            Priority::Low => 3,
            Priority::Base => 4,
        }
    }
}

impl Default for Priority {
    fn default() -> (r: Self)
        ensures
            r == Priority::Middle,
    {
        Priority::Middle
    }
}

/// What one handler invocation tells the scheduler: whether this listener is
/// still a candidate for further events (the continuation signal), and
/// whether the event is to be intercepted.  Interception short-circuits
/// dispatch to lower tiers; a `false` continuation only retires this one
/// listener.
#[derive(Clone, Copy, PartialEq, Eq, Structural, Debug)]
pub struct Flow {
    pub keep_listening: bool,
    pub intercept: bool,
}

impl Flow {
    /// The continue-signal default: stay registered, do not intercept.  This
    /// is also what a typed listener reports for events it does not fit.
    pub fn proceed() -> (r: Flow)
        ensures
            r == (Flow { keep_listening: true, intercept: false }),
    {
        Flow { keep_listening: true, intercept: false }
    }
}

/// The erased handler interface the scheduler invokes: one method from event
/// to continuation.  Implementations adapt typed and always-continue
/// handlers into this single contract.
pub trait Handler {
    fn invoke(&self, e: &Event) -> Flow;
}

/// A handler that declares interest in one concrete event shape.
pub trait TypedHandler<E: FromEvent> {
    fn handle(&self, e: E) -> Flow;
}

/// A handler with no continuation of its own: it always lets dispatch and
/// its own registration continue.
pub trait AlwaysHandler<E: FromEvent> {
    fn handle(&self, e: E);
}

/// Runs a typed handler against an erased event.  Events of a different
/// shape are not handed to the handler and count as the continue default.
pub fn typed_invoke<E: FromEvent, H: TypedHandler<E>>(handler: &H, e: &Event) -> (f: Flow)
    ensures
        !E::fits(*e) ==> f == (Flow { keep_listening: true, intercept: false }),
        E::fits(*e) ==> call_ensures(H::handle, (handler, E::extract(*e)), f),
{
    match E::from_event(e.clone()) {
        Some(typed) => handler.handle(typed),
        None => Flow::proceed(),
    }
}

/// Runs an always-continue typed handler against an erased event: whatever
/// the handler does, the reported flow is the continue default.
pub fn always_invoke<E: FromEvent, H: AlwaysHandler<E>>(handler: &H, e: &Event) -> (f: Flow)
    ensures
        f == (Flow { keep_listening: true, intercept: false }),
{
    if let Some(typed) = E::from_event(e.clone()) {
        handler.handle(typed);
    }
    Flow::proceed()
}

/// Adapter making a `TypedHandler` for shape `E` into an erased `Handler`.
pub struct OnEvent<E: FromEvent, H: TypedHandler<E>> {
    pub handler: H,
    pub shape: core::marker::PhantomData<E>,
}

impl<E: FromEvent, H: TypedHandler<E>> Handler for OnEvent<E, H> {
    fn invoke(&self, e: &Event) -> Flow {
        typed_invoke(&self.handler, e)
    }
}

/// Adapter making an `AlwaysHandler` for shape `E` into an erased `Handler`.
pub struct OnEventAlways<E: FromEvent, H: AlwaysHandler<E>> {
    pub handler: H,
    pub shape: core::marker::PhantomData<E>,
}

impl<E: FromEvent, H: AlwaysHandler<E>> Handler for OnEventAlways<E, H> {
    fn invoke(&self, e: &Event) -> Flow {
        always_invoke(&self.handler, e)
    }
}

/// The mutual-exclusion state of one synchronized listener.  The host's
/// pool acquires it before invoking that listener's handler and releases
/// it afterwards, so at most one invocation of the listener is in flight
/// at a time; concurrent listeners have no such state.  Acquisition
/// succeeds exactly when no invocation is in flight, and it is not
/// reentrant: a second acquisition before the release fails.
pub struct SyncGate {
    busy: bool,
}

impl SyncGate {
    /// Whether an invocation is in flight.
    pub closed spec fn spec_busy(&self) -> bool {
        self.busy
    }

    pub fn new() -> (r: Self)
        ensures
            !r.spec_busy(),
    {
        SyncGate { busy: false }
    }

    /// Acquires for one invocation: succeeds exactly when no invocation
    /// is in flight.
    pub fn try_acquire(&mut self) -> (r: bool)
        ensures
            r == !old(self).spec_busy(),
            final(self).spec_busy(),
    {
        let free = !self.busy;
        self.busy = true;
        free
    }

    /// Releases after the invocation it was acquired for.
    pub fn release(&mut self)
        ensures
            !final(self).spec_busy(),
    {
        self.busy = false;
    }
}

/// A registered listener: its display name, concurrency mode, handler,
/// closed flag and priority tier, plus the identifier linking it to its
/// guard.  `concurrent` models the mode: a synchronized listener holds an
/// internal lock in the running host so at most one invocation of it is in
/// flight; the mode never changes which listeners are selected.
pub struct Listener<H> {
    pub name: String,
    pub concurrent: bool,
    pub handler: H,
    pub closed: bool,
    pub priority: Priority,
    pub id: u64,
}

impl<H: Handler> Listener<H> {
    /// Begins configuring a listener around an erased handler.
    pub fn new(handler: H) -> (b: ListenerBuilder<H>)
        ensures
            b.name is None,
            b.concurrent,
            b.priority == Priority::Middle,
            b.handler == handler,
    {
        ListenerBuilder { name: None, concurrent: true, handler, priority: Priority::Middle }
    }
}

impl<E: FromEvent, H: TypedHandler<E>> Listener<OnEvent<E, H>> {
    /// Begins configuring a listener that receives only events of shape `E`;
    /// other events are skipped and count as the continue default.
    pub fn listening_on(handler: H) -> (b: ListenerBuilder<OnEvent<E, H>>)
        ensures
            b.name is None,
            b.concurrent,
            b.priority == Priority::Middle,
            b.handler.handler == handler,
    {
        Listener::new(OnEvent { handler, shape: core::marker::PhantomData })
    }
}

impl<E: FromEvent, H: AlwaysHandler<E>> Listener<OnEventAlways<E, H>> {
    /// Like `listening_on`, for handlers whose continuation is implicitly
    /// always the continue default.
    pub fn listening_on_always(handler: H) -> (b: ListenerBuilder<OnEventAlways<E, H>>)
        ensures
            b.name is None,
            b.concurrent,
            b.priority == Priority::Middle,
            b.handler.handler == handler,
    {
        Listener::new(OnEventAlways { handler, shape: core::marker::PhantomData })
    }
}

impl<H> Listener<H> {
    pub fn name(&self) -> (r: &String)
        ensures
            *r == self.name,
    {
        &self.name
    }
}

/// Single-owner configuration for a listener; consumed by `start`.
pub struct ListenerBuilder<H> {
    pub name: Option<String>,
    pub concurrent: bool,
    pub handler: H,
    pub priority: Priority,
}

impl<H: Handler> ListenerBuilder<H> {
    pub fn with_name(self, name: String) -> (r: Self)
        ensures
            r.name == Some(name),
            r.concurrent == self.concurrent,
            r.handler == self.handler,
            r.priority == self.priority,
    {
        ListenerBuilder { name: Some(name), ..self }
    }

    /// Selects the synchronized mode: at most one in-flight invocation of
    /// this listener at a time.
    pub fn synchronize(self) -> (r: Self)
        ensures
            !r.concurrent,
            r.name == self.name,
            r.handler == self.handler,
            r.priority == self.priority,
    {
        ListenerBuilder { concurrent: false, ..self }
    }

    /// Selects the concurrent mode: invocations of this listener may
    /// overlap.
    pub fn concurrent(self) -> (r: Self)
        ensures
            r.concurrent,
            r.name == self.name,
            r.handler == self.handler,
            r.priority == self.priority,
    {
        ListenerBuilder { concurrent: true, ..self }
    }

    pub fn set_priority(self, priority: Priority) -> (r: Self)
        ensures
            r.priority == priority,
            r.name == self.name,
            r.concurrent == self.concurrent,
            r.handler == self.handler,
    {
        ListenerBuilder { priority, ..self }
    }

    /// Finalizes the configuration: registers the listener with the worker
    /// and returns the guard that controls its lifetime.  The builder is
    /// consumed.  Registration is synchronous with respect to the worker:
    /// the listener is visible to every later dispatch pass.
    pub fn start(self, worker: &mut Worker<H>) -> (g: ListenerGuard)
        requires
            old(worker).wf(),
            old(worker).spec_next_id() < u64::MAX,
        ensures
            final(worker).wf(),
            g.spec_id() == old(worker).spec_next_id(),
            !g.spec_closed(),
            final(worker).spec_next_id() == old(worker).spec_next_id() + 1,
            final(worker).spec_listeners() == old(worker).spec_listeners().push(
                Listener {
                    name: g.spec_name(),
                    concurrent: self.concurrent,
                    handler: self.handler,
                    closed: false,
                    priority: self.priority,
                    id: g.spec_id(),
                },
            ),
            self.name is Some ==> g.spec_name() == self.name->0,
            self.name is None ==> g.spec_name()@ == "Unnamed-Listener"@,
    {
        let ListenerBuilder { name, concurrent, handler, priority } = self;
        let name = match name {
            Some(n) => n,
            None => String::from_str("Unnamed-Listener"),
        };
        let guard_name = name.clone();
        let id = worker.register(Listener { name, concurrent, handler, closed: false, priority, id: 0 });
        ListenerGuard { name: guard_name, closed: false, id }
    }
}

/// The non-owning lifecycle handle for a registered listener.  Closing it is
/// the only supported way to deactivate the listener; removal from the
/// registry is lazy, performed by the worker on its next dispatch pass.
pub struct ListenerGuard {
    name: String,
    closed: bool,
    id: u64,
}

impl ListenerGuard {
    pub closed spec fn spec_name(&self) -> String {
        self.name
    }

    pub closed spec fn spec_closed(&self) -> bool {
        self.closed
    }

    pub closed spec fn spec_id(&self) -> u64 {
        self.id
    }

    pub fn name(&self) -> (r: &str)
        ensures
            r@ == self.spec_name()@,
    {
        self.name.as_str()
    }

    pub fn closed(&self) -> (r: bool)
        ensures
            r == self.spec_closed(),
    {
        self.closed
    }

    pub fn id(&self) -> (r: u64)
        ensures
            r == self.spec_id(),
    {
        self.id
    }

    /// Deactivates the listener this guard was returned for: `closed()` is
    /// true from here on, the worker never invokes the listener again, and
    /// the next dispatch pass evicts it.  This models what the host does
    /// when the guard is dropped.
    pub fn close<H>(&mut self, worker: &mut Worker<H>)
        requires
            old(worker).wf(),
        ensures
            final(self).spec_closed(),
            final(self).spec_name() == old(self).spec_name(),
            final(self).spec_id() == old(self).spec_id(),
            final(worker).wf(),
            final(worker).spec_next_id() == old(worker).spec_next_id(),
            final(worker).spec_listeners().len() == old(worker).spec_listeners().len(),
            forall|i: int|
                0 <= i < old(worker).spec_listeners().len() ==> #[trigger] final(worker).spec_listeners()[i] == (if old(worker).spec_listeners()[i].id == old(self).spec_id() {
                    Listener { closed: true, ..old(worker).spec_listeners()[i] }
                } else {
                    old(worker).spec_listeners()[i]
                }),
    {
        self.closed = true;
        worker.close_id(self.id);
    }
}

} // verus!
