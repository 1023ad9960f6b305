//! Mock scheduling facade: an append-only log of the scheduling side-effects
//! a state-machine transition issues, and a loop stand-in that mints one
//! scope view at a time to invoke transitions directly.

use vstd::prelude::*;

verus! {

/// The readiness conditions an interest registration asks about.
#[derive(Clone, Copy, Debug, PartialEq, Eq)]
pub struct EventSet {
    pub readable: bool,
    pub writable: bool,
}

/// Registration modifiers for an interest registration.
#[derive(Clone, Copy, Debug, PartialEq, Eq)]
pub struct PollOpt {
    pub edge: bool,
    pub level: bool,
    pub oneshot: bool,
}

/// Operation that was done with a scope's scheduling facade.
#[derive(Clone, Copy, Debug, PartialEq, Eq)]
pub enum Operation {
    Register(EventSet, PollOpt),
    Reregister(EventSet, PollOpt),
    Deregister,
    Shutdown,
}

/// Usage-contract violations the harness reports instead of recovering from.
#[derive(Clone, Copy, Debug, PartialEq, Eq)]
pub enum MockError {
    /// A legacy timer operation was invoked; this harness models no timers.
    TimersUnsupported,
    /// A second scope view was requested while one is still live.
    ScopeAlreadyLive,
}

/// Capture sink: records every scheduling side-effect in call order.
///
/// The log is append-only and strictly ordered; nothing is merged or
/// deduplicated, and capture itself has no failure mode.
pub struct Handler {
    operations: Vec<Operation>,
}

impl View for Handler {
    type V = Seq<Operation>;

    closed spec fn view(&self) -> Seq<Operation> {
        self.operations@
    }
}

impl Handler {
    /// Creates a sink with an empty log.
    pub fn new() -> (h: Handler)
        ensures
            h@ == Seq::<Operation>::empty(),
    {
        Handler { operations: Vec::new() }
    }

    /// Appends a register side-effect and reports success.
    pub fn register(&mut self, interest: EventSet, opt: PollOpt) -> (r: Result<(), MockError>)
        ensures
            r == Ok::<(), MockError>(()),
            final(self)@ == old(self)@.push(Operation::Register(interest, opt)),
    {
        self.operations.push(Operation::Register(interest, opt));
        Ok(())
    }

    /// Appends a reregister side-effect and reports success.
    pub fn reregister(&mut self, interest: EventSet, opt: PollOpt) -> (r: Result<(), MockError>)
        ensures
            r == Ok::<(), MockError>(()),
            final(self)@ == old(self)@.push(Operation::Reregister(interest, opt)),
    {
        self.operations.push(Operation::Reregister(interest, opt));
        Ok(())
    }

    /// Appends a deregister side-effect and reports success.
    pub fn deregister(&mut self) -> (r: Result<(), MockError>)
        ensures
            r == Ok::<(), MockError>(()),
            final(self)@ == old(self)@.push(Operation::Deregister),
    {
        self.operations.push(Operation::Deregister);
        Ok(())
    }

    /// Appends a shutdown side-effect: captured, never executed.
    pub fn shutdown(&mut self)
        ensures
            final(self)@ == old(self)@.push(Operation::Shutdown),
    {
        self.operations.push(Operation::Shutdown);
    }

    /// Legacy timer registration: always fails, this harness models no
    /// timers; the log is left untouched.
    pub fn timeout_ms(&mut self, _token: usize, _delay_ms: u64) -> (r: Result<(), MockError>)
        ensures
            r == Err::<(), MockError>(MockError::TimersUnsupported),
            *final(self) == *old(self),
    {
        Err(MockError::TimersUnsupported)
    }

    /// Legacy timer cancellation: always fails, this harness models no
    /// timers; the log is left untouched.
    pub fn clear_timeout(&mut self, _token: usize) -> (r: Result<(), MockError>)
        ensures
            r == Err::<(), MockError>(MockError::TimersUnsupported),
            *final(self) == *old(self),
    {
        Err(MockError::TimersUnsupported)
    }

    /// The recorded operations, oldest first.
    pub fn operations(&self) -> (r: &Vec<Operation>)
        ensures
            r@ == self@,
    {
        &self.operations
    }
}

/// What a state-machine transition hands back: the next state, a request to
/// spawn a sibling, orderly completion, or a failure.
pub enum Response<M, N> {
    /// Keep running with this new state.
    Success(M),
    /// Keep running with this new state and spawn a machine from the seed.
    Spawn(M, N),
    /// The machine is finished.
    Done,
    /// The machine failed.
    Failed,
}

/// The transition callbacks of a state machine under test.
///
/// The harness never calls these itself: test code invokes exactly one
/// transition per scope view and inspects the returned [`Response`] and the
/// operation log afterwards.
pub trait Machine: Sized {
    /// The shared context type the scope gives transitions access to.
    type Context;

    /// The seed a spawned sibling machine is created from.
    type Seed;

    /// Creates a machine from a seed.
    fn create(seed: Self::Seed, scope: &mut Scope<Self::Context>) -> Response<Self, Self::Seed>;

    /// The machine's registration became ready.
    fn ready(self, events: EventSet, scope: &mut Scope<Self::Context>) -> Response<
        Self,
        Self::Seed,
    >;

    /// The machine was just spawned.
    fn spawned(self, scope: &mut Scope<Self::Context>) -> Response<Self, Self::Seed>;

    /// A timeout the machine asked for elapsed.
    fn timeout(self, scope: &mut Scope<Self::Context>) -> Response<Self, Self::Seed>;

    /// The machine was woken up through its notification channel.
    fn wakeup(self, scope: &mut Scope<Self::Context>) -> Response<Self, Self::Seed>;
}

/// Per-invocation view handed to exactly one state-machine transition:
/// zero logical time, the token naming the machine, the loop's context, and
/// the capture sink the transition's scheduling calls are recorded in.
pub struct Scope<C> {
    /// Logical time, always zero: the harness simulates no clock.
    pub time: u64,
    /// Numeric identifier correlating the invocation with one machine.
    pub token: usize,
    /// The context shared by all invocations on the same loop.
    pub context: C,
    /// The capture sink recording scheduling side-effects.
    pub handler: Handler,
}

impl<C> Scope<C> {
    /// Records an interest registration and reports success.
    pub fn register(&mut self, interest: EventSet, opt: PollOpt) -> (r: Result<(), MockError>)
        ensures
            r == Ok::<(), MockError>(()),
            final(self).handler@ == old(self).handler@.push(Operation::Register(interest, opt)),
            final(self).time == old(self).time,
            final(self).token == old(self).token,
            final(self).context == old(self).context,
    {
        self.handler.register(interest, opt)
    }

    /// Records a registration change and reports success.
    pub fn reregister(&mut self, interest: EventSet, opt: PollOpt) -> (r: Result<(), MockError>)
        ensures
            r == Ok::<(), MockError>(()),
            final(self).handler@ == old(self).handler@.push(Operation::Reregister(interest, opt)),
            final(self).time == old(self).time,
            final(self).token == old(self).token,
            final(self).context == old(self).context,
    {
        self.handler.reregister(interest, opt)
    }

    /// Records a deregistration and reports success.
    pub fn deregister(&mut self) -> (r: Result<(), MockError>)
        ensures
            r == Ok::<(), MockError>(()),
            final(self).handler@ == old(self).handler@.push(Operation::Deregister),
            final(self).time == old(self).time,
            final(self).token == old(self).token,
            final(self).context == old(self).context,
    {
        self.handler.deregister()
    }

    /// Records a loop shutdown request: captured, never executed.
    pub fn shutdown_loop(&mut self)
        ensures
            final(self).handler@ == old(self).handler@.push(Operation::Shutdown),
            final(self).time == old(self).time,
            final(self).token == old(self).token,
            final(self).context == old(self).context,
    {
        self.handler.shutdown()
    }

    /// Legacy timer registration: always fails, nothing is recorded.
    pub fn timeout_ms(&mut self, delay_ms: u64) -> (r: Result<(), MockError>)
        ensures
            r == Err::<(), MockError>(MockError::TimersUnsupported),
            *final(self) == *old(self),
    {
        self.handler.timeout_ms(self.token, delay_ms)
    }

    /// Legacy timer cancellation: always fails, nothing is recorded.
    pub fn clear_timeout(&mut self) -> (r: Result<(), MockError>)
        ensures
            r == Err::<(), MockError>(MockError::TimersUnsupported),
            *final(self) == *old(self),
    {
        self.handler.clear_timeout(self.token)
    }
}

/// A mock loop: no event loop ever runs, it only stores a context and a
/// capture sink and mints one live [`Scope`] view at a time.
pub struct MockLoop<C> {
    handler: Option<Handler>,
    context: Option<C>,
}

impl<C> MockLoop<C> {
    /// Either both the sink and the context are home, or both are out in the
    /// one live scope view.
    pub closed spec fn wf(&self) -> bool {
        self.handler is Some <==> self.context is Some
    }

    /// True while a scope view minted by [`MockLoop::scope`] has not been
    /// given back through [`MockLoop::release`].
    pub closed spec fn scope_live(&self) -> bool {
        self.handler is None
    }

    /// The operation log, when no scope view is out.
    pub closed spec fn log(&self) -> Seq<Operation> {
        match self.handler {
            Some(h) => h@,
            None => Seq::<Operation>::empty(),
        }
    }

    /// The stored context, when no scope view is out.
    pub closed spec fn ctx_view(&self) -> C {
        self.context.unwrap()
    }

    /// Creates a mock loop around a context compatible with the machines
    /// under test, with an empty operation log.
    pub fn new(ctx: C) -> (l: MockLoop<C>)
        ensures
            l.wf(),
            !l.scope_live(),
            l.log() == Seq::<Operation>::empty(),
            l.ctx_view() == ctx,
    {
        MockLoop { handler: Some(Handler::new()), context: Some(ctx) }
    }

    /// Mints the scope view for one transition invocation on the machine the
    /// token names.
    ///
    /// At most one view is live at a time: asking for a second one before
    /// [`MockLoop::release`] fails and changes nothing.
    pub fn scope(&mut self, token: usize) -> (r: Result<Scope<C>, MockError>)
        requires
            old(self).wf(),
        ensures
            final(self).wf(),
            old(self).scope_live() ==> (r == Err::<Scope<C>, MockError>(
                MockError::ScopeAlreadyLive,
            ) && *final(self) == *old(self)),
            !old(self).scope_live() ==> (final(self).scope_live() && (r matches Ok(s)
                && s.time == 0 && s.token == token && s.handler@ == old(self).log()
                && s.context == old(self).ctx_view())),
    {
        if self.handler.is_none() {
            return Err(MockError::ScopeAlreadyLive);
        }
        let h = self.handler.take();
        let c = self.context.take();
        match (h, c) {
            (Some(handler), Some(context)) => Ok(
                Scope { time: 0u64, token, context, handler },
            ),
            _ => vstd::pervasive::unreached(),
        }
    }

    /// Takes a scope view back, ending its life: the context and the grown
    /// operation log return to the loop and a new view can be minted.
    pub fn release(&mut self, scope: Scope<C>)
        requires
            old(self).wf(),
            old(self).scope_live(),
        ensures
            final(self).wf(),
            !final(self).scope_live(),
            final(self).log() == scope.handler@,
            final(self).ctx_view() == scope.context,
    {
        let Scope { time: _, token: _, context, handler } = scope;
        self.handler = Some(handler);
        self.context = Some(context);
    }

    /// Mutable access to the stored context between transition invocations.
    pub fn ctx(&mut self) -> (r: &mut C)
        requires
            old(self).wf(),
            !old(self).scope_live(),
        ensures
            *r == old(self).ctx_view(),
            final(self).wf(),
            !final(self).scope_live(),
            final(self).ctx_view() == *final(r),
            final(self).log() == old(self).log(),
    {
        match &mut self.context {
            Some(c) => c,
            None => vstd::pervasive::unreached(),
        }
    }

    /// The operations every transition recorded so far, oldest first.
    pub fn operations(&self) -> (r: &Vec<Operation>)
        requires
            self.wf(),
            !self.scope_live(),
        ensures
            r@ == self.log(),
    {
        match &self.handler {
            Some(h) => h.operations(),
            None => vstd::pervasive::unreached(),
        }
    }
}

/// Law: from an empty log, a transition that registers and then deregisters
/// leaves a log of exactly the register entry followed by the deregister
/// entry, in that call order.
pub proof fn lemma_register_then_deregister(
    log: Seq<Operation>,
    interest: EventSet,
    opt: PollOpt,
)
    requires
        log == Seq::<Operation>::empty(),
    ensures
        log.push(Operation::Register(interest, opt)).push(Operation::Deregister) == seq![
            Operation::Register(interest, opt),
            Operation::Deregister,
        ],
{
    assert(log.push(Operation::Register(interest, opt)).push(Operation::Deregister) =~= seq![
        Operation::Register(interest, opt),
        Operation::Deregister,
    ]);
}

} // verus!
