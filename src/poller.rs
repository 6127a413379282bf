use vstd::prelude::*;

use crate::event::{
    ReadyEvent, wake_interest, read_ready, edge_triggered, epoll_event, interrupted, is_interrupted,
};
use crate::handler::EventHandler;
use crate::registry::{FFIRef, HandlerRegistry, StaleToken, dispatched, is_live_in, registered};

verus! {

/// Token of the wake registration. No handler slot can carry it.
pub const WAKE_TOKEN: u64 = 0xFFFF_FFFF_FFFF_FFFF;

/// Where a reactor stands in its life.
#[derive(Clone, Copy, Debug, PartialEq, Eq, Structural)]
pub enum Phase {
    Constructed,
    Running,
    Stopping,
    Stopped,
}

/// What the caller of a stop request must do next, in this order: set the
/// stop flag and write to the wake descriptor, then join the worker.
#[derive(Clone, Copy, Debug, PartialEq, Eq, Structural)]
pub struct StopPlan {
    pub ping: bool,
    pub join: bool,
}

/// Why a handler could not be registered.
#[derive(Clone, Copy, Debug, PartialEq, Eq, Structural)]
pub enum RegisterError {
    /// Every token the table can hand out is taken.
    TableFull,
}

/// What the worker does after one wait.
#[derive(Clone, Copy, Debug, PartialEq, Eq, Structural)]
pub enum WorkerAction {
    /// Check the stop flag and wait again.
    Continue,
    /// Drain the wake descriptor, then check the stop flag and wait again.
    Drain,
    /// Stop with a fault, reported when the worker is joined.
    Fail(WorkerFault),
}

/// A fault that ends the worker.
#[derive(Clone, Copy, Debug, PartialEq, Eq, Structural)]
pub enum WorkerFault {
    /// The wait failed other than by interruption.
    Wait(OsError),
    /// A ready entry named no live handler.
    Stale(StaleToken),
}

/// The step of construction that failed.
#[derive(Clone, Copy, Debug, PartialEq, Eq, Structural)]
pub enum SetupStage {
    CreateBackend,
    CreateWake,
    RegisterWake,
}

/// An operating-system failure, by its error number.
#[derive(Clone, Copy, Debug, PartialEq, Eq, Structural)]
pub struct OsError {
    pub code: i32,
}

/// A failed construction: the step that failed, its error, and the
/// descriptors already created, which the caller closes before reporting.
#[derive(Debug)]
pub struct SetupFailure {
    pub stage: SetupStage,
    pub error: OsError,
    pub close: Vec<i32>,
}

/// The handler bound to the wake descriptor. Handling its entry means
/// draining the descriptor's counter, one 8-byte read.
#[derive(Clone, Copy, Debug, PartialEq, Eq, Structural)]
pub struct MgmtFd {
    pub mgmt_fd: i32,
}

impl MgmtFd {
    pub fn new(mgmt_fd: i32) -> (r: MgmtFd)
        ensures
            r.mgmt_fd == mgmt_fd,
    {
        MgmtFd { mgmt_fd }
    }
}

/// The abstract state of a reactor.
pub struct EpollerView<H> {
    pub epoll_fd: i32,
    pub wake_fd: i32,
    pub handlers: Seq<Option<H>>,
    pub phase: Phase,
}

impl<H> EpollerView<H> {
    pub open spec fn with_phase(self, phase: Phase) -> EpollerView<H> {
        EpollerView { phase, ..self }
    }

    pub open spec fn with_handlers(self, handlers: Seq<Option<H>>) -> EpollerView<H> {
        EpollerView { handlers, ..self }
    }
}

/// The phase after a stop request.
pub open spec fn phase_after_stop_request(p: Phase) -> Phase {
    match p {
        Phase::Constructed | Phase::Running => Phase::Stopping,
        _ => p,
    }
}

/// What a stop request asks of its caller: a running worker is pinged and
/// joined; in any other phase there is no worker to reach.
pub open spec fn stop_plan(p: Phase) -> StopPlan {
    if p == Phase::Running {
        StopPlan { ping: true, join: true }
    } else {
        StopPlan { ping: false, join: false }
    }
}

/// The descriptors to close when a stop completes: both of them, once, and
/// only out of the stopping phase.
pub open spec fn descriptors_to_close<H>(v: EpollerView<H>) -> Seq<i32> {
    if v.phase == Phase::Stopping {
        seq![v.wake_fd, v.epoll_fd]
    } else {
        Seq::empty()
    }
}

/// One ready entry handled: the wake entry touches no handler, any other
/// entry is dispatched to the handler its token names.
pub open spec fn event_step<H: EventHandler>(
    before: Seq<Option<H>>,
    e: ReadyEvent,
    after: Seq<Option<H>>,
) -> bool {
    if e.token == WAKE_TOKEN {
        after == before
    } else {
        dispatched(before, e.token, e.events, after)
    }
}

/// `trace` lists the handler tables while `events` is handled: the first
/// before any entry, each next one after the entry at that position.
pub open spec fn is_trace<H: EventHandler>(events: Seq<ReadyEvent>, trace: Seq<Seq<Option<H>>>) -> bool {
    &&& trace.len() == events.len() + 1
    &&& forall|i: int|
        0 <= i < events.len() ==> event_step(#[trigger] trace[i], events[i], trace[i + 1])
}

/// The entries of `events` handled one after another, in order, each once.
pub open spec fn batch_dispatched<H: EventHandler>(
    before: Seq<Option<H>>,
    events: Seq<ReadyEvent>,
    after: Seq<Option<H>>,
) -> bool {
    exists|trace: Seq<Seq<Option<H>>>|
        #[trigger] is_trace(events, trace) && trace[0] == before && trace.last() == after
}

/// A run of wake entries leaves the handler table as it was.
proof fn lemma_wake_run<H: EventHandler>(
    events: Seq<ReadyEvent>,
    trace: Seq<Seq<Option<H>>>,
    from: int,
    to: int,
)
    requires
        is_trace(events, trace),
        0 <= from <= to <= events.len(),
        forall|i: int| from <= i < to ==> (#[trigger] events[i]).token == WAKE_TOKEN,
    ensures
        trace[to] == trace[from],
    decreases to - from,
{
    if from < to {
        assert(event_step(trace[from], events[from], trace[from + 1]));
        lemma_wake_run(events, trace, from + 1, to);
    }
}

/// In a batch where one entry names a handler and every other entry is a
/// wake ping, that handler is invoked exactly once, with the entry's mask,
/// however many pings surround it.
pub proof fn lemma_one_entry_one_dispatch<H: EventHandler>(
    before: Seq<Option<H>>,
    events: Seq<ReadyEvent>,
    k: int,
    after: Seq<Option<H>>,
)
    requires
        batch_dispatched(before, events, after),
        0 <= k < events.len(),
        events[k].token != WAKE_TOKEN,
        forall|i: int| 0 <= i < events.len() && i != k ==> (#[trigger] events[i]).token == WAKE_TOKEN,
    ensures
        dispatched(before, events[k].token, events[k].events, after),
{
    let trace = choose|trace: Seq<Seq<Option<H>>>|
        #[trigger] is_trace(events, trace) && trace[0] == before && trace.last() == after;
    lemma_wake_run(events, trace, 0, k);
    assert(event_step(trace[k], events[k], trace[k + 1]));
    lemma_wake_run(events, trace, k + 1, events.len() as int);
}

/// A batch of wake pings alone invokes no handler.
pub proof fn lemma_wake_only_batch<H: EventHandler>(
    before: Seq<Option<H>>,
    events: Seq<ReadyEvent>,
    after: Seq<Option<H>>,
)
    requires
        batch_dispatched(before, events, after),
        forall|i: int| 0 <= i < events.len() ==> (#[trigger] events[i]).token == WAKE_TOKEN,
    ensures
        after == before,
{
    let trace = choose|trace: Seq<Seq<Option<H>>>|
        #[trigger] is_trace(events, trace) && trace[0] == before && trace.last() == after;
    lemma_wake_run(events, trace, 0, events.len() as int);
}

/// A batch cut short at its first stale entry, at `k`: the entries before
/// it were handled in order.
pub open spec fn stopped_at_stale<H: EventHandler>(
    before: Seq<Option<H>>,
    events: Seq<ReadyEvent>,
    k: int,
    after: Seq<Option<H>>,
) -> bool {
    &&& 0 <= k < events.len()
    &&& is_stale(before, events[k])
    &&& forall|i: int| 0 <= i < k ==> !is_stale(before, #[trigger] events[i])
    &&& batch_dispatched(before, events.take(k), after)
}

/// The phase after a completed stop.
pub open spec fn phase_after_finish(p: Phase) -> Phase {
    if p == Phase::Stopping {
        Phase::Stopped
    } else {
        p
    }
}

/// Once a stop has been requested and completed, a second stop is a no-op:
/// it pings no one, joins nothing, closes nothing and leaves the phase.
pub proof fn lemma_second_stop_is_noop<H>(v: EpollerView<H>)
    ensures
        ({
            let done = v.with_phase(phase_after_finish(phase_after_stop_request(v.phase)));
            &&& !stop_plan(done.phase).ping
            &&& !stop_plan(done.phase).join
            &&& phase_after_stop_request(done.phase) == done.phase
            &&& descriptors_to_close(done.with_phase(phase_after_stop_request(done.phase)))
                == Seq::<i32>::empty()
        }),
{
}

/// A start and a stop of a fresh reactor ping and join its worker once and
/// close the backend and wake descriptors exactly once, after the join;
/// nothing is left open and nothing more is closed afterwards.
pub proof fn lemma_cycle_closes_each_once<H>(v: EpollerView<H>)
    requires
        v.phase == Phase::Constructed,
    ensures
        ({
            let running = v.with_phase(Phase::Running);
            let stopping = running.with_phase(phase_after_stop_request(running.phase));
            let stopped = stopping.with_phase(phase_after_finish(stopping.phase));
            &&& stop_plan(running.phase).ping
            &&& stop_plan(running.phase).join
            &&& descriptors_to_close(stopping) == seq![v.wake_fd, v.epoll_fd]
            &&& stopped.phase == Phase::Stopped
            &&& descriptors_to_close(stopped) == Seq::<i32>::empty()
        }),
{
}

/// An entry that is neither the wake entry nor names a live handler.
pub open spec fn is_stale<H>(handlers: Seq<Option<H>>, e: ReadyEvent) -> bool {
    e.token != WAKE_TOKEN && !is_live_in(handlers, e.token)
}

/// The reactor's own state: the backend and wake descriptors, the handler
/// table, and the lifecycle phase. The worker thread and the stop flag are
/// driven from outside through `start`, `request_stop` and `finish_stop`.
pub struct Epoller<H> {
    epoll_fd: i32,
    wake: MgmtFd,
    registry: HandlerRegistry<H>,
    phase: Phase,
}

impl<H> View for Epoller<H> {
    type V = EpollerView<H>;

    closed spec fn view(&self) -> EpollerView<H> {
        EpollerView {
            epoll_fd: self.epoll_fd,
            wake_fd: self.wake.mgmt_fd,
            handlers: self.registry@,
            phase: self.phase,
        }
    }
}

impl<H> Epoller<H> {
    /// A reactor over the outcomes of creating the backend, then the wake
    /// descriptor (tried only once the backend exists). On a failure the
    /// descriptors already created are handed back to be closed.
    pub fn new(backend: Result<i32, OsError>, wake: Result<i32, OsError>) -> (r: Result<
        Self,
        SetupFailure,
    >)
        ensures
            r is Ok <==> backend is Ok && wake is Ok,
            r is Ok ==> r->Ok_0@.epoll_fd == backend->Ok_0,
            r is Ok ==> r->Ok_0@.wake_fd == wake->Ok_0,
            r is Ok ==> r->Ok_0@.handlers == Seq::<Option<H>>::empty(),
            r is Ok ==> r->Ok_0@.phase == Phase::Constructed,
            backend is Err ==> r->Err_0.stage == SetupStage::CreateBackend,
            backend is Err ==> r->Err_0.error == backend->Err_0,
            backend is Err ==> r->Err_0.close@ == Seq::<i32>::empty(),
            backend is Ok && wake is Err ==> r->Err_0.stage == SetupStage::CreateWake,
            backend is Ok && wake is Err ==> r->Err_0.error == wake->Err_0,
            backend is Ok && wake is Err ==> r->Err_0.close@ == seq![backend->Ok_0],
    {
        let epoll_fd = match backend {
            Ok(fd) => fd,
            Err(error) => {
                return Err(SetupFailure { stage: SetupStage::CreateBackend, error, close: Vec::new() });
            },
        };
        let wake_fd = match wake {
            Ok(fd) => fd,
            Err(error) => {
                return Err(SetupFailure { stage: SetupStage::CreateWake, error, close: vec![epoll_fd] });
            },
        };
        Ok(
            Epoller {
                epoll_fd,
                wake: MgmtFd::new(wake_fd),
                registry: HandlerRegistry::new(),
                phase: Phase::Constructed,
            },
        )
    }

    /// Gives up a reactor whose wake registration failed: both descriptors
    /// are handed back to be closed, each once.
    pub fn wake_registration_failed(self, error: OsError) -> (r: SetupFailure)
        ensures
            r.stage == SetupStage::RegisterWake,
            r.error == error,
            r.close@ == seq![self@.wake_fd, self@.epoll_fd],
    {
        SetupFailure { stage: SetupStage::RegisterWake, error, close: vec![self.wake.mgmt_fd, self.epoll_fd] }
    }

    pub fn epoll_fd(&self) -> (r: i32)
        ensures
            r == self@.epoll_fd,
    {
        self.epoll_fd
    }

    pub fn wake_fd(&self) -> (r: i32)
        ensures
            r == self@.wake_fd,
    {
        self.wake.mgmt_fd
    }

    pub fn phase(&self) -> (r: Phase)
        ensures
            r == self@.phase,
    {
        self.phase
    }

    /// The registration of the wake descriptor: read interest, edge
    /// triggered, under the reserved token.
    pub fn wake_registration(&self) -> (r: ReadyEvent)
        ensures
            r.events == read_ready() | edge_triggered(),
            r.token == WAKE_TOKEN,
    {
        epoll_event(wake_interest(), WAKE_TOKEN)
    }

    /// Takes ownership of `h` and hands out the token to store with its
    /// backend registration.
    pub fn register(&mut self, h: H) -> (r: Result<FFIRef, RegisterError>)
        ensures
            r is Err <==> old(self)@.handlers.len() == usize::MAX,
            r is Ok ==> r->Ok_0.token != WAKE_TOKEN,
            r is Ok ==> registered(old(self)@.handlers, h, r->Ok_0.token, final(self)@.handlers),
            r is Ok ==> final(self)@ == old(self)@.with_handlers(final(self)@.handlers),
            r is Err ==> final(self)@ == old(self)@,
    {
        if self.registry.len() == usize::MAX {
            return Err(RegisterError::TableFull);
        }
        let t = self.registry.register(h);
        Ok(t)
    }

    /// Gives up the handler under `token`, once its backend registration has
    /// been removed.
    pub fn release(&mut self, token: u64) -> (r: Option<H>)
        ensures
            is_live_in(old(self)@.handlers, token) ==> {
                &&& r == old(self)@.handlers[token as int]
                &&& final(self)@.handlers == old(self)@.handlers.update(token as int, None)
            },
            !is_live_in(old(self)@.handlers, token) ==> r is None && final(self)@.handlers
                == old(self)@.handlers,
            final(self)@ == old(self)@.with_handlers(final(self)@.handlers),
    {
        self.registry.release(token)
    }

    /// Marks the worker as running. Returns whether a worker is to be
    /// spawned: only out of the constructed phase.
    pub fn start(&mut self) -> (spawn: bool)
        ensures
            spawn == (old(self)@.phase == Phase::Constructed),
            spawn ==> final(self)@ == old(self)@.with_phase(Phase::Running),
            !spawn ==> final(self)@ == old(self)@,
    {
        if self.phase == Phase::Constructed {
            self.phase = Phase::Running;
            true
        } else {
            false
        }
    }

    /// Begins a stop. A running worker is to be pinged after the stop flag is
    /// set, then joined; a second request asks for nothing.
    pub fn request_stop(&mut self) -> (plan: StopPlan)
        ensures
            plan == stop_plan(old(self)@.phase),
            final(self)@ == old(self)@.with_phase(phase_after_stop_request(old(self)@.phase)),
    {
        let plan = if self.phase == Phase::Running {
            StopPlan { ping: true, join: true }
        } else {
            StopPlan { ping: false, join: false }
        };
        if self.phase == Phase::Constructed || self.phase == Phase::Running {
            self.phase = Phase::Stopping;
        }
        plan
    }

    /// Completes a stop once the worker has been joined: hands out the
    /// descriptors to close, each once. Out of any phase but stopping it
    /// hands out nothing and changes nothing.
    pub fn finish_stop(&mut self) -> (r: Vec<i32>)
        ensures
            r@ == descriptors_to_close(old(self)@),
            final(self)@ == old(self)@.with_phase(phase_after_finish(old(self)@.phase)),
    {
        if self.phase == Phase::Stopping {
            self.phase = Phase::Stopped;
            vec![self.wake.mgmt_fd, self.epoll_fd]
        } else {
            Vec::new()
        }
    }
}

impl<H: EventHandler> Epoller<H> {
    /// Handles one batch of ready entries in the order given, each once.
    /// Returns whether the wake entry was among them, in which case the wake
    /// descriptor is to be drained. A stale entry is a defect: the batch
    /// stops there and the entry's token is reported.
    pub fn process_events(&mut self, events: &Vec<ReadyEvent>) -> (r: Result<bool, StaleToken>)
        ensures
            final(self)@ == old(self)@.with_handlers(final(self)@.handlers),
            r is Ok <==> forall|i: int|
                0 <= i < events@.len() ==> !is_stale(old(self)@.handlers, #[trigger] events@[i]),
            r is Ok ==> batch_dispatched(old(self)@.handlers, events@, final(self)@.handlers),
            r is Ok ==> (r->Ok_0 <==> exists|i: int|
                0 <= i < events@.len() && (#[trigger] events@[i]).token == WAKE_TOKEN),
            r is Err ==> exists|k: int|
                #[trigger] stopped_at_stale(old(self)@.handlers, events@, k, final(self)@.handlers)
                    && r->Err_0.token == events@[k].token,
    {
        let mut i: usize = 0;
        let mut woke = false;
        let ghost mut trace: Seq<Seq<Option<H>>> = seq![old(self)@.handlers];
        assert(is_trace(events@.take(0), trace));
        while i < events.len()
            invariant
                i <= events@.len(),
                self@ == old(self)@.with_handlers(self@.handlers),
                is_trace(events@.take(i as int), trace),
                trace[0] == old(self)@.handlers,
                trace.last() == self@.handlers,
                forall|j: int| 0 <= j < i ==> !is_stale(old(self)@.handlers, #[trigger] events@[j]),
                forall|u: u64| #[trigger]
                    is_live_in(self@.handlers, u) == is_live_in(old(self)@.handlers, u),
                woke <==> exists|j: int| 0 <= j < i && (#[trigger] events@[j]).token == WAKE_TOKEN,
            decreases events@.len() - i,
        {
            let ghost before = self@.handlers;
            let e = events[i];
            if e.token == WAKE_TOKEN {
                woke = true;
            } else {
                match self.registry.dispatch(e.token, e.events) {
                    Ok(()) => {
                        assert forall|u: u64| #[trigger]
                            is_live_in(self@.handlers, u) == is_live_in(before, u) by {
                            if u != e.token && u < before.len() {
                                assert(self@.handlers[u as int] == before[u as int]);
                            }
                        }
                    },
                    Err(s) => {
                        assert(is_stale(old(self)@.handlers, events@[i as int]));
                        assert(self@.handlers == before);
                        assert(batch_dispatched(old(self)@.handlers, events@.take(i as int), self@.handlers));
                        assert(stopped_at_stale(old(self)@.handlers, events@, i as int, self@.handlers));
                        return Err(s);
                    },
                }
            }
            assert(event_step(before, e, self@.handlers));
            proof {
                let prefix = events@.take(i + 1);
                let t2 = trace.push(self@.handlers);
                assert forall|j: int| 0 <= j < prefix.len() implies event_step(
                    #[trigger] t2[j],
                    prefix[j],
                    t2[j + 1],
                ) by {
                    if j < i {
                        assert(prefix[j] == events@.take(i as int)[j]);
                        assert(event_step(trace[j], events@.take(i as int)[j], trace[j + 1]));
                    }
                }
                trace = t2;
            }
            i = i + 1;
        }
        assert(events@.take(i as int) =~= events@);
        assert(is_trace(events@, trace));
        Ok(woke)
    }

    /// The worker's step after one wait: an interrupted wait is retried, any
    /// other failure is a fault; a batch is handled as `process_events` does,
    /// and the wake entry among it asks for a drain.
    pub fn handle_wait(&mut self, outcome: Result<Vec<ReadyEvent>, OsError>) -> (a: WorkerAction)
        ensures
            final(self)@ == old(self)@.with_handlers(final(self)@.handlers),
            outcome is Err && outcome->Err_0.code == interrupted() ==> a == WorkerAction::Continue
                && final(self)@ == old(self)@,
            outcome is Err && outcome->Err_0.code != interrupted() ==> a == WorkerAction::Fail(
                WorkerFault::Wait(outcome->Err_0),
            ) && final(self)@ == old(self)@,
            outcome is Ok ==> (a is Fail <==> exists|i: int|
                0 <= i < outcome->Ok_0@.len() && is_stale(
                    old(self)@.handlers,
                    #[trigger] outcome->Ok_0@[i],
                )),
            outcome is Ok && !(a is Fail) ==> batch_dispatched(
                old(self)@.handlers,
                outcome->Ok_0@,
                final(self)@.handlers,
            ),
            outcome is Ok && !(a is Fail) ==> (a == WorkerAction::Drain <==> exists|i: int|
                0 <= i < outcome->Ok_0@.len() && (#[trigger] outcome->Ok_0@[i]).token == WAKE_TOKEN),
            outcome is Ok && a is Fail ==> a->Fail_0 is Stale,
            outcome is Ok && a is Fail ==> exists|k: int|
                #[trigger] stopped_at_stale(old(self)@.handlers, outcome->Ok_0@, k, final(self)@.handlers)
                    && a->Fail_0->Stale_0.token == outcome->Ok_0@[k].token,
    {
        match outcome {
            Err(e) => {
                if is_interrupted(e.code) {
                    WorkerAction::Continue
                } else {
                    WorkerAction::Fail(WorkerFault::Wait(e))
                }
            },
            Ok(events) => match self.process_events(&events) {
                Ok(true) => WorkerAction::Drain,
                Ok(false) => WorkerAction::Continue,
                Err(s) => WorkerAction::Fail(WorkerFault::Stale(s)),
            },
        }
    }
}

} // verus!
