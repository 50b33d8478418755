//! The server's lifecycle: which listeners are bound, which accept loops still
//! run, which connection tasks are registered, and how shutdown drains them.
//!
//! The accept loops, handshakes and request serving run elsewhere; each of them
//! reports what happened here and does what the returned action says.

use vstd::prelude::*;

verus! {

/// Whether a listener speaks plain text or runs a TLS handshake first.
#[derive(Clone, Copy, PartialEq, Eq, Structural, Debug)]
pub enum Protocol {
    Plain,
    Secure,
}

/// The stages a server goes through, in this order.
#[derive(Clone, Copy, PartialEq, Eq, Structural, Debug)]
pub enum Phase {
    /// No listener bound yet.
    Created,
    /// Listeners open, not yet accepting.
    Bound,
    /// Accept loops running.
    Serving,
    /// Shutdown signalled: nothing new is accepted, registered tasks finish.
    Draining,
    /// Shutdown signalled and every registered task finished.
    Stopped,
}

/// What an accept loop observed when it last woke up.
#[derive(Clone, Copy, PartialEq, Eq, Structural, Debug)]
pub enum AcceptEvent {
    /// A connection arrived.
    Connection,
    /// `accept` failed in a way that the next call may not.
    TransientError,
    /// `accept` failed in a way that ends this listener.
    FatalError,
    /// The loop's shutdown signal fired.
    ShutdownSignal,
}

/// The kinds of `accept` failure that an accept loop tells apart.
#[derive(Clone, Copy, PartialEq, Eq, Structural, Debug)]
pub enum AcceptErrorKind {
    /// The peer gave up before the connection was taken.
    ConnectionAborted,
    /// The peer reset the connection before it was taken.
    ConnectionReset,
    /// The call was interrupted by a signal.
    Interrupted,
    /// No connection was ready after all.
    WouldBlock,
    /// Anything else, such as running out of file descriptors.
    Other,
}

/// Failures that concern one would-be connection, after which the next
/// `accept` may well succeed; all others end the listener.
pub open spec fn is_transient(kind: AcceptErrorKind) -> bool {
    kind != AcceptErrorKind::Other
}

/// The event that an `accept` failure of this kind amounts to.
pub fn accept_error_event(kind: AcceptErrorKind) -> (r: AcceptEvent)
    ensures
        is_transient(kind) ==> r == AcceptEvent::TransientError,
        !is_transient(kind) ==> r == AcceptEvent::FatalError,
{
    match kind {
        AcceptErrorKind::Other => AcceptEvent::FatalError,
        _ => AcceptEvent::TransientError,
    }
}

/// What an accept loop does next.
#[derive(Clone, Copy, PartialEq, Eq, Structural, Debug)]
pub enum LoopAction {
    /// Hand the connection to a new task registered under this id, then go on.
    Spawn(u64),
    /// Go on accepting; a connection just accepted, if any, is dropped.
    Continue,
    /// Leave the loop; a connection just accepted, if any, is dropped.
    Stop,
}

/// Why a lifecycle request was refused.
#[derive(Clone, Copy, PartialEq, Eq, Structural, Debug)]
pub enum LifecycleError {
    /// Listeners can only be added before serving starts.
    NotBinding,
    /// Serving starts once, from the bound stage.
    NotBound,
}

/// The answer to "is shutdown complete?".
#[derive(PartialEq, Eq, Debug)]
pub enum DrainOutcome {
    /// No connection task is registered.
    Complete,
    /// Tasks remain and the caller's deadline has not passed.
    Pending,
    /// The deadline passed with these tasks still registered.
    Outstanding(Vec<u64>),
}

/// The largest connection task id; once it is used, new connections are dropped.
pub const MAX_TASK_ID: u64 = 0xffff_ffff_ffff_ffff;

/// The abstract state of a server.
pub struct ServerModel {
    pub phase: Phase,
    /// The protocol of each listener, by listener id.
    pub listeners: Seq<Protocol>,
    /// Whether the accept loop of each listener still runs.
    pub open: Seq<bool>,
    /// The ids of the registered connection tasks.
    pub tasks: Set<u64>,
    /// The id that the next connection task gets.
    pub next_task: nat,
}

/// One thing that can happen to a server.
pub enum ServerEvent {
    Bind(Protocol),
    StartServing,
    Accept(int, AcceptEvent),
    Complete(u64),
    TriggerShutdown,
}

impl ServerModel {
    /// A server that has bound nothing.
    pub open spec fn initial() -> ServerModel {
        ServerModel {
            phase: Phase::Created,
            listeners: Seq::empty(),
            open: Seq::empty(),
            tasks: Set::empty(),
            next_task: 0,
        }
    }

    /// One accept-loop flag per listener, and every registered id was handed
    /// out; a stopped server has no task left.
    pub open spec fn wf(self) -> bool {
        &&& self.listeners.len() == self.open.len()
        &&& self.next_task <= MAX_TASK_ID
        &&& forall|t: u64| self.tasks.contains(t) ==> (t as nat) < self.next_task
        &&& self.phase == Phase::Stopped ==> self.tasks.is_empty()
    }

    pub open spec fn shutdown_triggered(self) -> bool {
        self.phase == Phase::Draining || self.phase == Phase::Stopped
    }

    /// Whether listener `l`'s accept loop may hand out a connection now.
    pub open spec fn admits(self, l: int) -> bool {
        &&& self.phase == Phase::Serving
        &&& 0 <= l < self.open.len()
        &&& self.open[l]
    }

    /// A new listener, open, while binding is still allowed.
    pub open spec fn bind(self, p: Protocol) -> ServerModel {
        if self.phase == Phase::Created || self.phase == Phase::Bound {
            ServerModel {
                phase: Phase::Bound,
                listeners: self.listeners.push(p),
                open: self.open.push(true),
                ..self
            }
        } else {
            self
        }
    }

    /// Serving starts from the bound stage only.
    pub open spec fn start_serving(self) -> ServerModel {
        if self.phase == Phase::Bound {
            ServerModel { phase: Phase::Serving, ..self }
        } else {
            self
        }
    }

    /// What listener `l`'s accept loop is told to do with `ev`.
    pub open spec fn accept_action(self, l: int, ev: AcceptEvent) -> LoopAction {
        if !self.admits(l) {
            LoopAction::Stop
        } else {
            match ev {
                AcceptEvent::Connection => if self.next_task < MAX_TASK_ID {
                    LoopAction::Spawn(self.next_task as u64)
                } else {
                    LoopAction::Continue
                },
                AcceptEvent::TransientError => LoopAction::Continue,
                AcceptEvent::FatalError => LoopAction::Stop,
                AcceptEvent::ShutdownSignal => LoopAction::Stop,
            }
        }
    }

    /// The state after listener `l`'s accept loop reports `ev`.
    pub open spec fn accept(self, l: int, ev: AcceptEvent) -> ServerModel {
        if !self.admits(l) {
            self
        } else {
            match ev {
                AcceptEvent::Connection => if self.next_task < MAX_TASK_ID {
                    ServerModel {
                        tasks: self.tasks.insert(self.next_task as u64),
                        next_task: self.next_task + 1,
                        ..self
                    }
                } else {
                    self
                },
                AcceptEvent::TransientError => self,
                _ => ServerModel { open: self.open.update(l, false), ..self },
            }
        }
    }

    /// The state after connection task `id` finished.
    pub open spec fn complete(self, id: u64) -> ServerModel {
        let tasks = self.tasks.remove(id);
        ServerModel {
            tasks,
            phase: if self.phase == Phase::Draining && tasks.is_empty() {
                Phase::Stopped
            } else {
                self.phase
            },
            ..self
        }
    }

    /// The state after shutdown is signalled.
    pub open spec fn trigger_shutdown(self) -> ServerModel {
        if self.shutdown_triggered() {
            self
        } else {
            ServerModel {
                phase: if self.tasks.is_empty() {
                    Phase::Stopped
                } else {
                    Phase::Draining
                },
                ..self
            }
        }
    }

    /// The state after one event.
    pub open spec fn step(self, e: ServerEvent) -> ServerModel {
        match e {
            ServerEvent::Bind(p) => self.bind(p),
            ServerEvent::StartServing => self.start_serving(),
            ServerEvent::Accept(l, ev) => self.accept(l, ev),
            ServerEvent::Complete(id) => self.complete(id),
            ServerEvent::TriggerShutdown => self.trigger_shutdown(),
        }
    }

    /// The state after the events, in order.
    pub open spec fn run(self, events: Seq<ServerEvent>) -> ServerModel
        decreases events.len(),
    {
        if events.len() == 0 {
            self
        } else {
            self.step(events[0]).run(events.subrange(1, events.len() as int))
        }
    }

    /// `r` reports this state's drain: complete with no task left, pending
    /// before the deadline, else every remaining task, once each.
    pub open spec fn drain_outcome_matches(self, deadline_passed: bool, r: DrainOutcome) -> bool {
        if self.tasks.is_empty() {
            r == DrainOutcome::Complete
        } else if !deadline_passed {
            r == DrainOutcome::Pending
        } else {
            exists|v: Vec<u64>| r == DrainOutcome::Outstanding(v) && v@.to_set() == self.tasks
                && v@.no_duplicates()
        }
    }
}


/// A server's lifecycle state, and its registry of connection tasks.
pub struct Server {
    phase: Phase,
    listeners: Vec<Protocol>,
    open: Vec<bool>,
    tasks: Vec<u64>,
    next_task: u64,
}

impl View for Server {
    type V = ServerModel;

    closed spec fn view(&self) -> ServerModel {
        ServerModel {
            phase: self.phase,
            listeners: self.listeners@,
            open: self.open@,
            tasks: self.tasks@.to_set(),
            next_task: self.next_task as nat,
        }
    }
}

proof fn lemma_empty_to_set(s: Seq<u64>)
    ensures
        s.to_set().is_empty() <==> s.len() == 0,
{
    if s.len() > 0 {
        assert(s.to_set().contains(s[0]));
    } else {
        assert(s.to_set() =~= Set::empty());
    }
}

proof fn lemma_push_fresh(s: Seq<u64>, x: u64)
    requires
        s.no_duplicates(),
        !s.to_set().contains(x),
    ensures
        s.push(x).no_duplicates(),
        s.push(x).to_set() == s.to_set().insert(x),
{
    let t = s.push(x);
    assert forall|i: int, j: int| 0 <= i < t.len() && 0 <= j < t.len() && i != j implies t[i] != t[j] by {
        if i < s.len() && j < s.len() {
        } else if i < s.len() {
            assert(s.to_set().contains(s[i]));
        } else {
            assert(s.to_set().contains(s[j]));
        }
    }
    assert forall|y: u64| t.to_set().contains(y) <==> s.to_set().insert(x).contains(y) by {
        if t.to_set().contains(y) {
            let k = choose|k: int| 0 <= k < t.len() && t[k] == y;
            if k < s.len() {
                assert(s[k] == y);
            }
        }
        if s.to_set().contains(y) {
            let k = choose|k: int| 0 <= k < s.len() && s[k] == y;
            assert(t[k] == y);
        }
        if y == x {
            assert(t[s.len() as int] == x);
        }
    }
    assert(t.to_set() =~= s.to_set().insert(x));
}

proof fn lemma_remove_at(s: Seq<u64>, i: int)
    requires
        s.no_duplicates(),
        0 <= i < s.len(),
    ensures
        s.remove(i).no_duplicates(),
        s.remove(i).to_set() == s.to_set().remove(s[i]),
{
    let t = s.remove(i);
    let x = s[i];
    assert forall|a: int, b: int| 0 <= a < t.len() && 0 <= b < t.len() && a != b implies t[a] != t[b] by {
        let a2 = if a < i { a } else { a + 1 };
        let b2 = if b < i { b } else { b + 1 };
        assert(t[a] == s[a2] && t[b] == s[b2]);
    }
    assert forall|y: u64| t.to_set().contains(y) <==> s.to_set().remove(x).contains(y) by {
        if t.to_set().contains(y) {
            let k = choose|k: int| 0 <= k < t.len() && t[k] == y;
            let k2 = if k < i { k } else { k + 1 };
            assert(s[k2] == y);
            assert(k2 != i);
        }
        if s.to_set().contains(y) && y != x {
            let k = choose|k: int| 0 <= k < s.len() && s[k] == y;
            assert(k != i);
            if k < i {
                assert(t[k] == y);
            } else {
                assert(t[k - 1] == y);
            }
        }
    }
    assert(t.to_set() =~= s.to_set().remove(x));
}

fn find_task(tasks: &Vec<u64>, id: u64) -> (r: Option<usize>)
    ensures
        r matches Some(i) ==> i < tasks.len() && tasks@[i as int] == id,
        r is None ==> !tasks@.to_set().contains(id),
{
    let mut i: usize = 0;
    while i < tasks.len()
        invariant
            i <= tasks.len(),
            forall|j: int| 0 <= j < i ==> tasks@[j] != id,
        decreases tasks.len() - i,
    {
        if tasks[i] == id {
            return Some(i);
        }
        i = i + 1;
    }
    None
}

impl Server {
    /// The registry holds each task once, every id in it was handed out, and
    /// each listener has one accept-loop flag.
    pub closed spec fn wf(&self) -> bool {
        &&& self@.wf()
        &&& self.tasks@.no_duplicates()
    }

    /// A server with no listener and no task.
    pub fn new() -> (r: Server)
        ensures
            r.wf(),
            r@ == ServerModel::initial(),
    {
        let r = Server {
            phase: Phase::Created,
            listeners: Vec::new(),
            open: Vec::new(),
            tasks: Vec::new(),
            next_task: 0,
        };
        proof {
            assert(r.tasks@.to_set() =~= Set::empty());
        }
        r
    }

    /// Records a newly bound listener and returns its id. Refused once serving
    /// has started or shutdown has been triggered.
    pub fn add_listener(&mut self, protocol: Protocol) -> (r: Result<usize, LifecycleError>)
        requires
            old(self).wf(),
        ensures
            final(self).wf(),
            final(self)@ == old(self)@.bind(protocol),
            r is Ok <==> (old(self)@.phase == Phase::Created || old(self)@.phase == Phase::Bound),
            r matches Ok(id) ==> id == old(self)@.listeners.len(),
            r is Err ==> r == Err::<usize, LifecycleError>(LifecycleError::NotBinding),
    {
        match self.phase {
            Phase::Created | Phase::Bound => {
                let id = self.listeners.len();
                self.listeners.push(protocol);
                self.open.push(true);
                self.phase = Phase::Bound;
                Ok(id)
            },
            _ => Err(LifecycleError::NotBinding),
        }
    }

    /// Moves from the bound stage to serving.
    pub fn start_serving(&mut self) -> (r: Result<(), LifecycleError>)
        requires
            old(self).wf(),
        ensures
            final(self).wf(),
            final(self)@ == old(self)@.start_serving(),
            r is Ok <==> old(self)@.phase == Phase::Bound,
            r is Err ==> r == Err::<(), LifecycleError>(LifecycleError::NotBound),
    {
        if self.phase == Phase::Bound {
            self.phase = Phase::Serving;
            Ok(())
        } else {
            Err(LifecycleError::NotBound)
        }
    }

    /// Decides what listener `listener`'s accept loop does with what it observed,
    /// and registers a new connection task where one is spawned.
    pub fn on_accept(&mut self, listener: usize, event: AcceptEvent) -> (r: LoopAction)
        requires
            old(self).wf(),
        ensures
            final(self).wf(),
            final(self)@ == old(self)@.accept(listener as int, event),
            r == old(self)@.accept_action(listener as int, event),
    {
        let admits = self.phase == Phase::Serving && listener < self.open.len()
            && self.open[listener];
        if !admits {
            return LoopAction::Stop;
        }
        match event {
            AcceptEvent::Connection => {
                if self.next_task < MAX_TASK_ID {
                    let id = self.next_task;
                    proof {
                        if self.tasks@.to_set().contains(id) {
                            assert((id as nat) < self.next_task as nat);
                        }
                        lemma_push_fresh(self.tasks@, id);
                    }
                    self.tasks.push(id);
                    self.next_task = id + 1;
                    proof {
                        lemma_step_wf(old(self)@, ServerEvent::Accept(listener as int, event));
                    }
                    LoopAction::Spawn(id)
                } else {
                    LoopAction::Continue
                }
            },
            AcceptEvent::TransientError => LoopAction::Continue,
            _ => {
                self.open.set(listener, false);
                LoopAction::Stop
            },
        }
    }

    /// Removes a finished connection task from the registry. Where shutdown is
    /// draining and this was the last task, the server is stopped.
    pub fn on_complete(&mut self, id: u64)
        requires
            old(self).wf(),
        ensures
            final(self).wf(),
            final(self)@ == old(self)@.complete(id),
    {
        match find_task(&self.tasks, id) {
            Some(i) => {
                proof {
                    lemma_remove_at(self.tasks@, i as int);
                }
                self.tasks.remove(i);
            },
            None => {
                proof {
                    assert(self.tasks@.to_set() =~= self.tasks@.to_set().remove(id));
                }
            },
        }
        proof {
            lemma_empty_to_set(self.tasks@);
        }
        if self.phase == Phase::Draining && self.tasks.len() == 0 {
            self.phase = Phase::Stopped;
        }
        proof {
            lemma_step_wf(old(self)@, ServerEvent::Complete(id));
        }
    }

    /// Signals shutdown: from now on no accept loop hands out a connection.
    /// Registered tasks keep running; with none, the server is stopped at once.
    /// A second call changes nothing.
    pub fn trigger_shutdown(&mut self)
        requires
            old(self).wf(),
        ensures
            final(self).wf(),
            final(self)@ == old(self)@.trigger_shutdown(),
    {
        if self.phase != Phase::Draining && self.phase != Phase::Stopped {
            proof {
                lemma_empty_to_set(self.tasks@);
            }
            if self.tasks.len() == 0 {
                self.phase = Phase::Stopped;
            } else {
                self.phase = Phase::Draining;
            }
        }
    }

    /// Reports whether shutdown has drained, and which tasks remain once the
    /// caller's deadline has passed.
    pub fn drain_status(&self, deadline_passed: bool) -> (r: DrainOutcome)
        requires
            self.wf(),
        ensures
            self@.drain_outcome_matches(deadline_passed, r),
    {
        proof {
            lemma_empty_to_set(self.tasks@);
        }
        if self.tasks.len() == 0 {
            DrainOutcome::Complete
        } else if !deadline_passed {
            DrainOutcome::Pending
        } else {
            let v = self.tasks.clone();
            assert(v@ =~= self.tasks@);
            DrainOutcome::Outstanding(v)
        }
    }

    pub fn phase(&self) -> (r: Phase)
        ensures
            r == self@.phase,
    {
        self.phase
    }

    /// How many connection tasks are registered.
    pub fn active_tasks(&self) -> (r: usize)
        requires
            self.wf(),
        ensures
            r == self@.tasks.len(),
    {
        proof {
            self.tasks@.unique_seq_to_set();
        }
        self.tasks.len()
    }
}

/// Every event keeps a well-formed state well formed.
pub proof fn lemma_step_wf(m: ServerModel, e: ServerEvent)
    requires
        m.wf(),
    ensures
        m.step(e).wf(),
{
    match e {
        ServerEvent::Accept(l, ev) => {
            if m.admits(l) && ev == AcceptEvent::Connection && m.next_task < MAX_TASK_ID {
                let m2 = m.step(e);
                assert forall|t: u64| m2.tasks.contains(t) implies (t as nat) < m2.next_task by {
                    if t != m.next_task as u64 {
                        assert(m.tasks.contains(t));
                    }
                }
            }
        },
        _ => {},
    }
}

/// Once shutdown is triggered it stays triggered, and no accept loop hands out
/// a connection again: whatever happens afterwards, the registered tasks are
/// among those registered when shutdown was triggered.
pub proof fn lemma_no_accept_after_shutdown(m: ServerModel, events: Seq<ServerEvent>)
    requires
        m.shutdown_triggered(),
    ensures
        m.run(events).shutdown_triggered(),
        m.run(events).tasks.subset_of(m.tasks),
        forall|l: int, ev: AcceptEvent| m.run(events).accept_action(l, ev) == LoopAction::Stop,
    decreases events.len(),
{
    if events.len() > 0 {
        let m1 = m.step(events[0]);
        assert(m1.shutdown_triggered());
        assert(m1.tasks.subset_of(m.tasks));
        lemma_no_accept_after_shutdown(m1, events.subrange(1, events.len() as int));
    }
}

/// A connection task registered when shutdown comes is not cut off by it: it
/// stays registered until its own completion is reported.
pub proof fn lemma_accepted_survives_shutdown(m: ServerModel, id: u64, events: Seq<ServerEvent>)
    requires
        m.tasks.contains(id),
        forall|i: int| 0 <= i < events.len() ==> events[i] != ServerEvent::Complete(id),
    ensures
        m.run(events).tasks.contains(id),
    decreases events.len(),
{
    if events.len() > 0 {
        let m1 = m.step(events[0]);
        assert(events[0] != ServerEvent::Complete(id));
        assert(m1.tasks.contains(id));
        let rest = events.subrange(1, events.len() as int);
        assert forall|i: int| 0 <= i < rest.len() implies rest[i] != ServerEvent::Complete(id) by {
            assert(rest[i] == events[i + 1]);
        }
        lemma_accepted_survives_shutdown(m1, id, rest);
    }
}

/// A connection that is accepted and then reported complete leaves the task
/// registry as it found it.
pub proof fn lemma_accept_then_complete(m: ServerModel, l: int)
    requires
        m.wf(),
        m.admits(l),
        m.next_task < MAX_TASK_ID,
    ensures
        m.accept_action(l, AcceptEvent::Connection) == LoopAction::Spawn(m.next_task as u64),
        m.accept(l, AcceptEvent::Connection).complete(m.next_task as u64).tasks == m.tasks,
        m.accept(l, AcceptEvent::Connection).complete(m.next_task as u64).phase == m.phase,
{
    let id = m.next_task as u64;
    assert(!m.tasks.contains(id));
    assert(m.tasks.insert(id).remove(id) =~= m.tasks);
}

/// Triggering shutdown twice is the same as triggering it once.
pub proof fn lemma_trigger_idempotent(m: ServerModel)
    ensures
        m.trigger_shutdown().trigger_shutdown() == m.trigger_shutdown(),
{
}

/// A fatal error or a shutdown signal on one listener leaves every other
/// listener's accept loop as it was.
pub proof fn lemma_listeners_independent(m: ServerModel, l: int, k: int, ev: AcceptEvent)
    requires
        m.wf(),
        l != k,
        0 <= k < m.open.len(),
    ensures
        m.accept(l, ev).open[k] == m.open[k],
        m.accept(l, ev).open.len() == m.open.len(),
{
}

} // verus!
