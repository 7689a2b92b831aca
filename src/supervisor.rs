use vstd::prelude::*;
use std::collections::HashMap;
use crate::config::{distinct, server_ids, Config};
use crate::msg::{
    ByondIn, ByondInView, ByondOut, ByondOutView, Internal, InternalView, WatcherHandle,
    WatcherMessage,
};

verus! {

/// Run state of one server. Times are milliseconds on the supervisor's clock.
#[derive(Debug, PartialEq, Eq)]
pub enum ServerState {
    Stopped,
    PreStart,
    /// Time at which the child was seen to start
    Starting(u64),
    /// Time at which the server announced that it is stopping
    Stopping(u64),
    /// Pings sent since the last pong; peer identity of the server
    Serving(usize, Vec<u8>),
    UpdatePending,
}

/// `ServerState` with the peer identity seen as a byte sequence.
pub enum ServerPhase {
    Stopped,
    PreStart,
    Starting(u64),
    Stopping(u64),
    Serving(usize, Seq<u8>),
    UpdatePending,
}

impl View for ServerState {
    type V = ServerPhase;

    open spec fn view(&self) -> ServerPhase {
        match self {
            ServerState::Stopped => ServerPhase::Stopped,
            ServerState::PreStart => ServerPhase::PreStart,
            ServerState::Starting(t) => ServerPhase::Starting(*t),
            ServerState::Stopping(t) => ServerPhase::Stopping(*t),
            ServerState::Serving(n, p) => ServerPhase::Serving(*n, p@),
            ServerState::UpdatePending => ServerPhase::UpdatePending,
        }
    }
}

/// Update state of one server.
#[derive(Debug, Clone, Copy, PartialEq, Eq, Structural)]
pub enum UpdateState {
    Idle,
    PreUpdate,
    Updating,
}

/// Everything the supervisor knows of one server.
#[derive(Debug, PartialEq, Eq)]
pub struct State {
    pub server: ServerState,
    pub update: UpdateState,
    /// Kill watcher of the current child, if one is tracked
    pub killer: Option<WatcherHandle>,
}

pub struct StateView {
    pub server: ServerPhase,
    pub update: UpdateState,
    pub killer: Option<WatcherHandle>,
}

impl View for State {
    type V = StateView;

    open spec fn view(&self) -> StateView {
        StateView { server: self.server@, update: self.update, killer: self.killer }
    }
}

/// Something the supervisor asks of the world around it.
#[derive(Debug, PartialEq, Eq)]
pub enum Action {
    /// Put an event on the supervisor's internal queue.
    Enqueue(Internal),
    /// Send a message to the server at a peer identity.
    Send(ByondOut, Vec<u8>),
    /// Start a child runner for the server.
    Launch(String),
    /// Start an updater for the server, with an environment overlay.
    Update(String, HashMap<String, String>),
    /// Tell a kill watcher something.
    Signal(WatcherHandle, WatcherMessage),
}

pub enum ActionView {
    Enqueue(InternalView),
    Send(ByondOutView, Seq<u8>),
    Launch(Seq<char>),
    Update(Seq<char>, HashMap<String, String>),
    Signal(WatcherHandle, WatcherMessage),
}

impl View for Action {
    type V = ActionView;

    open spec fn view(&self) -> ActionView {
        match self {
            Action::Enqueue(m) => ActionView::Enqueue(m@),
            Action::Send(m, p) => ActionView::Send(m@, p@),
            Action::Launch(id) => ActionView::Launch(id@),
            Action::Update(id, env) => ActionView::Update(id@, *env),
            Action::Signal(w, m) => ActionView::Signal(*w, *m),
        }
    }
}

/// The views of a list of actions.
pub open spec fn views(a: Seq<Action>) -> Seq<ActionView> {
    a.map_values(|x: Action| x@)
}

/// The timing and liveness limits that the supervisor enforces.
#[derive(Debug, Clone, Copy)]
pub struct Limits {
    pub max_lost_pings: usize,
    pub starting_timeout: u64,
    pub stopping_timeout: u64,
}

/// A child process is tracked in this phase.
pub open spec fn has_child(p: ServerPhase) -> bool {
    p is Starting || p is Stopping || p is Serving
}

pub open spec fn with_server(s: StateView, p: ServerPhase) -> StateView {
    StateView { server: p, update: s.update, killer: s.killer }
}

pub open spec fn with_update(s: StateView, u: UpdateState) -> StateView {
    StateView { server: s.server, update: u, killer: s.killer }
}

/// A message to the server's peer, where the server is serving.
pub open spec fn to_peer(p: ServerPhase, m: ByondOutView) -> Seq<ActionView> {
    match p {
        ServerPhase::Serving(_, peer) => seq![ActionView::Send(m, peer)],
        _ => seq![],
    }
}

/// New state and actions for an internal event about this server.
pub open spec fn internal_step(s: StateView, msg: InternalView, now: u64) -> (StateView, Seq<ActionView>) {
    match msg {
        InternalView::StartServer(id) => {
            if s.server is Stopped {
                if s.update == UpdateState::Updating {
                    (with_server(s, ServerPhase::UpdatePending), seq![])
                } else {
                    (with_server(s, ServerPhase::PreStart), seq![ActionView::Launch(id)])
                }
            } else {
                (s, seq![])
            }
        },
        InternalView::KillServer(_) => {
            match s.killer {
                Some(w) if has_child(s.server) => (s, seq![ActionView::Signal(w, WatcherMessage::KillServer)]),
                _ => (s, seq![]),
            }
        },
        InternalView::ServerStarted(_, w) => {
            if s.server is PreStart {
                (StateView { server: ServerPhase::Starting(now), update: s.update, killer: Some(w) }, seq![])
            } else {
                (s, seq![ActionView::Signal(w, WatcherMessage::KillWatcher)])
            }
        },
        InternalView::ServerStopped(_) => {
            (
                StateView { server: ServerPhase::Stopped, update: s.update, killer: None },
                match s.killer {
                    Some(w) => seq![ActionView::Signal(w, WatcherMessage::KillWatcher)],
                    None => seq![],
                },
            )
        },
        InternalView::RunUpdate(id, env) => {
            if s.update == UpdateState::Idle {
                (with_update(s, UpdateState::PreUpdate), seq![ActionView::Update(id, env)])
            } else {
                (s, seq![])
            }
        },
        InternalView::UpdateStarted(_) => {
            if s.update == UpdateState::PreUpdate {
                (with_update(s, UpdateState::Updating), to_peer(s.server, ByondOutView::UpdateStarted))
            } else {
                (s, seq![])
            }
        },
        InternalView::UpdateError(_, e) => {
            (with_update(s, UpdateState::Idle), to_peer(s.server, ByondOutView::UpdateError(e)))
        },
        InternalView::UpdateComplete(id) => {
            if s.update == UpdateState::Updating {
                if s.server is UpdatePending {
                    (
                        StateView { server: ServerPhase::Stopped, update: UpdateState::Idle, killer: s.killer },
                        seq![ActionView::Enqueue(InternalView::StartServer(id))],
                    )
                } else {
                    (with_update(s, UpdateState::Idle), to_peer(s.server, ByondOutView::UpdateComplete))
                }
            } else {
                (s, seq![])
            }
        },
    }
}

/// New state of this server for a message from a server at `peer`.
/// A request for an update is no state change: it is forwarded as an event.
pub open spec fn byond_step(s: StateView, msg: ByondInView, peer: Seq<u8>) -> StateView {
    match msg {
        ByondInView::ServerStarted(_) => with_server(s, ServerPhase::Serving(0, peer)),
        ByondInView::Pong(_) => match s.server {
            ServerPhase::Serving(_, p) => with_server(s, ServerPhase::Serving(0, p)),
            _ => s,
        },
        _ => s,
    }
}

/// New state and actions of one server at a clock tick.
pub open spec fn tick_step(id: Seq<char>, s: StateView, now: u64, lim: Limits) -> (StateView, Seq<ActionView>) {
    let kill = seq![ActionView::Enqueue(InternalView::KillServer(id))];
    match s.server {
        ServerPhase::Starting(t0) => if now > t0 + lim.starting_timeout { (s, kill) } else { (s, seq![]) },
        ServerPhase::Stopping(t0) => if now > t0 + lim.stopping_timeout { (s, kill) } else { (s, seq![]) },
        ServerPhase::Serving(lost, peer) => {
            if lost >= lim.max_lost_pings {
                (s, kill)
            } else {
                (
                    with_server(s, ServerPhase::Serving((lost + 1) as usize, peer)),
                    seq![ActionView::Send(ByondOutView::Ping, peer)],
                )
            }
        },
        _ => (s, seq![]),
    }
}

/// Sends `m` to the server's peer, where the server is serving.
fn peer_message(server: &ServerState, m: ByondOut) -> (r: Vec<Action>)
    ensures
        views(r@) == to_peer(server@, m@),
{
    let mut r: Vec<Action> = Vec::new();
    if let ServerState::Serving(_, peer) = server {
        r.push(Action::Send(m, peer.clone()));
        assert(views(r@) =~= to_peer(server@, m@));
    } else {
        assert(views(r@) =~= to_peer(server@, m@));
    }
    r
}

fn one(a: Action) -> (r: Vec<Action>)
    ensures
        views(r@) == seq![a@],
{
    let mut r: Vec<Action> = Vec::new();
    r.push(a);
    assert(views(r@) =~= seq![a@]);
    r
}

fn none() -> (r: Vec<Action>)
    ensures
        views(r@) == Seq::<ActionView>::empty(),
{
    let r: Vec<Action> = Vec::new();
    assert(views(r@) =~= Seq::<ActionView>::empty());
    r
}

impl State {
    /// The state of a server that the supervisor has just taken on.
    pub fn new() -> (r: State)
        ensures
            r@ == (StateView { server: ServerPhase::Stopped, update: UpdateState::Idle, killer: None }),
    {
        State { server: ServerState::Stopped, update: UpdateState::Idle, killer: None }
    }

    /// Applies an internal event about this server.
    pub fn internal_event(&mut self, msg: Internal, now: u64) -> (acts: Vec<Action>)
        ensures
            (final(self)@, views(acts@)) == internal_step(old(self)@, msg@, now),
    {
        match msg {
            Internal::StartServer(id) => {
                if let ServerState::Stopped = self.server {
                    if self.update == UpdateState::Updating {
                        self.server = ServerState::UpdatePending;
                        none()
                    } else {
                        self.server = ServerState::PreStart;
                        one(Action::Launch(id))
                    }
                } else {
                    none()
                }
            },
            Internal::KillServer(_) => {
                match self.killer {
                    Some(w) => match self.server {
                        ServerState::Starting(_) | ServerState::Stopping(_) | ServerState::Serving(_, _) => {
                            one(Action::Signal(w, WatcherMessage::KillServer))
                        },
                        _ => none(),
                    },
                    None => none(),
                }
            },
            Internal::ServerStarted(_, w) => {
                if let ServerState::PreStart = self.server {
                    self.server = ServerState::Starting(now);
                    self.killer = Some(w);
                    none()
                } else {
                    one(Action::Signal(w, WatcherMessage::KillWatcher))
                }
            },
            Internal::ServerStopped(_) => {
                self.server = ServerState::Stopped;
                match self.killer.take() {
                    Some(w) => one(Action::Signal(w, WatcherMessage::KillWatcher)),
                    None => none(),
                }
            },
            Internal::RunUpdate(id, env) => {
                if self.update == UpdateState::Idle {
                    self.update = UpdateState::PreUpdate;
                    one(Action::Update(id, env))
                } else {
                    none()
                }
            },
            Internal::UpdateStarted(_) => {
                if self.update == UpdateState::PreUpdate {
                    self.update = UpdateState::Updating;
                    peer_message(&self.server, ByondOut::UpdateStarted)
                } else {
                    none()
                }
            },
            Internal::UpdateError(_, e) => {
                self.update = UpdateState::Idle;
                peer_message(&self.server, ByondOut::UpdateError(e))
            },
            Internal::UpdateComplete(id) => {
                if self.update == UpdateState::Updating {
                    self.update = UpdateState::Idle;
                    if let ServerState::UpdatePending = self.server {
                        self.server = ServerState::Stopped;
                        one(Action::Enqueue(Internal::StartServer(id)))
                    } else {
                        peer_message(&self.server, ByondOut::UpdateComplete)
                    }
                } else {
                    none()
                }
            },
        }
    }
    /// Applies a message that the server at `peer` sent about this server.
    pub fn server_message(&mut self, msg: &ByondIn, peer: Vec<u8>)
        ensures
            final(self)@ == byond_step(old(self)@, msg@, peer@),
    {
        match msg {
            ByondIn::ServerStarted(_) => {
                self.server = ServerState::Serving(0, peer);
            },
            ByondIn::Pong(_) => {
                if let ServerState::Serving(count, _) = &mut self.server {
                    *count = 0;
                }
            },
            _ => {},
        }
    }

    /// Applies a clock tick to the server `id`.
    pub fn tick(&mut self, id: &String, now: u64, lim: Limits) -> (acts: Vec<Action>)
        ensures
            (final(self)@, views(acts@)) == tick_step(id@, old(self)@, now, lim),
    {
        match &mut self.server {
            ServerState::Starting(t0) => {
                if past(*t0, lim.starting_timeout, now) {
                    one(Action::Enqueue(Internal::KillServer(id.clone())))
                } else {
                    none()
                }
            },
            ServerState::Stopping(t0) => {
                if past(*t0, lim.stopping_timeout, now) {
                    one(Action::Enqueue(Internal::KillServer(id.clone())))
                } else {
                    none()
                }
            },
            ServerState::Serving(lost, peer) => {
                if *lost >= lim.max_lost_pings {
                    one(Action::Enqueue(Internal::KillServer(id.clone())))
                } else {
                    *lost = *lost + 1;
                    one(Action::Send(ByondOut::Ping, peer.clone()))
                }
            },
            _ => none(),
        }
    }
}

/// Whether `now` lies beyond `t0 + timeout`.
fn past(t0: u64, timeout: u64, now: u64) -> (r: bool)
    ensures
        r == (now > t0 + timeout),
{
    match t0.checked_add(timeout) {
        Some(deadline) => now > deadline,
        None => false,
    }
}

/// One managed server and its state.
#[derive(Debug)]
pub struct Slot {
    pub id: String,
    pub state: State,
}

/// The supervisor core: the state of every managed server, and the limits it
/// enforces. It decides; what it decides is carried out by its caller.
#[derive(Debug)]
pub struct Supervisor {
    servers: Vec<Slot>,
    limits: Limits,
}

/// The servers' ids and states, in configuration order.
pub type ServersView = Seq<(Seq<char>, StateView)>;

impl View for Supervisor {
    type V = ServersView;

    closed spec fn view(&self) -> ServersView {
        Seq::new(self.servers@.len(), |i: int| (self.servers@[i].id@, self.servers@[i].state@))
    }
}

pub open spec fn ids_of(v: ServersView) -> Seq<Seq<char>> {
    v.map_values(|e: (Seq<char>, StateView)| e.0)
}

/// Position of the server `id`, if it is managed.
pub open spec fn find(v: ServersView, id: Seq<char>) -> Option<int> {
    if exists|i: int| 0 <= i < v.len() && v[i].0 == id {
        Some(choose|i: int| 0 <= i < v.len() && v[i].0 == id)
    } else {
        None
    }
}

/// What holds of every server's state at all times: a tracked kill watcher
/// belongs to a tracked child, and no more pings are outstanding than allowed.
pub open spec fn slot_ok(s: StateView, lim: Limits) -> bool {
    &&& (s.killer is Some ==> has_child(s.server))
    &&& match s.server {
        ServerPhase::Serving(lost, _) => lost <= lim.max_lost_pings,
        _ => true,
    }
}

/// Servers and actions after an internal event. Events about unknown
/// servers are dropped.
pub open spec fn after_internal(v: ServersView, msg: InternalView, now: u64) -> (ServersView, Seq<ActionView>) {
    match find(v, msg.server_id()) {
        Some(i) => {
            let r = internal_step(v[i].1, msg, now);
            (v.update(i, (v[i].0, r.0)), r.1)
        },
        None => (v, seq![]),
    }
}

/// Servers and actions after a message from the server at `peer`. A request
/// for an update is forwarded as an internal event whatever its id.
pub open spec fn after_server_message(v: ServersView, msg: ByondInView, peer: Seq<u8>) -> (ServersView, Seq<ActionView>) {
    match msg {
        ByondInView::RunUpdate(id, env) => (v, seq![ActionView::Enqueue(InternalView::RunUpdate(id, env))]),
        _ => match find(v, msg.server_id()) {
            Some(i) => (v.update(i, (v[i].0, byond_step(v[i].1, msg, peer))), seq![]),
            None => (v, seq![]),
        },
    }
}

/// Servers and actions after a clock tick: each server in turn, with its
/// actions in that order.
pub open spec fn after_tick(v: ServersView, now: u64, lim: Limits) -> (ServersView, Seq<ActionView>)
    decreases v.len(),
{
    if v.len() == 0 {
        (v, seq![])
    } else {
        let r = after_tick(v.drop_last(), now, lim);
        let t = tick_step(v.last().0, v.last().1, now, lim);
        (r.0.push((v.last().0, t.0)), r.1 + t.1)
    }
}

/// A server that is stopped, idle and without a kill watcher.
pub open spec fn initial_state() -> StateView {
    StateView { server: ServerPhase::Stopped, update: UpdateState::Idle, killer: None }
}

proof fn lemma_views_concat(a: Seq<Action>, b: Seq<Action>)
    ensures
        views(a + b) == views(a) + views(b),
{
    assert(views(a + b) =~= views(a) + views(b));
}

impl Supervisor {
    pub closed spec fn limits(&self) -> Limits {
        self.limits
    }

    /// Server ids are unique and every server's state is consistent.
    pub open spec fn wf(&self) -> bool {
        &&& distinct_ids(self@)
        &&& forall|i: int| 0 <= i < self@.len() ==> slot_ok(#[trigger] self@[i].1, self.limits())
    }

    /// A supervisor for the servers of `config`, each stopped and idle, with
    /// the events that start them all.
    pub fn new(config: &Config) -> (r: (Supervisor, Vec<Internal>))
        requires
            config.wf(),
        ensures
            r.0.wf(),
            r.0@.len() == config.servers@.len(),
            forall|i: int| 0 <= i < r.0@.len() ==> #[trigger] r.0@[i] == (config.servers@[i].id@, initial_state()),
            r.0.limits() == (Limits {
                max_lost_pings: config.max_lost_pings,
                starting_timeout: config.starting_timeout,
                stopping_timeout: config.stopping_timeout,
            }),
            r.1@.len() == config.servers@.len(),
            forall|i: int| 0 <= i < r.1@.len() ==> #[trigger] r.1@[i]@ == InternalView::StartServer(config.servers@[i].id@),
    {
        let mut servers: Vec<Slot> = Vec::new();
        let mut events: Vec<Internal> = Vec::new();
        let mut i: usize = 0;
        while i < config.servers.len()
            invariant
                i <= config.servers@.len(),
                servers@.len() == i,
                events@.len() == i,
                forall|j: int| 0 <= j < i ==> (#[trigger] servers@[j]).id@ == config.servers@[j].id@ && servers@[j].state@ == initial_state(),
                forall|j: int| 0 <= j < i ==> #[trigger] events@[j]@ == InternalView::StartServer(config.servers@[j].id@),
            decreases config.servers@.len() - i,
        {
            let id = &config.servers[i].id;
            servers.push(Slot { id: id.clone(), state: State::new() });
            events.push(Internal::StartServer(id.clone()));
            i += 1;
        }
        let sup = Supervisor {
            servers,
            limits: Limits {
                max_lost_pings: config.max_lost_pings,
                starting_timeout: config.starting_timeout,
                stopping_timeout: config.stopping_timeout,
            },
        };
        proof {
            assert forall|a: int, b: int| 0 <= a < b < sup@.len() implies ids_of(sup@)[a] != ids_of(sup@)[b] by {
                assert(server_ids(config.servers@)[a] != server_ids(config.servers@)[b]);
            }
        }
        (sup, events)
    }

    /// Position of the server `id`, if it is managed.
    fn position(&self, id: &String) -> (r: Option<usize>)
        ensures
            match r {
                Some(i) => i < self@.len() && self@[i as int].0 == id@,
                None => forall|j: int| 0 <= j < self@.len() ==> self@[j].0 != id@,
            },
    {
        let mut i: usize = 0;
        while i < self.servers.len()
            invariant
                i <= self@.len(),
                self@.len() == self.servers@.len(),
                forall|j: int| 0 <= j < i ==> self@[j].0 != id@,
            decreases self.servers@.len() - i,
        {
            if self.servers[i].id == *id {
                return Some(i);
            }
            i += 1;
        }
        None
    }

    proof fn lemma_find(&self, id: Seq<char>, r: Option<usize>)
        requires
            self.wf(),
            match r {
                Some(i) => i < self@.len() && self@[i as int].0 == id,
                None => forall|j: int| 0 <= j < self@.len() ==> self@[j].0 != id,
            },
        ensures
            find(self@, id) == match r { Some(i) => Some(i as int), None => None::<int> },
    {
        if let Some(i) = r {
            let k: int = i as int;
            let v = self@;
            assert(0 <= k < v.len() && v[k].0 == id);
            let j: int = find(v, id)->Some_0;
            assert(0 <= j < v.len() && v[j].0 == id);
            assert(ids_of(v)[j] == id && ids_of(v)[k] == id);
            if j < k {
                assert(ids_of(v)[j] != ids_of(v)[k]);
            } else if k < j {
                assert(ids_of(v)[k] != ids_of(v)[j]);
            }
        }
    }

    /// The state of the server `id`, if it is managed.
    pub fn state(&self, id: &String) -> (r: Option<&State>)
        requires
            self.wf(),
        ensures
            match find(self@, id@) {
                Some(i) => r matches Some(st) && st@ == self@[i].1,
                None => r is None,
            },
    {
        let pos = self.position(id);
        proof { self.lemma_find(id@, pos); }
        match pos {
            Some(i) => Some(&self.servers[i].state),
            None => None,
        }
    }

    /// Handles an event from the internal queue, at time `now`.
    pub fn handle_internal_message(&mut self, msg: Internal, now: u64) -> (acts: Vec<Action>)
        requires
            old(self).wf(),
        ensures
            final(self).wf(),
            final(self).limits() == old(self).limits(),
            (final(self)@, views(acts@)) == after_internal(old(self)@, msg@, now),
    {
        let pos = self.position(msg.server_id());
        proof { self.lemma_find(msg@.server_id(), pos); }
        match pos {
            Some(i) => {
                let ghost before = self@;
                let acts = self.servers[i].state.internal_event(msg, now);
                assert(self@ =~= before.update(i as int, (before[i as int].0, self.servers@[i as int].state@)));
                proof {
                    lemma_internal_step_ok(before[i as int].1, msg@, now, self.limits);
                    assert(ids_of(self@) =~= ids_of(before));
                }
                acts
            },
            None => none(),
        }
    }
    /// Handles a message from the server at `peer_id`.
    pub fn handle_byond_message(&mut self, msg: ByondIn, peer_id: Vec<u8>) -> (acts: Vec<Action>)
        requires
            old(self).wf(),
        ensures
            final(self).wf(),
            final(self).limits() == old(self).limits(),
            (final(self)@, views(acts@)) == after_server_message(old(self)@, msg@, peer_id@),
    {
        if let ByondIn::RunUpdate(id, env) = msg {
            return one(Action::Enqueue(Internal::RunUpdate(id, env)));
        }
        let pos = self.position(msg.server_id());
        proof { self.lemma_find(msg@.server_id(), pos); }
        match pos {
            Some(i) => {
                let ghost before = self@;
                self.servers[i].state.server_message(&msg, peer_id);
                proof {
                    assert(self@ =~= before.update(i as int, (before[i as int].0, self.servers@[i as int].state@)));
                    assert(ids_of(self@) =~= ids_of(before));
                }
                none()
            },
            None => none(),
        }
    }

    /// Handles a clock tick at time `now`: servers that overran a timeout or
    /// missed too many pings are to be killed, serving ones are pinged.
    pub fn ping_check(&mut self, now: u64) -> (acts: Vec<Action>)
        requires
            old(self).wf(),
        ensures
            final(self).wf(),
            final(self).limits() == old(self).limits(),
            (final(self)@, views(acts@)) == after_tick(old(self)@, now, old(self).limits()),
    {
        let ghost start = self@;
        let mut acts: Vec<Action> = Vec::new();
        let mut i: usize = 0;
        while i < self.servers.len()
            invariant
                self.wf(),
                self.limits == old(self).limits,
                i <= self@.len(),
                self@.len() == start.len(),
                self.servers@.len() == start.len(),
                after_tick(start.take(i as int), now, self.limits).0 =~= self@.take(i as int),
                self@.skip(i as int) =~= start.skip(i as int),
                views(acts@) == after_tick(start.take(i as int), now, self.limits).1,
            decreases start.len() - i,
        {
            let ghost before = self@;
            let lim = self.limits;
            let slot = &mut self.servers[i];
            let mut more = slot.state.tick(&slot.id, now, lim);
            proof {
                assert(self@ =~= before.update(i as int, (before[i as int].0, self.servers@[i as int].state@)));
                assert(ids_of(self@) =~= ids_of(before));
                assert(start.take(i as int + 1).drop_last() =~= start.take(i as int));
                assert(start[i as int] == before[i as int]) by {
                    assert(before.skip(i as int)[0] == start.skip(i as int)[0]);
                }
                lemma_views_concat(acts@, more@);
                assert forall|k: int| i + 1 <= k < start.len() implies self@[k] == start[k] by {
                    assert(before.skip(i as int)[k - i] == start.skip(i as int)[k - i]);
                }
                assert(self@.skip(i as int + 1) =~= start.skip(i as int + 1));
            }
            acts.append(&mut more);
            i += 1;
        }
        proof {
            assert(start.take(start.len() as int) =~= start);
        }
        acts
    }
}

/// The servers' ids are unique.
pub open spec fn distinct_ids(v: ServersView) -> bool {
    distinct(ids_of(v))
}

/// Every internal event keeps a server's state consistent.
pub proof fn lemma_internal_step_ok(s: StateView, msg: InternalView, now: u64, lim: Limits)
    requires
        slot_ok(s, lim),
    ensures
        slot_ok(internal_step(s, msg, now).0, lim),
{
}

} // verus!
