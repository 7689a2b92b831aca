use vstd::prelude::*;
use crate::config::distinct;
use crate::msg::{ByondInView, InternalView, WatcherHandle};
use crate::supervisor::{
    after_internal, after_server_message, byond_step, find, has_child, ids_of, initial_state,
    internal_step, slot_ok, tick_step, ActionView, Limits, ServerPhase, ServersView, StateView,
    UpdateState,
};

verus! {

/// A kill watcher is tracked exactly while a child is.
pub open spec fn killer_tracked(s: StateView) -> bool {
    s.killer is Some <==> has_child(s.server)
}

/// A server held back for an update has an update under way.
pub open spec fn pending_covered(s: StateView) -> bool {
    s.server is UpdatePending ==> s.update != UpdateState::Idle
}

/// Every internal event keeps a tracked kill watcher tied to a tracked child.
pub proof fn lemma_internal_keeps_killer_tracked(s: StateView, msg: InternalView, now: u64)
    requires
        killer_tracked(s),
    ensures
        killer_tracked(internal_step(s, msg, now).0),
{
}

/// A tick keeps a tracked kill watcher tied to a tracked child.
pub proof fn lemma_tick_keeps_killer_tracked(id: Seq<char>, s: StateView, now: u64, lim: Limits)
    requires
        killer_tracked(s),
    ensures
        killer_tracked(tick_step(id, s, now, lim).0),
{
}

/// A message from a server keeps a tracked kill watcher tied to a tracked
/// child, unless it is a greeting that arrives while no child is tracked:
/// the server then counts as serving with no kill watcher.
pub proof fn lemma_server_message_keeps_killer_tracked(s: StateView, msg: ByondInView, peer: Seq<u8>)
    requires
        killer_tracked(s),
        msg is ServerStarted ==> has_child(s.server),
    ensures
        killer_tracked(byond_step(s, msg, peer)),
{
}

/// Every internal event but an update error keeps a held-back server's
/// update under way. An update error ends the update whatever the run state.
pub proof fn lemma_internal_keeps_pending_covered(s: StateView, msg: InternalView, now: u64)
    requires
        pending_covered(s),
        !(msg is UpdateError && s.server is UpdatePending),
    ensures
        pending_covered(internal_step(s, msg, now).0),
{
}

/// Ticks and server messages keep a held-back server's update under way.
pub proof fn lemma_tick_and_server_message_keep_pending_covered(
    id: Seq<char>,
    s: StateView,
    now: u64,
    lim: Limits,
    msg: ByondInView,
    peer: Seq<u8>,
)
    requires
        pending_covered(s),
    ensures
        pending_covered(tick_step(id, s, now, lim).0),
        pending_covered(byond_step(s, msg, peer)),
{
}

/// Ticks and server messages keep a server's state consistent: in
/// particular the count of outstanding pings never exceeds the limit.
pub proof fn lemma_tick_and_server_message_ok(
    id: Seq<char>,
    s: StateView,
    now: u64,
    lim: Limits,
    msg: ByondInView,
    peer: Seq<u8>,
)
    requires
        slot_ok(s, lim),
    ensures
        slot_ok(tick_step(id, s, now, lim).0, lim),
        slot_ok(byond_step(s, msg, peer), lim),
{
}

pub open spec fn launches(acts: Seq<ActionView>) -> bool {
    exists|k: int| 0 <= k < acts.len() && acts[k] is Launch
}

pub open spec fn starts_updater(acts: Seq<ActionView>) -> bool {
    exists|k: int| 0 <= k < acts.len() && acts[k] is Update
}

/// One child and one updater at a time: a child runner is launched only
/// from the stopped state, which is left at once, and only the child's exit
/// (or the end of an update that held a start back) returns a server there;
/// an updater is launched only from the idle state, which is left at once,
/// and only the updater's own report of its end returns a server there.
pub proof fn lemma_single_child_and_updater(s: StateView, msg: InternalView, now: u64)
    ensures
        launches(internal_step(s, msg, now).1) ==> s.server is Stopped
            && internal_step(s, msg, now).0.server is PreStart,
        starts_updater(internal_step(s, msg, now).1) ==> s.update == UpdateState::Idle
            && internal_step(s, msg, now).0.update == UpdateState::PreUpdate,
        internal_step(s, msg, now).0.server is Stopped && !(s.server is Stopped) ==> msg is ServerStopped
            || (msg is UpdateComplete && s.server is UpdatePending),
        internal_step(s, msg, now).0.update == UpdateState::Idle && s.update != UpdateState::Idle
            ==> msg is UpdateError || msg is UpdateComplete,
{
}

/// Ticks and server messages launch nothing.
pub proof fn lemma_tick_launches_nothing(id: Seq<char>, s: StateView, now: u64, lim: Limits)
    ensures
        !launches(tick_step(id, s, now, lim).1),
        !starts_updater(tick_step(id, s, now, lim).1),
{
}

/// A pong from a server that is not serving changes nothing.
pub proof fn lemma_pong_outside_serving(s: StateView, id: Seq<char>, peer: Seq<u8>)
    requires
        !(s.server is Serving),
    ensures
        byond_step(s, ByondInView::Pong(id), peer) == s,
{
}

/// A pong clears the count of outstanding pings, whatever it was, and keeps
/// the peer.
pub proof fn lemma_pong_resets(s: StateView, id: Seq<char>, peer: Seq<u8>, lost: usize, p: Seq<u8>)
    requires
        s.server == ServerPhase::Serving(lost, p),
    ensures
        byond_step(s, ByondInView::Pong(id), peer).server == ServerPhase::Serving(0, p),
        byond_step(s, ByondInView::Pong(id), peer).update == s.update,
        byond_step(s, ByondInView::Pong(id), peer).killer == s.killer,
{
}

/// A kill request for a server with no tracked child changes nothing and
/// asks for nothing.
pub proof fn lemma_kill_without_child(s: StateView, id: Seq<char>, now: u64)
    requires
        s.server is Stopped || s.server is PreStart || s.server is UpdatePending,
    ensures
        internal_step(s, InternalView::KillServer(id), now) == (s, Seq::<ActionView>::empty()),
{
    assert(internal_step(s, InternalView::KillServer(id), now).1 =~= Seq::<ActionView>::empty());
}

/// With unique ids, the server found for an id is the one that has it.
pub proof fn lemma_find_unique(v: ServersView, i: int)
    requires
        distinct(ids_of(v)),
        0 <= i < v.len(),
    ensures
        find(v, v[i].0) == Some(i),
{
    let id = v[i].0;
    assert(exists|j: int| 0 <= j < v.len() && v[j].0 == id);
    let j: int = find(v, id)->Some_0;
    assert(ids_of(v)[j] == id && ids_of(v)[i] == id);
    if j < i {
        assert(ids_of(v)[j] != ids_of(v)[i]);
    } else if i < j {
        assert(ids_of(v)[i] != ids_of(v)[j]);
    }
}

/// The servers after `n` pongs from server `id` at `peer`.
pub open spec fn after_pongs(v: ServersView, id: Seq<char>, peer: Seq<u8>, n: nat) -> ServersView
    decreases n,
{
    if n == 0 {
        v
    } else {
        after_server_message(after_pongs(v, id, peer, (n - 1) as nat), ByondInView::Pong(id), peer).0
    }
}

/// A full life cycle of a server that starts stopped and idle: the start
/// event, the child's start, the server's greeting, any number of pongs, a
/// kill and the child's exit bring it back to stopped, idle and without a
/// kill watcher, and leave every other server as it was.
pub proof fn lemma_full_cycle(
    v: ServersView,
    i: int,
    w: WatcherHandle,
    peer: Seq<u8>,
    pongs: nat,
    t1: u64,
    t2: u64,
    t3: u64,
    t4: u64,
)
    requires
        distinct(ids_of(v)),
        0 <= i < v.len(),
        v[i].1 == initial_state(),
    ensures
        ({
            let id = v[i].0;
            let v1 = after_internal(v, InternalView::StartServer(id), t1).0;
            let v2 = after_internal(v1, InternalView::ServerStarted(id, w), t2).0;
            let v3 = after_server_message(v2, ByondInView::ServerStarted(id), peer).0;
            let v4 = after_pongs(v3, id, peer, pongs);
            let v5 = after_internal(v4, InternalView::KillServer(id), t3).0;
            let v6 = after_internal(v5, InternalView::ServerStopped(id), t4).0;
            v6 == v
        }),
{
    let id = v[i].0;
    let serving = StateView {
        server: ServerPhase::Serving(0, peer),
        update: UpdateState::Idle,
        killer: Some(w),
    };
    lemma_find_unique(v, i);
    let v1 = after_internal(v, InternalView::StartServer(id), t1).0;
    assert(ids_of(v1) =~= ids_of(v));
    lemma_find_unique(v1, i);
    let v2 = after_internal(v1, InternalView::ServerStarted(id, w), t2).0;
    assert(ids_of(v2) =~= ids_of(v));
    lemma_find_unique(v2, i);
    let v3 = after_server_message(v2, ByondInView::ServerStarted(id), peer).0;
    assert(v3 =~= v.update(i, (id, serving)));
    lemma_pongs_keep_serving(v, i, peer, w, pongs);
    let v4 = after_pongs(v3, id, peer, pongs);
    assert(ids_of(v4) =~= ids_of(v));
    lemma_find_unique(v4, i);
    let v5 = after_internal(v4, InternalView::KillServer(id), t3).0;
    assert(ids_of(v5) =~= ids_of(v));
    lemma_find_unique(v5, i);
    let v6 = after_internal(v5, InternalView::ServerStopped(id), t4).0;
    assert(v6 =~= v);
}

proof fn lemma_pongs_keep_serving(v: ServersView, i: int, peer: Seq<u8>, w: WatcherHandle, n: nat)
    requires
        distinct(ids_of(v)),
        0 <= i < v.len(),
    ensures
        ({
            let s = StateView { server: ServerPhase::Serving(0, peer), update: UpdateState::Idle, killer: Some(w) };
            after_pongs(v.update(i, (v[i].0, s)), v[i].0, peer, n) == v.update(i, (v[i].0, s))
        }),
    decreases n,
{
    let s = StateView { server: ServerPhase::Serving(0, peer), update: UpdateState::Idle, killer: Some(w) };
    let u = v.update(i, (v[i].0, s));
    if n > 0 {
        lemma_pongs_keep_serving(v, i, peer, w, (n - 1) as nat);
        assert(ids_of(u) =~= ids_of(v));
        lemma_find_unique(u, i);
        assert(after_server_message(u, ByondInView::Pong(v[i].0), peer).0 =~= u);
    }
}

} // verus!
