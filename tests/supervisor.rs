use std::collections::HashMap;

use supermatter::byond::Runtime;
use supermatter::config::Config;
use supermatter::msg::{ByondIn, ByondOut, Internal, WatcherMessage};
use supermatter::server::Description;
use supermatter::supervisor::{Action, Limits, ServerState, State, Supervisor, UpdateState};

fn description(id: &str, commands: Vec<&str>) -> Description {
    Description {
        runtime: Runtime::system(),
        work_dir: String::from("/srv/game"),
        dmb: String::from("game.dmb"),
        port: 5000,
        update_commands: commands.into_iter().map(String::from).collect(),
        id: String::from(id),
    }
}

fn config(servers: Vec<Description>) -> Config {
    Config {
        internal_endpoint: String::from("ipc://internal_endpoint"),
        byond_endpoint: String::from("tcp://127.0.0.1:5555"),
        external_endpoint: String::from("tcp://127.0.0.1:5556"),
        ping_interval: 2000,
        max_lost_pings: 3,
        starting_timeout: 30000,
        stopping_timeout: 10000,
        servers,
    }
}

fn id(s: &str) -> String {
    String::from(s)
}

fn peer_a() -> Vec<u8> {
    vec![0, 1, 2, 3]
}

fn server(sup: &Supervisor, name: &str) -> ServerState {
    match &sup.state(&id(name)).unwrap().server {
        ServerState::Stopped => ServerState::Stopped,
        ServerState::PreStart => ServerState::PreStart,
        ServerState::Starting(t) => ServerState::Starting(*t),
        ServerState::Stopping(t) => ServerState::Stopping(*t),
        ServerState::Serving(n, p) => ServerState::Serving(*n, p.clone()),
        ServerState::UpdatePending => ServerState::UpdatePending,
    }
}

fn update(sup: &Supervisor, name: &str) -> UpdateState {
    sup.state(&id(name)).unwrap().update
}

fn killer(sup: &Supervisor, name: &str) -> Option<u64> {
    sup.state(&id(name)).unwrap().killer
}

/// Boots one server "test" and brings it to serving at peer A.
fn serving() -> Supervisor {
    let (mut sup, events) = Supervisor::new(&config(vec![description("test", vec![])]));
    for e in events {
        sup.handle_internal_message(e, 0);
    }
    sup.handle_internal_message(Internal::ServerStarted(id("test"), 7), 100);
    sup.handle_byond_message(ByondIn::ServerStarted(id("test")), peer_a());
    sup
}

#[test]
fn boot_enqueues_start_for_every_server() {
    let (sup, events) = Supervisor::new(&config(vec![description("test", vec![]), description("other", vec![])]));
    assert_eq!(events, vec![Internal::StartServer(id("test")), Internal::StartServer(id("other"))]);
    assert_eq!(*sup.state(&id("test")).unwrap(), State { server: ServerState::Stopped, update: UpdateState::Idle, killer: None });
    assert!(sup.state(&id("missing")).is_none());
}

#[test]
fn boot_to_serving() {
    let (mut sup, events) = Supervisor::new(&config(vec![description("test", vec![])]));
    assert_eq!(events, vec![Internal::StartServer(id("test"))]);
    let acts = sup.handle_internal_message(Internal::StartServer(id("test")), 0);
    assert_eq!(acts, vec![Action::Launch(id("test"))]);
    assert_eq!(server(&sup, "test"), ServerState::PreStart);
    let acts = sup.handle_internal_message(Internal::ServerStarted(id("test"), 7), 100);
    assert!(acts.is_empty());
    assert_eq!(server(&sup, "test"), ServerState::Starting(100));
    assert_eq!(killer(&sup, "test"), Some(7));
    let acts = sup.handle_byond_message(ByondIn::ServerStarted(id("test")), peer_a());
    assert!(acts.is_empty());
    assert_eq!(server(&sup, "test"), ServerState::Serving(0, peer_a()));
}

#[test]
fn missed_pings_lead_to_kill() {
    let mut sup = serving();
    for n in 1..4usize {
        let acts = sup.ping_check(2000 * n as u64);
        assert_eq!(acts, vec![Action::Send(ByondOut::Ping, peer_a())]);
        assert_eq!(server(&sup, "test"), ServerState::Serving(n, peer_a()));
    }
    let acts = sup.ping_check(8000);
    assert_eq!(acts, vec![Action::Enqueue(Internal::KillServer(id("test")))]);
    assert_eq!(server(&sup, "test"), ServerState::Serving(3, peer_a()));
    let acts = sup.handle_internal_message(Internal::KillServer(id("test")), 8001);
    assert_eq!(acts, vec![Action::Signal(7, WatcherMessage::KillServer)]);
}

#[test]
fn answered_pings_never_kill() {
    let mut sup = serving();
    for n in 1..11u64 {
        let acts = sup.ping_check(2000 * n);
        assert_eq!(acts, vec![Action::Send(ByondOut::Ping, peer_a())]);
        assert_eq!(server(&sup, "test"), ServerState::Serving(1, peer_a()));
        sup.handle_byond_message(ByondIn::Pong(id("test")), peer_a());
        assert_eq!(server(&sup, "test"), ServerState::Serving(0, peer_a()));
    }
}

#[test]
fn failing_update_reaches_server() {
    let mut sup = serving();
    let env: HashMap<String, String> = HashMap::new();
    let acts = sup.handle_byond_message(ByondIn::RunUpdate(id("test"), env.clone()), peer_a());
    assert_eq!(acts, vec![Action::Enqueue(Internal::RunUpdate(id("test"), env.clone()))]);
    let acts = sup.handle_internal_message(Internal::RunUpdate(id("test"), env.clone()), 200);
    assert_eq!(acts, vec![Action::Update(id("test"), env.clone())]);
    assert_eq!(update(&sup, "test"), UpdateState::PreUpdate);
    let acts = sup.handle_internal_message(Internal::UpdateStarted(id("test")), 201);
    assert_eq!(acts, vec![Action::Send(ByondOut::UpdateStarted, peer_a())]);
    assert_eq!(update(&sup, "test"), UpdateState::Updating);
    let msg = String::from("update command #1 failed with exit code 1");
    let acts = sup.handle_internal_message(Internal::UpdateError(id("test"), msg.clone()), 202);
    assert_eq!(acts, vec![Action::Send(ByondOut::UpdateError(msg), peer_a())]);
    assert_eq!(update(&sup, "test"), UpdateState::Idle);
}

#[test]
fn second_update_request_is_ignored() {
    let mut sup = serving();
    let env: HashMap<String, String> = HashMap::new();
    sup.handle_internal_message(Internal::RunUpdate(id("test"), env.clone()), 200);
    let acts = sup.handle_internal_message(Internal::RunUpdate(id("test"), env), 201);
    assert!(acts.is_empty());
    assert_eq!(update(&sup, "test"), UpdateState::PreUpdate);
}

#[test]
fn start_during_update_waits_for_it() {
    let (mut sup, _) = Supervisor::new(&config(vec![description("test", vec!["/bin/true"])]));
    let env: HashMap<String, String> = HashMap::new();
    sup.handle_internal_message(Internal::RunUpdate(id("test"), env), 0);
    sup.handle_internal_message(Internal::UpdateStarted(id("test")), 1);
    let acts = sup.handle_internal_message(Internal::StartServer(id("test")), 2);
    assert!(acts.is_empty());
    assert_eq!(server(&sup, "test"), ServerState::UpdatePending);
    let acts = sup.handle_internal_message(Internal::UpdateComplete(id("test")), 3);
    assert_eq!(acts, vec![Action::Enqueue(Internal::StartServer(id("test")))]);
    assert_eq!(server(&sup, "test"), ServerState::Stopped);
    assert_eq!(update(&sup, "test"), UpdateState::Idle);
    let acts = sup.handle_internal_message(Internal::StartServer(id("test")), 4);
    assert_eq!(acts, vec![Action::Launch(id("test"))]);
    assert_eq!(server(&sup, "test"), ServerState::PreStart);
}

#[test]
fn update_complete_is_reported_to_serving_server() {
    let mut sup = serving();
    let env: HashMap<String, String> = HashMap::new();
    sup.handle_internal_message(Internal::RunUpdate(id("test"), env), 0);
    sup.handle_internal_message(Internal::UpdateStarted(id("test")), 1);
    let acts = sup.handle_internal_message(Internal::UpdateComplete(id("test")), 2);
    assert_eq!(acts, vec![Action::Send(ByondOut::UpdateComplete, peer_a())]);
    assert_eq!(update(&sup, "test"), UpdateState::Idle);
}

#[test]
fn starting_timeout_kills() {
    let (mut sup, _) = Supervisor::new(&config(vec![description("test", vec![])]));
    sup.handle_internal_message(Internal::StartServer(id("test")), 0);
    sup.handle_internal_message(Internal::ServerStarted(id("test"), 9), 1000);
    assert!(sup.ping_check(31000).is_empty());
    let acts = sup.ping_check(31001);
    assert_eq!(acts, vec![Action::Enqueue(Internal::KillServer(id("test")))]);
    let acts = sup.handle_internal_message(Internal::KillServer(id("test")), 31002);
    assert_eq!(acts, vec![Action::Signal(9, WatcherMessage::KillServer)]);
    let acts = sup.handle_internal_message(Internal::ServerStopped(id("test")), 31003);
    assert_eq!(acts, vec![Action::Signal(9, WatcherMessage::KillWatcher)]);
    assert_eq!(server(&sup, "test"), ServerState::Stopped);
    assert_eq!(killer(&sup, "test"), None);
}

#[test]
fn full_cycle_returns_to_initial_state() {
    let mut sup = serving();
    for _ in 0..3 {
        sup.handle_byond_message(ByondIn::Pong(id("test")), peer_a());
    }
    sup.handle_internal_message(Internal::KillServer(id("test")), 500);
    sup.handle_internal_message(Internal::ServerStopped(id("test")), 501);
    assert_eq!(*sup.state(&id("test")).unwrap(), State { server: ServerState::Stopped, update: UpdateState::Idle, killer: None });
}

#[test]
fn pong_during_prestart_is_ignored() {
    let (mut sup, _) = Supervisor::new(&config(vec![description("test", vec![])]));
    sup.handle_internal_message(Internal::StartServer(id("test")), 0);
    let acts = sup.handle_byond_message(ByondIn::Pong(id("test")), peer_a());
    assert!(acts.is_empty());
    assert_eq!(server(&sup, "test"), ServerState::PreStart);
}

#[test]
fn pong_resets_count_already_zero() {
    let mut sup = serving();
    sup.handle_byond_message(ByondIn::Pong(id("test")), peer_a());
    assert_eq!(server(&sup, "test"), ServerState::Serving(0, peer_a()));
}

#[test]
fn kill_without_child_is_noop() {
    let (mut sup, _) = Supervisor::new(&config(vec![description("test", vec!["/bin/true"])]));
    assert!(sup.handle_internal_message(Internal::KillServer(id("test")), 0).is_empty());
    assert_eq!(server(&sup, "test"), ServerState::Stopped);
    sup.handle_internal_message(Internal::StartServer(id("test")), 1);
    assert!(sup.handle_internal_message(Internal::KillServer(id("test")), 2).is_empty());
    assert_eq!(server(&sup, "test"), ServerState::PreStart);

    let (mut sup, _) = Supervisor::new(&config(vec![description("test", vec!["/bin/true"])]));
    sup.handle_internal_message(Internal::RunUpdate(id("test"), HashMap::new()), 0);
    sup.handle_internal_message(Internal::UpdateStarted(id("test")), 1);
    sup.handle_internal_message(Internal::StartServer(id("test")), 2);
    assert!(sup.handle_internal_message(Internal::KillServer(id("test")), 3).is_empty());
    assert_eq!(server(&sup, "test"), ServerState::UpdatePending);
}

#[test]
fn late_child_start_detaches_watcher() {
    let mut sup = serving();
    let acts = sup.handle_internal_message(Internal::ServerStarted(id("test"), 11), 300);
    assert_eq!(acts, vec![Action::Signal(11, WatcherMessage::KillWatcher)]);
    assert_eq!(killer(&sup, "test"), Some(7));
}

#[test]
fn unknown_server_is_dropped() {
    let mut sup = serving();
    assert!(sup.handle_internal_message(Internal::StartServer(id("nope")), 0).is_empty());
    assert!(sup.handle_byond_message(ByondIn::Pong(id("nope")), peer_a()).is_empty());
    let acts = sup.handle_byond_message(ByondIn::RunUpdate(id("nope"), HashMap::new()), peer_a());
    assert_eq!(acts, vec![Action::Enqueue(Internal::RunUpdate(id("nope"), HashMap::new()))]);
    assert_eq!(server(&sup, "test"), ServerState::Serving(0, peer_a()));
}

#[test]
fn stopping_message_changes_nothing() {
    let mut sup = serving();
    assert!(sup.handle_byond_message(ByondIn::ServerStopping(id("test")), peer_a()).is_empty());
    assert_eq!(server(&sup, "test"), ServerState::Serving(0, peer_a()));
}

#[test]
fn start_while_running_launches_nothing() {
    let mut sup = serving();
    assert!(sup.handle_internal_message(Internal::StartServer(id("test")), 50).is_empty());
    assert_eq!(server(&sup, "test"), ServerState::Serving(0, peer_a()));
    let (mut sup, _) = Supervisor::new(&config(vec![description("test", vec![])]));
    assert_eq!(sup.handle_internal_message(Internal::StartServer(id("test")), 0), vec![Action::Launch(id("test"))]);
    assert!(sup.handle_internal_message(Internal::StartServer(id("test")), 1).is_empty());
}

#[test]
fn greeting_without_child_serves_without_watcher() {
    let (mut sup, _) = Supervisor::new(&config(vec![description("test", vec![])]));
    sup.handle_byond_message(ByondIn::ServerStarted(id("test")), peer_a());
    assert_eq!(server(&sup, "test"), ServerState::Serving(0, peer_a()));
    assert_eq!(killer(&sup, "test"), None);
    assert!(sup.handle_internal_message(Internal::KillServer(id("test")), 1).is_empty());
}

#[test]
fn update_error_while_start_held_back() {
    let (mut sup, _) = Supervisor::new(&config(vec![description("test", vec!["/bin/false"])]));
    sup.handle_internal_message(Internal::RunUpdate(id("test"), HashMap::new()), 0);
    sup.handle_internal_message(Internal::UpdateStarted(id("test")), 1);
    sup.handle_internal_message(Internal::StartServer(id("test")), 2);
    let acts = sup.handle_internal_message(Internal::UpdateError(id("test"), String::from("update command #1 failed with exit code 1")), 3);
    assert!(acts.is_empty());
    assert_eq!(server(&sup, "test"), ServerState::UpdatePending);
    assert_eq!(update(&sup, "test"), UpdateState::Idle);
}

#[test]
fn starting_timeout_boundary() {
    let (mut sup, _) = Supervisor::new(&config(vec![description("test", vec![])]));
    sup.handle_internal_message(Internal::StartServer(id("test")), 0);
    sup.handle_internal_message(Internal::ServerStarted(id("test"), 4), 0);
    assert!(sup.ping_check(30000).is_empty());
    assert_eq!(sup.ping_check(30001), vec![Action::Enqueue(Internal::KillServer(id("test")))]);
}

#[test]
fn stopping_timeout_kills() {
    let limits = Limits { max_lost_pings: 3, starting_timeout: 30000, stopping_timeout: 10000 };
    let mut st = State { server: ServerState::Stopping(100), update: UpdateState::Idle, killer: Some(5) };
    assert!(st.tick(&id("test"), 10100, limits).is_empty());
    assert_eq!(st.tick(&id("test"), 10101, limits), vec![Action::Enqueue(Internal::KillServer(id("test")))]);
    assert_eq!(st.server, ServerState::Stopping(100));
    let mut st = State { server: ServerState::Starting(u64::MAX - 5), update: UpdateState::Idle, killer: Some(5) };
    assert!(st.tick(&id("test"), u64::MAX, limits).is_empty());
}

#[test]
fn tick_covers_every_server_in_order() {
    let (mut sup, events) = Supervisor::new(&config(vec![description("a", vec![]), description("b", vec![])]));
    for e in events {
        sup.handle_internal_message(e, 0);
    }
    sup.handle_internal_message(Internal::ServerStarted(id("a"), 1), 0);
    sup.handle_internal_message(Internal::ServerStarted(id("b"), 2), 0);
    sup.handle_byond_message(ByondIn::ServerStarted(id("a")), vec![1]);
    sup.handle_byond_message(ByondIn::ServerStarted(id("b")), vec![2]);
    let acts = sup.ping_check(10);
    assert_eq!(acts, vec![Action::Send(ByondOut::Ping, vec![1]), Action::Send(ByondOut::Ping, vec![2])]);
}
