use vstd::prelude::*;
use std::collections::HashMap;

verus! {

/// Handle under which the supervisor knows the kill watcher of one child.
/// The code that runs the children keeps the watcher's channel under it.
pub type WatcherHandle = u64;

/// What a kill watcher can be told: to go away quietly, or to kill its child.
#[derive(Debug, Clone, Copy, PartialEq, Eq, Structural)]
pub enum WatcherMessage {
    KillWatcher,
    KillServer,
}

/// Events that the supervisor sends itself, or that child runners and
/// updaters send it.
#[derive(Debug, PartialEq, Eq)]
pub enum Internal {
    /// Server ID
    StartServer(String),
    /// Server ID
    KillServer(String),
    /// Server ID; handle of the new child's kill watcher
    ServerStarted(String, WatcherHandle),
    /// Server ID
    ServerStopped(String),
    /// Server ID; environment variables to set for the update commands
    RunUpdate(String, HashMap<String, String>),
    /// Server ID
    UpdateStarted(String),
    /// Server ID; error message
    UpdateError(String, String),
    /// Server ID
    UpdateComplete(String),
}

/// Messages from a managed server.
#[derive(Debug, PartialEq, Eq)]
pub enum ByondIn {
    /// Server ID
    ServerStarted(String),
    /// Server ID
    ServerStopping(String),
    /// Server ID
    Pong(String),
    /// Server ID; environment variables to set for the update commands
    RunUpdate(String, HashMap<String, String>),
}

/// Messages to a managed server.
#[derive(Debug, PartialEq, Eq)]
pub enum ByondOut {
    Ping,
    UpdateStarted,
    /// Error message
    UpdateError(String),
    UpdateComplete,
}

/// `Internal` with its strings seen as character sequences.
pub enum InternalView {
    StartServer(Seq<char>),
    KillServer(Seq<char>),
    ServerStarted(Seq<char>, WatcherHandle),
    ServerStopped(Seq<char>),
    RunUpdate(Seq<char>, HashMap<String, String>),
    UpdateStarted(Seq<char>),
    UpdateError(Seq<char>, Seq<char>),
    UpdateComplete(Seq<char>),
}

impl View for Internal {
    type V = InternalView;

    open spec fn view(&self) -> InternalView {
        match self {
            Internal::StartServer(id) => InternalView::StartServer(id@),
            Internal::KillServer(id) => InternalView::KillServer(id@),
            Internal::ServerStarted(id, w) => InternalView::ServerStarted(id@, *w),
            Internal::ServerStopped(id) => InternalView::ServerStopped(id@),
            Internal::RunUpdate(id, env) => InternalView::RunUpdate(id@, *env),
            Internal::UpdateStarted(id) => InternalView::UpdateStarted(id@),
            Internal::UpdateError(id, e) => InternalView::UpdateError(id@, e@),
            Internal::UpdateComplete(id) => InternalView::UpdateComplete(id@),
        }
    }
}

impl InternalView {
    /// The server that the event is about.
    pub open spec fn server_id(self) -> Seq<char> {
        match self {
            InternalView::StartServer(id) => id,
            InternalView::KillServer(id) => id,
            InternalView::ServerStarted(id, _) => id,
            InternalView::ServerStopped(id) => id,
            InternalView::RunUpdate(id, _) => id,
            InternalView::UpdateStarted(id) => id,
            InternalView::UpdateError(id, _) => id,
            InternalView::UpdateComplete(id) => id,
        }
    }
}

impl Internal {
    /// The server that the event is about.
    pub fn server_id(&self) -> (r: &String)
        ensures
            r@ == self@.server_id(),
    {
        match self {
            Internal::StartServer(id) => id,
            Internal::KillServer(id) => id,
            Internal::ServerStarted(id, _) => id,
            Internal::ServerStopped(id) => id,
            Internal::RunUpdate(id, _) => id,
            Internal::UpdateStarted(id) => id,
            Internal::UpdateError(id, _) => id,
            Internal::UpdateComplete(id) => id,
        }
    }
}

/// `ByondIn` with its strings seen as character sequences.
pub enum ByondInView {
    ServerStarted(Seq<char>),
    ServerStopping(Seq<char>),
    Pong(Seq<char>),
    RunUpdate(Seq<char>, HashMap<String, String>),
}

impl View for ByondIn {
    type V = ByondInView;

    open spec fn view(&self) -> ByondInView {
        match self {
            ByondIn::ServerStarted(id) => ByondInView::ServerStarted(id@),
            ByondIn::ServerStopping(id) => ByondInView::ServerStopping(id@),
            ByondIn::Pong(id) => ByondInView::Pong(id@),
            ByondIn::RunUpdate(id, env) => ByondInView::RunUpdate(id@, *env),
        }
    }
}

impl ByondInView {
    /// The server that the message is about.
    pub open spec fn server_id(self) -> Seq<char> {
        match self {
            ByondInView::ServerStarted(id) => id,
            ByondInView::ServerStopping(id) => id,
            ByondInView::Pong(id) => id,
            ByondInView::RunUpdate(id, _) => id,
        }
    }
}

impl ByondIn {
    /// The server that the message is about.
    pub fn server_id(&self) -> (r: &String)
        ensures
            r@ == self@.server_id(),
    {
        match self {
            ByondIn::ServerStarted(id) => id,
            ByondIn::ServerStopping(id) => id,
            ByondIn::Pong(id) => id,
            ByondIn::RunUpdate(id, _) => id,
        }
    }
}

/// `ByondOut` with its strings seen as character sequences.
pub enum ByondOutView {
    Ping,
    UpdateStarted,
    UpdateError(Seq<char>),
    UpdateComplete,
}

impl View for ByondOut {
    type V = ByondOutView;

    open spec fn view(&self) -> ByondOutView {
        match self {
            ByondOut::Ping => ByondOutView::Ping,
            ByondOut::UpdateStarted => ByondOutView::UpdateStarted,
            ByondOut::UpdateError(e) => ByondOutView::UpdateError(e@),
            ByondOut::UpdateComplete => ByondOutView::UpdateComplete,
        }
    }
}

} // verus!
