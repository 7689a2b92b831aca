//! Process supervisor for long-running game-server children: the verified
//! decision logic (per-server state machine, update workflow, child launch
//! description, message framing and configuration assembly).

pub mod byond;
pub mod config;
pub mod invariants;
pub mod liason;
pub mod msg;
pub mod server;
pub mod supervisor;
pub mod text;
pub mod updater;
