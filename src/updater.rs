use vstd::prelude::*;
use std::collections::HashMap;
use crate::msg::{Internal, InternalView};
use crate::server::Description;
use crate::text::{copy_strings, decimal, push_decimal, push_signed_decimal, signed_decimal, strings};

verus! {

/// How one update command ended.
#[derive(Debug)]
pub enum CommandOutcome {
    /// It exited with status 0.
    Succeeded,
    /// It exited with this non-zero status.
    Failed(i32),
    /// It ended without an exit status.
    Terminated,
    /// It could not be launched, for this reason.
    NotLaunched(String),
}

/// The update workflow of one server: its commands, run in order in the
/// server's working directory with an environment overlay.
#[derive(Debug)]
pub struct Updater {
    pub server_id: String,
    pub work_dir: String,
    pub commands: Vec<String>,
    /// Environment variables set on top of the inherited environment
    pub env: HashMap<String, String>,
}

pub open spec fn no_scripts_message() -> Seq<char> {
    "no update scripts defined"@
}

/// The error reported when command number `n` (counted from 1) ends with
/// outcome `o`.
pub open spec fn failure_message(n: nat, o: CommandOutcome) -> Seq<char> {
    match o {
        CommandOutcome::Failed(code) => "update command #"@ + decimal(n) + " failed with exit code "@
            + signed_decimal(code as int),
        CommandOutcome::Terminated => "update command #"@ + decimal(n) + " failed"@,
        CommandOutcome::NotLaunched(reason) => "failed to execute update command #"@ + decimal(n) + ": "@
            + reason@,
        CommandOutcome::Succeeded => Seq::empty(),
    }
}

/// What is reported after command `i` (counted from 0) of `count` ended with
/// outcome `o`: nothing while commands succeed, completion after the last,
/// and an error, which ends the update, after one that failed.
pub open spec fn report_after(id: Seq<char>, count: nat, i: nat, o: CommandOutcome) -> Option<InternalView> {
    match o {
        CommandOutcome::Succeeded => if i + 1 == count {
            Some(InternalView::UpdateComplete(id))
        } else {
            None
        },
        _ => Some(InternalView::UpdateError(id, failure_message(i + 1, o))),
    }
}

impl Updater {
    /// An updater for `server` with the environment overlay `env`.
    pub fn new(server: &Description, env: HashMap<String, String>) -> (r: Updater)
        ensures
            r.server_id@ == server.id@,
            r.work_dir@ == server.work_dir@,
            strings(r.commands@) == strings(server.update_commands@),
            r.env == env,
    {
        Updater {
            server_id: server.id.clone(),
            work_dir: server.work_dir.clone(),
            commands: copy_strings(&server.update_commands),
            env,
        }
    }

    /// The first report of an update: an error when there is no command to
    /// run, which ends the update, and otherwise that the update started.
    pub fn first_message(&self) -> (r: Internal)
        ensures
            self.commands@.len() == 0 ==> r@ == InternalView::UpdateError(self.server_id@, no_scripts_message()),
            self.commands@.len() > 0 ==> r@ == InternalView::UpdateStarted(self.server_id@),
    {
        if self.commands.len() == 0 {
            proof { reveal_strlit("no update scripts defined"); }
            Internal::UpdateError(self.server_id.clone(), String::from_str("no update scripts defined"))
        } else {
            Internal::UpdateStarted(self.server_id.clone())
        }
    }

    /// The report, if any, after command `i` (counted from 0) ended with
    /// `outcome`. A report ends the update.
    pub fn after_command(&self, i: usize, outcome: CommandOutcome) -> (r: Option<Internal>)
        requires
            i < self.commands@.len(),
        ensures
            match r {
                Some(m) => report_after(self.server_id@, self.commands@.len() as nat, i as nat, outcome) == Some(m@),
                None => report_after(self.server_id@, self.commands@.len() as nat, i as nat, outcome) is None,
            },
    {
        let count: usize = self.commands.len();
        let n: u64 = (i + 1) as u64;
        match outcome {
            CommandOutcome::Succeeded => {
                if i + 1 == count {
                    Some(Internal::UpdateComplete(self.server_id.clone()))
                } else {
                    None
                }
            },
            CommandOutcome::Failed(code) => {
                let mut s = String::from_str("update command #");
                push_decimal(&mut s, n);
                s.append(" failed with exit code ");
                push_signed_decimal(&mut s, code);
                proof {
                    reveal_strlit("update command #");
                    reveal_strlit(" failed with exit code ");
                }
                Some(Internal::UpdateError(self.server_id.clone(), s))
            },
            CommandOutcome::Terminated => {
                let mut s = String::from_str("update command #");
                push_decimal(&mut s, n);
                s.append(" failed");
                proof {
                    reveal_strlit("update command #");
                    reveal_strlit(" failed");
                }
                Some(Internal::UpdateError(self.server_id.clone(), s))
            },
            CommandOutcome::NotLaunched(reason) => {
                let mut s = String::from_str("failed to execute update command #");
                push_decimal(&mut s, n);
                s.append(": ");
                s.append(reason.as_str());
                proof {
                    reveal_strlit("failed to execute update command #");
                    reveal_strlit(": ");
                }
                Some(Internal::UpdateError(self.server_id.clone(), s))
            },
        }
    }
}

} // verus!
