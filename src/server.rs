use vstd::prelude::*;
use crate::byond::Runtime;
use crate::text::{decimal, decimal_string, join, join_path, strings};

verus! {

/// A managed server, as configured.
#[derive(Debug)]
pub struct Description {
    pub runtime: Runtime,
    pub work_dir: String,
    /// Content file handed to the server binary
    pub dmb: String,
    pub port: u16,
    /// Commands run, in order, to update the server
    pub update_commands: Vec<String>,
    pub id: String,
}

/// How to start a server's child process. Its standard streams are detached.
#[derive(Debug)]
pub struct Launch {
    pub program: String,
    pub work_dir: String,
    /// Environment variables set for the child
    pub env: Vec<(String, String)>,
    pub args: Vec<String>,
}

pub open spec fn string_pairs(v: Seq<(String, String)>) -> Seq<(Seq<char>, Seq<char>)> {
    v.map_values(|p: (String, String)| (p.0@, p.1@))
}

/// The runtime binary that a server runs.
pub open spec fn launch_program(d: Description) -> Seq<char> {
    join_path(d.runtime.bin_dir@, "DreamDaemon"@)
}

/// The child's environment: where the runtime lives, where its libraries
/// are, and that fatal runtime errors go to standard error.
pub open spec fn launch_env(d: Description) -> Seq<(Seq<char>, Seq<char>)> {
    seq![
        ("SYSTEM_DIR"@, d.runtime.byond_system@),
        ("LIB_PATH"@, d.runtime.bin_dir@),
        ("LIBC_FATAL_STDERR_"@, "1"@),
    ]
}

/// The child's arguments: content file, port, flags, and the parameters that
/// tell the server where the supervisor listens and which id it has.
pub open spec fn launch_args(d: Description, endpoint: Seq<char>) -> Seq<Seq<char>> {
    seq![
        d.dmb@,
        decimal(d.port as nat),
        "-trusted"@,
        "-core"@,
        "-logself"@,
        "-params"@,
        "endpoint="@ + endpoint + "&id="@ + d.id@,
    ]
}

fn lit(s: &str) -> (r: String)
    ensures
        r@ == s@,
{
    s.to_owned()
}

impl Description {
    /// How to start this server's child, which is to reach the supervisor at
    /// `endpoint`.
    pub fn launch(&self, endpoint: &str) -> (r: Launch)
        ensures
            r.program@ == launch_program(*self),
            r.work_dir@ == self.work_dir@,
            string_pairs(r.env@) == launch_env(*self),
            strings(r.args@) == launch_args(*self, endpoint@),
    {
        proof {
            reveal_strlit("DreamDaemon");
            reveal_strlit("SYSTEM_DIR");
            reveal_strlit("LIB_PATH");
            reveal_strlit("LIBC_FATAL_STDERR_");
            reveal_strlit("1");
            reveal_strlit("-trusted");
            reveal_strlit("-core");
            reveal_strlit("-logself");
            reveal_strlit("-params");
            reveal_strlit("endpoint=");
            reveal_strlit("&id=");
        }
        let mut env: Vec<(String, String)> = Vec::new();
        env.push((lit("SYSTEM_DIR"), self.runtime.byond_system.clone()));
        env.push((lit("LIB_PATH"), self.runtime.bin_dir.clone()));
        env.push((lit("LIBC_FATAL_STDERR_"), lit("1")));

        let mut params = lit("endpoint=");
        params.append(endpoint);
        params.append("&id=");
        params.append(self.id.as_str());

        let mut args: Vec<String> = Vec::new();
        args.push(self.dmb.clone());
        args.push(decimal_string(self.port as u64));
        args.push(lit("-trusted"));
        args.push(lit("-core"));
        args.push(lit("-logself"));
        args.push(lit("-params"));
        args.push(params);

        let r = Launch {
            program: join(self.runtime.bin_dir.as_str(), "DreamDaemon"),
            work_dir: self.work_dir.clone(),
            env,
            args,
        };
        assert(string_pairs(r.env@) =~= launch_env(*self));
        assert(strings(r.args@) =~= launch_args(*self, endpoint@));
        r
    }
}

} // verus!
