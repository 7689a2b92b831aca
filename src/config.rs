use vstd::prelude::*;
use crate::byond::{system_bin_path, system_dir_path, Runtime};
use crate::server::Description;
use crate::text::{copy_strings, strings};

verus! {

/// The supervisor's configuration. Durations are in milliseconds.
#[derive(Debug)]
pub struct Config {
    pub internal_endpoint: String,
    pub byond_endpoint: String,
    pub external_endpoint: String,
    pub ping_interval: u64,
    pub max_lost_pings: usize,
    pub starting_timeout: u64,
    pub stopping_timeout: u64,
    pub servers: Vec<Description>,
}

/// The servers' ids, in configuration order.
pub open spec fn server_ids(servers: Seq<Description>) -> Seq<Seq<char>> {
    servers.map_values(|d: Description| d.id@)
}

/// No two entries of `ids` are equal.
pub open spec fn distinct(ids: Seq<Seq<char>>) -> bool {
    forall|i: int, j: int| 0 <= i < j < ids.len() ==> ids[i] != ids[j]
}

impl Config {
    /// Each server id occurs once.
    pub open spec fn wf(&self) -> bool {
        distinct(server_ids(self.servers@))
    }
}

/// A runtime as it stands in the configuration file.
#[derive(Debug)]
pub struct RuntimeSerialize {
    pub byond_system: String,
    pub bin_dir: String,
}

/// A server as it stands in the configuration file, without its id.
#[derive(Debug)]
pub struct DescriptionSerialize {
    /// Name of the runtime, or `system` for the built-in one
    pub runtime: String,
    pub work_dir: String,
    pub dmb: String,
    pub port: u16,
    pub update_commands: Option<Vec<String>>,
}

/// The configuration file's content. Durations are in milliseconds; servers
/// and runtimes are listed with their ids.
#[derive(Debug)]
pub struct ConfigSerialize {
    pub byond_endpoint: String,
    pub external_endpoint: String,
    pub ping_interval: u64,
    pub max_lost_pings: usize,
    pub starting_timeout: u64,
    pub stopping_timeout: u64,
    pub servers: Vec<(String, DescriptionSerialize)>,
    pub runtimes: Vec<(String, RuntimeSerialize)>,
}

pub open spec fn internal_endpoint_name() -> Seq<char> {
    "ipc://internal_endpoint"@
}

/// System and binary directory of the last runtime listed as `name`.
pub open spec fn listed_runtime(rs: Seq<(String, RuntimeSerialize)>, name: Seq<char>) -> Option<(Seq<char>, Seq<char>)>
    decreases rs.len(),
{
    if rs.len() == 0 {
        None
    } else if rs.last().0@ == name {
        Some((rs.last().1.byond_system@, rs.last().1.bin_dir@))
    } else {
        listed_runtime(rs.drop_last(), name)
    }
}

/// System and binary directory of the runtime `name`: `system` is always the
/// built-in runtime, any other name one that the configuration lists.
pub open spec fn runtime_paths(rs: Seq<(String, RuntimeSerialize)>, name: Seq<char>) -> Option<(Seq<char>, Seq<char>)> {
    if name == "system"@ {
        Some((system_dir_path(), system_bin_path()))
    } else {
        listed_runtime(rs, name)
    }
}

/// The update commands of a server entry; none when the entry has none.
pub open spec fn commands_of(sd: DescriptionSerialize) -> Seq<Seq<char>> {
    match sd.update_commands {
        Some(v) => strings(v@),
        None => Seq::empty(),
    }
}

/// `d` is the server entry `e`, with its runtime resolved among `rs`.
pub open spec fn describes(d: Description, e: (String, DescriptionSerialize), rs: Seq<(String, RuntimeSerialize)>) -> bool {
    &&& d.id@ == e.0@
    &&& runtime_paths(rs, e.1.runtime@) == Some((d.runtime.byond_system@, d.runtime.bin_dir@))
    &&& d.work_dir@ == e.1.work_dir@
    &&& d.dmb@ == e.1.dmb@
    &&& d.port == e.1.port
    &&& strings(d.update_commands@) == commands_of(e.1)
}

/// Every server entry names a runtime that can be resolved.
pub open spec fn runtimes_resolve(ser: ConfigSerialize) -> bool {
    forall|i: int| 0 <= i < ser.servers@.len() ==> (#[trigger] runtime_paths(ser.runtimes@, ser.servers@[i].1.runtime@)) is Some
}

pub open spec fn entry_ids(servers: Seq<(String, DescriptionSerialize)>) -> Seq<Seq<char>> {
    servers.map_values(|e: (String, DescriptionSerialize)| e.0@)
}

/// The runtime `name`, resolved as `runtime_paths` says.
fn resolve_runtime(rs: &Vec<(String, RuntimeSerialize)>, name: &String) -> (r: Option<Runtime>)
    ensures
        match r {
            Some(rt) => runtime_paths(rs@, name@) == Some((rt.byond_system@, rt.bin_dir@)),
            None => runtime_paths(rs@, name@) is None,
        },
{
    proof { reveal_strlit("system"); }
    if name.as_str().unicode_len() == 6 && *name == String::from_str("system") {
        return Some(Runtime::system());
    }
    let mut i: usize = rs.len();
    assert(rs@.take(i as int) =~= rs@);
    while i > 0
        invariant
            i <= rs@.len(),
            name@ != "system"@,
            listed_runtime(rs@, name@) == listed_runtime(rs@.take(i as int), name@),
        decreases i,
    {
        assert(rs@.take(i as int).drop_last() =~= rs@.take(i as int - 1));
        let e = &rs[i - 1];
        if e.0 == *name {
            return Some(Runtime { byond_system: e.1.byond_system.clone(), bin_dir: e.1.bin_dir.clone() });
        }
        i -= 1;
    }
    None
}

impl Config {
    /// Builds the configuration from the file's content, resolving each
    /// server's runtime. Fails when a server names a runtime that is neither
    /// listed nor `system`.
    pub fn assemble(ser: ConfigSerialize) -> (r: Option<Config>)
        requires
            distinct(entry_ids(ser.servers@)),
        ensures
            r is Some <==> runtimes_resolve(ser),
            r matches Some(c) ==> {
                &&& c.wf()
                &&& c.internal_endpoint@ == internal_endpoint_name()
                &&& c.byond_endpoint@ == ser.byond_endpoint@
                &&& c.external_endpoint@ == ser.external_endpoint@
                &&& c.ping_interval == ser.ping_interval
                &&& c.max_lost_pings == ser.max_lost_pings
                &&& c.starting_timeout == ser.starting_timeout
                &&& c.stopping_timeout == ser.stopping_timeout
                &&& c.servers@.len() == ser.servers@.len()
                &&& forall|i: int| 0 <= i < c.servers@.len() ==> describes(#[trigger] c.servers@[i], ser.servers@[i], ser.runtimes@)
            },
    {
        let mut servers: Vec<Description> = Vec::new();
        let mut i: usize = 0;
        while i < ser.servers.len()
            invariant
                i <= ser.servers@.len(),
                servers@.len() == i,
                forall|j: int| 0 <= j < i ==> describes(#[trigger] servers@[j], ser.servers@[j], ser.runtimes@),
                forall|j: int| 0 <= j < i ==> (#[trigger] runtime_paths(ser.runtimes@, ser.servers@[j].1.runtime@)) is Some,
            decreases ser.servers@.len() - i,
        {
            let e = &ser.servers[i];
            let runtime = match resolve_runtime(&ser.runtimes, &e.1.runtime) {
                Some(rt) => rt,
                None => return None,
            };
            let update_commands = match &e.1.update_commands {
                Some(v) => copy_strings(v),
                None => {
                    let v: Vec<String> = Vec::new();
                    assert(strings(v@) =~= Seq::<Seq<char>>::empty());
                    v
                },
            };
            servers.push(Description {
                runtime,
                work_dir: e.1.work_dir.clone(),
                dmb: e.1.dmb.clone(),
                port: e.1.port,
                update_commands,
                id: e.0.clone(),
            });
            i += 1;
        }
        proof {
            assert forall|a: int, b: int| 0 <= a < b < servers@.len() implies server_ids(servers@)[a] != server_ids(servers@)[b] by {
                assert(entry_ids(ser.servers@)[a] != entry_ids(ser.servers@)[b]);
            }
        }
        proof { reveal_strlit("ipc://internal_endpoint"); }
        Some(Config {
            internal_endpoint: String::from_str("ipc://internal_endpoint"),
            byond_endpoint: ser.byond_endpoint,
            external_endpoint: ser.external_endpoint,
            ping_interval: ser.ping_interval,
            max_lost_pings: ser.max_lost_pings,
            starting_timeout: ser.starting_timeout,
            stopping_timeout: ser.stopping_timeout,
            servers,
        })
    }
}

} // verus!
