use vstd::prelude::*;
use crate::text::{join, join_path};

verus! {

/// An installed distribution of the server runtime: the directory that the
/// runtime treats as its system directory, and the directory of its binaries.
#[derive(Debug)]
pub struct Runtime {
    pub byond_system: String,
    pub bin_dir: String,
}

pub open spec fn system_dir_path() -> Seq<char> {
    "/usr/share/byond/"@
}

pub open spec fn system_bin_path() -> Seq<char> {
    "/usr/share/byond/bin/"@
}

impl Runtime {
    /// The built-in runtime at the platform's default location.
    pub fn system() -> (r: Self)
        ensures
            r.byond_system@ == system_dir_path(),
            r.bin_dir@ == system_bin_path(),
    {
        Runtime {
            byond_system: String::from_str("/usr/share/byond/"),
            bin_dir: String::from_str("/usr/share/byond/bin/"),
        }
    }

    /// A runtime installed under `path`, with its binaries in `bin/` below it.
    pub fn local(path: &str) -> (r: Self)
        ensures
            r.byond_system@ == path@,
            r.bin_dir@ == join_path(path@, "bin/"@),
    {
        Runtime { byond_system: path.to_owned(), bin_dir: join(path, "bin/") }
    }
}

} // verus!
