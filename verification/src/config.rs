//! The settings persisted between runs.

use vstd::prelude::*;

verus! {

/// Persisted settings. Every field is optional, so an absent or empty file
/// means all defaults and the file can grow without breaking older ones.
pub struct Config {
    /// Host directory bind-mounted at `~/host-repos`.
    pub repos_dir: Option<String>,
    /// Host adb server port forwarded into the container.
    pub adb_port: Option<u16>,
}

/// `Config` with its strings as character sequences.
pub struct ConfigView {
    pub repos_dir: Option<Seq<char>>,
    pub adb_port: Option<u16>,
}

/// An optional string as an optional character sequence.
pub open spec fn opt_view(s: Option<String>) -> Option<Seq<char>> {
    match s {
        Some(v) => Some(v@),
        None => None,
    }
}

impl View for Config {
    type V = ConfigView;

    open spec fn view(&self) -> ConfigView {
        ConfigView { repos_dir: opt_view(self.repos_dir), adb_port: self.adb_port }
    }
}

/// A copy of an optional string.
pub fn copy_opt(s: &Option<String>) -> (r: Option<String>)
    ensures
        opt_view(r) == opt_view(*s),
{
    match s {
        Some(v) => Some(v.clone()),
        None => None,
    }
}

impl Config {
    /// A copy of this config.
    pub fn duplicate(&self) -> (r: Config)
        ensures
            r@ == self@,
    {
        Config { repos_dir: copy_opt(&self.repos_dir), adb_port: self.adb_port }
    }
}

impl Default for Config {
    fn default() -> (r: Config)
        ensures
            r@ == (ConfigView { repos_dir: None, adb_port: None }),
    {
        Config { repos_dir: None, adb_port: None }
    }
}

} // verus!
