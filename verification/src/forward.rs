//! The `ssh` local forwards the launcher tracks per port: what a forward's
//! pid file holds, and when a forward is started, kept or ended.

use vstd::prelude::*;
use crate::adbtunnel::u32_max;
use crate::text::{decimal, is_space, parse_unsigned, trim};

verus! {

/// What a forward's pid file holds: the bare pid of its `ssh` process.
pub open spec fn forward_entry(contents: Seq<char>) -> Option<u32> {
    match parse_unsigned(trim(contents), u32_max()) {
        Some(pid) => Some(pid as u32),
        None => None,
    }
}

/// Read a forward's pid file contents.
pub fn read_tracked(contents: &str) -> (r: Option<u32>)
    ensures
        r == forward_entry(contents@),
{
    let t = crate::text::trim_str(contents);
    match crate::text::parse_unsigned_str(t.as_str(), 0xffff_ffff) {
        Some(pid) => Some(pid as u32),
        None => None,
    }
}

/// What the pid file of a forward whose process is `pid` holds.
pub open spec fn pid_text(pid: u32) -> Seq<char> {
    decimal(pid as nat)
}

/// Executable form of `pid_text` (`pid.to_string()`).
pub fn pid_contents(pid: u32) -> (r: String)
    ensures
        r@ == pid_text(pid),
{
    crate::text::decimal_string(pid as u128)
}

/// What to do about a forward that is asked for.
#[derive(Debug, Clone, Copy, PartialEq, Eq, Structural)]
pub enum ForwardStart {
    /// A process is tracked: keep it if it is alive, else spawn a new one.
    CheckAlive { pid: u32 },
    /// Spawn the forward and track its process.
    Spawn,
    /// Leave the running forward as it is.
    Keep,
}

/// The decision for a forward, from what its pid file held (if it could be
/// read). Only a forward with no live tracked process is spawned.
pub fn start(entry: Option<u32>) -> (r: ForwardStart)
    ensures
        r == match entry {
            Some(pid) => ForwardStart::CheckAlive { pid },
            None => ForwardStart::Spawn,
        },
{
    match entry {
        Some(pid) => ForwardStart::CheckAlive { pid },
        None => ForwardStart::Spawn,
    }
}

/// The decision once the tracked process's liveness is known.
pub fn after_alive_check(alive: bool) -> (r: ForwardStart)
    ensures
        alive ==> r == ForwardStart::Keep,
        !alive ==> r == ForwardStart::Spawn,
{
    if alive {
        ForwardStart::Keep
    } else {
        ForwardStart::Spawn
    }
}

/// The process to end when stopping a forward: the tracked one, if any.
pub fn stop(entry: Option<u32>) -> (r: Option<u32>)
    ensures
        r == entry,
{
    entry
}

/// A forward's pid file reads back as the pid written to it, also with white
/// space around it.
pub proof fn lemma_pid_round_trip(pid: u32, before: Seq<char>, after: Seq<char>)
    requires
        forall|k: int| 0 <= k < before.len() ==> is_space(#[trigger] before[k]),
        forall|k: int| 0 <= k < after.len() ==> is_space(#[trigger] after[k]),
    ensures
        forward_entry(before + pid_text(pid) + after) == Some(pid),
{
    let s = pid_text(pid);
    crate::text::lemma_parse_decimal(pid as nat, u32_max());
    crate::text::lemma_decimal_shape(pid as nat);
    assert(s.last() == s[s.len() - 1]);
    crate::text::lemma_trim_padded(before, s, after);
}

} // verus!
