//! The background adb tunnel: what its pid file holds and when it restarts.

use vstd::prelude::*;
use crate::text::{decimal, find_char, is_space, parse_unsigned, trim};

verus! {

/// The largest `u32`.
pub open spec fn u32_max() -> nat {
    0xffff_ffff
}

/// What a pid file holds: `<pid>:<port>`, or a bare `<pid>` (the older
/// form) whose port is unknown. An unreadable pid makes the whole entry
/// unreadable; an unreadable port only makes the port unknown.
pub open spec fn pid_entry(contents: Seq<char>) -> Option<(u32, Option<u16>)> {
    let t = trim(contents);
    match find_char(t, ':') {
        Some(i) => match parse_unsigned(t.subrange(0, i), u32_max()) {
            Some(pid) => Some(
                (
                    pid as u32,
                    match parse_unsigned(t.subrange(i + 1, t.len() as int), 65535) {
                        Some(port) => Some(port as u16),
                        None => None,
                    },
                ),
            ),
            None => None,
        },
        None => match parse_unsigned(t, u32_max()) {
            Some(pid) => Some((pid as u32, None)),
            None => None,
        },
    }
}

/// Read a pid file's contents.
pub fn parse_tracked(contents: &str) -> (r: Option<(u32, Option<u16>)>)
    ensures
        r == pid_entry(contents@),
{
    let t = crate::text::trim_str(contents);
    let n = t.as_str().unicode_len();
    match crate::text::find_char_in(t.as_str(), ':') {
        Some(i) => {
            let pid_text = crate::text::slice(t.as_str(), 0, i);
            let port_text = crate::text::slice(t.as_str(), i + 1, n);
            match crate::text::parse_unsigned_str(pid_text.as_str(), 0xffff_ffff) {
                Some(pid) => {
                    let port = match crate::text::parse_unsigned_str(port_text.as_str(), 65535) {
                        Some(p) => Some(p as u16),
                        None => None,
                    };
                    Some((pid as u32, port))
                },
                None => None,
            }
        },
        None => match crate::text::parse_unsigned_str(t.as_str(), 0xffff_ffff) {
            Some(pid) => Some((pid as u32, None)),
            None => None,
        },
    }
}

/// What the pid file of a tunnel started as `pid` on `port` holds.
pub open spec fn tracked_text(pid: u32, port: u16) -> Seq<char> {
    decimal(pid as nat) + seq![':'] + decimal(port as nat)
}

/// Executable form of `tracked_text` (`format!("{pid}:{port}")`).
pub fn tracked_contents(pid: u32, port: u16) -> (r: String)
    ensures
        r@ == tracked_text(pid, port),
{
    let p = crate::text::decimal_string(pid as u128);
    let q = crate::text::decimal_string(port as u128);
    proof {
        reveal_strlit(":");
    }
    let r = crate::text::cat3(p.as_str(), ":", q.as_str());
    assert(r@ =~= tracked_text(pid, port));
    r
}

/// What to do about the tunnel when the launcher brings the container up.
#[derive(Debug, Clone, Copy, PartialEq, Eq, Structural)]
pub enum TunnelStart {
    /// No adb port is configured: stop any entry tunnel.
    Disable,
    /// The entry tunnel forwards the right port: keep it if it is alive,
    /// else restart it on `port`.
    CheckAlive { pid: u32, port: u16 },
    /// Stop any entry tunnel and start one on `port`.
    Restart { port: u16 },
    /// Leave the running tunnel as it is.
    Keep,
}

/// The decision for the configured port and the entry tunnel. Only a
/// missing or dead process, or a changed or unknown port, restarts it, so a
/// second session never severs adb traffic in flight.
pub open spec fn start_decision(adb_port: Option<u16>, entry: Option<(u32, Option<u16>)>) -> TunnelStart {
    match adb_port {
        None => TunnelStart::Disable,
        Some(port) => match entry {
            Some((pid, Some(entry_port))) => if entry_port == port {
                TunnelStart::CheckAlive { pid, port }
            } else {
                TunnelStart::Restart { port }
            },
            _ => TunnelStart::Restart { port },
        },
    }
}

/// Executable form of `start_decision`.
pub fn start(adb_port: Option<u16>, entry: Option<(u32, Option<u16>)>) -> (r: TunnelStart)
    ensures
        r == start_decision(adb_port, entry),
{
    match adb_port {
        None => TunnelStart::Disable,
        Some(port) => match entry {
            Some((pid, Some(entry_port))) => {
                if entry_port == port {
                    TunnelStart::CheckAlive { pid, port }
                } else {
                    TunnelStart::Restart { port }
                }
            },
            _ => TunnelStart::Restart { port },
        },
    }
}

/// The decision once the entry tunnel's liveness is known.
pub fn after_alive_check(alive: bool, port: u16) -> (r: TunnelStart)
    ensures
        alive ==> r == TunnelStart::Keep,
        !alive ==> r == (TunnelStart::Restart { port }),
{
    if alive {
        TunnelStart::Keep
    } else {
        TunnelStart::Restart { port }
    }
}

/// The process to end when stopping the tunnel: the entry one, if any.
pub fn stop(entry: Option<(u32, Option<u16>)>) -> (r: Option<u32>)
    ensures
        r == match entry {
            Some((pid, _)) => Some(pid),
            None => None::<u32>,
        },
{
    match entry {
        Some((pid, _)) => Some(pid),
        None => None,
    }
}

/// A pid file the launcher wrote reads back as the pid and port it wrote,
/// also with white space (such as a trailing newline) around it.
pub proof fn lemma_tracked_round_trip(pid: u32, port: u16, before: Seq<char>, after: Seq<char>)
    requires
        forall|k: int| 0 <= k < before.len() ==> is_space(#[trigger] before[k]),
        forall|k: int| 0 <= k < after.len() ==> is_space(#[trigger] after[k]),
    ensures
        pid_entry(before + tracked_text(pid, port) + after) == Some((pid, Some(port))),
{
    let a = decimal(pid as nat);
    let b = decimal(port as nat);
    let s = tracked_text(pid, port);
    crate::text::lemma_parse_decimal(pid as nat, u32_max());
    crate::text::lemma_parse_decimal(port as nat, 65535);
    crate::text::lemma_decimal_shape(pid as nat);
    crate::text::lemma_decimal_shape(port as nat);
    assert(s[0] == a[0]);
    assert(s.last() == b[b.len() - 1]);
    crate::text::lemma_trim_padded(before, s, after);
    assert(crate::text::first_char_at(s, ':', a.len() as int)) by {
        assert(s[a.len() as int] == ':');
        assert forall|k: int| 0 <= k < a.len() implies s[k] != ':' by {
            assert(s[k] == a[k]);
        }
    }
    crate::text::lemma_find_char_is(s, ':', a.len() as int);
    assert(s.subrange(0, a.len() as int) =~= a);
    assert(s.subrange(a.len() as int + 1, s.len() as int) =~= b);
}

} // verus!
