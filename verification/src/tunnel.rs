//! Stopping and probing the background `ssh` processes the launcher tracks.

use vstd::prelude::*;
use crate::error::BsdevError;
use crate::process::{call, capture_view, push_arg, CaptureView, Invocation, InvocationView, Platform, strings};
use crate::text::{contains, decimal};

verus! {

/// The command that ends process `pid`.
pub open spec fn kill_command(platform: Platform, pid: u32) -> InvocationView {
    match platform {
        Platform::Windows => call("taskkill"@, seq!["/PID"@, decimal(pid as nat), "/F"@]),
        Platform::Unix => call("kill"@, seq!["-TERM"@, decimal(pid as nat)]),
    }
}

/// Executable form of `kill_command`.
pub fn kill(platform: Platform, pid: u32) -> (r: Invocation)
    ensures
        r@ == kill_command(platform, pid),
{
    let digits = crate::text::decimal_string(pid as u128);
    match platform {
        Platform::Windows => {
            let mut args = strings(&["/PID"]);
            push_arg(&mut args, digits);
            push_arg(&mut args, String::from_str("/F"));
            assert(args.deep_view() =~= seq!["/PID"@, decimal(pid as nat), "/F"@]);
            Invocation::new("taskkill", args)
        },
        Platform::Unix => {
            let mut args = strings(&["-TERM"]);
            push_arg(&mut args, digits);
            assert(args.deep_view() =~= seq!["-TERM"@, decimal(pid as nat)]);
            Invocation::new("kill", args)
        },
    }
}

/// The query whose outcome tells whether process `pid` is alive.
pub open spec fn alive_query(platform: Platform, pid: u32) -> InvocationView {
    match platform {
        Platform::Windows => call(
            "tasklist"@,
            seq!["/FI"@, "PID eq "@ + decimal(pid as nat), "/NH"@],
        ),
        Platform::Unix => call("kill"@, seq!["-0"@, decimal(pid as nat)]),
    }
}

/// Executable form of `alive_query`.
pub fn is_alive_command(platform: Platform, pid: u32) -> (r: Invocation)
    ensures
        r@ == alive_query(platform, pid),
{
    let digits = crate::text::decimal_string(pid as u128);
    match platform {
        Platform::Windows => {
            let mut args = strings(&["/FI"]);
            push_arg(&mut args, crate::text::cat("PID eq ", digits.as_str()));
            push_arg(&mut args, String::from_str("/NH"));
            assert(args.deep_view() =~= seq!["/FI"@, "PID eq "@ + decimal(pid as nat), "/NH"@]);
            Invocation::new("tasklist", args)
        },
        Platform::Unix => {
            let mut args = strings(&["-0"]);
            push_arg(&mut args, digits);
            assert(args.deep_view() =~= seq!["-0"@, decimal(pid as nat)]);
            Invocation::new("kill", args)
        },
    }
}

/// What the alive query's outcome means. `tasklist` succeeds even with no
/// match, so there the listing must name the pid; `kill -0` succeeds only
/// for a process that exists and is ours to signal.
pub open spec fn alive(platform: Platform, pid: u32, o: CaptureView) -> bool {
    match platform {
        Platform::Windows => match o {
            Ok(Some(out)) => contains(out, decimal(pid as nat)),
            _ => false,
        },
        Platform::Unix => o matches Ok(Some(_)),
    }
}

/// Whether process `pid` is alive, from the alive query's outcome.
pub fn is_alive(platform: Platform, pid: u32, outcome: &Result<Option<String>, BsdevError>) -> (r: bool)
    ensures
        r == alive(platform, pid, capture_view(*outcome)),
{
    match platform {
        Platform::Windows => match outcome {
            Ok(Some(out)) => {
                let digits = crate::text::decimal_string(pid as u128);
                crate::text::contains_str(out.as_str(), digits.as_str())
            },
            _ => false,
        },
        Platform::Unix => match outcome {
            Ok(Some(_)) => true,
            _ => false,
        },
    }
}

} // verus!
