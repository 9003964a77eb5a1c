//! The `ssh` sessions into the container: their command lines and outcomes.

use vstd::prelude::*;
use crate::codebridge::CODE_PORT;
use crate::error::{BsdevError, BsdevErrorView};
use crate::process::{call, push_arg, run_view, Invocation, InvocationView, Platform, RunView, strings};
use crate::settings::{Settings, SettingsView};
use crate::text::{decimal, trim};

verus! {

/// The platform's null device, used as the known-hosts file so container host
/// keys are neither stored nor checked.
pub open spec fn null_device_of(platform: Platform) -> Seq<char> {
    match platform {
        Platform::Windows => "NUL"@,
        Platform::Unix => "/dev/null"@,
    }
}

/// Executable form of `null_device_of`.
pub fn null_device(platform: Platform) -> (r: &'static str)
    ensures
        r@ == null_device_of(platform),
{
    match platform {
        Platform::Windows => "NUL",
        Platform::Unix => "/dev/null",
    }
}

/// The arguments shared by every session: explicit port and key, host keys
/// neither pinned nor recorded, quiet logging, and the login.
pub open spec fn base_arguments(s: SettingsView, platform: Platform) -> Seq<Seq<char>> {
    seq![
        "-p"@,
        decimal(s.port as nat),
        "-i"@,
        s.key_path,
        "-o"@,
        "IdentitiesOnly=yes"@,
        "-o"@,
        "StrictHostKeyChecking=no"@,
        "-o"@,
        "UserKnownHostsFile="@ + null_device_of(platform),
        "-o"@,
        "LogLevel=ERROR"@,
        s.user + "@127.0.0.1"@,
    ]
}

/// The loopback reverse-forward spec of `port` onto the same port.
pub open spec fn reverse_forward(port: nat) -> Seq<char> {
    "127.0.0.1:"@ + decimal(port) + ":127.0.0.1:"@ + decimal(port)
}

/// The interactive session's arguments: a terminal, and the code bridge
/// port forwarded back to the host.
pub open spec fn connect_arguments(s: SettingsView, platform: Platform) -> Seq<Seq<char>> {
    seq!["-t"@, "-R"@, reverse_forward(CODE_PORT as nat)] + base_arguments(s, platform)
}

/// The adb tunnel's arguments: no terminal or remote command, only the
/// reverse-forward of `port`.
pub open spec fn adb_tunnel_arguments(s: SettingsView, platform: Platform, port: u16) -> Seq<
    Seq<char>,
> {
    seq!["-N"@, "-R"@, reverse_forward(port as nat)] + base_arguments(s, platform)
}

fn reverse_forward_arg(port: u16) -> (r: String)
    ensures
        r@ == reverse_forward(port as nat),
{
    let p = crate::text::decimal_string(port as u128);
    let r = crate::text::cat3("127.0.0.1:", p.as_str(), ":127.0.0.1:");
    r.concat(p.as_str())
}

fn append_base_args(args: &mut Vec<String>, settings: &Settings, platform: Platform)
    ensures
        final(args).deep_view() == old(args).deep_view() + base_arguments(settings@, platform),
{
    let ghost before = args.deep_view();
    push_arg(args, String::from_str("-p"));
    push_arg(args, crate::text::decimal_string(settings.port as u128));
    push_arg(args, String::from_str("-i"));
    push_arg(args, settings.key_path.clone());
    push_arg(args, String::from_str("-o"));
    push_arg(args, String::from_str("IdentitiesOnly=yes"));
    push_arg(args, String::from_str("-o"));
    push_arg(args, String::from_str("StrictHostKeyChecking=no"));
    push_arg(args, String::from_str("-o"));
    push_arg(args, crate::text::cat("UserKnownHostsFile=", null_device(platform)));
    push_arg(args, String::from_str("-o"));
    push_arg(args, String::from_str("LogLevel=ERROR"));
    push_arg(args, crate::text::cat(settings.user.as_str(), "@127.0.0.1"));
    assert(args.deep_view() =~= before + base_arguments(settings@, platform));
}

/// The arguments of the interactive session.
pub fn connect_args(settings: &Settings, platform: Platform) -> (r: Vec<String>)
    ensures
        r.deep_view() == connect_arguments(settings@, platform),
{
    let mut args = strings(&["-t", "-R"]);
    push_arg(&mut args, reverse_forward_arg(CODE_PORT));
    assert(args.deep_view() =~= seq!["-t"@, "-R"@, reverse_forward(CODE_PORT as nat)]);
    append_base_args(&mut args, settings, platform);
    args
}

/// The arguments of the background adb tunnel for `port`.
pub fn adb_tunnel_args(settings: &Settings, platform: Platform, port: u16) -> (r: Vec<String>)
    ensures
        r.deep_view() == adb_tunnel_arguments(settings@, platform, port),
{
    let mut args = strings(&["-N", "-R"]);
    push_arg(&mut args, reverse_forward_arg(port));
    assert(args.deep_view() =~= seq!["-N"@, "-R"@, reverse_forward(port as nat)]);
    append_base_args(&mut args, settings, platform);
    args
}

/// The interactive `ssh` session into the container.
pub fn connect_command(settings: &Settings, platform: Platform) -> (r: Invocation)
    ensures
        r@ == call("ssh"@, connect_arguments(settings@, platform)),
{
    Invocation::new("ssh", connect_args(settings, platform))
}

/// The background adb tunnel's `ssh`.
pub fn adb_tunnel_command(settings: &Settings, platform: Platform, port: u16) -> (r: Invocation)
    ensures
        r@ == call("ssh"@, adb_tunnel_arguments(settings@, platform, port)),
{
    Invocation::new("ssh", adb_tunnel_args(settings, platform, port))
}

/// What an interactive session's end means: a non-zero exit of the remote
/// login shell is no error of the launcher; only failing to run `ssh` is.
pub open spec fn session_result(o: RunView) -> RunView {
    match o {
        Err(BsdevErrorView::CommandFailed { .. }) => Ok(()),
        _ => o,
    }
}

/// The result of the interactive session, from how `ssh` ended.
pub fn connect(outcome: Result<(), BsdevError>) -> (r: Result<(), BsdevError>)
    ensures
        run_view(r) == session_result(run_view(outcome)),
{
    match outcome {
        Ok(()) => Ok(()),
        Err(BsdevError::CommandFailed { .. }) => Ok(()),
        Err(e) => Err(e),
    }
}

/// The `ssh-keygen` that creates a passphrase-less ed25519 key at the key
/// path.
pub fn keygen_command(settings: &Settings) -> (r: Invocation)
    ensures
        r@ == call(
            "ssh-keygen"@,
            seq!["-t"@, "ed25519"@, "-N"@, ""@, "-C"@, "bsdev"@, "-f"@, settings@.key_path],
        ),
{
    let mut args = strings(&["-t", "ed25519", "-N", "", "-C", "bsdev", "-f"]);
    push_arg(&mut args, settings.key_path.clone());
    assert(args.deep_view() =~= seq![
        "-t"@,
        "ed25519"@,
        "-N"@,
        ""@,
        "-C"@,
        "bsdev"@,
        "-f"@,
        settings@.key_path,
    ]);
    Invocation::new("ssh-keygen", args)
}

/// The public key authorized inside the container, from the text of the
/// public key file: the text trimmed.
pub fn read_pubkey(contents: &str) -> (r: String)
    ensures
        r@ == trim(contents@),
{
    crate::text::trim_str(contents)
}

} // verus!
