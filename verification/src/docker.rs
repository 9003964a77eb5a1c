//! The `docker` commands the launcher runs and how their results read.

use vstd::prelude::*;
use crate::config::opt_view;
use crate::error::{BsdevError, BsdevErrorView};
use crate::process::{push_arg, call, capture_view, run_view, CaptureView, Invocation, InvocationView, RunView, strings};
use crate::settings::{home_mount, repos_mount, Settings, SettingsView};
use crate::text::decimal;

verus! {

/// Whether the named container exists and, if so, whether it is running.
#[derive(Debug, Clone, Copy, PartialEq, Eq, Structural)]
pub enum ContainerState {
    Missing,
    Stopped,
    Running,
}

/// `docker` with `args`.
pub open spec fn docker(args: Seq<Seq<char>>) -> InvocationView {
    call("docker"@, args)
}

/// The query that tells whether the Docker daemon answers.
pub open spec fn availability_query() -> InvocationView {
    docker(seq!["version"@, "--format"@, "{{.Server.Version}}"@])
}

/// What the availability query's outcome means: available when it printed a
/// version; a daemon that does not answer or a missing `docker` program make
/// Docker unavailable; other errors stand.
pub open spec fn availability(o: CaptureView) -> Result<(), BsdevErrorView> {
    match o {
        Ok(Some(_)) => Ok(()),
        Ok(None) => Err(
            BsdevErrorView::DockerUnavailable(
                "the Docker daemon is not responding (is Docker running?)"@,
            ),
        ),
        Err(BsdevErrorView::CommandNotFound(_)) => Err(
            BsdevErrorView::DockerUnavailable("the `docker` command was not found on PATH"@),
        ),
        Err(e) => Err(e),
    }
}

/// Whether an inspect query found the object: it did when it succeeded.
pub open spec fn presence(o: CaptureView) -> Result<bool, BsdevErrorView> {
    match o {
        Ok(found) => Ok(found is Some),
        Err(e) => Err(e),
    }
}

/// The state an inspect of `{{.State.Running}}` reports.
pub open spec fn container_state(o: CaptureView) -> Result<ContainerState, BsdevErrorView> {
    match o {
        Ok(None) => Ok(ContainerState::Missing),
        Ok(Some(s)) => if s == "true"@ {
            Ok(ContainerState::Running)
        } else {
            Ok(ContainerState::Stopped)
        },
        Err(e) => Err(e),
    }
}

/// A pull fails, whatever the reason, as "could not pull" the image.
pub open spec fn pull_result(image: Seq<char>, o: RunView) -> RunView {
    match o {
        Ok(()) => Ok(()),
        Err(_) => Err(BsdevErrorView::ImagePull(image)),
    }
}

/// The `docker run` arguments that create the container.
pub open spec fn run_arguments(s: SettingsView, key: Seq<char>) -> Seq<Seq<char>> {
    seq![
        "run"@,
        "-d"@,
        "--name"@,
        s.container,
        "--hostname"@,
        s.container,
        "--restart"@,
        "unless-stopped"@,
        "-p"@,
        "127.0.0.1:"@ + decimal(s.port as nat) + ":22"@,
        "-v"@,
        home_mount(s),
    ] + match repos_mount(s) {
        Some(m) => seq!["-v"@, m],
        None => Seq::empty(),
    } + seq![
        "-e"@,
        "BSDEV_AUTHORIZED_KEY="@ + key,
        "-e"@,
        "BSDEV_HOST_HOSTNAME="@ + s.host_hostname,
        s.image,
    ]
}

/// The shell script that adds `$BSDEV_PUB` to the user's authorized keys
/// unless it is already there.
pub const AUTHORIZE_SCRIPT: &'static str = "install -d -m 700 ~/.ssh && touch ~/.ssh/authorized_keys && chmod 600 ~/.ssh/authorized_keys && { grep -qxF \"$BSDEV_PUB\" ~/.ssh/authorized_keys || printf '%s\\n' \"$BSDEV_PUB\" >> ~/.ssh/authorized_keys; }";

/// The `docker exec` that authorizes `pubkey` inside the container.
pub open spec fn authorize_arguments(s: SettingsView, pubkey: Seq<char>) -> Seq<Seq<char>> {
    seq![
        "exec"@,
        "-u"@,
        s.user,
        "-e"@,
        "BSDEV_PUB="@ + pubkey,
        s.container,
        "bash"@,
        "-c"@,
        AUTHORIZE_SCRIPT@,
    ]
}

fn docker_call(args: Vec<String>) -> (r: Invocation)
    ensures
        r@ == docker(args.deep_view()),
{
    Invocation::new("docker", args)
}

/// The query that tells whether the Docker daemon is reachable.
pub fn ensure_available_command() -> (r: Invocation)
    ensures
        r@ == availability_query(),
{
    let args = strings(&["version", "--format", "{{.Server.Version}}"]);
    assert(args.deep_view() =~= seq!["version"@, "--format"@, "{{.Server.Version}}"@]);
    docker_call(args)
}

/// Fail unless the availability query showed the Docker daemon reachable.
pub fn ensure_available(outcome: Result<Option<String>, BsdevError>) -> (r: Result<(), BsdevError>)
    ensures
        run_view(r) == availability(capture_view(outcome)),
{
    match outcome {
        Ok(Some(_)) => Ok(()),
        Ok(None) => Err(
            BsdevError::DockerUnavailable(
                String::from_str("the Docker daemon is not responding (is Docker running?)"),
            ),
        ),
        Err(BsdevError::CommandNotFound(_)) => Err(
            BsdevError::DockerUnavailable(
                String::from_str("the `docker` command was not found on PATH"),
            ),
        ),
        Err(e) => Err(e),
    }
}

/// The inspect of an image.
pub fn image_present_command(image: &str) -> (r: Invocation)
    ensures
        r@ == docker(seq!["image"@, "inspect"@, image@]),
{
    let mut args = strings(&["image", "inspect"]);
    push_arg(&mut args, String::from_str(image));
    assert(args.deep_view() =~= seq!["image"@, "inspect"@, image@]);
    docker_call(args)
}

/// Whether an inspect found what it looked for.
pub fn image_present(outcome: Result<Option<String>, BsdevError>) -> (r: Result<bool, BsdevError>)
    ensures
        match r {
            Ok(b) => presence(capture_view(outcome)) == Ok::<bool, BsdevErrorView>(b),
            Err(e) => presence(capture_view(outcome)) == Err::<bool, BsdevErrorView>(e@),
        },
{
    match outcome {
        Ok(found) => Ok(found.is_some()),
        Err(e) => Err(e),
    }
}

/// The pull of an image, with progress on the terminal.
pub fn pull_image_command(image: &str) -> (r: Invocation)
    ensures
        r@ == docker(seq!["pull"@, image@]),
{
    let mut args = strings(&["pull"]);
    push_arg(&mut args, String::from_str(image));
    assert(args.deep_view() =~= seq!["pull"@, image@]);
    docker_call(args)
}

/// What a pull's outcome means: any failure is "could not pull `image`".
pub fn pull_image(image: &str, outcome: Result<(), BsdevError>) -> (r: Result<(), BsdevError>)
    ensures
        run_view(r) == pull_result(image@, run_view(outcome)),
{
    match outcome {
        Ok(()) => Ok(()),
        Err(_) => Err(BsdevError::ImagePull(String::from_str(image))),
    }
}

/// The inspect of a container's running flag.
pub fn state_command(container: &str) -> (r: Invocation)
    ensures
        r@ == docker(seq!["inspect"@, "-f"@, "{{.State.Running}}"@, container@]),
{
    let mut args = strings(&["inspect", "-f", "{{.State.Running}}"]);
    push_arg(&mut args, String::from_str(container));
    assert(args.deep_view() =~= seq!["inspect"@, "-f"@, "{{.State.Running}}"@, container@]);
    docker_call(args)
}

/// The container state that the running-flag inspect reported.
pub fn state(outcome: Result<Option<String>, BsdevError>) -> (r: Result<ContainerState, BsdevError>)
    ensures
        match r {
            Ok(st) => container_state(capture_view(outcome)) == Ok::<ContainerState, BsdevErrorView>(st),
            Err(e) => container_state(capture_view(outcome)) == Err::<ContainerState, BsdevErrorView>(e@),
        },
{
    match outcome {
        Ok(None) => Ok(ContainerState::Missing),
        Ok(Some(s)) => {
            if crate::text::same(s.as_str(), "true") {
                Ok(ContainerState::Running)
            } else {
                Ok(ContainerState::Stopped)
            }
        },
        Err(e) => Err(e),
    }
}

/// The inspect of a volume.
pub fn volume_present_command(volume: &str) -> (r: Invocation)
    ensures
        r@ == docker(seq!["volume"@, "inspect"@, volume@]),
{
    let mut args = strings(&["volume", "inspect"]);
    push_arg(&mut args, String::from_str(volume));
    assert(args.deep_view() =~= seq!["volume"@, "inspect"@, volume@]);
    docker_call(args)
}

/// Whether the volume inspect found the volume.
pub fn volume_present(outcome: Result<Option<String>, BsdevError>) -> (r: Result<bool, BsdevError>)
    ensures
        match r {
            Ok(b) => presence(capture_view(outcome)) == Ok::<bool, BsdevErrorView>(b),
            Err(e) => presence(capture_view(outcome)) == Err::<bool, BsdevErrorView>(e@),
        },
{
    image_present(outcome)
}

/// The inspect of a container's `State.StartedAt` timestamp, which changes on
/// every restart of the container.
pub fn started_at(container: &str) -> (r: Invocation)
    ensures
        r@ == docker(seq!["inspect"@, "-f"@, "{{.State.StartedAt}}"@, container@]),
{
    let mut args = strings(&["inspect", "-f", "{{.State.StartedAt}}"]);
    push_arg(&mut args, String::from_str(container));
    assert(args.deep_view() =~= seq!["inspect"@, "-f"@, "{{.State.StartedAt}}"@, container@]);
    docker_call(args)
}

/// The `docker run` argument vector. The public key is handed in through an
/// environment variable, and the image is always the last argument.
pub fn run_args(settings: &Settings, authorized_key: &str) -> (r: Vec<String>)
    ensures
        r.deep_view() == run_arguments(settings@, authorized_key@),
{
    let mut args = strings(&["run", "-d", "--name"]);
    push_arg(&mut args, settings.container.clone());
    push_arg(&mut args, String::from_str("--hostname"));
    push_arg(&mut args, settings.container.clone());
    push_arg(&mut args, String::from_str("--restart"));
    push_arg(&mut args, String::from_str("unless-stopped"));
    push_arg(&mut args, String::from_str("-p"));
    let port = crate::text::decimal_string(settings.port as u128);
    push_arg(&mut args, crate::text::cat3("127.0.0.1:", port.as_str(), ":22"));
    push_arg(&mut args, String::from_str("-v"));
    push_arg(&mut args, settings.home_mount());
    let ghost head = args.deep_view();
    match settings.repos_mount() {
        Some(m) => {
            push_arg(&mut args, String::from_str("-v"));
            push_arg(&mut args, m);
        },
        None => {},
    }
    let ghost middle = args.deep_view();
    push_arg(&mut args, String::from_str("-e"));
    push_arg(&mut args, crate::text::cat("BSDEV_AUTHORIZED_KEY=", authorized_key));
    push_arg(&mut args, String::from_str("-e"));
    push_arg(&mut args, crate::text::cat("BSDEV_HOST_HOSTNAME=", settings.host_hostname.as_str()));
    push_arg(&mut args, settings.image.clone());
    proof {
        let s = settings@;
        let extra = match repos_mount(s) {
            Some(m) => seq!["-v"@, m],
            None => Seq::<Seq<char>>::empty(),
        };
        assert(middle =~= head + extra);
        assert(args.deep_view() =~= run_arguments(s, authorized_key@));
    }
    args
}

/// The `docker run` that creates the container.
pub fn run_container(settings: &Settings, authorized_key: &str) -> (r: Invocation)
    ensures
        r@ == docker(run_arguments(settings@, authorized_key@)),
{
    docker_call(run_args(settings, authorized_key))
}

/// The start of a stopped container.
pub fn start(container: &str) -> (r: Invocation)
    ensures
        r@ == docker(seq!["start"@, container@]),
{
    let mut args = strings(&["start"]);
    push_arg(&mut args, String::from_str(container));
    assert(args.deep_view() =~= seq!["start"@, container@]);
    docker_call(args)
}

/// The stop of a container.
pub fn stop(container: &str) -> (r: Invocation)
    ensures
        r@ == docker(seq!["stop"@, container@]),
{
    let mut args = strings(&["stop"]);
    push_arg(&mut args, String::from_str(container));
    assert(args.deep_view() =~= seq!["stop"@, container@]);
    docker_call(args)
}

/// The forced removal of a container.
pub fn remove(container: &str) -> (r: Invocation)
    ensures
        r@ == docker(seq!["rm"@, "-f"@, container@]),
{
    let mut args = strings(&["rm", "-f"]);
    push_arg(&mut args, String::from_str(container));
    assert(args.deep_view() =~= seq!["rm"@, "-f"@, container@]);
    docker_call(args)
}

/// The removal of a volume.
pub fn remove_volume(volume: &str) -> (r: Invocation)
    ensures
        r@ == docker(seq!["volume"@, "rm"@, volume@]),
{
    let mut args = strings(&["volume", "rm"]);
    push_arg(&mut args, String::from_str(volume));
    assert(args.deep_view() =~= seq!["volume"@, "rm"@, volume@]);
    docker_call(args)
}

/// The `docker exec` that makes sure `pubkey` is in the container user's
/// authorized keys; idempotent, and the key travels in an environment
/// variable to stay clear of shell quoting.
pub fn ensure_authorized_key(settings: &Settings, pubkey: &str) -> (r: Invocation)
    ensures
        r@ == docker(authorize_arguments(settings@, pubkey@)),
{
    let mut args = strings(&["exec", "-u"]);
    push_arg(&mut args, settings.user.clone());
    push_arg(&mut args, String::from_str("-e"));
    push_arg(&mut args, crate::text::cat("BSDEV_PUB=", pubkey));
    push_arg(&mut args, settings.container.clone());
    push_arg(&mut args, String::from_str("bash"));
    push_arg(&mut args, String::from_str("-c"));
    push_arg(&mut args, String::from_str(AUTHORIZE_SCRIPT));
    assert(args.deep_view() =~= authorize_arguments(settings@, pubkey@));
    docker_call(args)
}

} // verus!
