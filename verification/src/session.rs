//! The flow of each subcommand, as a state machine: given what the last
//! requested action gave, it decides the next action. The program around the
//! library performs each action (running docker or ssh, printing, prompting,
//! reading and writing the config) and hands the outcome back.

use vstd::prelude::*;
use crate::cli::Command;
use crate::config::{Config, ConfigView, opt_view};
use crate::docker::{
    authorize_arguments, availability, availability_query, container_state, docker, presence,
    pull_result, run_arguments, ContainerState,
};
use crate::error::{
    bare, error_message, refusal, within, within_system, BsdevError, BsdevErrorView, Failure, FailureView,
};
use crate::process::{call, capture_view, run_view, CaptureView, Invocation, InvocationView, Platform, RunView};
use crate::settings::{
    with_adb_port, with_repos_dir, without_adb_port, without_repos_dir, Settings, SettingsView,
};
use crate::ssh::{connect_arguments, session_result};
use crate::text::{decimal, to_ascii_lowercase, trim};

verus! {

/// The adb port `bsdev adb` suggests when none is persisted.
pub const DEFAULT_ADB_PORT: u16 = 5037;

/// What a run of the launcher does (all subcommands but `update`, which runs
/// before any settings are read).
pub enum Task {
    /// Bring everything up and open a session (no subcommand).
    Connect,
    Up,
    Down,
    Status,
    Rebuild,
    Reset { yes: bool },
    Repos { path: Option<String>, unset: bool },
    Adb { port: Option<u16>, unset: bool },
}

/// `Task` with its strings as character sequences.
pub enum TaskView {
    Connect,
    Up,
    Down,
    Status,
    Rebuild,
    Reset { yes: bool },
    Repos { path: Option<Seq<char>>, unset: bool },
    Adb { port: Option<u16>, unset: bool },
}

impl View for Task {
    type V = TaskView;

    open spec fn view(&self) -> TaskView {
        match self {
            Task::Connect => TaskView::Connect,
            Task::Up => TaskView::Up,
            Task::Down => TaskView::Down,
            Task::Status => TaskView::Status,
            Task::Rebuild => TaskView::Rebuild,
            Task::Reset { yes } => TaskView::Reset { yes: *yes },
            Task::Repos { path, unset } => TaskView::Repos { path: opt_view(*path), unset: *unset },
            Task::Adb { port, unset } => TaskView::Adb { port: *port, unset: *unset },
        }
    }
}

/// The task a command line asks for: none for `update`, which is handled
/// apart; connecting when no subcommand is given.
pub open spec fn task_of(command: Option<Command>) -> Option<TaskView> {
    match command {
        None => Some(TaskView::Connect),
        Some(Command::Update { .. }) => None,
        Some(Command::Up) => Some(TaskView::Up),
        Some(Command::Down) => Some(TaskView::Down),
        Some(Command::Status) => Some(TaskView::Status),
        Some(Command::Rebuild) => Some(TaskView::Rebuild),
        Some(Command::Reset { yes }) => Some(TaskView::Reset { yes }),
        Some(Command::Repos { path, unset }) => Some(TaskView::Repos { path: opt_view(path), unset }),
        Some(Command::Adb { port, unset }) => Some(TaskView::Adb { port, unset }),
    }
}

/// Executable form of `task_of`.
pub fn task_for(command: Option<Command>) -> (r: Option<Task>)
    ensures
        match r {
            Some(t) => task_of(command) == Some(t@),
            None => task_of(command) is None,
        },
{
    match command {
        None => Some(Task::Connect),
        Some(Command::Update { .. }) => None,
        Some(Command::Up) => Some(Task::Up),
        Some(Command::Down) => Some(Task::Down),
        Some(Command::Status) => Some(Task::Status),
        Some(Command::Rebuild) => Some(Task::Rebuild),
        Some(Command::Reset { yes }) => Some(Task::Reset { yes }),
        Some(Command::Repos { path, unset }) => Some(Task::Repos { path, unset }),
        Some(Command::Adb { port, unset }) => Some(Task::Adb { port, unset }),
    }
}

/// What performing an action gave, when it did not fail.
pub enum Reply {
    /// It was done (and gave nothing back).
    Unit,
    /// A captured command's trimmed output, or nothing when it exited
    /// unsuccessfully.
    Output(Option<String>),
    /// A text that was read: the public key file, or a confirmation answer.
    Text(String),
    /// A confirmation could not be asked: standard input is no terminal.
    NoTerminal,
    /// The persisted config.
    Loaded(Config),
}

/// `Reply` with its strings as character sequences.
pub enum ReplyView {
    Unit,
    Output(Option<Seq<char>>),
    Text(Seq<char>),
    NoTerminal,
    Loaded(ConfigView),
}

impl View for Reply {
    type V = ReplyView;

    open spec fn view(&self) -> ReplyView {
        match self {
            Reply::Unit => ReplyView::Unit,
            Reply::Output(o) => ReplyView::Output(opt_view(*o)),
            Reply::Text(t) => ReplyView::Text(t@),
            Reply::NoTerminal => ReplyView::NoTerminal,
            Reply::Loaded(c) => ReplyView::Loaded(c@),
        }
    }
}

/// The outcome of an action.
pub type EventView = Result<ReplyView, BsdevErrorView>;

/// The view of an outcome.
pub open spec fn event_view(e: Result<Reply, BsdevError>) -> EventView {
    match e {
        Ok(r) => Ok(r@),
        Err(x) => Err(x@),
    }
}

/// An outcome read as a capture. A reply of another shape than the action
/// asked for reads as the empty reply of the right shape.
pub open spec fn output_of(e: EventView) -> CaptureView {
    match e {
        Ok(ReplyView::Output(o)) => Ok(o),
        Ok(_) => Ok(None),
        Err(x) => Err(x),
    }
}

/// An outcome read as a plain run.
pub open spec fn done_of(e: EventView) -> RunView {
    match e {
        Ok(_) => Ok(()),
        Err(x) => Err(x),
    }
}

/// An outcome read as a text.
pub open spec fn text_of(e: EventView) -> Result<Seq<char>, BsdevErrorView> {
    match e {
        Ok(ReplyView::Text(t)) => Ok(t),
        Ok(_) => Ok(Seq::empty()),
        Err(x) => Err(x),
    }
}

/// An outcome read as a confirmation answer: none when there is no terminal.
pub open spec fn answer_of(e: EventView) -> Result<Option<Seq<char>>, BsdevErrorView> {
    match e {
        Ok(ReplyView::Text(t)) => Ok(Some(t)),
        Ok(ReplyView::NoTerminal) => Ok(None),
        Ok(_) => Ok(Some(Seq::empty())),
        Err(x) => Err(x),
    }
}

/// An outcome read as the loaded config.
pub open spec fn config_of(e: EventView) -> Result<ConfigView, BsdevErrorView> {
    match e {
        Ok(ReplyView::Loaded(c)) => Ok(c),
        Ok(_) => Ok(ConfigView { repos_dir: None, adb_port: None }),
        Err(x) => Err(x),
    }
}

/// What the launcher asks to be done next.
pub enum Action {
    /// Run a command with the terminal's standard streams.
    Run(Invocation),
    /// Run a command and capture its trimmed output.
    Capture(Invocation),
    /// Unless the ssh key exists, create its directory and run this
    /// `ssh-keygen`.
    EnsureKeypair(Invocation),
    /// Read the public key file.
    ReadPubkey,
    /// Create this host directory (with its parents).
    CreateReposDir(String),
    /// Bring the background adb tunnel in line with the settings.
    StartAdbTunnel,
    /// Stop the background adb tunnel, if one is tracked.
    StopAdbTunnel,
    /// Start the host side of the `code` channel.
    SpawnCodeListener,
    /// Print a line on standard output.
    Say(String),
    /// Print a line on standard error.
    Warn(String),
    /// Ask this yes/no question on a terminal and read the answer.
    Confirm(String),
    /// Load the persisted config.
    LoadConfig,
    /// Save this config.
    SaveConfig(Config),
    /// Stop: successfully, or with this failure.
    Finish(Option<Failure>),
}

/// `Action` with its strings as character sequences.
pub enum ActionView {
    Run(InvocationView),
    Capture(InvocationView),
    EnsureKeypair(InvocationView),
    ReadPubkey,
    CreateReposDir(Seq<char>),
    StartAdbTunnel,
    StopAdbTunnel,
    SpawnCodeListener,
    Say(Seq<char>),
    Warn(Seq<char>),
    Confirm(Seq<char>),
    LoadConfig,
    SaveConfig(ConfigView),
    Finish(Option<FailureView>),
}

impl View for Action {
    type V = ActionView;

    open spec fn view(&self) -> ActionView {
        match self {
            Action::Run(i) => ActionView::Run(i@),
            Action::Capture(i) => ActionView::Capture(i@),
            Action::EnsureKeypair(i) => ActionView::EnsureKeypair(i@),
            Action::ReadPubkey => ActionView::ReadPubkey,
            Action::CreateReposDir(d) => ActionView::CreateReposDir(d@),
            Action::StartAdbTunnel => ActionView::StartAdbTunnel,
            Action::StopAdbTunnel => ActionView::StopAdbTunnel,
            Action::SpawnCodeListener => ActionView::SpawnCodeListener,
            Action::Say(s) => ActionView::Say(s@),
            Action::Warn(s) => ActionView::Warn(s@),
            Action::Confirm(s) => ActionView::Confirm(s@),
            Action::LoadConfig => ActionView::LoadConfig,
            Action::SaveConfig(c) => ActionView::SaveConfig(c@),
            Action::Finish(f) => ActionView::Finish(
                match f {
                    Some(x) => Some(x@),
                    None => None,
                },
            ),
        }
    }
}

/// Where a flow stands: the action it last asked for.
#[derive(Debug, Clone, Copy, PartialEq, Eq, Structural)]
pub enum Step {
    UpDocker,
    UpKeypair,
    UpPubkey,
    UpImage,
    UpPullNotice,
    UpPull,
    UpState,
    UpStartNotice,
    UpStart,
    UpReposDir,
    UpCreateNotice,
    UpCreate,
    UpAuthorize,
    UpTunnel,
    UpDone,
    ConnectBridge,
    ConnectSession,
    DownDocker,
    DownTunnel,
    DownState,
    DownStop,
    DownDone,
    RebuildDocker,
    RebuildTunnel,
    RebuildPullNotice,
    RebuildPull,
    RebuildState,
    RebuildRemoveNotice,
    RebuildRemove,
    RebuildKeypair,
    RebuildPubkey,
    RebuildReposDir,
    RebuildCreateNotice,
    RebuildCreate,
    RebuildDone,
    StatusDocker,
    StatusUnavailable,
    StatusAvailable,
    StatusImage,
    StatusImageLine,
    StatusState,
    StatusStateLine,
    StatusVolume,
    StatusVolumeLine,
    StatusReposLine,
    StatusKeyLine,
    StatusAdbLine,
    ResetDocker,
    ResetState,
    ResetVolume,
    ResetNothing,
    ResetWarnHead,
    ResetWarnContainer,
    ResetWarnVolume,
    ResetWarnRepos,
    ResetConfirm,
    ResetAborted,
    ResetTunnel,
    ResetRemoveNotice,
    ResetRemove,
    ResetVolumeNotice,
    ResetRemoveVolume,
    ResetDone,
    ConfigLoad,
    ConfigSave,
    ConfigDone,
    Finished,
}

/// A subcommand's flow in progress.
pub struct Flow {
    pub task: Task,
    pub settings: Settings,
    pub platform: Platform,
    pub step: Step,
    /// The public key read from the key file.
    pub pubkey: String,
    /// Whether the container existed when a reset inspected it.
    pub container_exists: bool,
    /// Whether the home volume existed when a reset inspected it.
    pub home_exists: bool,
    /// Whether deleting was consented to (`--yes`, or a yes answer).
    pub consented: bool,
}

/// `Flow` with its strings as character sequences.
pub struct FlowView {
    pub task: TaskView,
    pub settings: SettingsView,
    pub platform: Platform,
    pub step: Step,
    pub pubkey: Seq<char>,
    pub container_exists: bool,
    pub home_exists: bool,
    pub consented: bool,
}

impl View for Flow {
    type V = FlowView;

    open spec fn view(&self) -> FlowView {
        FlowView {
            task: self.task@,
            settings: self.settings@,
            platform: self.platform,
            step: self.step,
            pubkey: self.pubkey@,
            container_exists: self.container_exists,
            home_exists: self.home_exists,
            consented: self.consented,
        }
    }
}

} // verus!

verus! {

/// What every flow that needs Docker says when it is not there.
pub const DOCKER_REQUIRED: &'static str = "Docker is required to run bsdev";
/// What the flows say when an action of theirs fails, and what they print.
pub const KEY_CREATE_FAILED: &'static str = "Failed to create the bsdev ssh key";
pub const KEY_READ_FAILED: &'static str = "Failed to read the bsdev public key";
pub const IMAGE_INSPECT_FAILED: &'static str = "Failed to inspect the bsdev image";
pub const CONTAINER_INSPECT_FAILED: &'static str = "Failed to inspect the bsdev container";
pub const VOLUME_INSPECT_FAILED: &'static str = "Failed to inspect the bsdev home volume";
pub const START_FAILED: &'static str = "Failed to start the container";
pub const STOP_FAILED: &'static str = "Failed to stop the container";
pub const REPOS_DIR_FAILED: &'static str = "Failed to create the bsdev repos directory";
pub const CREATE_FAILED: &'static str = "Failed to create the container";
pub const REMOVE_FAILED: &'static str = "Failed to remove the container";
pub const VOLUME_REMOVE_FAILED: &'static str = "Failed to remove the home volume";
pub const AUTHORIZE_FAILED: &'static str = "Failed to authorize the bsdev key in the container";
pub const TUNNEL_FAILED: &'static str = "Failed to start the adb tunnel";
pub const CONNECT_FAILED: &'static str = "Failed to connect to the bsdev container";
pub const CONFIRM_READ_FAILED: &'static str = "Failed to read confirmation";
pub const RESET_REFUSED: &'static str = "Refusing to reset without confirmation; re-run with --yes to reset non-interactively.";
pub const STARTING: &'static str = "Starting the bsdev container ...";
pub const CREATING: &'static str = "Creating the bsdev container ...";
pub const UP_READY: &'static str = "bsdev is up. Run `bsdev` to connect.";
pub const NO_CONTAINER: &'static str = "No bsdev container to stop.";
pub const STOPPED: &'static str = "bsdev stopped.";
pub const REBUILT: &'static str = "bsdev rebuilt. Run `bsdev` to connect.";
pub const DOCKER_MISSING_LINE: &'static str = "docker:    NOT available";
pub const DOCKER_PRESENT_LINE: &'static str = "docker:    available";
pub const NOTHING_TO_RESET: &'static str = "Nothing to reset - no bsdev container or home volume exist.";
pub const DELETES: &'static str = "This permanently deletes:";
pub const CONFIRM_PROMPT: &'static str = "Continue? [y/N] ";
pub const ABORTED: &'static str = "Aborted.";
pub const RESET_DONE: &'static str = "Reset complete. Run `bsdev` to start fresh.";
pub const REPOS_CLEAR_FAILED: &'static str = "Failed to clear the persisted repos directory";
pub const REPOS_PERSIST_FAILED: &'static str = "Failed to persist the repos directory";
pub const REPOS_READ_FAILED: &'static str = "Failed to read the persisted repos directory";
pub const ADB_CLEAR_FAILED: &'static str = "Failed to clear the persisted adb port";
pub const ADB_PERSIST_FAILED: &'static str = "Failed to persist the adb port";
pub const ADB_READ_FAILED: &'static str = "Failed to read the persisted adb port";
pub const REPOS_CLEARED: &'static str = "Cleared the persisted repos directory.";
pub const REPOS_NONE: &'static str = "No repos directory persisted. Run `bsdev repos <path>` to set one, or set BSDEV_REPOS to override for a single run.";
pub const ADB_CLEARED: &'static str = "Cleared the persisted adb port. Run `bsdev up` (or `bsdev`) to stop the tunnel.";

/// `f` moved on to `step`.
pub open spec fn at(f: FlowView, step: Step) -> FlowView {
    FlowView { step, ..f }
}

/// The end of a successful flow.
pub open spec fn finish(f: FlowView) -> (FlowView, ActionView) {
    (at(f, Step::Finished), ActionView::Finish(None))
}

/// The end of a failed flow.
pub open spec fn fail(f: FlowView, x: FailureView) -> (FlowView, ActionView) {
    (at(f, Step::Finished), ActionView::Finish(Some(x)))
}

/// Print `text` and move on to `step`.
pub open spec fn say(f: FlowView, step: Step, text: Seq<char>) -> (FlowView, ActionView) {
    (at(f, step), ActionView::Say(text))
}

/// Print `text` on standard error and move on to `step`.
pub open spec fn warn(f: FlowView, step: Step, text: Seq<char>) -> (FlowView, ActionView) {
    (at(f, step), ActionView::Warn(text))
}

/// The inspect of the image.
pub open spec fn image_query(image: Seq<char>) -> InvocationView {
    docker(seq!["image"@, "inspect"@, image])
}

/// The inspect of the container's running flag.
pub open spec fn state_query(container: Seq<char>) -> InvocationView {
    docker(seq!["inspect"@, "-f"@, "{{.State.Running}}"@, container])
}

/// The inspect of the home volume.
pub open spec fn volume_query(volume: Seq<char>) -> InvocationView {
    docker(seq!["volume"@, "inspect"@, volume])
}

/// The `ssh-keygen` that creates the key.
pub open spec fn keygen(s: SettingsView) -> InvocationView {
    call("ssh-keygen"@, seq!["-t"@, "ed25519"@, "-N"@, ""@, "-C"@, "bsdev"@, "-f"@, s.key_path])
}

/// The announcement of a pull.
pub open spec fn pulling(image: Seq<char>) -> Seq<char> {
    "Pulling "@ + image + " ..."@
}

/// The first action of every flow, with the flow it starts.
pub open spec fn start(task: TaskView, s: SettingsView, platform: Platform) -> (FlowView, ActionView) {
    let f = FlowView {
        task,
        settings: s,
        platform,
        step: Step::Finished,
        pubkey: Seq::empty(),
        container_exists: false,
        home_exists: false,
        consented: task matches TaskView::Reset { yes } && yes,
    };
    match task {
        TaskView::Connect | TaskView::Up => (at(f, Step::UpDocker), ActionView::Capture(availability_query())),
        TaskView::Down => (at(f, Step::DownDocker), ActionView::Capture(availability_query())),
        TaskView::Rebuild => (at(f, Step::RebuildDocker), ActionView::Capture(availability_query())),
        TaskView::Status => (at(f, Step::StatusDocker), ActionView::Capture(availability_query())),
        TaskView::Reset { .. } => (at(f, Step::ResetDocker), ActionView::Capture(availability_query())),
        TaskView::Repos { .. } | TaskView::Adb { .. } => (at(f, Step::ConfigLoad), ActionView::LoadConfig),
    }
}

/// Authorize the key inside the container.
pub open spec fn authorize(f: FlowView) -> (FlowView, ActionView) {
    (at(f, Step::UpAuthorize), ActionView::Run(docker(authorize_arguments(f.settings, f.pubkey))))
}

/// Before creating the container: create the repos directory, if one is set,
/// else announce the creation.
pub open spec fn prepare_create(f: FlowView, dir_step: Step, notice_step: Step) -> (FlowView, ActionView) {
    match f.settings.repos_dir {
        Some(d) => (at(f, dir_step), ActionView::CreateReposDir(d)),
        None => say(f, notice_step, CREATING@),
    }
}

/// Bringing the image, the key and the container up, then connecting (or
/// reporting, for `up`).
pub open spec fn up_next(f: FlowView, e: EventView) -> (FlowView, ActionView) {
    let s = f.settings;
    match f.step {
        Step::UpDocker => match availability(output_of(e)) {
            Ok(_) => (at(f, Step::UpKeypair), ActionView::EnsureKeypair(keygen(s))),
            Err(x) => fail(f, within(DOCKER_REQUIRED@, x)),
        },
        Step::UpKeypair => match done_of(e) {
            Ok(_) => (at(f, Step::UpPubkey), ActionView::ReadPubkey),
            Err(x) => fail(f, within(KEY_CREATE_FAILED@, x)),
        },
        Step::UpPubkey => match text_of(e) {
            Ok(t) => (
                FlowView { pubkey: trim(t), step: Step::UpImage, ..f },
                ActionView::Capture(image_query(s.image)),
            ),
            Err(x) => fail(f, within(KEY_READ_FAILED@, x)),
        },
        Step::UpImage => match presence(output_of(e)) {
            Ok(true) => (at(f, Step::UpState), ActionView::Capture(state_query(s.container))),
            Ok(false) => say(f, Step::UpPullNotice, pulling(s.image)),
            Err(x) => fail(f, within(IMAGE_INSPECT_FAILED@, x)),
        },
        Step::UpPullNotice => (at(f, Step::UpPull), ActionView::Run(docker(seq!["pull"@, s.image]))),
        Step::UpPull => match pull_result(s.image, done_of(e)) {
            Ok(_) => (at(f, Step::UpState), ActionView::Capture(state_query(s.container))),
            Err(x) => fail(f, bare(x)),
        },
        Step::UpState => match container_state(output_of(e)) {
            Ok(ContainerState::Running) => authorize(f),
            Ok(ContainerState::Stopped) => say(f, Step::UpStartNotice, STARTING@),
            Ok(ContainerState::Missing) => prepare_create(f, Step::UpReposDir, Step::UpCreateNotice),
            Err(x) => fail(f, within(CONTAINER_INSPECT_FAILED@, x)),
        },
        Step::UpStartNotice => (at(f, Step::UpStart), ActionView::Run(docker(seq!["start"@, s.container]))),
        Step::UpStart => match done_of(e) {
            Ok(_) => authorize(f),
            Err(x) => fail(f, within(START_FAILED@, x)),
        },
        Step::UpReposDir => match done_of(e) {
            Ok(_) => say(f, Step::UpCreateNotice, CREATING@),
            Err(x) => fail(f, within_system(REPOS_DIR_FAILED@, x)),
        },
        Step::UpCreateNotice => (at(f, Step::UpCreate), ActionView::Run(docker(run_arguments(s, f.pubkey)))),
        Step::UpCreate => match done_of(e) {
            Ok(_) => authorize(f),
            Err(x) => fail(f, within(CREATE_FAILED@, x)),
        },
        Step::UpAuthorize => match done_of(e) {
            Ok(_) => (at(f, Step::UpTunnel), ActionView::StartAdbTunnel),
            Err(x) => fail(f, within(AUTHORIZE_FAILED@, x)),
        },
        Step::UpTunnel => match done_of(e) {
            Ok(_) => match f.task {
                TaskView::Up => say(f, Step::UpDone, UP_READY@),
                _ => (at(f, Step::ConnectBridge), ActionView::SpawnCodeListener),
            },
            Err(x) => fail(f, within(TUNNEL_FAILED@, x)),
        },
        Step::ConnectBridge => (
            at(f, Step::ConnectSession),
            ActionView::Run(call("ssh"@, connect_arguments(s, f.platform))),
        ),
        Step::ConnectSession => match session_result(done_of(e)) {
            Ok(_) => finish(f),
            Err(x) => fail(f, within(CONNECT_FAILED@, x)),
        },
        _ => finish(f),
    }
}

/// Stopping the container, keeping its home volume.
pub open spec fn down_next(f: FlowView, e: EventView) -> (FlowView, ActionView) {
    let s = f.settings;
    match f.step {
        Step::DownDocker => match availability(output_of(e)) {
            Ok(_) => (at(f, Step::DownTunnel), ActionView::StopAdbTunnel),
            Err(x) => fail(f, within(DOCKER_REQUIRED@, x)),
        },
        Step::DownTunnel => (at(f, Step::DownState), ActionView::Capture(state_query(s.container))),
        Step::DownState => match container_state(output_of(e)) {
            Ok(ContainerState::Missing) => say(f, Step::DownDone, NO_CONTAINER@),
            Ok(_) => (at(f, Step::DownStop), ActionView::Run(docker(seq!["stop"@, s.container]))),
            Err(x) => fail(f, bare(x)),
        },
        Step::DownStop => match done_of(e) {
            Ok(_) => say(f, Step::DownDone, STOPPED@),
            Err(x) => fail(f, within(STOP_FAILED@, x)),
        },
        _ => finish(f),
    }
}

/// The announcement of the old container's removal in a rebuild.
pub open spec fn removing_old(volume: Seq<char>) -> Seq<char> {
    "Removing the old container (the '"@ + volume + "' home volume is kept) ..."@
}

/// Pulling the latest image and recreating the container, keeping its home
/// volume.
pub open spec fn rebuild_next(f: FlowView, e: EventView) -> (FlowView, ActionView) {
    let s = f.settings;
    match f.step {
        Step::RebuildDocker => match availability(output_of(e)) {
            Ok(_) => (at(f, Step::RebuildTunnel), ActionView::StopAdbTunnel),
            Err(x) => fail(f, within(DOCKER_REQUIRED@, x)),
        },
        Step::RebuildTunnel => say(f, Step::RebuildPullNotice, pulling(s.image)),
        Step::RebuildPullNotice => (at(f, Step::RebuildPull), ActionView::Run(docker(seq!["pull"@, s.image]))),
        Step::RebuildPull => match pull_result(s.image, done_of(e)) {
            Ok(_) => (at(f, Step::RebuildState), ActionView::Capture(state_query(s.container))),
            Err(x) => fail(f, bare(x)),
        },
        Step::RebuildState => match container_state(output_of(e)) {
            Ok(ContainerState::Missing) => (at(f, Step::RebuildKeypair), ActionView::EnsureKeypair(keygen(s))),
            Ok(_) => say(f, Step::RebuildRemoveNotice, removing_old(s.volume)),
            Err(x) => fail(f, bare(x)),
        },
        Step::RebuildRemoveNotice => (
            at(f, Step::RebuildRemove),
            ActionView::Run(docker(seq!["rm"@, "-f"@, s.container])),
        ),
        Step::RebuildRemove => match done_of(e) {
            Ok(_) => (at(f, Step::RebuildKeypair), ActionView::EnsureKeypair(keygen(s))),
            Err(x) => fail(f, within(REMOVE_FAILED@, x)),
        },
        Step::RebuildKeypair => match done_of(e) {
            Ok(_) => (at(f, Step::RebuildPubkey), ActionView::ReadPubkey),
            Err(x) => fail(f, within(KEY_CREATE_FAILED@, x)),
        },
        Step::RebuildPubkey => match text_of(e) {
            Ok(t) => prepare_create(
                FlowView { pubkey: trim(t), ..f },
                Step::RebuildReposDir,
                Step::RebuildCreateNotice,
            ),
            Err(x) => fail(f, within(KEY_READ_FAILED@, x)),
        },
        Step::RebuildReposDir => match done_of(e) {
            Ok(_) => say(f, Step::RebuildCreateNotice, CREATING@),
            Err(x) => fail(f, within_system(REPOS_DIR_FAILED@, x)),
        },
        Step::RebuildCreateNotice => (
            at(f, Step::RebuildCreate),
            ActionView::Run(docker(run_arguments(s, f.pubkey))),
        ),
        Step::RebuildCreate => match done_of(e) {
            Ok(_) => say(f, Step::RebuildDone, REBUILT@),
            Err(x) => fail(f, within(CREATE_FAILED@, x)),
        },
        _ => finish(f),
    }
}

/// `present` or `missing`.
pub open spec fn presence_word(present: bool) -> Seq<char> {
    if present {
        "present"@
    } else {
        "missing"@
    }
}

/// The word for a container state.
pub open spec fn state_word(st: ContainerState) -> Seq<char> {
    match st {
        ContainerState::Running => "running"@,
        ContainerState::Stopped => "stopped"@,
        ContainerState::Missing => "missing"@,
    }
}

/// A status line: a label, a name and a word in brackets.
pub open spec fn status_line(label: Seq<char>, name: Seq<char>, word: Seq<char>) -> Seq<char> {
    label + name + " ("@ + word + ")"@
}

/// The status line of the adb tunnel.
pub open spec fn adb_line(port: Option<u16>) -> Seq<char> {
    match port {
        Some(p) => "adb:       forwarding host port "@ + decimal(p as nat),
        None => "adb:       disabled"@,
    }
}

/// The last status lines: the key, then the adb tunnel.
pub open spec fn key_line(s: SettingsView) -> Seq<char> {
    "key:       "@ + s.key_path
}

/// Reporting image, container and home volume state.
pub open spec fn status_next(f: FlowView, e: EventView) -> (FlowView, ActionView) {
    let s = f.settings;
    match f.step {
        Step::StatusDocker => match availability(output_of(e)) {
            Ok(_) => say(f, Step::StatusAvailable, DOCKER_PRESENT_LINE@),
            Err(_) => say(f, Step::StatusUnavailable, DOCKER_MISSING_LINE@),
        },
        Step::StatusAvailable => (at(f, Step::StatusImage), ActionView::Capture(image_query(s.image))),
        Step::StatusImage => match presence(output_of(e)) {
            Ok(b) => say(f, Step::StatusImageLine, status_line("image:     "@, s.image, presence_word(b))),
            Err(x) => fail(f, bare(x)),
        },
        Step::StatusImageLine => (at(f, Step::StatusState), ActionView::Capture(state_query(s.container))),
        Step::StatusState => match container_state(output_of(e)) {
            Ok(st) => say(f, Step::StatusStateLine, status_line("container: "@, s.container, state_word(st))),
            Err(x) => fail(f, bare(x)),
        },
        Step::StatusStateLine => (at(f, Step::StatusVolume), ActionView::Capture(volume_query(s.volume))),
        Step::StatusVolume => match presence(output_of(e)) {
            Ok(b) => say(f, Step::StatusVolumeLine, status_line("home:      "@, s.volume, presence_word(b))),
            Err(x) => fail(f, bare(x)),
        },
        Step::StatusVolumeLine => match s.repos_dir {
            Some(d) => say(f, Step::StatusReposLine, "repos:     "@ + d),
            None => say(f, Step::StatusKeyLine, key_line(s)),
        },
        Step::StatusReposLine => say(f, Step::StatusKeyLine, key_line(s)),
        Step::StatusKeyLine => say(f, Step::StatusAdbLine, adb_line(s.adb_port)),
        _ => finish(f),
    }
}

/// Ask for confirmation.
pub open spec fn ask(f: FlowView) -> (FlowView, ActionView) {
    (at(f, Step::ResetConfirm), ActionView::Confirm(CONFIRM_PROMPT@))
}

/// After the container's warning line: warn of the repos directory (kept),
/// if one is set, else ask.
pub open spec fn warn_repos(f: FlowView) -> (FlowView, ActionView) {
    match f.settings.repos_dir {
        Some(d) => warn(f, Step::ResetWarnRepos, "  (the repos directory at "@ + d + " is left untouched)"@),
        None => ask(f),
    }
}

/// After the container's warning line: warn of the home volume, if it exists.
pub open spec fn warn_volume(f: FlowView) -> (FlowView, ActionView) {
    if f.home_exists {
        warn(
            f,
            Step::ResetWarnVolume,
            "  - the '"@ + f.settings.volume + "' home volume (ALL repos, provisioning and data)"@,
        )
    } else {
        warn_repos(f)
    }
}

/// After the container (if any) is gone: remove the home volume, if it
/// exists, else report.
pub open spec fn remove_volume_step(f: FlowView) -> (FlowView, ActionView) {
    if f.home_exists {
        say(f, Step::ResetVolumeNotice, "Removing the '"@ + f.settings.volume + "' home volume ..."@)
    } else {
        say(f, Step::ResetDone, RESET_DONE@)
    }
}

/// After the tunnel is stopped: remove the container, if it exists.
pub open spec fn remove_container_step(f: FlowView) -> (FlowView, ActionView) {
    if f.container_exists {
        say(f, Step::ResetRemoveNotice, "Removing the '"@ + f.settings.container + "' container ..."@)
    } else {
        remove_volume_step(f)
    }
}

/// Whether a confirmation answer is a yes: `y` or `yes`, in any case, with
/// white space around it.
pub open spec fn accepted(answer: Seq<char>) -> bool {
    let a = to_ascii_lowercase(trim(answer));
    a == "y"@ || a == "yes"@
}

/// Deleting the container and its home volume, after confirmation unless
/// `--yes` was given.
pub open spec fn reset_next(f: FlowView, e: EventView) -> (FlowView, ActionView) {
    let s = f.settings;
    let yes = f.task matches TaskView::Reset { yes } && yes;
    match f.step {
        Step::ResetDocker => match availability(output_of(e)) {
            Ok(_) => (at(f, Step::ResetState), ActionView::Capture(state_query(s.container))),
            Err(x) => fail(f, within(DOCKER_REQUIRED@, x)),
        },
        Step::ResetState => match container_state(output_of(e)) {
            Ok(st) => (
                FlowView { container_exists: st != ContainerState::Missing, step: Step::ResetVolume, ..f },
                ActionView::Capture(volume_query(s.volume)),
            ),
            Err(x) => fail(f, within(CONTAINER_INSPECT_FAILED@, x)),
        },
        Step::ResetVolume => match presence(output_of(e)) {
            Ok(h) => {
                let g = FlowView { home_exists: h, ..f };
                if !g.container_exists && !h {
                    say(g, Step::ResetNothing, NOTHING_TO_RESET@)
                } else if yes {
                    (at(g, Step::ResetTunnel), ActionView::StopAdbTunnel)
                } else {
                    warn(g, Step::ResetWarnHead, DELETES@)
                }
            },
            Err(x) => fail(f, within(VOLUME_INSPECT_FAILED@, x)),
        },
        Step::ResetWarnHead => if f.container_exists {
            warn(f, Step::ResetWarnContainer, "  - the '"@ + s.container + "' container"@)
        } else {
            warn_volume(f)
        },
        Step::ResetWarnContainer => warn_volume(f),
        Step::ResetWarnVolume => warn_repos(f),
        Step::ResetWarnRepos => ask(f),
        Step::ResetConfirm => match answer_of(e) {
            Ok(Some(a)) => if accepted(a) {
                (FlowView { consented: true, step: Step::ResetTunnel, ..f }, ActionView::StopAdbTunnel)
            } else {
                say(f, Step::ResetAborted, ABORTED@)
            },
            Ok(None) => fail(f, refusal(RESET_REFUSED@)),
            Err(x) => fail(f, within_system(CONFIRM_READ_FAILED@, x)),
        },
        Step::ResetTunnel => remove_container_step(f),
        Step::ResetRemoveNotice => (
            at(f, Step::ResetRemove),
            ActionView::Run(docker(seq!["rm"@, "-f"@, s.container])),
        ),
        Step::ResetRemove => match done_of(e) {
            Ok(_) => remove_volume_step(f),
            Err(x) => fail(f, within(REMOVE_FAILED@, x)),
        },
        Step::ResetVolumeNotice => (
            at(f, Step::ResetRemoveVolume),
            ActionView::Run(docker(seq!["volume"@, "rm"@, s.volume])),
        ),
        Step::ResetRemoveVolume => match done_of(e) {
            Ok(_) => say(f, Step::ResetDone, RESET_DONE@),
            Err(x) => fail(f, within(VOLUME_REMOVE_FAILED@, x)),
        },
        _ => finish(f),
    }
}

/// What a config subcommand says when its load or save fails.
pub open spec fn config_context(task: TaskView) -> Seq<char> {
    match task {
        TaskView::Repos { path, unset } => if unset {
            REPOS_CLEAR_FAILED@
        } else if path is Some {
            REPOS_PERSIST_FAILED@
        } else {
            REPOS_READ_FAILED@
        },
        TaskView::Adb { port, unset } => if unset {
            ADB_CLEAR_FAILED@
        } else if port is Some {
            ADB_PERSIST_FAILED@
        } else {
            ADB_READ_FAILED@
        },
        _ => Seq::empty(),
    }
}

/// The config a changing config subcommand saves, if it changes it.
pub open spec fn config_change(task: TaskView, c: ConfigView) -> Option<ConfigView> {
    match task {
        TaskView::Repos { path, unset } => if unset {
            Some(without_repos_dir(c))
        } else {
            match path {
                Some(p) => Some(with_repos_dir(c, p)),
                None => None,
            }
        },
        TaskView::Adb { port, unset } => if unset {
            Some(without_adb_port(c))
        } else {
            match port {
                Some(p) => Some(with_adb_port(c, p)),
                None => None,
            }
        },
        _ => None,
    }
}

/// What a reading config subcommand prints of `c`.
pub open spec fn config_report(task: TaskView, c: ConfigView) -> Seq<char> {
    match task {
        TaskView::Adb { .. } => match c.adb_port {
            Some(p) => decimal(p as nat),
            None => "No adb port persisted. Run `bsdev adb [<port>]` to set one (defaults to "@
                + decimal(DEFAULT_ADB_PORT as nat)
                + "), or set BSDEV_ADB_PORT to override for a single run."@,
        },
        _ => match c.repos_dir {
            Some(d) => d,
            None => REPOS_NONE@,
        },
    }
}

/// What a changing config subcommand prints once it saved.
pub open spec fn config_saved(task: TaskView) -> Seq<char> {
    match task {
        TaskView::Repos { path, unset } => if unset {
            REPOS_CLEARED@
        } else {
            "Persisted repos directory: "@ + match path {
                Some(p) => p,
                None => Seq::empty(),
            }
        },
        TaskView::Adb { port, unset } => if unset {
            ADB_CLEARED@
        } else {
            "Persisted adb port: "@ + decimal(
                match port {
                    Some(p) => p as nat,
                    None => 0,
                },
            ) + ". Run `bsdev up` (or `bsdev`) to start forwarding it."@
        },
        _ => Seq::empty(),
    }
}

/// Getting, persisting or clearing a persisted setting.
pub open spec fn config_next(f: FlowView, e: EventView) -> (FlowView, ActionView) {
    match f.step {
        Step::ConfigLoad => match config_of(e) {
            Ok(c) => match config_change(f.task, c) {
                Some(n) => (at(f, Step::ConfigSave), ActionView::SaveConfig(n)),
                None => say(f, Step::ConfigDone, config_report(f.task, c)),
            },
            Err(x) => fail(f, within(config_context(f.task), x)),
        },
        Step::ConfigSave => match done_of(e) {
            Ok(_) => say(f, Step::ConfigDone, config_saved(f.task)),
            Err(x) => fail(f, within(config_context(f.task), x)),
        },
        _ => finish(f),
    }
}

/// A step of bringing up (and connecting).
pub open spec fn is_up_step(step: Step) -> bool {
    match step {
        Step::UpDocker | Step::UpKeypair | Step::UpPubkey | Step::UpImage | Step::UpPullNotice
        | Step::UpPull | Step::UpState | Step::UpStartNotice | Step::UpStart | Step::UpReposDir
        | Step::UpCreateNotice | Step::UpCreate | Step::UpAuthorize | Step::UpTunnel | Step::UpDone
        | Step::ConnectBridge | Step::ConnectSession => true,
        _ => false,
    }
}

/// A step of `down`.
pub open spec fn is_down_step(step: Step) -> bool {
    match step {
        Step::DownDocker | Step::DownTunnel | Step::DownState | Step::DownStop | Step::DownDone => true,
        _ => false,
    }
}

/// A step of `rebuild`.
pub open spec fn is_rebuild_step(step: Step) -> bool {
    match step {
        Step::RebuildDocker | Step::RebuildTunnel | Step::RebuildPullNotice | Step::RebuildPull
        | Step::RebuildState | Step::RebuildRemoveNotice | Step::RebuildRemove | Step::RebuildKeypair
        | Step::RebuildPubkey | Step::RebuildReposDir | Step::RebuildCreateNotice | Step::RebuildCreate
        | Step::RebuildDone => true,
        _ => false,
    }
}

/// A step of `status`.
pub open spec fn is_status_step(step: Step) -> bool {
    match step {
        Step::StatusDocker | Step::StatusUnavailable | Step::StatusAvailable | Step::StatusImage
        | Step::StatusImageLine | Step::StatusState | Step::StatusStateLine | Step::StatusVolume
        | Step::StatusVolumeLine | Step::StatusReposLine | Step::StatusKeyLine | Step::StatusAdbLine => true,
        _ => false,
    }
}

/// A step of `reset`.
pub open spec fn is_reset_step(step: Step) -> bool {
    match step {
        Step::ResetDocker | Step::ResetState | Step::ResetVolume | Step::ResetNothing | Step::ResetWarnHead
        | Step::ResetWarnContainer | Step::ResetWarnVolume | Step::ResetWarnRepos | Step::ResetConfirm
        | Step::ResetAborted | Step::ResetTunnel | Step::ResetRemoveNotice | Step::ResetRemove
        | Step::ResetVolumeNotice | Step::ResetRemoveVolume | Step::ResetDone => true,
        _ => false,
    }
}

/// The next flow and action, given what the last action gave.
pub open spec fn next(f: FlowView, e: EventView) -> (FlowView, ActionView) {
    if is_up_step(f.step) {
        up_next(f, e)
    } else if is_down_step(f.step) {
        down_next(f, e)
    } else if is_rebuild_step(f.step) {
        rebuild_next(f, e)
    } else if is_status_step(f.step) {
        status_next(f, e)
    } else if is_reset_step(f.step) {
        reset_next(f, e)
    } else {
        config_next(f, e)
    }
}

} // verus!

verus! {

fn read_output(e: Result<Reply, BsdevError>) -> (r: Result<Option<String>, BsdevError>)
    ensures
        capture_view(r) == output_of(event_view(e)),
{
    match e {
        Ok(Reply::Output(o)) => Ok(o),
        Ok(_) => Ok(None),
        Err(x) => Err(x),
    }
}

fn read_done(e: Result<Reply, BsdevError>) -> (r: Result<(), BsdevError>)
    ensures
        run_view(r) == done_of(event_view(e)),
{
    match e {
        Ok(_) => Ok(()),
        Err(x) => Err(x),
    }
}

fn read_text(e: Result<Reply, BsdevError>) -> (r: Result<String, BsdevError>)
    ensures
        match r {
            Ok(t) => text_of(event_view(e)) == Ok::<Seq<char>, BsdevErrorView>(t@),
            Err(x) => text_of(event_view(e)) == Err::<Seq<char>, BsdevErrorView>(x@),
        },
{
    match e {
        Ok(Reply::Text(t)) => Ok(t),
        Ok(_) => Ok(String::new()),
        Err(x) => Err(x),
    }
}

fn read_answer(e: Result<Reply, BsdevError>) -> (r: Result<Option<String>, BsdevError>)
    ensures
        match r {
            Ok(a) => answer_of(event_view(e)) == Ok::<Option<Seq<char>>, BsdevErrorView>(opt_view(a)),
            Err(x) => answer_of(event_view(e)) == Err::<Option<Seq<char>>, BsdevErrorView>(x@),
        },
{
    match e {
        Ok(Reply::Text(t)) => Ok(Some(t)),
        Ok(Reply::NoTerminal) => Ok(None),
        Ok(_) => Ok(Some(String::new())),
        Err(x) => Err(x),
    }
}

fn read_config(e: Result<Reply, BsdevError>) -> (r: Result<Config, BsdevError>)
    ensures
        match r {
            Ok(c) => config_of(event_view(e)) == Ok::<ConfigView, BsdevErrorView>(c@),
            Err(x) => config_of(event_view(e)) == Err::<ConfigView, BsdevErrorView>(x@),
        },
{
    match e {
        Ok(Reply::Loaded(c)) => Ok(c),
        Ok(_) => Ok(Config { repos_dir: None, adb_port: None }),
        Err(x) => Err(x),
    }
}

/// Whether a confirmation answer is a yes.
pub fn is_yes(answer: &str) -> (r: bool)
    ensures
        r == accepted(answer@),
{
    let t = crate::text::trim_str(answer);
    proof {
        reveal_strlit("y");
        reveal_strlit("yes");
    }
    crate::text::lowercase_is(t.as_str(), "y") || crate::text::lowercase_is(t.as_str(), "yes")
}

fn status_text(label: &str, name: &str, word: &str) -> (r: String)
    ensures
        r@ == status_line(label@, name@, word@),
{
    let r = crate::text::cat3(label, name, " (");
    r.concat(word).concat(")")
}

fn presence_text(present: bool) -> (r: &'static str)
    ensures
        r@ == presence_word(present),
{
    if present {
        "present"
    } else {
        "missing"
    }
}

fn state_text(st: ContainerState) -> (r: &'static str)
    ensures
        r@ == state_word(st),
{
    match st {
        ContainerState::Running => "running",
        ContainerState::Stopped => "stopped",
        ContainerState::Missing => "missing",
    }
}

impl Flow {
    /// The first action of the flow of `task`, with the flow it starts.
    pub fn begin(task: Task, settings: Settings, platform: Platform) -> (r: (Flow, Action))
        ensures
            (r.0@, r.1@) == start(task@, settings@, platform),
    {
        let consented = match &task {
            Task::Reset { yes } => *yes,
            _ => false,
        };
        let step = match &task {
            Task::Connect | Task::Up => Step::UpDocker,
            Task::Down => Step::DownDocker,
            Task::Rebuild => Step::RebuildDocker,
            Task::Status => Step::StatusDocker,
            Task::Reset { .. } => Step::ResetDocker,
            Task::Repos { .. } | Task::Adb { .. } => Step::ConfigLoad,
        };
        let action = if step == Step::ConfigLoad {
            Action::LoadConfig
        } else {
            Action::Capture(crate::docker::ensure_available_command())
        };
        let f = Flow {
            task,
            settings,
            platform,
            step,
            pubkey: String::new(),
            container_exists: false,
            home_exists: false,
            consented,
        };
        (f, action)
    }

    fn at(self, step: Step) -> (r: Flow)
        ensures
            r@ == at(self@, step),
    {
        Flow { step, ..self }
    }

    fn finish(self) -> (r: (Flow, Action))
        ensures
            (r.0@, r.1@) == finish(self@),
    {
        (self.at(Step::Finished), Action::Finish(None))
    }

    fn fail(self, x: Failure) -> (r: (Flow, Action))
        ensures
            (r.0@, r.1@) == fail(self@, x@),
    {
        (self.at(Step::Finished), Action::Finish(Some(x)))
    }

    fn say(self, step: Step, text: String) -> (r: (Flow, Action))
        ensures
            (r.0@, r.1@) == say(self@, step, text@),
    {
        (self.at(step), Action::Say(text))
    }

    fn warn(self, step: Step, text: String) -> (r: (Flow, Action))
        ensures
            (r.0@, r.1@) == warn(self@, step, text@),
    {
        (self.at(step), Action::Warn(text))
    }

    fn authorize(self) -> (r: (Flow, Action))
        ensures
            (r.0@, r.1@) == authorize(self@),
    {
        let a = Action::Run(crate::docker::ensure_authorized_key(&self.settings, self.pubkey.as_str()));
        (self.at(Step::UpAuthorize), a)
    }

    fn prepare_create(self, dir_step: Step, notice_step: Step) -> (r: (Flow, Action))
        ensures
            (r.0@, r.1@) == prepare_create(self@, dir_step, notice_step),
    {
        match crate::config::copy_opt(&self.settings.repos_dir) {
            Some(d) => (self.at(dir_step), Action::CreateReposDir(d)),
            None => self.say(notice_step, String::from_str(CREATING)),
        }
    }

    fn up_step(self, e: Result<Reply, BsdevError>) -> (r: (Flow, Action))
        ensures
            (r.0@, r.1@) == up_next(self@, event_view(e)),
    {
        match self.step {
            Step::UpDocker => match crate::docker::ensure_available(read_output(e)) {
                Ok(()) => {
                    let a = Action::EnsureKeypair(crate::ssh::keygen_command(&self.settings));
                    (self.at(Step::UpKeypair), a)
                },
                Err(x) => self.fail(Failure::within(DOCKER_REQUIRED, &x)),
            },
            Step::UpKeypair => match read_done(e) {
                Ok(()) => (self.at(Step::UpPubkey), Action::ReadPubkey),
                Err(x) => self.fail(Failure::within(KEY_CREATE_FAILED, &x)),
            },
            Step::UpPubkey => match read_text(e) {
                Ok(t) => {
                    let a = Action::Capture(crate::docker::image_present_command(self.settings.image.as_str()));
                    let f = Flow { pubkey: crate::ssh::read_pubkey(t.as_str()), step: Step::UpImage, ..self };
                    (f, a)
                },
                Err(x) => self.fail(Failure::within(KEY_READ_FAILED, &x)),
            },
            Step::UpImage => match crate::docker::image_present(read_output(e)) {
                Ok(true) => {
                    let a = Action::Capture(crate::docker::state_command(self.settings.container.as_str()));
                    (self.at(Step::UpState), a)
                },
                Ok(false) => {
                    let t = crate::text::cat3("Pulling ", self.settings.image.as_str(), " ...");
                    self.say(Step::UpPullNotice, t)
                },
                Err(x) => self.fail(Failure::within(IMAGE_INSPECT_FAILED, &x)),
            },
            Step::UpPullNotice => {
                let a = Action::Run(crate::docker::pull_image_command(self.settings.image.as_str()));
                (self.at(Step::UpPull), a)
            },
            Step::UpPull => match crate::docker::pull_image(self.settings.image.as_str(), read_done(e)) {
                Ok(()) => {
                    let a = Action::Capture(crate::docker::state_command(self.settings.container.as_str()));
                    (self.at(Step::UpState), a)
                },
                Err(x) => self.fail(Failure::bare(&x)),
            },
            Step::UpState => match crate::docker::state(read_output(e)) {
                Ok(ContainerState::Running) => self.authorize(),
                Ok(ContainerState::Stopped) => self.say(Step::UpStartNotice, String::from_str(STARTING)),
                Ok(ContainerState::Missing) => self.prepare_create(Step::UpReposDir, Step::UpCreateNotice),
                Err(x) => self.fail(Failure::within(CONTAINER_INSPECT_FAILED, &x)),
            },
            Step::UpStartNotice => {
                let a = Action::Run(crate::docker::start(self.settings.container.as_str()));
                (self.at(Step::UpStart), a)
            },
            Step::UpStart => match read_done(e) {
                Ok(()) => self.authorize(),
                Err(x) => self.fail(Failure::within(START_FAILED, &x)),
            },
            Step::UpReposDir => match read_done(e) {
                Ok(()) => self.say(Step::UpCreateNotice, String::from_str(CREATING)),
                Err(x) => self.fail(Failure::within_system(REPOS_DIR_FAILED, &x)),
            },
            Step::UpCreateNotice => {
                let a = Action::Run(crate::docker::run_container(&self.settings, self.pubkey.as_str()));
                (self.at(Step::UpCreate), a)
            },
            Step::UpCreate => match read_done(e) {
                Ok(()) => self.authorize(),
                Err(x) => self.fail(Failure::within(CREATE_FAILED, &x)),
            },
            Step::UpAuthorize => match read_done(e) {
                Ok(()) => (self.at(Step::UpTunnel), Action::StartAdbTunnel),
                Err(x) => self.fail(Failure::within(AUTHORIZE_FAILED, &x)),
            },
            Step::UpTunnel => match read_done(e) {
                Ok(()) => match self.task {
                    Task::Up => self.say(Step::UpDone, String::from_str(UP_READY)),
                    _ => (self.at(Step::ConnectBridge), Action::SpawnCodeListener),
                },
                Err(x) => self.fail(Failure::within(TUNNEL_FAILED, &x)),
            },
            Step::ConnectBridge => {
                let a = Action::Run(crate::ssh::connect_command(&self.settings, self.platform));
                (self.at(Step::ConnectSession), a)
            },
            Step::ConnectSession => match crate::ssh::connect(read_done(e)) {
                Ok(()) => self.finish(),
                Err(x) => self.fail(Failure::within(CONNECT_FAILED, &x)),
            },
            _ => self.finish(),
        }
    }

    fn down_step(self, e: Result<Reply, BsdevError>) -> (r: (Flow, Action))
        ensures
            (r.0@, r.1@) == down_next(self@, event_view(e)),
    {
        match self.step {
            Step::DownDocker => match crate::docker::ensure_available(read_output(e)) {
                Ok(()) => (self.at(Step::DownTunnel), Action::StopAdbTunnel),
                Err(x) => self.fail(Failure::within(DOCKER_REQUIRED, &x)),
            },
            Step::DownTunnel => {
                let a = Action::Capture(crate::docker::state_command(self.settings.container.as_str()));
                (self.at(Step::DownState), a)
            },
            Step::DownState => match crate::docker::state(read_output(e)) {
                Ok(ContainerState::Missing) => self.say(Step::DownDone, String::from_str(NO_CONTAINER)),
                Ok(_) => {
                    let a = Action::Run(crate::docker::stop(self.settings.container.as_str()));
                    (self.at(Step::DownStop), a)
                },
                Err(x) => self.fail(Failure::bare(&x)),
            },
            Step::DownStop => match read_done(e) {
                Ok(()) => self.say(Step::DownDone, String::from_str(STOPPED)),
                Err(x) => self.fail(Failure::within(STOP_FAILED, &x)),
            },
            _ => self.finish(),
        }
    }

    fn rebuild_step(self, e: Result<Reply, BsdevError>) -> (r: (Flow, Action))
        ensures
            (r.0@, r.1@) == rebuild_next(self@, event_view(e)),
    {
        match self.step {
            Step::RebuildDocker => match crate::docker::ensure_available(read_output(e)) {
                Ok(()) => (self.at(Step::RebuildTunnel), Action::StopAdbTunnel),
                Err(x) => self.fail(Failure::within(DOCKER_REQUIRED, &x)),
            },
            Step::RebuildTunnel => {
                let t = crate::text::cat3("Pulling ", self.settings.image.as_str(), " ...");
                self.say(Step::RebuildPullNotice, t)
            },
            Step::RebuildPullNotice => {
                let a = Action::Run(crate::docker::pull_image_command(self.settings.image.as_str()));
                (self.at(Step::RebuildPull), a)
            },
            Step::RebuildPull => match crate::docker::pull_image(self.settings.image.as_str(), read_done(e)) {
                Ok(()) => {
                    let a = Action::Capture(crate::docker::state_command(self.settings.container.as_str()));
                    (self.at(Step::RebuildState), a)
                },
                Err(x) => self.fail(Failure::bare(&x)),
            },
            Step::RebuildState => match crate::docker::state(read_output(e)) {
                Ok(ContainerState::Missing) => {
                    let a = Action::EnsureKeypair(crate::ssh::keygen_command(&self.settings));
                    (self.at(Step::RebuildKeypair), a)
                },
                Ok(_) => {
                    let t = crate::text::cat3(
                        "Removing the old container (the '",
                        self.settings.volume.as_str(),
                        "' home volume is kept) ...",
                    );
                    self.say(Step::RebuildRemoveNotice, t)
                },
                Err(x) => self.fail(Failure::bare(&x)),
            },
            Step::RebuildRemoveNotice => {
                let a = Action::Run(crate::docker::remove(self.settings.container.as_str()));
                (self.at(Step::RebuildRemove), a)
            },
            Step::RebuildRemove => match read_done(e) {
                Ok(()) => {
                    let a = Action::EnsureKeypair(crate::ssh::keygen_command(&self.settings));
                    (self.at(Step::RebuildKeypair), a)
                },
                Err(x) => self.fail(Failure::within(REMOVE_FAILED, &x)),
            },
            Step::RebuildKeypair => match read_done(e) {
                Ok(()) => (self.at(Step::RebuildPubkey), Action::ReadPubkey),
                Err(x) => self.fail(Failure::within(KEY_CREATE_FAILED, &x)),
            },
            Step::RebuildPubkey => match read_text(e) {
                Ok(t) => {
                    let f = Flow { pubkey: crate::ssh::read_pubkey(t.as_str()), ..self };
                    f.prepare_create(Step::RebuildReposDir, Step::RebuildCreateNotice)
                },
                Err(x) => self.fail(Failure::within(KEY_READ_FAILED, &x)),
            },
            Step::RebuildReposDir => match read_done(e) {
                Ok(()) => self.say(Step::RebuildCreateNotice, String::from_str(CREATING)),
                Err(x) => self.fail(Failure::within_system(REPOS_DIR_FAILED, &x)),
            },
            Step::RebuildCreateNotice => {
                let a = Action::Run(crate::docker::run_container(&self.settings, self.pubkey.as_str()));
                (self.at(Step::RebuildCreate), a)
            },
            Step::RebuildCreate => match read_done(e) {
                Ok(()) => self.say(Step::RebuildDone, String::from_str(REBUILT)),
                Err(x) => self.fail(Failure::within(CREATE_FAILED, &x)),
            },
            _ => self.finish(),
        }
    }

    fn status_step(self, e: Result<Reply, BsdevError>) -> (r: (Flow, Action))
        ensures
            (r.0@, r.1@) == status_next(self@, event_view(e)),
    {
        match self.step {
            Step::StatusDocker => match crate::docker::ensure_available(read_output(e)) {
                Ok(()) => self.say(Step::StatusAvailable, String::from_str(DOCKER_PRESENT_LINE)),
                Err(_) => self.say(Step::StatusUnavailable, String::from_str(DOCKER_MISSING_LINE)),
            },
            Step::StatusAvailable => {
                let a = Action::Capture(crate::docker::image_present_command(self.settings.image.as_str()));
                (self.at(Step::StatusImage), a)
            },
            Step::StatusImage => match crate::docker::image_present(read_output(e)) {
                Ok(b) => {
                    let t = status_text("image:     ", self.settings.image.as_str(), presence_text(b));
                    self.say(Step::StatusImageLine, t)
                },
                Err(x) => self.fail(Failure::bare(&x)),
            },
            Step::StatusImageLine => {
                let a = Action::Capture(crate::docker::state_command(self.settings.container.as_str()));
                (self.at(Step::StatusState), a)
            },
            Step::StatusState => match crate::docker::state(read_output(e)) {
                Ok(st) => {
                    let t = status_text("container: ", self.settings.container.as_str(), state_text(st));
                    self.say(Step::StatusStateLine, t)
                },
                Err(x) => self.fail(Failure::bare(&x)),
            },
            Step::StatusStateLine => {
                let a = Action::Capture(crate::docker::volume_present_command(self.settings.volume.as_str()));
                (self.at(Step::StatusVolume), a)
            },
            Step::StatusVolume => match crate::docker::volume_present(read_output(e)) {
                Ok(b) => {
                    let t = status_text("home:      ", self.settings.volume.as_str(), presence_text(b));
                    self.say(Step::StatusVolumeLine, t)
                },
                Err(x) => self.fail(Failure::bare(&x)),
            },
            Step::StatusVolumeLine => match crate::config::copy_opt(&self.settings.repos_dir) {
                Some(d) => {
                    let t = crate::text::cat("repos:     ", d.as_str());
                    self.say(Step::StatusReposLine, t)
                },
                None => {
                    let t = crate::text::cat("key:       ", self.settings.key_path.as_str());
                    self.say(Step::StatusKeyLine, t)
                },
            },
            Step::StatusReposLine => {
                let t = crate::text::cat("key:       ", self.settings.key_path.as_str());
                self.say(Step::StatusKeyLine, t)
            },
            Step::StatusKeyLine => {
                let t = match self.settings.adb_port {
                    Some(p) => {
                        let d = crate::text::decimal_string(p as u128);
                        crate::text::cat("adb:       forwarding host port ", d.as_str())
                    },
                    None => String::from_str("adb:       disabled"),
                };
                self.say(Step::StatusAdbLine, t)
            },
            _ => self.finish(),
        }
    }

    fn ask(self) -> (r: (Flow, Action))
        ensures
            (r.0@, r.1@) == ask(self@),
    {
        (self.at(Step::ResetConfirm), Action::Confirm(String::from_str(CONFIRM_PROMPT)))
    }

    fn warn_repos(self) -> (r: (Flow, Action))
        ensures
            (r.0@, r.1@) == warn_repos(self@),
    {
        match crate::config::copy_opt(&self.settings.repos_dir) {
            Some(d) => {
                let t = crate::text::cat3("  (the repos directory at ", d.as_str(), " is left untouched)");
                self.warn(Step::ResetWarnRepos, t)
            },
            None => self.ask(),
        }
    }

    fn warn_volume(self) -> (r: (Flow, Action))
        ensures
            (r.0@, r.1@) == warn_volume(self@),
    {
        if self.home_exists {
            let t = crate::text::cat3(
                "  - the '",
                self.settings.volume.as_str(),
                "' home volume (ALL repos, provisioning and data)",
            );
            self.warn(Step::ResetWarnVolume, t)
        } else {
            self.warn_repos()
        }
    }

    fn remove_volume_step(self) -> (r: (Flow, Action))
        ensures
            (r.0@, r.1@) == remove_volume_step(self@),
    {
        if self.home_exists {
            let t = crate::text::cat3("Removing the '", self.settings.volume.as_str(), "' home volume ...");
            self.say(Step::ResetVolumeNotice, t)
        } else {
            self.say(Step::ResetDone, String::from_str(RESET_DONE))
        }
    }

    fn remove_container_step(self) -> (r: (Flow, Action))
        ensures
            (r.0@, r.1@) == remove_container_step(self@),
    {
        if self.container_exists {
            let t = crate::text::cat3("Removing the '", self.settings.container.as_str(), "' container ...");
            self.say(Step::ResetRemoveNotice, t)
        } else {
            self.remove_volume_step()
        }
    }

    fn reset_step(self, e: Result<Reply, BsdevError>) -> (r: (Flow, Action))
        ensures
            (r.0@, r.1@) == reset_next(self@, event_view(e)),
    {
        let yes = match &self.task {
            Task::Reset { yes } => *yes,
            _ => false,
        };
        match self.step {
            Step::ResetDocker => match crate::docker::ensure_available(read_output(e)) {
                Ok(()) => {
                    let a = Action::Capture(crate::docker::state_command(self.settings.container.as_str()));
                    (self.at(Step::ResetState), a)
                },
                Err(x) => self.fail(Failure::within(DOCKER_REQUIRED, &x)),
            },
            Step::ResetState => match crate::docker::state(read_output(e)) {
                Ok(st) => {
                    let a = Action::Capture(crate::docker::volume_present_command(self.settings.volume.as_str()));
                    let f = Flow { container_exists: st != ContainerState::Missing, step: Step::ResetVolume, ..self };
                    (f, a)
                },
                Err(x) => self.fail(Failure::within(CONTAINER_INSPECT_FAILED, &x)),
            },
            Step::ResetVolume => match crate::docker::volume_present(read_output(e)) {
                Ok(h) => {
                    let g = Flow { home_exists: h, ..self };
                    if !g.container_exists && !h {
                        g.say(Step::ResetNothing, String::from_str(NOTHING_TO_RESET))
                    } else if yes {
                        (g.at(Step::ResetTunnel), Action::StopAdbTunnel)
                    } else {
                        g.warn(Step::ResetWarnHead, String::from_str(DELETES))
                    }
                },
                Err(x) => self.fail(Failure::within(VOLUME_INSPECT_FAILED, &x)),
            },
            Step::ResetWarnHead => {
                if self.container_exists {
                    let t = crate::text::cat3("  - the '", self.settings.container.as_str(), "' container");
                    self.warn(Step::ResetWarnContainer, t)
                } else {
                    self.warn_volume()
                }
            },
            Step::ResetWarnContainer => self.warn_volume(),
            Step::ResetWarnVolume => self.warn_repos(),
            Step::ResetWarnRepos => self.ask(),
            Step::ResetConfirm => match read_answer(e) {
                Ok(Some(a)) => {
                    if is_yes(a.as_str()) {
                        let f = Flow { consented: true, step: Step::ResetTunnel, ..self };
                        (f, Action::StopAdbTunnel)
                    } else {
                        self.say(Step::ResetAborted, String::from_str(ABORTED))
                    }
                },
                Ok(None) => self.fail(Failure::refusal(RESET_REFUSED)),
                Err(x) => self.fail(Failure::within_system(CONFIRM_READ_FAILED, &x)),
            },
            Step::ResetTunnel => self.remove_container_step(),
            Step::ResetRemoveNotice => {
                let a = Action::Run(crate::docker::remove(self.settings.container.as_str()));
                (self.at(Step::ResetRemove), a)
            },
            Step::ResetRemove => match read_done(e) {
                Ok(()) => self.remove_volume_step(),
                Err(x) => self.fail(Failure::within(REMOVE_FAILED, &x)),
            },
            Step::ResetVolumeNotice => {
                let a = Action::Run(crate::docker::remove_volume(self.settings.volume.as_str()));
                (self.at(Step::ResetRemoveVolume), a)
            },
            Step::ResetRemoveVolume => match read_done(e) {
                Ok(()) => self.say(Step::ResetDone, String::from_str(RESET_DONE)),
                Err(x) => self.fail(Failure::within(VOLUME_REMOVE_FAILED, &x)),
            },
            _ => self.finish(),
        }
    }

    fn config_context(&self) -> (r: &'static str)
        ensures
            r@ == config_context(self.task@),
    {
        match &self.task {
            Task::Repos { path, unset } => {
                if *unset {
                    REPOS_CLEAR_FAILED
                } else if path.is_some() {
                    REPOS_PERSIST_FAILED
                } else {
                    REPOS_READ_FAILED
                }
            },
            Task::Adb { port, unset } => {
                if *unset {
                    ADB_CLEAR_FAILED
                } else if port.is_some() {
                    ADB_PERSIST_FAILED
                } else {
                    ADB_READ_FAILED
                }
            },
            _ => {
                proof {
                    reveal_strlit("");
                }
                ""
            },
        }
    }

    fn config_saved(&self) -> (r: String)
        ensures
            r@ == config_saved(self.task@),
    {
        match &self.task {
            Task::Repos { path, unset } => {
                if *unset {
                    String::from_str(REPOS_CLEARED)
                } else {
                    match path {
                        Some(p) => crate::text::cat("Persisted repos directory: ", p.as_str()),
                        None => String::from_str("Persisted repos directory: "),
                    }
                }
            },
            Task::Adb { port, unset } => {
                if *unset {
                    String::from_str(ADB_CLEARED)
                } else {
                    let n: u16 = match port {
                        Some(p) => *p,
                        None => 0,
                    };
                    let d = crate::text::decimal_string(n as u128);
                    crate::text::cat3(
                        "Persisted adb port: ",
                        d.as_str(),
                        ". Run `bsdev up` (or `bsdev`) to start forwarding it.",
                    )
                }
            },
            _ => String::new(),
        }
    }

    fn config_report(&self, c: &Config) -> (r: String)
        ensures
            r@ == config_report(self.task@, c@),
    {
        match &self.task {
            Task::Adb { .. } => match c.adb_port {
                Some(p) => crate::text::decimal_string(p as u128),
                None => {
                    let d = crate::text::decimal_string(DEFAULT_ADB_PORT as u128);
                    crate::text::cat3(
                        "No adb port persisted. Run `bsdev adb [<port>]` to set one (defaults to ",
                        d.as_str(),
                        "), or set BSDEV_ADB_PORT to override for a single run.",
                    )
                },
            },
            _ => match &c.repos_dir {
                Some(d) => d.clone(),
                None => String::from_str(REPOS_NONE),
            },
        }
    }

    fn config_change(&self, c: Config) -> (r: Option<Config>)
        ensures
            match r {
                Some(n) => config_change(self.task@, c@) == Some(n@),
                None => config_change(self.task@, c@) is None,
            },
    {
        match &self.task {
            Task::Repos { path, unset } => {
                if *unset {
                    Some(Settings::clear_persisted_repos_dir(c))
                } else {
                    match path {
                        Some(p) => Some(Settings::persist_repos_dir(c, p.as_str())),
                        None => None,
                    }
                }
            },
            Task::Adb { port, unset } => {
                if *unset {
                    Some(Settings::clear_persisted_adb_port(c))
                } else {
                    match port {
                        Some(p) => Some(Settings::persist_adb_port(c, *p)),
                        None => None,
                    }
                }
            },
            _ => None,
        }
    }

    fn config_step(self, e: Result<Reply, BsdevError>) -> (r: (Flow, Action))
        ensures
            (r.0@, r.1@) == config_next(self@, event_view(e)),
    {
        match self.step {
            Step::ConfigLoad => match read_config(e) {
                Ok(c) => {
                    let report = self.config_report(&c);
                    match self.config_change(c) {
                        Some(n) => (self.at(Step::ConfigSave), Action::SaveConfig(n)),
                        None => self.say(Step::ConfigDone, report),
                    }
                },
                Err(x) => {
                    let ctx = self.config_context();
                    self.fail(Failure::within(ctx, &x))
                },
            },
            Step::ConfigSave => match read_done(e) {
                Ok(()) => {
                    let t = self.config_saved();
                    self.say(Step::ConfigDone, t)
                },
                Err(x) => {
                    let ctx = self.config_context();
                    self.fail(Failure::within(ctx, &x))
                },
            },
            _ => self.finish(),
        }
    }

    /// The next flow and action, given what the last action gave.
    pub fn step(self, event: Result<Reply, BsdevError>) -> (r: (Flow, Action))
        requires
            self.step != Step::Finished,
        ensures
            (r.0@, r.1@) == next(self@, event_view(event)),
    {
        match self.step {
            Step::UpDocker | Step::UpKeypair | Step::UpPubkey | Step::UpImage | Step::UpPullNotice
            | Step::UpPull | Step::UpState | Step::UpStartNotice | Step::UpStart | Step::UpReposDir
            | Step::UpCreateNotice | Step::UpCreate | Step::UpAuthorize | Step::UpTunnel
            | Step::UpDone | Step::ConnectBridge | Step::ConnectSession => self.up_step(event),
            Step::DownDocker | Step::DownTunnel | Step::DownState | Step::DownStop
            | Step::DownDone => self.down_step(event),
            Step::RebuildDocker | Step::RebuildTunnel | Step::RebuildPullNotice | Step::RebuildPull
            | Step::RebuildState | Step::RebuildRemoveNotice | Step::RebuildRemove
            | Step::RebuildKeypair | Step::RebuildPubkey | Step::RebuildReposDir
            | Step::RebuildCreateNotice | Step::RebuildCreate | Step::RebuildDone => self.rebuild_step(event),
            Step::StatusDocker | Step::StatusUnavailable | Step::StatusAvailable | Step::StatusImage
            | Step::StatusImageLine | Step::StatusState | Step::StatusStateLine | Step::StatusVolume
            | Step::StatusVolumeLine | Step::StatusReposLine | Step::StatusKeyLine
            | Step::StatusAdbLine => self.status_step(event),
            Step::ResetDocker | Step::ResetState | Step::ResetVolume | Step::ResetNothing
            | Step::ResetWarnHead | Step::ResetWarnContainer | Step::ResetWarnVolume
            | Step::ResetWarnRepos | Step::ResetConfirm | Step::ResetAborted | Step::ResetTunnel
            | Step::ResetRemoveNotice | Step::ResetRemove | Step::ResetVolumeNotice
            | Step::ResetRemoveVolume | Step::ResetDone => self.reset_step(event),
            _ => self.config_step(event),
        }
    }

    /// Whether the flow has ended.
    pub fn is_finished(&self) -> (r: bool)
        ensures
            r == (self.step == Step::Finished),
    {
        self.step == Step::Finished
    }
}

} // verus!
