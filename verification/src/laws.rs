//! Properties of the library that span several functions or steps.

use vstd::prelude::*;
use crate::config::ConfigView;
use crate::adbtunnel::{pid_entry, start_decision, TunnelStart};
use crate::docker::{container_state, docker, run_arguments, ContainerState};
use crate::error::BsdevErrorView;
use crate::process::{InvocationView, Platform};
use crate::session::{
    accepted, answer_of, done_of, is_down_step, is_rebuild_step, is_reset_step, is_status_step,
    is_up_step, next, output_of, start, ActionView, EventView, FlowView, ReplyView, Step, TaskView,
};
use crate::settings::{resolved_adb_port, resolved_repos, with_adb_port, with_repos_dir, without_adb_port, without_repos_dir, SettingsView};
use crate::ssh::{adb_tunnel_arguments, connect_arguments};
use crate::paths::{ends_with, lemma_common_end, two_sep_start};
use crate::settings::forward_pid_name;
use crate::text::{decimal, lemma_parse_decimal, parse_unsigned};

verus! {

/// A persisted repos directory reads back as written, and persisting it
/// leaves the adb port as it was.
pub proof fn law_repos_dir_read_back(c: ConfigView, dir: Seq<char>)
    ensures
        with_repos_dir(c, dir).repos_dir == Some(dir),
        with_repos_dir(c, dir).adb_port == c.adb_port,
{
}

/// A cleared repos directory reads back as none, and clearing it leaves the
/// adb port as it was.
pub proof fn law_repos_dir_cleared(c: ConfigView)
    ensures
        without_repos_dir(c).repos_dir is None,
        without_repos_dir(c).adb_port == c.adb_port,
{
}

/// A persisted adb port reads back as written, and persisting it leaves the
/// repos directory as it was.
pub proof fn law_adb_port_read_back(c: ConfigView, port: u16)
    ensures
        with_adb_port(c, port).adb_port == Some(port),
        with_adb_port(c, port).repos_dir == c.repos_dir,
{
}

/// A cleared adb port reads back as none, and clearing it leaves the repos
/// directory as it was.
pub proof fn law_adb_port_cleared(c: ConfigView)
    ensures
        without_adb_port(c).adb_port is None,
        without_adb_port(c).repos_dir == c.repos_dir,
{
}

/// The image is always the last argument of `docker run`.
pub proof fn law_image_last(s: SettingsView, key: Seq<char>)
    ensures
        run_arguments(s, key).last() == s.image,
{
}

/// Every ssh session logs in as the container user on the loopback
/// address, last; only the interactive one asks for a terminal.
pub proof fn law_session_login_last(s: SettingsView, platform: Platform, port: u16)
    ensures
        connect_arguments(s, platform).last() == s.user + "@127.0.0.1"@,
        adb_tunnel_arguments(s, platform, port).last() == s.user + "@127.0.0.1"@,
        connect_arguments(s, platform)[0] == "-t"@,
        adb_tunnel_arguments(s, platform, port)[0] == "-N"@,
{
}

/// The steps a flow of `task` passes through (besides the end).
pub open spec fn step_of(task: TaskView, step: Step) -> bool {
    match task {
        TaskView::Connect | TaskView::Up => is_up_step(step),
        TaskView::Down => is_down_step(step),
        TaskView::Rebuild => is_rebuild_step(step),
        TaskView::Status => is_status_step(step),
        TaskView::Reset { .. } => is_reset_step(step),
        TaskView::Repos { .. } | TaskView::Adb { .. } => step == Step::ConfigLoad || step
            == Step::ConfigSave || step == Step::ConfigDone,
    }
}

/// A flow stands at one of its task's steps, or has ended.
pub open spec fn well_formed(f: FlowView) -> bool {
    f.step == Step::Finished || step_of(f.task, f.step)
}

/// Every flow starts well formed and stays so.
pub proof fn law_flows_stay_well_formed(f: FlowView, e: EventView, task: TaskView, s: SettingsView, platform: Platform)
    ensures
        well_formed(start(task, s, platform).0),
        well_formed(f) && f.step != Step::Finished ==> well_formed(next(f, e).0),
{
}

/// The steps of a reset from the tunnel's stop on, where it deletes.
pub open spec fn deleting_step(step: Step) -> bool {
    match step {
        Step::ResetTunnel | Step::ResetRemoveNotice | Step::ResetRemove | Step::ResetVolumeNotice
        | Step::ResetRemoveVolume | Step::ResetDone => true,
        _ => false,
    }
}

/// A reset only deletes once consent is given.
pub open spec fn consent_kept(f: FlowView) -> bool {
    &&& deleting_step(f.step) ==> f.consented
    &&& f.task == (TaskView::Reset { yes: true }) ==> f.consented
}

/// Whether an action runs `docker` with `first` as its first argument.
pub open spec fn runs_docker(a: ActionView, first: Seq<char>) -> bool {
    a matches ActionView::Run(i) && i.program == "docker"@ && i.args.len() > 0 && i.args[0] == first
}

/// Reset deletes nothing without consent: consent is given at the start by
/// `--yes` and otherwise only by a yes answer to the confirmation; every
/// removal of the container or the home volume happens with consent.
pub proof fn law_reset_needs_consent(f: FlowView, e: EventView, yes: bool, s: SettingsView, platform: Platform)
    requires
        f.task == (TaskView::Reset { yes }),
        well_formed(f),
        f.step != Step::Finished,
    ensures
        start(TaskView::Reset { yes }, s, platform).0.consented == yes,
        consent_kept(start(TaskView::Reset { yes }, s, platform).0),
        consent_kept(f) ==> consent_kept(next(f, e).0),
        next(f, e).0.consented && !f.consented ==> f.step == Step::ResetConfirm && (answer_of(e) matches Ok(Some(a)) && accepted(a)),
        consent_kept(f) && (next(f, e).1 matches ActionView::Run(_)) ==> next(f, e).0.consented,
{
}

/// No flow but a reset removes the home volume: `down` stops the container
/// and `rebuild` recreates it, both keeping its home.
pub proof fn law_home_volume_kept(f: FlowView, e: EventView)
    requires
        well_formed(f),
        f.step != Step::Finished,
        !(f.task is Reset),
    ensures
        !runs_docker(next(f, e).1, "volume"@),
{
    reveal_strlit("volume");
    reveal_strlit("pull");
    reveal_strlit("start");
    reveal_strlit("run");
    reveal_strlit("exec");
    reveal_strlit("stop");
    reveal_strlit("rm");
    reveal_strlit("docker");
    reveal_strlit("ssh");
    let s = f.settings;
    assert(run_arguments(s, f.pubkey)[0] == "run"@);
    assert(crate::docker::authorize_arguments(s, f.pubkey)[0] == "exec"@);
    assert("volume"@ != "run"@);
    assert("volume"@ != "exec"@);
    assert("volume"@[0] != "pull"@[0]);
    assert("volume"@ != "pull"@);
    assert("volume"@[0] != "start"@[0]);
    assert("volume"@ != "start"@);
    assert("volume"@ != "stop"@);
    assert("volume"@ != "rm"@);
    assert("docker"@[0] != "ssh"@[0]);
    assert("docker"@ != "ssh"@);
    if is_up_step(f.step) {
        assert(!runs_docker(crate::session::up_next(f, e).1, "volume"@));
    } else if is_down_step(f.step) {
        assert(!runs_docker(crate::session::down_next(f, e).1, "volume"@));
    } else if is_rebuild_step(f.step) {
        assert(!runs_docker(crate::session::rebuild_next(f, e).1, "volume"@));
    } else if is_status_step(f.step) {
        assert(!runs_docker(crate::session::status_next(f, e).1, "volume"@));
    } else {
        assert(!runs_docker(crate::session::config_next(f, e).1, "volume"@));
    }
}

/// The steps of bringing up that follow the key's authorization.
pub open spec fn after_authorization(step: Step) -> bool {
    match step {
        Step::UpTunnel | Step::UpDone | Step::ConnectBridge | Step::ConnectSession => true,
        _ => false,
    }
}

/// `up` and connecting authorize the key inside the container every time:
/// the flow reaches the steps that follow authorization only through a
/// successful authorization, and ends successfully only from them.
pub proof fn law_up_authorizes_key(f: FlowView, e: EventView)
    requires
        f.task is Up || f.task is Connect,
        well_formed(f),
        f.step != Step::Finished,
    ensures
        after_authorization(next(f, e).0.step) ==> after_authorization(f.step) || (f.step
            == Step::UpAuthorize && done_of(e) is Ok),
        next(f, e).1 == ActionView::Finish(None) ==> after_authorization(f.step),
{
}

/// How many steps at most stand between `step` and the end of its flow.
pub open spec fn remaining(step: Step) -> nat {
    match step {
        Step::Finished => 0,
        Step::ConfigDone => 1,
        Step::ConfigSave => 2,
        Step::ConfigLoad => 3,
        Step::ResetDone => 4,
        Step::ResetRemoveVolume => 5,
        Step::ResetVolumeNotice => 6,
        Step::ResetRemove => 7,
        Step::ResetRemoveNotice => 8,
        Step::ResetTunnel => 9,
        Step::ResetAborted => 10,
        Step::ResetConfirm => 11,
        Step::ResetWarnRepos => 12,
        Step::ResetWarnVolume => 13,
        Step::ResetWarnContainer => 14,
        Step::ResetWarnHead => 15,
        Step::ResetNothing => 16,
        Step::ResetVolume => 17,
        Step::ResetState => 18,
        Step::ResetDocker => 19,
        Step::StatusAdbLine => 20,
        Step::StatusKeyLine => 21,
        Step::StatusReposLine => 22,
        Step::StatusVolumeLine => 23,
        Step::StatusVolume => 24,
        Step::StatusStateLine => 25,
        Step::StatusState => 26,
        Step::StatusImageLine => 27,
        Step::StatusImage => 28,
        Step::StatusAvailable => 29,
        Step::StatusUnavailable => 30,
        Step::StatusDocker => 31,
        Step::RebuildDone => 32,
        Step::RebuildCreate => 33,
        Step::RebuildCreateNotice => 34,
        Step::RebuildReposDir => 35,
        Step::RebuildPubkey => 36,
        Step::RebuildKeypair => 37,
        Step::RebuildRemove => 38,
        Step::RebuildRemoveNotice => 39,
        Step::RebuildState => 40,
        Step::RebuildPull => 41,
        Step::RebuildPullNotice => 42,
        Step::RebuildTunnel => 43,
        Step::RebuildDocker => 44,
        Step::DownDone => 45,
        Step::DownStop => 46,
        Step::DownState => 47,
        Step::DownTunnel => 48,
        Step::DownDocker => 49,
        Step::ConnectSession => 50,
        Step::ConnectBridge => 51,
        Step::UpDone => 52,
        Step::UpTunnel => 53,
        Step::UpAuthorize => 54,
        Step::UpCreate => 55,
        Step::UpCreateNotice => 56,
        Step::UpReposDir => 57,
        Step::UpStart => 58,
        Step::UpStartNotice => 59,
        Step::UpState => 60,
        Step::UpPull => 61,
        Step::UpPullNotice => 62,
        Step::UpImage => 63,
        Step::UpPubkey => 64,
        Step::UpKeypair => 65,
        Step::UpDocker => 66,
    }
}

/// Every flow ends: each step, whatever the outcome it is given, moves the
/// flow strictly closer to its end, and a flow that ends asks to finish.
pub proof fn law_flows_end(f: FlowView, e: EventView)
    requires
        f.step != Step::Finished,
    ensures
        remaining(next(f, e).0.step) < remaining(f.step),
        next(f, e).0.step == Step::Finished <==> next(f, e).1 is Finish,
{
    if is_up_step(f.step) {
        lemma_up_moves_on(f, e);
    } else if is_down_step(f.step) {
        assert(remaining(crate::session::down_next(f, e).0.step) < remaining(f.step));
    } else if is_rebuild_step(f.step) {
        lemma_rebuild_moves_on(f, e);
    } else if is_status_step(f.step) {
        lemma_status_moves_on(f, e);
    } else if is_reset_step(f.step) {
        lemma_reset_moves_on(f, e);
    } else {
        assert(remaining(crate::session::config_next(f, e).0.step) < remaining(f.step));
    }
}

proof fn lemma_up_moves_on(f: FlowView, e: EventView)
    requires
        is_up_step(f.step),
    ensures
        remaining(crate::session::up_next(f, e).0.step) < remaining(f.step),
        crate::session::up_next(f, e).0.step == Step::Finished <==> crate::session::up_next(f, e).1 is Finish,
{
}

proof fn lemma_rebuild_moves_on(f: FlowView, e: EventView)
    requires
        is_rebuild_step(f.step),
    ensures
        remaining(crate::session::rebuild_next(f, e).0.step) < remaining(f.step),
        crate::session::rebuild_next(f, e).0.step == Step::Finished <==> crate::session::rebuild_next(f, e).1 is Finish,
{
}

proof fn lemma_status_moves_on(f: FlowView, e: EventView)
    requires
        is_status_step(f.step),
    ensures
        remaining(crate::session::status_next(f, e).0.step) < remaining(f.step),
        crate::session::status_next(f, e).0.step == Step::Finished <==> crate::session::status_next(f, e).1 is Finish,
{
}

proof fn lemma_reset_moves_on(f: FlowView, e: EventView)
    requires
        is_reset_step(f.step),
    ensures
        remaining(crate::session::reset_next(f, e).0.step) < remaining(f.step),
        crate::session::reset_next(f, e).0.step == Step::Finished <==> crate::session::reset_next(f, e).1 is Finish,
{
}

/// The tunnel is left alone when the recorded one forwards the configured
/// port (if it is alive), restarted when the record is missing, names another
/// port or no port, and stopped when no port is configured.
pub proof fn law_tunnel_restarts_only_when_needed(port: u16, entry: Option<(u32, Option<u16>)>)
    ensures
        start_decision(None, entry) == TunnelStart::Disable,
        (entry matches Some((pid, Some(q))) && q == port) ==> start_decision(Some(port), entry)
            == (TunnelStart::CheckAlive { pid: entry.unwrap().0, port }),
        !(entry matches Some((_, Some(q))) && q == port) ==> start_decision(Some(port), entry)
            == (TunnelStart::Restart { port }),
{
}

/// A pid file in the older form, a bare pid, reads as that pid with an
/// unknown port, so the tunnel it names is restarted in the current form.
pub proof fn law_legacy_pid_file_restarts(pid: u32, port: u16)
    ensures
        pid_entry(decimal(pid as nat)) == Some((pid, None::<u16>)),
        start_decision(Some(port), pid_entry(decimal(pid as nat))) == (TunnelStart::Restart { port }),
{
    let d = decimal(pid as nat);
    crate::text::lemma_decimal_shape(pid as nat);
    crate::text::lemma_parse_decimal(pid as nat, crate::adbtunnel::u32_max());
    crate::text::lemma_trim_unspaced(d);
    assert(!exists|i: int| crate::text::first_char_at(d, ':', i));
}

/// A variable overrides the persisted repos directory and adb port for the
/// run; without one the persisted value holds.
pub proof fn law_variables_override_persisted(v: String, persisted: Option<Seq<char>>, port: Option<u16>)
    ensures
        resolved_repos(Some(v), persisted) == Some(v@),
        resolved_repos(None, persisted) == persisted,
        resolved_adb_port(None, port) == port,
        (parse_unsigned(v@, 65535) matches Some(p)) ==> resolved_adb_port(Some(v), port) == Some(
            parse_unsigned(v@, 65535).unwrap() as u16,
        ),
{
}

/// A reset runs nothing but the removal of its own container and home
/// volume: the ssh key and any repos directory stay where they are.
pub proof fn law_reset_removes_only_its_own(f: FlowView, e: EventView)
    requires
        f.task is Reset,
        well_formed(f),
        f.step != Step::Finished,
    ensures
        next(f, e).1 matches ActionView::Run(i) ==> i == docker(seq!["rm"@, "-f"@, f.settings.container])
            || i == docker(seq!["volume"@, "rm"@, f.settings.volume]),
        !(next(f, e).1 is EnsureKeypair),
        !(next(f, e).1 is CreateReposDir),
        !(next(f, e).1 is SaveConfig),
{
}

/// `up` never replaces a container that exists: the creation is asked for
/// only after the state inspect found no container.
pub proof fn law_up_creates_only_missing_container(f: FlowView, e: EventView)
    requires
        f.task is Up || f.task is Connect,
        well_formed(f),
        f.step != Step::Finished,
    ensures
        next(f, e).0.step == Step::UpCreate ==> f.step == Step::UpCreateNotice,
        next(f, e).0.step == Step::UpCreateNotice ==> f.step == Step::UpReposDir || (f.step
            == Step::UpState && container_state(output_of(e)) == Ok::<
            ContainerState,
            BsdevErrorView,
        >(ContainerState::Missing)),
        next(f, e).0.step == Step::UpReposDir ==> f.step == Step::UpState && container_state(
            output_of(e),
        ) == Ok::<ContainerState, BsdevErrorView>(ContainerState::Missing),
{
}

/// The pid files of the forwards of two different ports are two different
/// files, wherever the key path does not begin with two separators (the
/// other two requirements are what `Settings::forward_pid_path` ensures of
/// its results).
pub proof fn law_forward_pid_paths_differ(key: Seq<char>, p1: u16, p2: u16, r1: Seq<char>, r2: Seq<char>)
    requires
        !two_sep_start(key),
        !two_sep_start(key) ==> ends_with(r1, forward_pid_name(p1)),
        !two_sep_start(key) ==> ends_with(r2, forward_pid_name(p2)),
        p1 != p2,
    ensures
        r1 != r2,
{
    let n1 = forward_pid_name(p1);
    let n2 = forward_pid_name(p2);
    let a = decimal(p1 as nat);
    let b = decimal(p2 as nat);
    reveal_strlit("forward-");
    reveal_strlit(".pid");
    crate::text::lemma_decimal_shape(p1 as nat);
    crate::text::lemma_decimal_shape(p2 as nat);
    if r1 == r2 {
        if a.len() == b.len() {
            assert forall|i: int| 0 <= i < a.len() implies a[i] == b[i] by {
                lemma_common_end(r1, n1, n2, n1.len() - 8 - i);
                assert(n1[8 + i] == a[i]);
                assert(n2[8 + i] == b[i]);
            }
            assert(a =~= b);
            lemma_parse_decimal(p1 as nat, 65535);
            lemma_parse_decimal(p2 as nat, 65535);
        } else if a.len() < b.len() {
            lemma_not_a_later_start(r1, a, b);
        } else {
            lemma_not_a_later_start(r1, b, a);
        }
    }
}

/// A string cannot end both with the pid file name of a forward whose port
/// has the digits `a` and with that of one whose port has more digits `b`.
proof fn lemma_not_a_later_start(r: Seq<char>, a: Seq<char>, b: Seq<char>)
    requires
        a.len() < b.len(),
        forall|i: int| 0 <= i < b.len() ==> crate::text::is_digit(#[trigger] b[i]),
    ensures
        !(ends_with(r, "forward-"@ + a + ".pid"@) && ends_with(r, "forward-"@ + b + ".pid"@)),
{
    reveal_strlit("forward-");
    reveal_strlit(".pid");
    let n1 = "forward-"@ + a + ".pid"@;
    let n2 = "forward-"@ + b + ".pid"@;
    let k = b.len() - a.len();
    if ends_with(r, n1) && ends_with(r, n2) {
        lemma_common_end(r, n1, n2, n1.len() as int);
        assert(n1[0] == 'f');
        if k < 8 {
            assert(n2[k] == "forward-"@[k]);
        } else {
            assert(n2[k] == b[k - 8]);
        }
    }
}

/// No forward's pid file is the adb tunnel's pid file, wherever the key path
/// does not begin with two separators (the other two requirements are what
/// `Settings::forward_pid_path` and `Settings::adb_tunnel_pid_path` ensure of
/// their results).
pub proof fn law_forward_pid_path_is_not_adb(key: Seq<char>, port: u16, r: Seq<char>, adb: Seq<char>)
    requires
        !two_sep_start(key),
        !two_sep_start(key) ==> ends_with(r, forward_pid_name(port)),
        !two_sep_start(key) ==> ends_with(adb, "adb-tunnel.pid"@),
    ensures
        r != adb,
{
    let n = forward_pid_name(port);
    let d = decimal(port as nat);
    reveal_strlit("forward-");
    reveal_strlit(".pid");
    reveal_strlit("adb-tunnel.pid");
    crate::text::lemma_decimal_shape(port as nat);
    if r == adb {
        lemma_common_end(r, n, "adb-tunnel.pid"@, 5);
        assert(n[n.len() - 5] == d[d.len() - 1]);
        assert("adb-tunnel.pid"@[9] == 'l');
    }
}

/// The event of a captured command that printed `o` (none: it failed).
pub open spec fn printed(o: Option<Seq<char>>) -> EventView {
    Ok(ReplyView::Output(o))
}

/// The event of an action that was done.
pub open spec fn done() -> EventView {
    Ok(ReplyView::Unit)
}

/// `docker` with `args`, spelled out.
pub open spec fn docker_with(args: Seq<Seq<char>>) -> crate::process::InvocationView {
    crate::process::InvocationView { program: "docker"@, args }
}

/// When bringing up (or connecting) finds the container running (the state
/// inspect prints `true`), nothing is created or started: the next action
/// authorizes the key inside the container with `docker exec`, and nothing
/// else about the flow changes.
pub proof fn law_running_container_is_authorized(f: FlowView)
    requires
        f.step == Step::UpState,
    ensures
        next(f, printed(Some("true"@))).0 == (FlowView { step: Step::UpAuthorize, ..f }),
        next(f, printed(Some("true"@))).1 == ActionView::Run(
            docker_with(
                seq![
                    "exec"@,
                    "-u"@,
                    f.settings.user,
                    "-e"@,
                    "BSDEV_PUB="@ + f.pubkey,
                    f.settings.container,
                    "bash"@,
                    "-c"@,
                    crate::docker::AUTHORIZE_SCRIPT@,
                ],
            ),
        ),
{
}

/// The status line of the container names the state the inspect reported:
/// `missing` when the inspect fails, `running` when it prints `true`, and
/// `stopped` when it prints anything else.
pub proof fn law_status_names_the_state(f: FlowView, o: Option<Seq<char>>)
    requires
        f.step == Step::StatusState,
    ensures
        o is None ==> next(f, printed(o)).1 == ActionView::Say(
            "container: "@ + f.settings.container + " (missing)"@,
        ),
        o == Some("true"@) ==> next(f, printed(o)).1 == ActionView::Say(
            "container: "@ + f.settings.container + " (running)"@,
        ),
        (o matches Some(t) && t != "true"@) ==> next(f, printed(o)).1 == ActionView::Say(
            "container: "@ + f.settings.container + " (stopped)"@,
        ),
{
    reveal_strlit(" (");
    reveal_strlit(")");
    reveal_strlit("missing");
    reveal_strlit("running");
    reveal_strlit("stopped");
    reveal_strlit(" (missing)");
    reveal_strlit(" (running)");
    reveal_strlit(" (stopped)");
    let c = f.settings.container;
    assert("container: "@ + c + " ("@ + "missing"@ + ")"@ =~= "container: "@ + c + " (missing)"@);
    assert("container: "@ + c + " ("@ + "running"@ + ")"@ =~= "container: "@ + c + " (running)"@);
    assert("container: "@ + c + " ("@ + "stopped"@ + ")"@ =~= "container: "@ + c + " (stopped)"@);
}

/// A reset counts the container as there exactly when the state inspect
/// found one, running or stopped.
pub proof fn law_reset_sees_every_container(f: FlowView, o: Option<Seq<char>>)
    requires
        f.step == Step::ResetState,
    ensures
        next(f, printed(o)).0.container_exists == (o is Some),
{
}

/// `reset --yes` removes a container that the state inspect found, running
/// or stopped, whatever the home volume's inspect gives: the tunnel is
/// stopped, the removal announced, then `docker rm -f` runs on it.
pub proof fn law_reset_removes_a_found_container(f: FlowView, t: Seq<char>, home: Option<Seq<char>>)
    requires
        f.step == Step::ResetState,
        f.task == (TaskView::Reset { yes: true }),
    ensures
        ({
            let (f1, _) = next(f, printed(Some(t)));
            let (f2, a2) = next(f1, printed(home));
            let (f3, a3) = next(f2, done());
            let (f4, a4) = next(f3, done());
            &&& a2 == ActionView::StopAdbTunnel
            &&& a3 == ActionView::Say("Removing the '"@ + f.settings.container + "' container ..."@)
            &&& a4 == ActionView::Run(docker_with(seq!["rm"@, "-f"@, f.settings.container]))
        }),
{
}

/// Without `--yes`, a reset that found a container, running or stopped,
/// lists it in its warning, right after the warning's head.
pub proof fn law_reset_warns_of_a_found_container(f: FlowView, t: Seq<char>, home: Option<Seq<char>>)
    requires
        f.step == Step::ResetState,
        f.task == (TaskView::Reset { yes: false }),
    ensures
        ({
            let (f1, _) = next(f, printed(Some(t)));
            let (f2, a2) = next(f1, printed(home));
            let (f3, a3) = next(f2, done());
            &&& a2 == ActionView::Warn(crate::session::DELETES@)
            &&& a3 == ActionView::Warn("  - the '"@ + f.settings.container + "' container"@)
        }),
{
}

/// A rebuild that finds the container, running or stopped, announces its
/// removal and runs `docker rm -f` on it before anything is recreated; one
/// that finds none goes straight on to the key.
pub proof fn law_rebuild_removes_a_found_container(f: FlowView, o: Option<Seq<char>>)
    requires
        f.step == Step::RebuildState,
    ensures
        o is Some ==> ({
            let (f1, a1) = next(f, printed(o));
            let (f2, a2) = next(f1, done());
            &&& a1 == ActionView::Say(
                "Removing the old container (the '"@ + f.settings.volume + "' home volume is kept) ..."@,
            )
            &&& a2 == ActionView::Run(docker_with(seq!["rm"@, "-f"@, f.settings.container]))
        }),
        o is None ==> next(f, printed(o)).1 is EnsureKeypair,
{
}

/// A config subcommand that changes a setting saves the loaded config with
/// that one setting changed and the other as it was loaded.
pub proof fn law_config_changes_one_setting(f: FlowView, c: ConfigView)
    requires
        f.step == Step::ConfigLoad,
    ensures
        f.task matches TaskView::Adb { unset: true, .. } ==> next(f, Ok(ReplyView::Loaded(c))).1
            == ActionView::SaveConfig((ConfigView { repos_dir: c.repos_dir, adb_port: None })),
        f.task matches TaskView::Adb { port: Some(p), unset: false } ==> next(
            f,
            Ok(ReplyView::Loaded(c)),
        ).1 == ActionView::SaveConfig((ConfigView { repos_dir: c.repos_dir, adb_port: Some(p) })),
        f.task matches TaskView::Repos { unset: true, .. } ==> next(f, Ok(ReplyView::Loaded(c))).1
            == ActionView::SaveConfig((ConfigView { repos_dir: None, adb_port: c.adb_port })),
        f.task matches TaskView::Repos { path: Some(p), unset: false } ==> next(
            f,
            Ok(ReplyView::Loaded(c)),
        ).1 == ActionView::SaveConfig((ConfigView { repos_dir: Some(p), adb_port: c.adb_port })),
{
}

/// When bringing up finds the container stopped (the state inspect prints
/// anything but `true`), it announces the start, runs `docker start`, and
/// once that is done authorizes the key: nothing is created.
pub proof fn law_stopped_container_is_started(f: FlowView, t: Seq<char>)
    requires
        f.step == Step::UpState,
        t != "true"@,
    ensures
        ({
            let (f1, a1) = next(f, printed(Some(t)));
            let (f2, a2) = next(f1, done());
            let (f3, a3) = next(f2, done());
            &&& a1 == ActionView::Say(crate::session::STARTING@)
            &&& a2 == ActionView::Run(docker_with(seq!["start"@, f.settings.container]))
            &&& a3 == ActionView::Run(
                docker_with(
                    seq![
                        "exec"@,
                        "-u"@,
                        f.settings.user,
                        "-e"@,
                        "BSDEV_PUB="@ + f.pubkey,
                        f.settings.container,
                        "bash"@,
                        "-c"@,
                        crate::docker::AUTHORIZE_SCRIPT@,
                    ],
                ),
            )
        }),
{
}

/// `down` stops a container that the state inspect found, running or
/// stopped, and only reports when there is none.
pub proof fn law_down_stops_a_found_container(f: FlowView, o: Option<Seq<char>>)
    requires
        f.step == Step::DownState,
    ensures
        o is Some ==> next(f, printed(o)).1 == ActionView::Run(docker_with(seq!["stop"@, f.settings.container])),
        o is None ==> next(f, printed(o)).1 == ActionView::Say(crate::session::NO_CONTAINER@),
{
}

/// The status lines of the image and the home volume say `present` exactly
/// when their inspect succeeded, and `missing` otherwise.
pub proof fn law_status_names_presence(f: FlowView, o: Option<Seq<char>>)
    ensures
        f.step == Step::StatusImage && o is Some ==> next(f, printed(o)).1 == ActionView::Say(
            "image:     "@ + f.settings.image + " (present)"@,
        ),
        f.step == Step::StatusImage && o is None ==> next(f, printed(o)).1 == ActionView::Say(
            "image:     "@ + f.settings.image + " (missing)"@,
        ),
        f.step == Step::StatusVolume && o is Some ==> next(f, printed(o)).1 == ActionView::Say(
            "home:      "@ + f.settings.volume + " (present)"@,
        ),
        f.step == Step::StatusVolume && o is None ==> next(f, printed(o)).1 == ActionView::Say(
            "home:      "@ + f.settings.volume + " (missing)"@,
        ),
{
    reveal_strlit(" (");
    reveal_strlit(")");
    reveal_strlit("missing");
    reveal_strlit("present");
    reveal_strlit(" (missing)");
    reveal_strlit(" (present)");
    let i = f.settings.image;
    let v = f.settings.volume;
    assert("image:     "@ + i + " ("@ + "present"@ + ")"@ =~= "image:     "@ + i + " (present)"@);
    assert("image:     "@ + i + " ("@ + "missing"@ + ")"@ =~= "image:     "@ + i + " (missing)"@);
    assert("home:      "@ + v + " ("@ + "present"@ + ")"@ =~= "home:      "@ + v + " (present)"@);
    assert("home:      "@ + v + " ("@ + "missing"@ + ")"@ =~= "home:      "@ + v + " (missing)"@);
}

} // verus!
