use bsdev::cli::Command;
use bsdev::config::Config;
use bsdev::error::BsdevError;
use bsdev::process::Platform;
use bsdev::session::{is_yes, task_for, Action, Flow, Reply, Task};
use bsdev::settings::Settings;

fn settings() -> Settings {
    Settings {
        image: "img".to_string(),
        container: "bsdev".to_string(),
        volume: "bsdev-home".to_string(),
        repos_dir: None,
        port: 2222,
        user: "bsdev".to_string(),
        key_path: "/k/id_ed25519".to_string(),
        host_hostname: "h".to_string(),
        adb_port: None,
    }
}

fn describe(a: &Action) -> String {
    match a {
        Action::Run(i) => format!("run {} {}", i.program, i.args.join(" ")),
        Action::Capture(i) => format!("capture {} {}", i.program, i.args.join(" ")),
        Action::EnsureKeypair(i) => format!("keypair {}", i.program),
        Action::ReadPubkey => "read pubkey".to_string(),
        Action::CreateReposDir(d) => format!("mkdir {d}"),
        Action::StartAdbTunnel => "start tunnel".to_string(),
        Action::StopAdbTunnel => "stop tunnel".to_string(),
        Action::SpawnCodeListener => "code listener".to_string(),
        Action::Say(s) => format!("say {s}"),
        Action::Warn(s) => format!("warn {s}"),
        Action::Confirm(s) => format!("confirm {s}"),
        Action::LoadConfig => "load config".to_string(),
        Action::SaveConfig(c) => format!("save {:?} {:?}", c.repos_dir, c.adb_port),
        Action::Finish(None) => "ok".to_string(),
        Action::Finish(Some(f)) => format!("fail {:?}: {}", f.context, f.cause),
    }
}

/// Run a flow, answering each action from `replies` (and `Unit` once they
/// run out), and describe every action it asked for.
fn drive(task: Task, s: Settings, replies: Vec<Result<Reply, BsdevError>>) -> Vec<String> {
    let (mut flow, mut action) = Flow::begin(task, s, Platform::Unix);
    let mut out = vec![describe(&action)];
    let mut replies = replies.into_iter();
    while !flow.is_finished() {
        let reply = replies.next().unwrap_or(Ok(Reply::Unit));
        let (f, a) = flow.step(reply);
        flow = f;
        action = a;
        out.push(describe(&action));
    }
    out
}

fn output(s: Option<&str>) -> Result<Reply, BsdevError> {
    Ok(Reply::Output(s.map(String::from)))
}

#[test]
fn up_pulls_creates_and_authorizes() {
    let actions = drive(
        Task::Up,
        settings(),
        vec![
            output(Some("27.0")),
            Ok(Reply::Unit),
            Ok(Reply::Text("ssh-ed25519 KEY\n".into())),
            output(None),
            Ok(Reply::Unit),
            Ok(Reply::Unit),
            output(None),
        ],
    );
    assert_eq!(actions[0], "capture docker version --format {{.Server.Version}}");
    assert_eq!(actions[1], "keypair ssh-keygen");
    assert_eq!(actions[2], "read pubkey");
    assert_eq!(actions[3], "capture docker image inspect img");
    assert_eq!(actions[4], "say Pulling img ...");
    assert_eq!(actions[5], "run docker pull img");
    assert_eq!(actions[6], "capture docker inspect -f {{.State.Running}} bsdev");
    assert_eq!(actions[7], "say Creating the bsdev container ...");
    assert!(actions[8].starts_with("run docker run -d --name bsdev"));
    assert!(actions[8].contains("BSDEV_AUTHORIZED_KEY=ssh-ed25519 KEY -e"));
    assert!(actions[9].starts_with("run docker exec -u bsdev -e BSDEV_PUB=ssh-ed25519 KEY bsdev bash -c"));
    assert_eq!(actions[10], "start tunnel");
    assert_eq!(actions[11], "say bsdev is up. Run `bsdev` to connect.");
    assert_eq!(actions[12], "ok");
    assert_eq!(actions.len(), 13);
}

#[test]
fn connect_starts_a_stopped_container_then_opens_a_session() {
    let actions = drive(
        Task::Connect,
        settings(),
        vec![
            output(Some("27.0")),
            Ok(Reply::Unit),
            Ok(Reply::Text("K".into())),
            output(Some("[]")),
            output(Some("false")),
            Ok(Reply::Unit),
            Ok(Reply::Unit),
            Ok(Reply::Unit),
            Ok(Reply::Unit),
            Ok(Reply::Unit),
            Err(BsdevError::CommandFailed { cmd: "ssh".into(), code: "1".into() }),
        ],
    );
    assert_eq!(actions[4], "capture docker inspect -f {{.State.Running}} bsdev");
    assert_eq!(actions[5], "say Starting the bsdev container ...");
    assert_eq!(actions[6], "run docker start bsdev");
    assert!(actions[7].starts_with("run docker exec"));
    assert_eq!(actions[8], "start tunnel");
    assert_eq!(actions[9], "code listener");
    assert!(actions[10].starts_with("run ssh -t -R 127.0.0.1:9918:127.0.0.1:9918 -p 2222"));
    assert_eq!(actions[11], "ok");
    // An existing container is started, never recreated.
    assert!(actions.iter().all(|a| !a.starts_with("run docker run")));
}

#[test]
fn a_missing_docker_stops_everything() {
    let actions = drive(Task::Up, settings(), vec![Err(BsdevError::CommandNotFound("docker".into()))]);
    assert_eq!(
        actions[1],
        "fail Some(\"Docker is required to run bsdev\"): Docker is not available: the `docker` command was not found on PATH"
    );
    let actions = drive(Task::Status, settings(), vec![output(None)]);
    assert_eq!(actions, vec![
        "capture docker version --format {{.Server.Version}}".to_string(),
        "say docker:    NOT available".to_string(),
        "ok".to_string(),
    ]);
}

#[test]
fn status_reports_every_part() {
    let mut s = settings();
    s.repos_dir = Some("/r".into());
    s.adb_port = Some(5037);
    let actions = drive(
        Task::Status,
        s,
        vec![output(Some("27")), Ok(Reply::Unit), output(Some("[]")), Ok(Reply::Unit), output(Some("true")), Ok(Reply::Unit), output(None)],
    );
    let said: Vec<&String> = actions.iter().filter(|a| a.starts_with("say ")).collect();
    assert_eq!(said, vec![
        "say docker:    available",
        "say image:     img (present)",
        "say container: bsdev (running)",
        "say home:      bsdev-home (missing)",
        "say repos:     /r",
        "say key:       /k/id_ed25519",
        "say adb:       forwarding host port 5037",
    ]);
    assert_eq!(actions.last().unwrap(), "ok");
}

#[test]
fn down_stops_but_keeps_the_home_volume() {
    let actions = drive(Task::Down, settings(), vec![output(Some("27")), Ok(Reply::Unit), output(Some("true"))]);
    assert_eq!(actions, vec![
        "capture docker version --format {{.Server.Version}}".to_string(),
        "stop tunnel".to_string(),
        "capture docker inspect -f {{.State.Running}} bsdev".to_string(),
        "run docker stop bsdev".to_string(),
        "say bsdev stopped.".to_string(),
        "ok".to_string(),
    ]);
    let actions = drive(Task::Down, settings(), vec![output(Some("27")), Ok(Reply::Unit), output(None)]);
    assert_eq!(actions[3], "say No bsdev container to stop.");
}

#[test]
fn rebuild_recreates_and_keeps_the_home_volume() {
    let mut s = settings();
    s.repos_dir = Some("/r".into());
    let actions = drive(
        Task::Rebuild,
        s,
        vec![output(Some("27")), Ok(Reply::Unit), Ok(Reply::Unit), Ok(Reply::Unit), output(Some("true")), Ok(Reply::Unit), Ok(Reply::Unit), Ok(Reply::Unit), Ok(Reply::Text("K".into()))],
    );
    assert_eq!(actions[2], "say Pulling img ...");
    assert_eq!(actions[5], "say Removing the old container (the 'bsdev-home' home volume is kept) ...");
    assert_eq!(actions[6], "run docker rm -f bsdev");
    assert_eq!(actions[9], "mkdir /r");
    assert!(actions.iter().all(|a| !a.starts_with("run docker volume rm")));
    assert_eq!(actions[actions.len() - 2], "say bsdev rebuilt. Run `bsdev` to connect.");
    let failed = drive(Task::Rebuild, settings(), vec![output(Some("27")), Ok(Reply::Unit), Ok(Reply::Unit), Err(BsdevError::Io("x".into()))]);
    assert!(failed.last().unwrap().starts_with("fail None: could not pull image `img`"));
}

#[test]
fn reset_asks_before_deleting() {
    let replies = vec![output(Some("27")), output(Some("true")), output(Some("[]")), Ok(Reply::Unit), Ok(Reply::Unit), Ok(Reply::Unit)];
    let mut answered = replies.clone_replies();
    answered.push(Ok(Reply::Text(" Yes\n".into())));
    let actions = drive(Task::Reset { yes: false }, settings(), answered);
    assert_eq!(actions[3], "warn This permanently deletes:");
    assert_eq!(actions[4], "warn   - the 'bsdev' container");
    assert_eq!(actions[5], "warn   - the 'bsdev-home' home volume (ALL repos, provisioning and data)");
    assert_eq!(actions[6], "confirm Continue? [y/N] ");
    assert_eq!(actions[7], "stop tunnel");
    assert_eq!(actions[8], "say Removing the 'bsdev' container ...");
    assert_eq!(actions[9], "run docker rm -f bsdev");
    assert_eq!(actions[10], "say Removing the 'bsdev-home' home volume ...");
    assert_eq!(actions[11], "run docker volume rm bsdev-home");
    assert_eq!(actions[12], "say Reset complete. Run `bsdev` to start fresh.");
    // The key and the repos directory are left alone.
    assert!(actions.iter().all(|a| !a.starts_with("keypair") && !a.starts_with("mkdir")));

    let mut declined = replies.clone_replies();
    declined.push(Ok(Reply::Text("n".into())));
    let actions = drive(Task::Reset { yes: false }, settings(), declined);
    assert_eq!(actions[7], "say Aborted.");
    assert!(actions.iter().all(|a| !a.starts_with("run ")));

    let mut piped = replies.clone_replies();
    piped.push(Ok(Reply::NoTerminal));
    let actions = drive(Task::Reset { yes: false }, settings(), piped);
    assert_eq!(
        actions.last().unwrap(),
        "fail None: Refusing to reset without confirmation; re-run with --yes to reset non-interactively."
    );
}

#[test]
fn reset_with_yes_or_with_nothing_there() {
    let actions = drive(Task::Reset { yes: true }, settings(), vec![output(Some("27")), output(None), output(Some("[]"))]);
    assert_eq!(actions[3], "stop tunnel");
    assert_eq!(actions[4], "say Removing the 'bsdev-home' home volume ...");
    assert_eq!(actions[5], "run docker volume rm bsdev-home");
    let actions = drive(Task::Reset { yes: true }, settings(), vec![output(Some("27")), output(None), output(None)]);
    assert_eq!(actions[3], "say Nothing to reset - no bsdev container or home volume exist.");
    assert_eq!(actions[4], "ok");
}

#[test]
fn repos_and_adb_persist_and_report() {
    let loaded = || Ok(Reply::Loaded(Config { repos_dir: None, adb_port: Some(1) }));
    let a = drive(Task::Repos { path: Some("/p".into()), unset: false }, settings(), vec![loaded()]);
    assert_eq!(a, vec!["load config", "save Some(\"/p\") Some(1)", "say Persisted repos directory: /p", "ok"]);
    let a = drive(Task::Repos { path: None, unset: true }, settings(), vec![loaded()]);
    assert_eq!(a[1], "save None Some(1)");
    assert_eq!(a[2], "say Cleared the persisted repos directory.");
    let a = drive(Task::Repos { path: None, unset: false }, settings(), vec![loaded()]);
    assert!(a[1].starts_with("say No repos directory persisted."));
    let a = drive(Task::Adb { port: None, unset: false }, settings(), vec![loaded()]);
    assert_eq!(a[1], "say 1");
    let a = drive(Task::Adb { port: None, unset: false }, settings(), vec![Ok(Reply::Loaded(Config::default()))]);
    assert_eq!(
        a[1],
        "say No adb port persisted. Run `bsdev adb [<port>]` to set one (defaults to 5037), or set BSDEV_ADB_PORT to override for a single run."
    );
    let a = drive(Task::Adb { port: Some(5038), unset: false }, settings(), vec![loaded()]);
    assert_eq!(a[1], "save None Some(5038)");
    assert_eq!(a[2], "say Persisted adb port: 5038. Run `bsdev up` (or `bsdev`) to start forwarding it.");
    let a = drive(Task::Adb { port: None, unset: true }, settings(), vec![Err(BsdevError::NoHome)]);
    assert_eq!(a[1], "fail Some(\"Failed to clear the persisted adb port\"): could not determine your home directory");
}

#[test]
fn commands_map_to_tasks() {
    assert!(task_for(Some(Command::Update { yes: true })).is_none());
    assert!(matches!(task_for(None), Some(Task::Connect)));
    assert!(matches!(task_for(Some(Command::Reset { yes: true })), Some(Task::Reset { yes: true })));
    assert!(is_yes(" YES \n"));
    assert!(is_yes("y"));
    assert!(!is_yes("yeah"));
    assert!(!is_yes(""));
}

trait CloneReplies {
    fn clone_replies(&self) -> Vec<Result<Reply, BsdevError>>;
}

impl CloneReplies for Vec<Result<Reply, BsdevError>> {
    fn clone_replies(&self) -> Vec<Result<Reply, BsdevError>> {
        self.iter()
            .map(|r| match r {
                Ok(Reply::Output(o)) => Ok(Reply::Output(o.clone())),
                Ok(Reply::Text(t)) => Ok(Reply::Text(t.clone())),
                Ok(Reply::Unit) => Ok(Reply::Unit),
                Ok(Reply::NoTerminal) => Ok(Reply::NoTerminal),
                Ok(Reply::Loaded(c)) => Ok(Reply::Loaded(c.duplicate())),
                Err(e) => Err(e.duplicate()),
            })
            .collect()
    }
}

#[test]
fn system_failures_keep_the_systems_words() {
    let mut s = settings();
    s.repos_dir = Some("/r".into());
    let replies = vec![output(Some("27")), Ok(Reply::Unit), Ok(Reply::Unit), Ok(Reply::Unit), output(Some("true")), Ok(Reply::Unit), Ok(Reply::Unit), Ok(Reply::Unit), Ok(Reply::Text("K".into())), Err(BsdevError::Io("Permission denied (os error 13)".into()))];
    let actions = drive(Task::Rebuild, s, replies);
    assert_eq!(actions[9], "mkdir /r");
    assert_eq!(
        actions.last().unwrap(),
        "fail Some(\"Failed to create the bsdev repos directory\"): Permission denied (os error 13)"
    );

    let replies = vec![output(Some("27")), output(Some("true")), output(Some("[]")), Ok(Reply::Unit), Ok(Reply::Unit), Ok(Reply::Unit), Err(BsdevError::Io("stream closed".into()))];
    let actions = drive(Task::Reset { yes: false }, settings(), replies);
    assert_eq!(actions[6], "confirm Continue? [y/N] ");
    assert_eq!(actions.last().unwrap(), "fail Some(\"Failed to read confirmation\"): stream closed");
}
