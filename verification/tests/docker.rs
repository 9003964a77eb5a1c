use bsdev::docker::{
    ensure_available, ensure_available_command, image_present, pull_image, run_args, run_container,
    state, ContainerState,
};
use bsdev::error::BsdevError;
use bsdev::settings::Settings;

fn settings() -> Settings {
    Settings {
        image: "ghcr.io/brownserve-uk/bsdev:latest".to_string(),
        container: "bsdev".to_string(),
        volume: "bsdev-home".to_string(),
        repos_dir: None,
        port: 2222,
        user: "bsdev".to_string(),
        key_path: "/state/bsdev/id_ed25519".to_string(),
        host_hostname: "my-laptop".to_string(),
        adb_port: None,
    }
}

fn has_pair(args: &[String], a: &str, b: &str) -> bool {
    args.windows(2).any(|w| w[0] == a && w[1] == b)
}

#[test]
fn run_args_has_expected_shape() {
    let args = run_args(&settings(), "ssh-ed25519 AAAA test");
    assert_eq!(args[0], "run");
    assert!(args.contains(&"-d".to_string()));
    assert!(has_pair(&args, "--name", "bsdev"));
    assert!(has_pair(&args, "--hostname", "bsdev"));
    assert!(has_pair(&args, "--restart", "unless-stopped"));
    assert!(has_pair(&args, "-p", "127.0.0.1:2222:22"));
    assert!(has_pair(&args, "-v", "bsdev-home:/home/bsdev"));
    assert!(has_pair(&args, "-e", "BSDEV_AUTHORIZED_KEY=ssh-ed25519 AAAA test"));
    assert!(has_pair(&args, "-e", "BSDEV_HOST_HOSTNAME=my-laptop"));
    // The image is always the final positional argument.
    assert_eq!(args.last().unwrap(), "ghcr.io/brownserve-uk/bsdev:latest");
}

#[test]
fn run_args_honours_a_custom_port() {
    let mut s = settings();
    s.port = 2200;
    let args = run_args(&s, "k");
    assert!(has_pair(&args, "-p", "127.0.0.1:2200:22"));
}

#[test]
fn run_args_omits_repos_mount_when_unset() {
    let args = run_args(&settings(), "k");
    assert!(!args.iter().any(|a| a.contains("/host-repos")));
}

#[test]
fn run_args_includes_repos_mount_when_set() {
    let mut s = settings();
    s.repos_dir = Some("/host/repos".to_string());
    let args = run_args(&s, "k");
    assert!(has_pair(&args, "-v", "/host/repos:/home/bsdev/host-repos"));
}

#[test]
fn run_args_full_vector_with_repos_mount() {
    let mut s = settings();
    s.repos_dir = Some("/r".to_string());
    let args = run_args(&s, "KEY");
    let expected: Vec<String> = vec![
        "run", "-d", "--name", "bsdev", "--hostname", "bsdev", "--restart", "unless-stopped", "-p",
        "127.0.0.1:2222:22", "-v", "bsdev-home:/home/bsdev", "-v", "/r:/home/bsdev/host-repos", "-e",
        "BSDEV_AUTHORIZED_KEY=KEY", "-e", "BSDEV_HOST_HOSTNAME=my-laptop",
        "ghcr.io/brownserve-uk/bsdev:latest",
    ]
    .into_iter()
    .map(String::from)
    .collect();
    assert_eq!(args, expected);
    let inv = run_container(&s, "KEY");
    assert_eq!(inv.program, "docker");
    assert_eq!(inv.args, expected);
}

#[test]
fn availability_reads_the_version_query() {
    let q = ensure_available_command();
    assert_eq!(q.program, "docker");
    assert_eq!(q.args, vec!["version", "--format", "{{.Server.Version}}"]);
    assert!(ensure_available(Ok(Some("27.0.1".to_string()))).is_ok());
    match ensure_available(Ok(None)) {
        Err(BsdevError::DockerUnavailable(m)) => {
            assert_eq!(m, "the Docker daemon is not responding (is Docker running?)")
        }
        _ => panic!("expected an unavailable daemon"),
    }
    match ensure_available(Err(BsdevError::CommandNotFound("docker".to_string()))) {
        Err(BsdevError::DockerUnavailable(m)) => {
            assert_eq!(m, "the `docker` command was not found on PATH")
        }
        _ => panic!("expected a missing docker"),
    }
    match ensure_available(Err(BsdevError::Io("boom".to_string()))) {
        Err(BsdevError::Io(m)) => assert_eq!(m, "boom"),
        _ => panic!("expected the error to stand"),
    }
}

#[test]
fn container_state_reads_the_running_flag() {
    assert_eq!(state(Ok(None)).ok(), Some(ContainerState::Missing));
    assert_eq!(state(Ok(Some("true".to_string()))).ok(), Some(ContainerState::Running));
    assert_eq!(state(Ok(Some("false".to_string()))).ok(), Some(ContainerState::Stopped));
    assert!(state(Err(BsdevError::NoHome)).is_err());
    assert_eq!(image_present(Ok(Some(String::new()))).ok(), Some(true));
    assert_eq!(image_present(Ok(None)).ok(), Some(false));
}

#[test]
fn a_failed_pull_names_the_image() {
    let r = pull_image("img:1", Err(BsdevError::CommandFailed { cmd: "docker".into(), code: "1".into() }));
    match r {
        Err(BsdevError::ImagePull(i)) => assert_eq!(i, "img:1"),
        _ => panic!("expected an image pull error"),
    }
    assert!(pull_image("img:1", Ok(())).is_ok());
}

#[test]
fn authorize_key_runs_the_idempotent_script() {
    let inv = bsdev::docker::ensure_authorized_key(&settings(), "ssh-ed25519 K");
    assert_eq!(inv.program, "docker");
    assert_eq!(&inv.args[..6], &["exec", "-u", "bsdev", "-e", "BSDEV_PUB=ssh-ed25519 K", "bsdev"]);
    assert_eq!(inv.args[6], "bash");
    assert_eq!(inv.args[7], "-c");
    assert!(inv.args[8].contains("grep -qxF \"$BSDEV_PUB\" ~/.ssh/authorized_keys"));
    assert_eq!(bsdev::docker::remove("c").args, vec!["rm", "-f", "c"]);
    assert_eq!(bsdev::docker::remove_volume("v").args, vec!["volume", "rm", "v"]);
    assert_eq!(bsdev::docker::started_at("c").args, vec!["inspect", "-f", "{{.State.StartedAt}}", "c"]);
}
