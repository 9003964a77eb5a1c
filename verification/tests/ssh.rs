use bsdev::error::BsdevError;
use bsdev::process::Platform;
use bsdev::settings::Settings;
use bsdev::ssh::{adb_tunnel_args, connect, connect_args, keygen_command, read_pubkey};

fn settings() -> Settings {
    Settings {
        image: "img".to_string(),
        container: "bsdev".to_string(),
        volume: "bsdev-home".to_string(),
        repos_dir: None,
        port: 2222,
        user: "bsdev".to_string(),
        key_path: "/state/bsdev/id_ed25519".to_string(),
        host_hostname: "my-laptop".to_string(),
        adb_port: None,
    }
}

#[test]
fn connect_args_are_explicit_and_alias_free() {
    let a = settings();
    let args = connect_args(&a, Platform::Unix);
    assert!(args.contains(&"-t".to_string()));
    assert!(args
        .windows(2)
        .any(|w| w[0] == "-R" && w[1] == "127.0.0.1:9918:127.0.0.1:9918"));
    assert!(args.windows(2).any(|w| w[0] == "-p" && w[1] == "2222"));
    assert!(args.contains(&"-i".to_string()));
    // Host keys are discarded (container regenerates them on recreate).
    assert!(args.contains(&"StrictHostKeyChecking=no".to_string()));
    assert!(args
        .iter()
        .any(|a| a.starts_with("UserKnownHostsFile=") && (a.ends_with("/dev/null") || a.ends_with("NUL"))));
    assert_eq!(args.last().unwrap(), "bsdev@127.0.0.1");
}

#[test]
fn adb_tunnel_args_are_a_bare_reverse_forward() {
    let a = settings();
    let args = adb_tunnel_args(&a, Platform::Unix, 5037);
    assert!(args.contains(&"-N".to_string()));
    // No pty and no code-bridge forward - just the adb reverse-forward.
    assert!(!args.contains(&"-t".to_string()));
    assert!(args
        .windows(2)
        .any(|w| w[0] == "-R" && w[1] == "127.0.0.1:5037:127.0.0.1:5037"));
    assert!(args.windows(2).any(|w| w[0] == "-p" && w[1] == "2222"));
    assert_eq!(args.last().unwrap(), "bsdev@127.0.0.1");
}

#[test]
fn windows_sessions_discard_host_keys_into_nul() {
    let args = connect_args(&settings(), Platform::Windows);
    assert!(args.contains(&"UserKnownHostsFile=NUL".to_string()));
    let args = connect_args(&settings(), Platform::Unix);
    assert!(args.contains(&"UserKnownHostsFile=/dev/null".to_string()));
    let expected: Vec<String> = vec![
        "-t", "-R", "127.0.0.1:9918:127.0.0.1:9918", "-p", "2222", "-i", "/state/bsdev/id_ed25519",
        "-o", "IdentitiesOnly=yes", "-o", "StrictHostKeyChecking=no", "-o",
        "UserKnownHostsFile=/dev/null", "-o", "LogLevel=ERROR", "bsdev@127.0.0.1",
    ]
    .into_iter()
    .map(String::from)
    .collect();
    assert_eq!(args, expected);
}

#[test]
fn a_failing_remote_shell_is_no_launcher_error() {
    let failed = BsdevError::CommandFailed { cmd: "ssh".to_string(), code: "255".to_string() };
    assert!(connect(Err(failed)).is_ok());
    assert!(connect(Ok(())).is_ok());
    assert!(connect(Err(BsdevError::CommandNotFound("ssh".to_string()))).is_err());
}

#[test]
fn keygen_and_public_key() {
    let k = keygen_command(&settings());
    assert_eq!(k.program, "ssh-keygen");
    assert_eq!(k.args, vec!["-t", "ed25519", "-N", "", "-C", "bsdev", "-f", "/state/bsdev/id_ed25519"]);
    assert_eq!(read_pubkey("  ssh-ed25519 AAAA bsdev\n"), "ssh-ed25519 AAAA bsdev");
}
