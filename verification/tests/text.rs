use bsdev::error::BsdevError;
use bsdev::process::{captured, exited_unsuccessfully, render, render_detached, spawn_failure, Invocation};
use bsdev::text::{contains_str, decimal_string, parse_unsigned_str, signed_decimal_string, trim_str};

#[test]
fn numbers_round_trip() {
    assert_eq!(decimal_string(0), "0");
    assert_eq!(decimal_string(5037), "5037");
    assert_eq!(decimal_string(u128::MAX), u128::MAX.to_string());
    assert_eq!(signed_decimal_string(-17), "-17");
    assert_eq!(signed_decimal_string(i32::MIN), "-2147483648");
    for n in [0u64, 9, 10, 65535, 4294967295] {
        assert_eq!(parse_unsigned_str(&decimal_string(n as u128), 4294967295), Some(n));
    }
    assert_eq!(parse_unsigned_str("", 10), None);
    assert_eq!(parse_unsigned_str("+", 10), None);
    assert_eq!(parse_unsigned_str("-1", 10), None);
    assert_eq!(parse_unsigned_str("11", 10), None);
    assert_eq!(parse_unsigned_str("0010", 10), Some(10));
    assert_eq!(parse_unsigned_str(" 1", 10), None);
}

#[test]
fn trimming_and_searching() {
    assert_eq!(trim_str("\u{3000} a b \t\n"), "a b");
    assert_eq!(trim_str("   "), "");
    assert!(contains_str("INFO: 1234 ssh.exe", "1234"));
    assert!(!contains_str("123", "1234"));
    assert!(contains_str("x", ""));
}

#[test]
fn command_outcomes() {
    let inv = Invocation::new("docker", vec!["stop".to_string(), "bsdev".to_string()]);
    assert_eq!(render(&inv), "+ docker stop bsdev");
    assert_eq!(render_detached(&inv), "+ docker stop bsdev (detached)");
    match exited_unsuccessfully("docker", Some(125)) {
        BsdevError::CommandFailed { cmd, code } => {
            assert_eq!(cmd, "docker");
            assert_eq!(code, "125");
        }
        _ => panic!("expected a failed command"),
    }
    match exited_unsuccessfully("ssh", None) {
        BsdevError::CommandFailed { code, .. } => assert_eq!(code, "signal"),
        _ => panic!("expected a failed command"),
    }
    match spawn_failure("code", true, "no such file".to_string()) {
        BsdevError::CommandNotFound(p) => assert_eq!(p, "code"),
        _ => panic!("expected a missing command"),
    }
    match spawn_failure("code", false, "denied".to_string()) {
        BsdevError::Io(m) => assert_eq!(m, "denied"),
        _ => panic!("expected an io error"),
    }
    assert_eq!(captured(true, " true\n"), Some("true".to_string()));
    assert_eq!(captured(false, "true"), None);
}

#[test]
fn error_messages() {
    assert_eq!(BsdevError::Io("x".into()).message(), "IO error: x");
    assert_eq!(
        BsdevError::CommandNotFound("docker".into()).message(),
        "`docker` was not found on PATH - is it installed?"
    );
    assert_eq!(
        BsdevError::CommandFailed { cmd: "ssh".into(), code: "255".into() }.message(),
        "`ssh` exited with status 255"
    );
    assert_eq!(BsdevError::DockerUnavailable("why".into()).message(), "Docker is not available: why");
    assert_eq!(
        BsdevError::ImagePull("i".into()).message(),
        "could not pull image `i` - is it published, and are you logged in to the registry (try `docker login ghcr.io`)?"
    );
    assert_eq!(BsdevError::NoHome.message(), "could not determine your home directory");
    assert_eq!(
        BsdevError::Config { path: "/c.json".into(), source: "bad".into() }.message(),
        "could not parse config file `/c.json`: bad"
    );
}
