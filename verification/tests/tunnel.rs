use bsdev::error::BsdevError;
use bsdev::process::Platform;
use bsdev::tunnel::{is_alive, is_alive_command, kill};

#[test]
fn kill_and_probe_commands() {
    let k = kill(Platform::Unix, 4242);
    assert_eq!(k.program, "kill");
    assert_eq!(k.args, vec!["-TERM", "4242"]);
    let k = kill(Platform::Windows, 4242);
    assert_eq!(k.program, "taskkill");
    assert_eq!(k.args, vec!["/PID", "4242", "/F"]);
    let q = is_alive_command(Platform::Windows, 7);
    assert_eq!(q.program, "tasklist");
    assert_eq!(q.args, vec!["/FI", "PID eq 7", "/NH"]);
    let q = is_alive_command(Platform::Unix, 7);
    assert_eq!(q.args, vec!["-0", "7"]);
}

#[test]
fn liveness_from_the_probe() {
    assert!(is_alive(Platform::Unix, 7, &Ok(Some(String::new()))));
    assert!(!is_alive(Platform::Unix, 7, &Ok(None)));
    assert!(!is_alive(Platform::Unix, 7, &Err(BsdevError::NoHome)));
    assert!(is_alive(Platform::Windows, 1234, &Ok(Some("ssh.exe  1234 Console".to_string()))));
    assert!(!is_alive(Platform::Windows, 1234, &Ok(Some("INFO: No tasks are running".to_string()))));
}
