use bsdev::codebridge::{code_uri, hex_encode, launch_code, parse_request};
use bsdev::process::Platform;

#[test]
fn hex_encode_matches_container_name() {
    assert_eq!(hex_encode("bsdev"), "6273646576");
}

#[test]
fn parse_request_handles_markers_and_bare_paths() {
    assert_eq!(parse_request("dir /home/bsdev/repo\n"), Some((false, "/home/bsdev/repo".to_string())));
    assert_eq!(parse_request("file /home/bsdev/a.txt\n"), Some((true, "/home/bsdev/a.txt".to_string())));
    // No marker -> folder open of the whole line.
    assert_eq!(parse_request("/home/bsdev/repo\n"), Some((false, "/home/bsdev/repo".to_string())));
    assert_eq!(parse_request("  \n"), None);
}

#[test]
fn attached_container_uri_shape() {
    // Mirror what launch_code builds for a folder.
    let uri = format!(
        "vscode-remote://attached-container+{}{}",
        hex_encode("bsdev"),
        "/home/bsdev/Repositories/PSTools"
    );
    assert_eq!(
        uri,
        "vscode-remote://attached-container+6273646576/home/bsdev/Repositories/PSTools"
    );
    assert_eq!(code_uri("bsdev", "/home/bsdev/Repositories/PSTools"), uri);
}

#[test]
fn hex_encodes_utf8_bytes() {
    assert_eq!(hex_encode(""), "");
    assert_eq!(hex_encode("é"), "c3a9");
    assert_eq!(hex_encode("\n\u{7f}"), "0a7f");
}

#[test]
fn code_launches_per_platform() {
    let unix = launch_code(Platform::Unix, "bsdev", "/a.txt", true);
    assert_eq!(unix.program, "code");
    assert_eq!(unix.args, vec!["--file-uri", "vscode-remote://attached-container+6273646576/a.txt"]);
    let win = launch_code(Platform::Windows, "bsdev", "/r", false);
    assert_eq!(win.program, "cmd");
    assert_eq!(win.args, vec!["/C", "code", "--folder-uri", "vscode-remote://attached-container+6273646576/r"]);
    assert_eq!(parse_request("file   spaced name  "), Some((true, "spaced name".to_string())));
    assert_eq!(parse_request("open /x"), Some((false, "open /x".to_string())));
}
