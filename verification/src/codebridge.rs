//! The reverse `code` channel: requests from inside the container to open a
//! path in the host's VSCode, attached to the running container.

use vstd::prelude::*;
use vstd::string::StringSliceAdditionalSpecFns;
use crate::process::{call, push_arg, Invocation, InvocationView, Platform, strings};
use crate::text::{find_space, hex, trim};

verus! {

/// Fixed loopback port of the `code` channel, reverse-forwarded into the
/// container.
pub const CODE_PORT: u16 = 9918;

/// What a `<kind> <path>` request line asks for: whether a file (rather than
/// a folder) is to be opened, and the path. A blank line asks nothing; a line
/// whose first word is not `file` or `dir` is a folder path as a whole.
pub open spec fn request(line: Seq<char>) -> Option<(bool, Seq<char>)> {
    let t = trim(line);
    if t.len() == 0 {
        None
    } else {
        match find_space(t) {
            Some(i) => {
                let head = t.subrange(0, i);
                let rest = t.subrange(i + 1, t.len() as int);
                if head == "file"@ {
                    Some((true, trim(rest)))
                } else if head == "dir"@ {
                    Some((false, trim(rest)))
                } else {
                    Some((false, t))
                }
            },
            None => Some((false, t)),
        }
    }
}

/// Read a request line.
pub fn parse_request(line: &str) -> (r: Option<(bool, String)>)
    ensures
        match r {
            Some((is_file, path)) => request(line@) == Some((is_file, path@)),
            None => request(line@) is None,
        },
{
    let t = crate::text::trim_str(line);
    let n = t.as_str().unicode_len();
    if n == 0 {
        return None;
    }
    match crate::text::find_space_in(t.as_str()) {
        Some(i) => {
            let head = crate::text::slice(t.as_str(), 0, i);
            let rest = crate::text::slice(t.as_str(), i + 1, n);
            if crate::text::same(head.as_str(), "file") {
                Some((true, crate::text::trim_str(rest.as_str())))
            } else if crate::text::same(head.as_str(), "dir") {
                Some((false, crate::text::trim_str(rest.as_str())))
            } else {
                Some((false, t))
            }
        },
        None => Some((false, t)),
    }
}

/// Lower-hex encoding of a string's UTF-8 bytes, the form of an
/// attached-container authority.
pub fn hex_encode(s: &str) -> (r: String)
    ensures
        r@ == hex(s.spec_bytes()),
{
    crate::text::hex_string(s)
}

/// The VSCode URI of `path` inside `container`.
pub open spec fn code_uri_of(container: &str, path: Seq<char>) -> Seq<char> {
    "vscode-remote://attached-container+"@ + hex(container.spec_bytes()) + path
}

/// Executable form of `code_uri_of`.
pub fn code_uri(container: &str, path: &str) -> (r: String)
    ensures
        r@ == code_uri_of(container, path@),
{
    let h = hex_encode(container);
    crate::text::cat3("vscode-remote://attached-container+", h.as_str(), path)
}

/// The flag that opens a file, or a folder.
pub open spec fn open_flag(is_file: bool) -> Seq<char> {
    if is_file {
        "--file-uri"@
    } else {
        "--folder-uri"@
    }
}

/// The launch of the host's VSCode on `path` inside `container`. On Windows
/// `code` is a batch file, reached through `cmd /C`.
pub open spec fn code_launch(platform: Platform, container: &str, path: Seq<char>, is_file: bool) -> InvocationView {
    match platform {
        Platform::Windows => call(
            "cmd"@,
            seq!["/C"@, "code"@, open_flag(is_file), code_uri_of(container, path)],
        ),
        Platform::Unix => call("code"@, seq![open_flag(is_file), code_uri_of(container, path)]),
    }
}

/// Executable form of `code_launch`.
pub fn launch_code(platform: Platform, container: &str, path: &str, is_file: bool) -> (r: Invocation)
    ensures
        r@ == code_launch(platform, container, path@, is_file),
{
    let flag = if is_file {
        "--file-uri"
    } else {
        "--folder-uri"
    };
    match platform {
        Platform::Windows => {
            let mut args = strings(&["/C", "code"]);
            push_arg(&mut args, String::from_str(flag));
            push_arg(&mut args, code_uri(container, path));
            assert(args.deep_view() =~= seq![
                "/C"@,
                "code"@,
                open_flag(is_file),
                code_uri_of(container, path@),
            ]);
            Invocation::new("cmd", args)
        },
        Platform::Unix => {
            let mut args: Vec<String> = Vec::new();
            push_arg(&mut args, String::from_str(flag));
            push_arg(&mut args, code_uri(container, path));
            assert(args.deep_view() =~= seq![open_flag(is_file), code_uri_of(container, path@)]);
            Invocation::new("code", args)
        },
    }
}

} // verus!
