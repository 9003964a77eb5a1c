//! Self-update of the launcher: its preconditions and what it reports.

use vstd::prelude::*;
use crate::error::{Failure, FailureView, refusal};
use crate::process::Platform;
use crate::paths::{join_result, plain_name, split_dir, two_sep_start};
use crate::text::decimal;

verus! {

/// Owner of the repository whose releases update the launcher.
pub const OWNER: &'static str = "Brownserve-UK";

/// Repository whose releases update the launcher.
pub const REPO: &'static str = "bsdev";

/// Name of the launcher's executable in a release.
pub const BINARY: &'static str = "bsdev";

/// The refusal of an unconfirmed update in a non-interactive session.
pub open spec fn unconfirmed_update() -> Seq<char> {
    "Refusing to update without confirmation; re-run with --yes in a non-interactive session."@
}

/// An update needs `--yes`, or a terminal to confirm on.
pub fn require_confirmation_or_terminal(yes: bool, stdin_is_terminal: bool) -> (r: Result<(), String>)
    ensures
        r is Err <==> !yes && !stdin_is_terminal,
        r matches Err(m) ==> m@ == unconfirmed_update(),
{
    if !yes && !stdin_is_terminal {
        Err(
            String::from_str(
                "Refusing to update without confirmation; re-run with --yes in a non-interactive session.",
            ),
        )
    } else {
        Ok(())
    }
}

/// How to get the permission an update of `executable` lacks.
pub open spec fn permission_text(executable: Seq<char>, platform: Platform) -> Seq<char> {
    match platform {
        Platform::Windows => "Cannot update "@ + executable
            + " without elevated permissions. Open a terminal as Administrator and run `bsdev update` again."@,
        Platform::Unix => "Cannot update "@ + executable
            + " without elevated permissions. Re-run with `sudo bsdev update`."@,
    }
}

/// Executable form of `permission_text`.
pub fn permission_message(executable: &str, platform: Platform) -> (r: String)
    ensures
        r@ == permission_text(executable@, platform),
{
    match platform {
        Platform::Windows => crate::text::cat3(
            "Cannot update ",
            executable,
            " without elevated permissions. Open a terminal as Administrator and run `bsdev update` again.",
        ),
        Platform::Unix => crate::text::cat3(
            "Cannot update ",
            executable,
            " without elevated permissions. Re-run with `sudo bsdev update`.",
        ),
    }
}

/// What an update did.
pub enum UpdateStatus {
    /// The running version is the latest.
    UpToDate(String),
    /// The executable was replaced by this version.
    Updated(String),
}

/// The report of an update, given the running version.
pub open spec fn status_text(status: &UpdateStatus, current: Seq<char>) -> Seq<char> {
    match status {
        UpdateStatus::UpToDate(v) => "bsdev is already up to date (v"@ + v@ + ")."@,
        UpdateStatus::Updated(v) => "Updated bsdev from v"@ + current + " to v"@ + v@
            + ". The next invocation will use the new version."@,
    }
}

/// Executable form of `status_text`.
pub fn status_message(status: &UpdateStatus, current_version: &str) -> (r: String)
    ensures
        r@ == status_text(status, current_version@),
{
    match status {
        UpdateStatus::UpToDate(v) => crate::text::cat3(
            "bsdev is already up to date (v",
            v.as_str(),
            ").",
        ),
        UpdateStatus::Updated(v) => {
            let r = crate::text::cat3("Updated bsdev from v", current_version, " to v");
            let r = r.concat(v.as_str());
            r.concat(". The next invocation will use the new version.")
        },
    }
}

/// The name of the file that probes whether the install directory is
/// writable, unique to this process and moment.
pub open spec fn probe_name(pid: u32, nonce: u128) -> Seq<char> {
    "."@ + BINARY@ + "-update-check-"@ + decimal(pid as nat) + "-"@ + decimal(nonce as nat)
}

/// Executable form of `probe_name`.
pub fn probe_file_name(pid: u32, nonce: u128) -> (r: String)
    ensures
        r@ == probe_name(pid, nonce),
{
    let p = crate::text::decimal_string(pid as u128);
    let n = crate::text::decimal_string(nonce);
    let r = crate::text::cat3(".", BINARY, "-update-check-");
    let r = r.concat(p.as_str());
    let r = r.concat("-");
    r.concat(n.as_str())
}

proof fn lemma_probe_name_plain(pid: u32, nonce: u128)
    ensures
        plain_name(probe_name(pid, nonce)),
{
    reveal_strlit(".");
    reveal_strlit("bsdev");
    reveal_strlit("-update-check-");
    reveal_strlit("-");
    crate::text::lemma_decimal_shape(pid as nat);
    crate::text::lemma_decimal_shape(nonce as nat);
    let a = decimal(pid as nat);
    let b = decimal(nonce as nat);
    let head = "."@ + BINARY@ + "-update-check-"@;
    assert(head =~= seq![
        '.', 'b', 's', 'd', 'e', 'v', '-', 'u', 'p', 'd', 'a', 't', 'e', '-', 'c', 'h', 'e', 'c',
        'k', '-',
    ]);
    let n = probe_name(pid, nonce);
    assert forall|i: int| 0 <= i < n.len() implies #[trigger] n[i] != '/' && n[i] != '\\' && n[i]
        != ':' by {
        if i < 20 {
            assert(n[i] == head[i]);
        } else if i < 20 + a.len() {
            assert(n[i] == a[i - 20]);
            assert(crate::text::is_digit(a[i - 20]));
        } else if i == 20 + a.len() {
            assert(n[i] == '-');
        } else {
            assert(n[i] == b[i - 21 - a.len()]);
            assert(crate::text::is_digit(b[i - 21 - a.len()]));
        }
    }
    assert(n.len() > 2);
}

/// `r` as the optional directory it holds.
pub open spec fn found_dir(r: Result<String, Failure>) -> Option<Seq<char>> {
    match r {
        Ok(d) => Some(d@),
        Err(_) => None,
    }
}

/// The directory the running executable lives in: its parent. A directory
/// found is a leading part of `executable`, and it is the directory before
/// the last `/` wherever `executable` is a directory, a `/` and a plain file
/// name; where there is none, the update is refused.
pub fn install_directory(executable: &str) -> (r: Result<String, Failure>)
    ensures
        r matches Ok(d) ==> d@.len() <= executable@.len() && executable@.subrange(
            0,
            d@.len() as int,
        ) == d@,
        r matches Err(e) ==> e@ == refusal("The running bsdev executable has no parent directory"@),
        split_dir(executable@, found_dir(r)),
{
    match crate::paths::parent(executable) {
        Some(d) => Ok(d),
        None => Err(missing_install_directory()),
    }
}

/// Where the probe file of this process and moment goes: `probe_name`
/// joined onto the install directory.
pub fn probe_path(install_dir: &str, pid: u32, nonce: u128) -> (r: String)
    ensures
        !two_sep_start(install_dir@) ==> join_result(install_dir@, probe_name(pid, nonce), r@),
{
    let name = probe_file_name(pid, nonce);
    proof {
        lemma_probe_name_plain(pid, nonce);
    }
    crate::paths::join(install_dir, name.as_str())
}

/// The failure when the running executable has no parent directory.
pub fn missing_install_directory() -> (r: Failure)
    ensures
        r@ == refusal("The running bsdev executable has no parent directory"@),
{
    Failure::refusal("The running bsdev executable has no parent directory")
}

/// How creating the probe file went.
pub enum ProbeCreation {
    /// It was created.
    Created,
    /// Permission was denied.
    PermissionDenied,
    /// Another I/O error, with its message.
    Failed(String),
}

/// What creating the probe file means: a denied permission says how to get
/// it; another error is reported as a failure to verify update access to
/// the install directory.
pub fn check_probe_creation(executable: &str, install_dir: &str, creation: ProbeCreation, platform: Platform) -> (r: Result<(), Failure>)
    ensures
        match creation {
            ProbeCreation::Created => r is Ok,
            ProbeCreation::PermissionDenied => r matches Err(f) && f@ == refusal(
                permission_text(executable@, platform),
            ),
            ProbeCreation::Failed(m) => r matches Err(f) && f@ == (FailureView {
                context: Some("Failed to verify update access to "@ + install_dir@),
                cause: m@,
            }),
        },
{
    match creation {
        ProbeCreation::Created => Ok(()),
        ProbeCreation::PermissionDenied => Err(
            Failure { context: None, cause: permission_message(executable, platform) },
        ),
        ProbeCreation::Failed(m) => Err(
            Failure {
                context: Some(crate::text::cat("Failed to verify update access to ", install_dir)),
                cause: m,
            },
        ),
    }
}

/// What removing the probe file means.
pub fn check_probe_removal(probe: &str, removal: Result<(), String>) -> (r: Result<(), Failure>)
    ensures
        match removal {
            Ok(()) => r is Ok,
            Err(m) => r matches Err(f) && f@ == (FailureView {
                context: Some("Failed to remove update permission probe at "@ + probe@),
                cause: m@,
            }),
        },
{
    match removal {
        Ok(()) => Ok(()),
        Err(m) => Err(
            Failure {
                context: Some(crate::text::cat("Failed to remove update permission probe at ", probe)),
                cause: m,
            },
        ),
    }
}

/// The kinds of update error the launcher reports apart.
#[derive(Debug, Clone, Copy, PartialEq, Eq, Structural)]
pub enum UpdateErrorKind {
    /// An I/O error for lack of permission.
    PermissionDenied,
    /// The release server could not be reached or read.
    Network,
    /// The release has no asset for this platform.
    Release,
    /// Anything else.
    Other,
}

/// The failure an update error is reported as: a lack of permission says
/// how to get it; the others keep the error's text under what was going on.
pub open spec fn update_failure(kind: UpdateErrorKind, message: Seq<char>, executable: Seq<char>, platform: Platform) -> FailureView {
    match kind {
        UpdateErrorKind::PermissionDenied => refusal(permission_text(executable, platform)),
        UpdateErrorKind::Network => FailureView {
            context: Some("Failed to contact GitHub or download the latest bsdev release"@),
            cause: message,
        },
        UpdateErrorKind::Release => FailureView {
            context: Some("The latest bsdev release has no compatible asset for this platform"@),
            cause: message,
        },
        UpdateErrorKind::Other => FailureView {
            context: Some("Failed to install the latest bsdev release"@),
            cause: message,
        },
    }
}

/// Executable form of `update_failure`.
pub fn map_update_error(kind: UpdateErrorKind, message: String, executable: &str, platform: Platform) -> (r: Failure)
    ensures
        r@ == update_failure(kind, message@, executable@, platform),
{
    match kind {
        UpdateErrorKind::PermissionDenied => Failure {
            context: None,
            cause: permission_message(executable, platform),
        },
        UpdateErrorKind::Network => Failure {
            context: Some(
                String::from_str("Failed to contact GitHub or download the latest bsdev release"),
            ),
            cause: message,
        },
        UpdateErrorKind::Release => Failure {
            context: Some(
                String::from_str(
                    "The latest bsdev release has no compatible asset for this platform",
                ),
            ),
            cause: message,
        },
        UpdateErrorKind::Other => Failure {
            context: Some(String::from_str("Failed to install the latest bsdev release")),
            cause: message,
        },
    }
}

} // verus!
