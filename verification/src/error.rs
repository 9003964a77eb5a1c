//! Errors of the launcher and the failures a flow ends with.

use vstd::prelude::*;

verus! {

/// Errors surfaced by the launcher's own operations. Paths and outside error
/// texts are held as the strings they display as.
#[derive(Debug)]
pub enum BsdevError {
    /// An I/O operation failed; the operating system's message.
    Io(String),
    /// The named program is not on `PATH`.
    CommandNotFound(String),
    /// The program ran and exited unsuccessfully (`code` is its exit code, or
    /// `signal` when it had none).
    CommandFailed { cmd: String, code: String },
    /// Docker cannot be used; the reason.
    DockerUnavailable(String),
    /// The image could not be pulled.
    ImagePull(String),
    /// No home directory to keep the launcher's state in.
    NoHome,
    /// The config file could not be read as JSON.
    Config { path: String, source: String },
}

/// `BsdevError` with its strings as character sequences.
pub enum BsdevErrorView {
    Io(Seq<char>),
    CommandNotFound(Seq<char>),
    CommandFailed { cmd: Seq<char>, code: Seq<char> },
    DockerUnavailable(Seq<char>),
    ImagePull(Seq<char>),
    NoHome,
    Config { path: Seq<char>, source: Seq<char> },
}

impl View for BsdevError {
    type V = BsdevErrorView;

    open spec fn view(&self) -> BsdevErrorView {
        match self {
            BsdevError::Io(m) => BsdevErrorView::Io(m@),
            BsdevError::CommandNotFound(p) => BsdevErrorView::CommandNotFound(p@),
            BsdevError::CommandFailed { cmd, code } => BsdevErrorView::CommandFailed {
                cmd: cmd@,
                code: code@,
            },
            BsdevError::DockerUnavailable(m) => BsdevErrorView::DockerUnavailable(m@),
            BsdevError::ImagePull(i) => BsdevErrorView::ImagePull(i@),
            BsdevError::NoHome => BsdevErrorView::NoHome,
            BsdevError::Config { path, source } => BsdevErrorView::Config {
                path: path@,
                source: source@,
            },
        }
    }
}

/// The text an error displays as.
pub open spec fn error_message(e: BsdevErrorView) -> Seq<char> {
    match e {
        BsdevErrorView::Io(m) => "IO error: "@ + m,
        BsdevErrorView::CommandNotFound(p) => "`"@ + p + "` was not found on PATH - is it installed?"@,
        BsdevErrorView::CommandFailed { cmd, code } => "`"@ + cmd + "` exited with status "@ + code,
        BsdevErrorView::DockerUnavailable(m) => "Docker is not available: "@ + m,
        BsdevErrorView::ImagePull(i) => "could not pull image `"@ + i
            + "` - is it published, and are you logged in to the registry (try `docker login ghcr.io`)?"@,
        BsdevErrorView::NoHome => "could not determine your home directory"@,
        BsdevErrorView::Config { path, source } => "could not parse config file `"@ + path + "`: "@
            + source,
    }
}

impl BsdevError {
    /// The text this error displays as.
    pub fn message(&self) -> (r: String)
        ensures
            r@ == error_message(self@),
    {
        match self {
            BsdevError::Io(m) => crate::text::cat("IO error: ", m.as_str()),
            BsdevError::CommandNotFound(p) => crate::text::cat3(
                "`",
                p.as_str(),
                "` was not found on PATH - is it installed?",
            ),
            BsdevError::CommandFailed { cmd, code } => {
                let r = crate::text::cat3("`", cmd.as_str(), "` exited with status ");
                r.concat(code.as_str())
            },
            BsdevError::DockerUnavailable(m) => crate::text::cat(
                "Docker is not available: ",
                m.as_str(),
            ),
            BsdevError::ImagePull(i) => crate::text::cat3(
                "could not pull image `",
                i.as_str(),
                "` - is it published, and are you logged in to the registry (try `docker login ghcr.io`)?",
            ),
            BsdevError::NoHome => String::from_str("could not determine your home directory"),
            BsdevError::Config { path, source } => {
                let r = crate::text::cat3("could not parse config file `", path.as_str(), "`: ");
                r.concat(source.as_str())
            },
        }
    }

    /// An equal copy of this error.
    pub fn duplicate(&self) -> (r: BsdevError)
        ensures
            r@ == self@,
    {
        match self {
            BsdevError::Io(m) => BsdevError::Io(m.clone()),
            BsdevError::CommandNotFound(p) => BsdevError::CommandNotFound(p.clone()),
            BsdevError::CommandFailed { cmd, code } => BsdevError::CommandFailed {
                cmd: cmd.clone(),
                code: code.clone(),
            },
            BsdevError::DockerUnavailable(m) => BsdevError::DockerUnavailable(m.clone()),
            BsdevError::ImagePull(i) => BsdevError::ImagePull(i.clone()),
            BsdevError::NoHome => BsdevError::NoHome,
            BsdevError::Config { path, source } => BsdevError::Config {
                path: path.clone(),
                source: source.clone(),
            },
        }
    }
}

/// How a subcommand failed: what it was doing when it failed, if it says,
/// and the text of the cause.
#[derive(Debug)]
pub struct Failure {
    pub context: Option<String>,
    pub cause: String,
}

/// `Failure` with its strings as character sequences.
pub struct FailureView {
    pub context: Option<Seq<char>>,
    pub cause: Seq<char>,
}

impl View for Failure {
    type V = FailureView;

    open spec fn view(&self) -> FailureView {
        FailureView {
            context: match self.context {
                Some(c) => Some(c@),
                None => None,
            },
            cause: self.cause@,
        }
    }
}

/// A failure that reports `error` as it stands.
pub open spec fn bare(error: BsdevErrorView) -> FailureView {
    FailureView { context: None, cause: error_message(error) }
}

/// A failure that reports `error` as the cause of `context`.
pub open spec fn within(context: Seq<char>, error: BsdevErrorView) -> FailureView {
    FailureView { context: Some(context), cause: error_message(error) }
}

/// What the system said of `error`: an I/O error's own words, without the
/// `IO error: ` that `error_message` puts before them.
pub open spec fn system_message(error: BsdevErrorView) -> Seq<char> {
    match error {
        BsdevErrorView::Io(m) => m,
        _ => error_message(error),
    }
}

/// A failure that reports what the system said of `error` as the cause of
/// `context`.
pub open spec fn within_system(context: Seq<char>, error: BsdevErrorView) -> FailureView {
    FailureView { context: Some(context), cause: system_message(error) }
}

/// A failure that is only a message.
pub open spec fn refusal(message: Seq<char>) -> FailureView {
    FailureView { context: None, cause: message }
}

impl Failure {
    /// `error`, reported as it stands.
    pub fn bare(error: &BsdevError) -> (r: Failure)
        ensures
            r@ == bare(error@),
    {
        Failure { context: None, cause: error.message() }
    }

    /// `error`, reported as the cause of `context`.
    pub fn within(context: &str, error: &BsdevError) -> (r: Failure)
        ensures
            r@ == within(context@, error@),
    {
        Failure { context: Some(String::from_str(context)), cause: error.message() }
    }

    /// What the system said of `error`, reported as the cause of `context`.
    pub fn within_system(context: &str, error: &BsdevError) -> (r: Failure)
        ensures
            r@ == within_system(context@, error@),
    {
        let cause = match error {
            BsdevError::Io(m) => m.clone(),
            _ => error.message(),
        };
        Failure { context: Some(String::from_str(context)), cause }
    }

    /// A failure that is only `message`.
    pub fn refusal(message: &str) -> (r: Failure)
        ensures
            r@ == refusal(message@),
    {
        Failure { context: None, cause: String::from_str(message) }
    }
}

} // verus!
