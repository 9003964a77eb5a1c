//! The external programs the launcher runs: their command lines, the line it
//! echoes for each in verbose mode, and how their results read.

use vstd::prelude::*;
use crate::error::{BsdevError, BsdevErrorView};
use crate::text::{join, signed_decimal, trim};

verus! {

/// The operating system family, where commands or paths differ by it.
#[derive(Clone, Copy, PartialEq, Eq, Debug, Structural)]
pub enum Platform {
    Windows,
    Unix,
}

/// A program and its arguments.
pub struct Invocation {
    pub program: String,
    pub args: Vec<String>,
}

/// `Invocation` with its strings as character sequences.
pub struct InvocationView {
    pub program: Seq<char>,
    pub args: Seq<Seq<char>>,
}

impl View for Invocation {
    type V = InvocationView;

    open spec fn view(&self) -> InvocationView {
        InvocationView { program: self.program@, args: self.args.deep_view() }
    }
}

/// The invocation of `program` with `args`.
pub open spec fn call(program: Seq<char>, args: Seq<Seq<char>>) -> InvocationView {
    InvocationView { program, args }
}

impl Invocation {
    /// `program` with `args`.
    pub fn new(program: &str, args: Vec<String>) -> (r: Invocation)
        ensures
            r@ == call(program@, args.deep_view()),
    {
        Invocation { program: String::from_str(program), args }
    }
}

/// The line echoed before a command runs in verbose mode.
pub open spec fn rendered(inv: InvocationView) -> Seq<char> {
    "+ "@ + inv.program + " "@ + join(inv.args, " "@)
}

/// The verbose echo of a command that runs in the foreground.
pub fn render(inv: &Invocation) -> (r: String)
    ensures
        r@ == rendered(inv@),
{
    let line = crate::text::cat3("+ ", inv.program.as_str(), " ");
    let args = crate::text::join_strings(&inv.args, " ");
    line.concat(args.as_str())
}

/// The verbose echo of a command started detached.
pub fn render_detached(inv: &Invocation) -> (r: String)
    ensures
        r@ == rendered(inv@) + " (detached)"@,
{
    render(inv).concat(" (detached)")
}

/// The error for a program that exited unsuccessfully, with its exit code if
/// it had one (it has none when a signal ended it).
pub open spec fn exit_failure(program: Seq<char>, code: Option<i32>) -> BsdevErrorView {
    BsdevErrorView::CommandFailed {
        cmd: program,
        code: match code {
            Some(c) => signed_decimal(c as int),
            None => "signal"@,
        },
    }
}

/// Executable form of `exit_failure`.
pub fn exited_unsuccessfully(program: &str, code: Option<i32>) -> (r: BsdevError)
    ensures
        r@ == exit_failure(program@, code),
{
    let code = match code {
        Some(c) => crate::text::signed_decimal_string(c),
        None => String::from_str("signal"),
    };
    BsdevError::CommandFailed { cmd: String::from_str(program), code }
}

/// The error for a program that could not be started: a missing program
/// becomes `CommandNotFound`, anything else an I/O error with its message.
pub fn spawn_failure(program: &str, not_found: bool, message: String) -> (r: BsdevError)
    ensures
        not_found ==> r@ == BsdevErrorView::CommandNotFound(program@),
        !not_found ==> r@ == BsdevErrorView::Io(message@),
{
    if not_found {
        BsdevError::CommandNotFound(String::from_str(program))
    } else {
        BsdevError::Io(message)
    }
}

/// What a captured command yields: its trimmed output when it succeeded,
/// nothing when it exited unsuccessfully.
pub fn captured(success: bool, stdout: &str) -> (r: Option<String>)
    ensures
        success ==> (r matches Some(o) && o@ == trim(stdout@)),
        !success ==> r is None,
{
    if success {
        Some(crate::text::trim_str(stdout))
    } else {
        None
    }
}

} // verus!

verus! {

/// What capturing a command gave: its output, nothing when it exited
/// unsuccessfully, or the error that kept it from running.
pub type CaptureView = Result<Option<Seq<char>>, BsdevErrorView>;

/// What running a command gave.
pub type RunView = Result<(), BsdevErrorView>;

/// The view of a capture outcome.
pub open spec fn capture_view(o: Result<Option<String>, BsdevError>) -> CaptureView {
    match o {
        Ok(Some(s)) => Ok(Some(s@)),
        Ok(None) => Ok(None),
        Err(e) => Err(e@),
    }
}

/// The view of a run outcome.
pub open spec fn run_view(o: Result<(), BsdevError>) -> RunView {
    match o {
        Ok(()) => Ok(()),
        Err(e) => Err(e@),
    }
}

/// A list of argument strings.
pub fn strings(items: &[&str]) -> (r: Vec<String>)
    ensures
        r.deep_view() == items@.map_values(|s: &str| s@),
{
    let mut r: Vec<String> = Vec::new();
    let mut i: usize = 0;
    while i < items.len()
        invariant
            0 <= i <= items@.len(),
            r.deep_view() == items@.subrange(0, i as int).map_values(|s: &str| s@),
        decreases items@.len() - i,
    {
        r.push(String::from_str(items[i]));
        assert(items@.subrange(0, i + 1).map_values(|s: &str| s@) =~= items@.subrange(
            0,
            i as int,
        ).map_values(|s: &str| s@).push(items@[i as int]@));
        i = i + 1;
    }
    assert(items@.subrange(0, items@.len() as int) == items@);
    r
}

} // verus!

verus! {

/// Add `s` at the end of an argument list.
pub fn push_arg(args: &mut Vec<String>, s: String)
    ensures
        final(args).deep_view() == old(args).deep_view().push(s@),
{
    let ghost before = args.deep_view();
    args.push(s);
    assert(args.deep_view() =~= before.push(s@));
}

} // verus!
