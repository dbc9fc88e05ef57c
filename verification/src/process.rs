//! What became of an action, and what that means.

use crate::command::{clone_texts, texts};
use crate::error::{ErrorView, UpdateError};
use vstd::prelude::*;
use vstd::string::*;
use vstd::utf8::{decode_utf8, valid_utf8};

verus! {

/// What the caller saw when it carried out an action.
#[derive(Debug, PartialEq, Eq)]
pub enum Outcome {
    /// The action was carried out and reported success; nothing was captured.
    Succeeded,
    /// The command ran and reported success; `stdout` is what it wrote to its
    /// output stream.
    Captured { stdout: Vec<u8> },
    /// The host runs `count` threads at once.
    Parallelism { count: usize },
    /// The file or directory that the action was to work on is not there.
    Absent,
    /// The action could not be started: the program was not found or may not
    /// be run, or the host gave no answer.
    NotStarted,
    /// The action was carried out and reported failure. `status` is the exit
    /// status of a process that left one; `stderr` is what was captured of
    /// its error stream, empty where nothing was.
    Failed { status: Option<i32>, stderr: Vec<u8> },
}

/// An [`Outcome`] with its bytes as sequences.
pub enum OutcomeView {
    Succeeded,
    Captured { stdout: Seq<u8> },
    Parallelism { count: usize },
    Absent,
    NotStarted,
    Failed { status: Option<i32>, stderr: Seq<u8> },
}

impl View for Outcome {
    type V = OutcomeView;

    open spec fn view(&self) -> OutcomeView {
        match *self {
            Outcome::Succeeded => OutcomeView::Succeeded,
            Outcome::Captured { stdout } => OutcomeView::Captured { stdout: stdout@ },
            Outcome::Parallelism { count } => OutcomeView::Parallelism { count },
            Outcome::Absent => OutcomeView::Absent,
            Outcome::NotStarted => OutcomeView::NotStarted,
            Outcome::Failed { status, stderr } => OutcomeView::Failed { status, stderr: stderr@ },
        }
    }
}

/// What became of a deletion that is no error, as the caller tells the user.
#[derive(Clone, Copy, Debug, PartialEq, Eq, Structural)]
pub enum Removal {
    /// The deletion reported success.
    Removed,
    /// What was to be deleted was not there.
    NotFound,
}

/// The text that `String::from_utf8_lossy` makes of `bytes`.
pub uninterp spec fn lossy_text(bytes: Seq<u8>) -> Seq<char>;

/// Whether `outcome` tells of an action that was carried out and reported
/// success.
pub open spec fn succeeded(outcome: OutcomeView) -> bool {
    outcome is Succeeded || outcome is Captured
}

/// The error that `outcome` means for the program `program` with the
/// arguments `args`, unless it tells of success: `CommandFailed` where the
/// program ran and reported failure, `LaunchError` in every other case. An
/// outcome that does not tell of a process counts as the program not having
/// started.
pub open spec fn failure_of(
    program: Seq<char>,
    args: Seq<Seq<char>>,
    outcome: OutcomeView,
) -> ErrorView {
    match outcome {
        OutcomeView::Failed { status, stderr } => ErrorView::CommandFailed {
            program,
            status,
            stderr: lossy_text(stderr),
        },
        _ => ErrorView::LaunchError { program, args },
    }
}

/// What `outcome` means for a command that was run for its effect.
pub open spec fn exit_of(
    program: Seq<char>,
    args: Seq<Seq<char>>,
    outcome: OutcomeView,
) -> Result<(), ErrorView> {
    if succeeded(outcome) {
        Ok(())
    } else {
        Err(failure_of(program, args, outcome))
    }
}

/// What `outcome` means for a command that was run for its output: the text
/// that it wrote. Success with nothing captured is an empty text.
pub open spec fn output_of(
    program: Seq<char>,
    args: Seq<Seq<char>>,
    outcome: OutcomeView,
) -> Result<Seq<char>, ErrorView> {
    match outcome {
        OutcomeView::Succeeded => Ok(Seq::empty()),
        OutcomeView::Captured { stdout } => if valid_utf8(stdout) {
            Ok(decode_utf8(stdout))
        } else {
            Err(ErrorView::DecodeError { program })
        },
        _ => Err(failure_of(program, args, outcome)),
    }
}

/// What `outcome` means for the deletion of `path`. Only two outcomes are no
/// error: success, and the target not being there. Every other outcome is
/// the error that it would be for any action, with `path` for its name.
pub open spec fn removal_of(path: Seq<char>, outcome: OutcomeView) -> Result<Removal, ErrorView> {
    if succeeded(outcome) {
        Ok(Removal::Removed)
    } else if outcome is Absent {
        Ok(Removal::NotFound)
    } else {
        Err(failure_of(path, Seq::empty(), outcome))
    }
}

/// The count that `outcome` reports of the host, if it reports one.
pub open spec fn parallelism_of(outcome: OutcomeView) -> Option<usize> {
    match outcome {
        OutcomeView::Parallelism { count } => Some(count),
        _ => None,
    }
}

/// Calls `String::from_utf8`, which accepts exactly the byte sequences that
/// are valid UTF-8 and returns the text that they encode.
#[verifier::external_body]
fn decode(bytes: &Vec<u8>) -> (text: Option<String>)
    ensures
        text is Some <==> valid_utf8(bytes@),
        text matches Some(t) ==> t@ == decode_utf8(bytes@),
{
    String::from_utf8(bytes.clone()).ok()
}

/// Calls `String::from_utf8_lossy`, which returns a text for any bytes; for
/// valid UTF-8 it is the text that they encode.
#[verifier::external_body]
fn decode_lossy(bytes: &Vec<u8>) -> (text: String)
    ensures
        text@ == lossy_text(bytes@),
        valid_utf8(bytes@) ==> text@ == decode_utf8(bytes@),
{
    String::from_utf8_lossy(bytes).into_owned()
}

/// The error of a program that ran and reported failure, with its exit
/// status and the text of its error stream.
pub fn command_failed(program: &str, status: Option<i32>, stderr: String) -> (e: UpdateError)
    ensures
        e@ == (ErrorView::CommandFailed { program: program@, status, stderr: stderr@ }),
{
    UpdateError::CommandFailed { program: String::from_str(program), status, stderr }
}

/// The error that `outcome` means where it does not tell of success.
fn failure(program: &str, args: &Vec<String>, outcome: &Outcome) -> (e: UpdateError)
    ensures
        e@ == failure_of(program@, texts(args@), outcome@),
{
    match outcome {
        Outcome::Failed { status, stderr } => command_failed(
            program,
            *status,
            decode_lossy(stderr),
        ),
        _ => UpdateError::LaunchError {
            program: String::from_str(program),
            args: clone_texts(args),
        },
    }
}

/// Judges the outcome of a command that was run for its effect.
///
/// `Ok` where the command ran and reported success; `CommandFailed` where it
/// ran and reported failure; `LaunchError`, with the program and its
/// arguments, in every other case.
pub fn check_exit(program: &str, args: &Vec<String>, outcome: &Outcome) -> (r: Result<
    (),
    UpdateError,
>)
    ensures
        r matches Ok(_) ==> exit_of(program@, texts(args@), outcome@) == Ok::<(), ErrorView>(()),
        r matches Err(e) ==> exit_of(program@, texts(args@), outcome@) == Err::<(), ErrorView>(e@),
        r is Ok <==> succeeded(outcome@),
{
    match outcome {
        Outcome::Succeeded => Ok(()),
        Outcome::Captured { .. } => Ok(()),
        _ => Err(failure(program, args, outcome)),
    }
}

/// Judges the outcome of a command that was run for its output, and decodes
/// what it wrote.
///
/// `Ok` with the text where the command reported success and its output is
/// valid UTF-8, `DecodeError` where it is not; `CommandFailed` where the
/// command ran and reported failure; `LaunchError`, with the program and its
/// arguments, in every other case.
pub fn read_output(program: &str, args: &Vec<String>, outcome: &Outcome) -> (r: Result<
    String,
    UpdateError,
>)
    ensures
        r matches Ok(text) ==> output_of(program@, texts(args@), outcome@) == Ok::<
            Seq<char>,
            ErrorView,
        >(text@),
        r matches Err(e) ==> output_of(program@, texts(args@), outcome@) == Err::<
            Seq<char>,
            ErrorView,
        >(e@),
{
    match outcome {
        Outcome::Succeeded => Ok(String::new()),
        Outcome::Captured { stdout } => match decode(stdout) {
            Some(text) => Ok(text),
            None => Err(UpdateError::DecodeError { program: String::from_str(program) }),
        },
        _ => Err(failure(program, args, outcome)),
    }
}

/// Judges the outcome of the deletion of `path`.
///
/// `Ok(Removed)` where the deletion reported success, `Ok(NotFound)` where
/// its target was not there. Every other outcome is an error: `CommandFailed`
/// where the deletion was tried and failed, `LaunchError` otherwise.
pub fn removal(path: &str, outcome: &Outcome) -> (r: Result<Removal, UpdateError>)
    ensures
        r matches Ok(found) ==> removal_of(path@, outcome@) == Ok::<Removal, ErrorView>(found),
        r matches Err(e) ==> removal_of(path@, outcome@) == Err::<Removal, ErrorView>(e@),
        r is Ok <==> succeeded(outcome@) || outcome is Absent,
{
    match outcome {
        Outcome::Succeeded => Ok(Removal::Removed),
        Outcome::Captured { .. } => Ok(Removal::Removed),
        Outcome::Absent => Ok(Removal::NotFound),
        _ => {
            let none: Vec<String> = Vec::new();
            assert(texts(none@) =~= Seq::<Seq<char>>::empty());
            Err(failure(path, &none, outcome))
        },
    }
}

} // verus!
