//! The ways in which an upgrade can fail.

use crate::command::{clone_texts, texts};
use crate::cores::{signed_decimal, to_signed_decimal};
use vstd::prelude::*;
use vstd::string::*;

verus! {

/// Why an upgrade stopped.
///
/// `program` is the program that was to run; for a file-system action it is
/// the path that the action was given.
#[derive(Debug, PartialEq, Eq)]
pub enum UpdateError {
    /// The program could not be started. `args` are the arguments that it was
    /// to be given.
    LaunchError { program: String, args: Vec<String> },
    /// The program ran and reported failure. `status` is its exit status,
    /// where it left one; `stderr` holds what was captured of its error
    /// stream, and is empty where nothing was.
    CommandFailed { program: String, status: Option<i32>, stderr: String },
    /// The program succeeded, but its output is not valid UTF-8.
    DecodeError { program: String },
    /// The host did not say how many threads it can run at once.
    ParallelismUnavailable,
    /// The module manager's status report has no line for the driver.
    ModuleNotFound,
    /// The driver's status line has no version field.
    ParseError,
}

/// An [`UpdateError`] with its texts as sequences of characters.
pub enum ErrorView {
    LaunchError { program: Seq<char>, args: Seq<Seq<char>> },
    CommandFailed { program: Seq<char>, status: Option<i32>, stderr: Seq<char> },
    DecodeError { program: Seq<char> },
    ParallelismUnavailable,
    ModuleNotFound,
    ParseError,
}

impl View for UpdateError {
    type V = ErrorView;

    open spec fn view(&self) -> ErrorView {
        match *self {
            UpdateError::LaunchError { program, args } => ErrorView::LaunchError {
                program: program@,
                args: texts(args@),
            },
            UpdateError::CommandFailed { program, status, stderr } => ErrorView::CommandFailed {
                program: program@,
                status,
                stderr: stderr@,
            },
            UpdateError::DecodeError { program } => ErrorView::DecodeError { program: program@ },
            UpdateError::ParallelismUnavailable => ErrorView::ParallelismUnavailable,
            UpdateError::ModuleNotFound => ErrorView::ModuleNotFound,
            UpdateError::ParseError => ErrorView::ParseError,
        }
    }
}

impl Clone for UpdateError {
    fn clone(&self) -> (copy: Self)
        ensures
            copy@ == self@,
    {
        match self {
            UpdateError::LaunchError { program, args } => UpdateError::LaunchError {
                program: program.clone(),
                args: clone_texts(args),
            },
            UpdateError::CommandFailed { program, status, stderr } => UpdateError::CommandFailed {
                program: program.clone(),
                status: *status,
                stderr: stderr.clone(),
            },
            UpdateError::DecodeError { program } => UpdateError::DecodeError {
                program: program.clone(),
            },
            UpdateError::ParallelismUnavailable => UpdateError::ParallelismUnavailable,
            UpdateError::ModuleNotFound => UpdateError::ModuleNotFound,
            UpdateError::ParseError => UpdateError::ParseError,
        }
    }
}

/// `args`, each with a space before it.
pub open spec fn spaced(args: Seq<Seq<char>>) -> Seq<char>
    decreases args.len(),
{
    if args.len() == 0 {
        Seq::empty()
    } else {
        spaced(args.drop_last()) + " "@ + args.last()
    }
}

/// What the message of a failed command says of its exit status.
pub open spec fn status_note(status: Option<i32>) -> Seq<char> {
    match status {
        Some(code) => " with status: "@ + signed_decimal(code as int),
        None => Seq::empty(),
    }
}

/// What the message of a failed command says of its error stream.
pub open spec fn stderr_note(stderr: Seq<char>) -> Seq<char> {
    if stderr.len() == 0 {
        Seq::empty()
    } else {
        "\nError: "@ + stderr
    }
}

/// The text that tells a user of the error `e`. For a program that could not
/// be started it holds the program and every argument, a space between them.
pub open spec fn message_of(e: ErrorView) -> Seq<char> {
    match e {
        ErrorView::LaunchError { program, args } => "Failed to run "@ + program + spaced(args),
        ErrorView::CommandFailed { program, status, stderr } => "Command failed: "@ + program
            + status_note(status) + stderr_note(stderr),
        ErrorView::DecodeError { program } => "Output is not valid UTF-8: "@ + program,
        ErrorView::ParallelismUnavailable => "Available parallelism is unknown"@,
        ErrorView::ModuleNotFound => "NVIDIA DKMS module not found"@,
        ErrorView::ParseError => "Failed to extract DKMS version."@,
    }
}

/// Appends every one of `args` to `text`, a space before each.
fn append_spaced(text: String, args: &Vec<String>) -> (all: String)
    ensures
        all@ == text@ + spaced(texts(args@)),
{
    let mut all = text;
    let mut i: usize = 0;
    while i < args.len()
        invariant
            i <= args.len(),
            all@ == text@ + spaced(texts(args@).take(i as int)),
        decreases args.len() - i,
    {
        all.append(" ");
        all.append(args[i].as_str());
        proof {
            let done = texts(args@).take(i + 1);
            assert(done.drop_last() =~= texts(args@).take(i as int));
        }
        i += 1;
    }
    assert(texts(args@).take(args.len() as int) =~= texts(args@));
    all
}

impl UpdateError {
    /// The text that tells a user of this error.
    pub fn message(&self) -> (text: String)
        ensures
            text@ == message_of(self@),
    {
        match self {
            UpdateError::LaunchError { program, args } => append_spaced(
                String::from_str("Failed to run ").concat(program.as_str()),
                args,
            ),
            UpdateError::CommandFailed { program, status, stderr } => {
                let mut text = String::from_str("Command failed: ").concat(program.as_str());
                match status {
                    Some(code) => {
                        text.append(" with status: ");
                        text.append(to_signed_decimal(*code).as_str());
                    },
                    None => {},
                }
                if !stderr.as_str().is_empty() {
                    text.append("\nError: ");
                    text.append(stderr.as_str());
                }
                text
            },
            UpdateError::DecodeError { program } => String::from_str(
                "Output is not valid UTF-8: ",
            ).concat(program.as_str()),
            UpdateError::ParallelismUnavailable => String::from_str(
                "Available parallelism is unknown",
            ),
            UpdateError::ModuleNotFound => String::from_str("NVIDIA DKMS module not found"),
            UpdateError::ParseError => String::from_str("Failed to extract DKMS version."),
        }
    }
}

} // verus!
