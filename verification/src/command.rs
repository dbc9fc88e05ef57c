//! What the library asks of the machine: command invocations and a few
//! file-system and host operations.

use vstd::prelude::*;

verus! {

/// A command invocation: the program and its arguments, each a token of its
/// own. No shell reads them.
#[derive(Debug, PartialEq, Eq)]
pub struct Invocation {
    pub program: String,
    pub args: Vec<String>,
}

/// An [`Invocation`] with its texts as sequences of characters.
pub struct InvocationView {
    pub program: Seq<char>,
    pub args: Seq<Seq<char>>,
}

/// The texts of `strings` as sequences of characters.
pub open spec fn texts(strings: Seq<String>) -> Seq<Seq<char>> {
    Seq::new(strings.len(), |i: int| strings[i]@)
}

impl View for Invocation {
    type V = InvocationView;

    open spec fn view(&self) -> InvocationView {
        InvocationView { program: self.program@, args: texts(self.args@) }
    }
}

/// One thing for the caller to do on the machine.
#[derive(Debug, PartialEq, Eq)]
pub enum Action {
    /// Ask the host how many threads it can run at once.
    QueryParallelism,
    /// Run the command with the caller's standard streams and wait for it.
    Run { command: Invocation },
    /// Run the command, capture its output and error streams, and wait for it.
    Capture { command: Invocation },
    /// Create the directory at `path`, and its parents where they are missing.
    CreateDirAll { path: String },
    /// Make `path` the working directory of the process.
    ChangeDir { path: String },
    /// Delete the file at `path`.
    RemoveFile { path: String },
    /// Delete the directory at `path` with all that it holds.
    RemoveDirAll { path: String },
}

/// An [`Action`] with its texts as sequences of characters.
pub enum ActionView {
    QueryParallelism,
    Run { command: InvocationView },
    Capture { command: InvocationView },
    CreateDirAll { path: Seq<char> },
    ChangeDir { path: Seq<char> },
    RemoveFile { path: Seq<char> },
    RemoveDirAll { path: Seq<char> },
}

impl View for Action {
    type V = ActionView;

    open spec fn view(&self) -> ActionView {
        match *self {
            Action::QueryParallelism => ActionView::QueryParallelism,
            Action::Run { command } => ActionView::Run { command: command@ },
            Action::Capture { command } => ActionView::Capture { command: command@ },
            Action::CreateDirAll { path } => ActionView::CreateDirAll { path: path@ },
            Action::ChangeDir { path } => ActionView::ChangeDir { path: path@ },
            Action::RemoveFile { path } => ActionView::RemoveFile { path: path@ },
            Action::RemoveDirAll { path } => ActionView::RemoveDirAll { path: path@ },
        }
    }
}

/// The views of `actions`, in order.
pub open spec fn action_views(actions: Seq<Action>) -> Seq<ActionView> {
    Seq::new(actions.len(), |i: int| actions[i]@)
}

/// What an error names for `action`: the program of a command, the path of a
/// file-system action, nothing for the host query.
pub open spec fn subject_of(action: ActionView) -> Seq<char> {
    match action {
        ActionView::QueryParallelism => Seq::empty(),
        ActionView::Run { command } => command.program,
        ActionView::Capture { command } => command.program,
        ActionView::CreateDirAll { path } => path,
        ActionView::ChangeDir { path } => path,
        ActionView::RemoveFile { path } => path,
        ActionView::RemoveDirAll { path } => path,
    }
}

/// The arguments that an error names for `action`: those of a command, none
/// for another action.
pub open spec fn args_of(action: ActionView) -> Seq<Seq<char>> {
    match action {
        ActionView::Run { command } => command.args,
        ActionView::Capture { command } => command.args,
        _ => Seq::empty(),
    }
}

/// Whether `action` may find its target absent without that being an error:
/// so it is for the two deletions. Any other failure of theirs is an error.
pub open spec fn is_tolerant(action: ActionView) -> bool {
    action is RemoveFile || action is RemoveDirAll
}

/// Copies `strings`, text by text.
pub fn clone_texts(strings: &Vec<String>) -> (copy: Vec<String>)
    ensures
        texts(copy@) == texts(strings@),
{
    let mut copy: Vec<String> = Vec::new();
    let mut i: usize = 0;
    while i < strings.len()
        invariant
            i <= strings.len(),
            copy.len() == i,
            forall|j: int| 0 <= j < i ==> copy[j]@ == strings[j]@,
        decreases strings.len() - i,
    {
        copy.push(strings[i].clone());
        i += 1;
    }
    copy
}

impl Action {
    /// What an error names for this action.
    pub fn subject(&self) -> (name: String)
        ensures
            name@ == subject_of(self@),
    {
        match self {
            Action::QueryParallelism => String::new(),
            Action::Run { command } => command.program.clone(),
            Action::Capture { command } => command.program.clone(),
            Action::CreateDirAll { path } => path.clone(),
            Action::ChangeDir { path } => path.clone(),
            Action::RemoveFile { path } => path.clone(),
            Action::RemoveDirAll { path } => path.clone(),
        }
    }

    /// The arguments that an error names for this action.
    pub fn arguments(&self) -> (args: Vec<String>)
        ensures
            texts(args@) == args_of(self@),
    {
        match self {
            Action::Run { command } => clone_texts(&command.args),
            Action::Capture { command } => clone_texts(&command.args),
            _ => Vec::new(),
        }
    }

    /// Whether this action may find its target absent without that being an
    /// error.
    pub fn tolerant(&self) -> (r: bool)
        ensures
            r == is_tolerant(self@),
    {
        match self {
            Action::RemoveFile { .. } => true,
            Action::RemoveDirAll { .. } => true,
            _ => false,
        }
    }
}

} // verus!
