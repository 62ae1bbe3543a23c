//! Decisions around opening a project shell: which root to use, and how a
//! failure ends the command.

use vstd::prelude::*;
use vstd::string::StringExecFns;

verus! {

/// Exit code of a failure that the user can mend.
pub const EXIT_USER_ERROR: i32 = 100;

/// Exit code of a failure that may pass by itself.
pub const EXIT_TEMPORARY: i32 = 111;

/// A command that ends without success: the exit code of the process and
/// the message for the user.
#[derive(Clone, Debug, PartialEq, Eq)]
pub struct ExitError {
    exitcode: i32,
    message: String,
}

/// Mathematical value of an [`ExitError`].
pub ghost struct ExitErrorModel {
    pub exitcode: i32,
    pub message: Seq<char>,
}

impl View for ExitError {
    type V = ExitErrorModel;

    closed spec fn view(&self) -> ExitErrorModel {
        ExitErrorModel { exitcode: self.exitcode, message: self.message@ }
    }
}

impl ExitError {
    /// A failure that the user can mend.
    pub fn user_error(message: String) -> (out: ExitError)
        ensures
            out@ == (ExitErrorModel { exitcode: EXIT_USER_ERROR, message: message@ }),
    {
        ExitError { exitcode: EXIT_USER_ERROR, message }
    }

    /// A failure that may pass by itself.
    pub fn temporary(message: String) -> (out: ExitError)
        ensures
            out@ == (ExitErrorModel { exitcode: EXIT_TEMPORARY, message: message@ }),
    {
        ExitError { exitcode: EXIT_TEMPORARY, message }
    }

    /// The exit code of the process.
    pub fn exitcode(&self) -> (out: i32)
        ensures
            out == self@.exitcode,
    {
        self.exitcode
    }

    /// The message for the user.
    pub fn message(&self) -> (out: &str)
        ensures
            out@ == self@.message,
    {
        self.message.as_str()
    }
}

/// View of the outcome of a command that yields a path.
pub open spec fn outcome_of(outcome: Result<String, ExitError>) -> Result<
    Seq<char>,
    ExitErrorModel,
> {
    match outcome {
        Ok(path) => Ok(path@),
        Err(error) => Err(error@),
    }
}

/// Where the roots of a project lie.
#[derive(Clone, Debug, PartialEq, Eq)]
pub struct RootPaths {
    pub shell_gc_root: String,
}

/// The root of a project that was built before: the shell root where every
/// root exists, a temporary failure where one is missing.
pub open spec fn cached_root_outcome(shell_gc_root: Seq<char>, all_exist: bool) -> Result<
    Seq<char>,
    ExitErrorModel,
> {
    if all_exist {
        Ok(shell_gc_root)
    } else {
        Err(
            ExitErrorModel {
                exitcode: EXIT_TEMPORARY,
                message: "project has not previously been built successfully"@,
            },
        )
    }
}

/// Chooses the root of a shell that is opened without building.
/// `all_exist` says whether every one of the project's roots is on disk.
pub fn cached_root(root_paths: &RootPaths, all_exist: bool) -> (out: Result<String, ExitError>)
    ensures
        outcome_of(out) == cached_root_outcome(root_paths.shell_gc_root@, all_exist),
{
    if !all_exist {
        Err(
            ExitError::temporary(
                String::from_str("project has not previously been built successfully"),
            ),
        )
    } else {
        Ok(root_paths.shell_gc_root.clone())
    }
}

/// How the build of a project's environment ended.
#[derive(Clone, Debug, PartialEq, Eq)]
pub enum BuildOutcome {
    /// The build did not complete; the text says how it ended.
    Failed(String),
    /// The build completed, and rooting its outputs failed with this reason.
    RootingFailed(String),
    /// The build completed and its outputs are rooted here.
    Rooted(RootPaths),
}

/// Mathematical value of a [`BuildOutcome`].
pub ghost enum BuildOutcomeModel {
    Failed(Seq<char>),
    RootingFailed(Seq<char>),
    Rooted(Seq<char>),
}

impl View for BuildOutcome {
    type V = BuildOutcomeModel;

    open spec fn view(&self) -> BuildOutcomeModel {
        match *self {
            BuildOutcome::Failed(detail) => BuildOutcomeModel::Failed(detail@),
            BuildOutcome::RootingFailed(detail) => BuildOutcomeModel::RootingFailed(detail@),
            BuildOutcome::Rooted(paths) => BuildOutcomeModel::Rooted(paths.shell_gc_root@),
        }
    }
}

/// The root of a project that was just built: the shell root of its rooted
/// outputs, or a temporary failure that says what went wrong.
pub open spec fn build_root_outcome(outcome: BuildOutcomeModel) -> Result<
    Seq<char>,
    ExitErrorModel,
> {
    match outcome {
        BuildOutcomeModel::Failed(detail) => Err(
            ExitErrorModel { exitcode: EXIT_TEMPORARY, message: "build failed: "@ + detail },
        ),
        BuildOutcomeModel::RootingFailed(detail) => Err(
            ExitErrorModel {
                exitcode: EXIT_TEMPORARY,
                message: "rooting the environment failed: "@ + detail,
            },
        ),
        BuildOutcomeModel::Rooted(shell_gc_root) => Ok(shell_gc_root),
    }
}

/// Chooses the root of a shell from the outcome of building the project.
pub fn build_root(outcome: BuildOutcome) -> (out: Result<String, ExitError>)
    ensures
        outcome_of(out) == build_root_outcome(outcome@),
{
    match outcome {
        BuildOutcome::Failed(detail) => {
            let mut message = String::from_str("build failed: ");
            message.append(detail.as_str());
            Err(ExitError::temporary(message))
        },
        BuildOutcome::RootingFailed(detail) => {
            let mut message = String::from_str("rooting the environment failed: ");
            message.append(detail.as_str());
            Err(ExitError::temporary(message))
        },
        BuildOutcome::Rooted(paths) => Ok(paths.shell_gc_root),
    }
}

/// The text of the file that the shell reads on start: it names the
/// project's root and goes on with the given script.
pub open spec fn init_script_text(project_root: Seq<char>, script: Seq<char>) -> Seq<char> {
    "\nEVALUATION_ROOT=\""@ + project_root + "\"\n\n"@ + script
}

/// Composes the file that the shell reads on start.
pub fn init_script(project_root: &str, script: &str) -> (out: String)
    ensures
        out@ == init_script_text(project_root@, script@),
{
    let mut out = String::from_str("\nEVALUATION_ROOT=\"");
    out.append(project_root);
    out.append("\"\n\n");
    out.append(script);
    out
}

/// What the user is told where the shell file is missing: that it is, and a
/// sample to start from.
pub open spec fn missing_shell_file_text(shell_file: Seq<char>, sample: Seq<char>) -> Seq<char> {
    "`"@ + shell_file
        + "` does not exist\nYou can use the following minimal `shell.nix` to get started:\n\n"@
        + sample
}

/// The shell file to use: the one that was located, or a user error where
/// none was.
pub open spec fn shell_file_outcome(
    shell_file: Seq<char>,
    located: Option<Seq<char>>,
    sample: Seq<char>,
) -> Result<Seq<char>, ExitErrorModel> {
    match located {
        Some(path) => Ok(path),
        None => Err(
            ExitErrorModel {
                exitcode: EXIT_USER_ERROR,
                message: missing_shell_file_text(shell_file, sample),
            },
        ),
    }
}

/// Decides on the shell file of a command. `located` is the path at which
/// `shell_file` was found in the working directory, if it was.
pub fn get_shell_nix(shell_file: &str, located: Option<String>, sample: &str) -> (out: Result<
    String,
    ExitError,
>)
    ensures
        outcome_of(out) == shell_file_outcome(
            shell_file@,
            match located {
                Some(path) => Some(path@),
                None => None,
            },
            sample@,
        ),
{
    match located {
        Some(path) => Ok(path),
        None => {
            let mut message = String::from_str("`");
            message.append(shell_file);
            message.append(
                "` does not exist\nYou can use the following minimal `shell.nix` to get started:\n\n",
            );
            message.append(sample);
            Err(ExitError::user_error(message))
        },
    }
}

} // verus!
