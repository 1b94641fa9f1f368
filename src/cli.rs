use vstd::prelude::*;

use crate::dto::{CommitDto, FileDto};
use crate::repository::{GitRepository, GitRepositoryError, repository_error_text};
use crate::use_cases::{
    CompareCommitsError,
    CompareCommitsUseCase,
    CompareFilesError,
    CompareFilesUseCase,
    commit_comparison_result,
    compare_commits_error_text,
    compare_files_error_text,
    file_comparison_result,
};

verus! {

/// How records are rendered.
#[derive(Debug, Clone, Copy, PartialEq, Eq, Structural)]
pub enum OutputFormat {
    Simple,
    Json,
}

/// The two comparisons the tool offers.
#[derive(Debug, Clone)]
pub enum Commands {
    /// Commits reachable from HEAD that the branch does not reach.
    Commits { branch: String, format: OutputFormat },
    /// Paths that differ between the branch and HEAD.
    Files { branch: String, format: OutputFormat },
}

/// A parsed command line.
#[derive(Debug, Clone)]
pub struct Args {
    pub command: Commands,
}

/// The records a command produced, with the format asked for.
#[derive(Debug, Clone)]
pub enum CommandOutput {
    Commits { records: Vec<CommitDto>, format: OutputFormat },
    Files { records: Vec<FileDto>, format: OutputFormat },
}

#[derive(Debug)]
pub enum CommandError {
    CompareCommitsError(CompareCommitsError),
    CompareFilesError(CompareFilesError),
    RepositoryError(GitRepositoryError),
    OutputError(String),
}

/// The text of a command error.
pub open spec fn command_error_text(e: CommandError) -> Seq<char> {
    match e {
        CommandError::CompareCommitsError(c) => "Compare commits failed: "@ + compare_commits_error_text(c),
        CommandError::CompareFilesError(f) => "Compare files failed: "@ + compare_files_error_text(f),
        CommandError::RepositoryError(g) => "Repository error: "@ + repository_error_text(g),
        CommandError::OutputError(s) => "Output error: "@ + s@,
    }
}

impl CommandError {
    /// The text of the error, for display.
    pub fn message(&self) -> (r: String)
        ensures
            r@ == command_error_text(*self),
    {
        match self {
            CommandError::CompareCommitsError(e) => {
                let mut m = "Compare commits failed: ".to_owned();
                m.append(e.message().as_str());
                m
            },
            CommandError::CompareFilesError(e) => {
                let mut m = "Compare files failed: ".to_owned();
                m.append(e.message().as_str());
                m
            },
            CommandError::RepositoryError(e) => {
                let mut m = "Repository error: ".to_owned();
                m.append(e.message().as_str());
                m
            },
            CommandError::OutputError(s) => {
                let mut m = "Output error: ".to_owned();
                m.append(s.as_str());
                m
            },
        }
    }
}

/// What running `command` may give.
pub open spec fn command_result(command: Commands, r: Result<CommandOutput, CommandError>) -> bool {
    match command {
        Commands::Commits { branch, format } => match r {
            Ok(CommandOutput::Commits { records, format: f }) => f == format
                && commit_comparison_result(
                branch@,
                Ok(records),
            ),
            Err(CommandError::CompareCommitsError(e)) => commit_comparison_result(branch@, Err(e)),
            _ => false,
        },
        Commands::Files { branch, format } => match r {
            Ok(CommandOutput::Files { records, format: f }) => f == format && file_comparison_result(
                branch@,
                Ok(records),
            ),
            Err(CommandError::CompareFilesError(e)) => file_comparison_result(branch@, Err(e)),
            _ => false,
        },
    }
}

/// Runs a command against a repository.
pub struct CommandController<R> {
    git_repository: R,
}

impl<R: GitRepository> CommandController<R> {
    pub closed spec fn repository(&self) -> R {
        self.git_repository
    }

    pub fn new(git_repository: R) -> (r: Self)
        ensures
            r.repository() == git_repository,
    {
        CommandController { git_repository }
    }

    /// Runs the comparison that `command` names and hands back its records, to be
    /// rendered in the format it names.
    pub fn execute(&self, command: Commands) -> (r: Result<CommandOutput, CommandError>)
        ensures
            command_result(command, r),
    {
        match command {
            Commands::Commits { branch, format } => self.handle_compare_commits(branch, format),
            Commands::Files { branch, format } => self.handle_compare_files(branch, format),
        }
    }

    fn handle_compare_commits(&self, branch: String, format: OutputFormat) -> (r: Result<
        CommandOutput,
        CommandError,
    >)
        ensures
            command_result(Commands::Commits { branch, format }, r),
    {
        let use_case = CompareCommitsUseCase::new(&self.git_repository);
        match use_case.execute(branch) {
            Ok(records) => Ok(CommandOutput::Commits { records, format }),
            Err(e) => Err(CommandError::CompareCommitsError(e)),
        }
    }

    fn handle_compare_files(&self, branch: String, format: OutputFormat) -> (r: Result<
        CommandOutput,
        CommandError,
    >)
        ensures
            command_result(Commands::Files { branch, format }, r),
    {
        let use_case = CompareFilesUseCase::new(&self.git_repository);
        match use_case.execute(branch) {
            Ok(records) => Ok(CommandOutput::Files { records, format }),
            Err(e) => Err(CommandError::CompareFilesError(e)),
        }
    }
}

} // verus!
