use vstd::prelude::*;

use crate::branch_name::{
    BranchName,
    BranchNameError,
    branch_name_error_text,
    branch_name_rejection,
    is_valid_branch_name,
};
use crate::commit::Commit;
use crate::comparison::{CommitComparisonDomainService, not_in_branch};
use crate::dto::{
    CommitDto,
    FileDto,
    commit_records,
    commit_records_of,
    file_records,
    file_records_of,
};
use crate::file_change::FileChange;
use crate::repository::{GitRepository, GitRepositoryError, repository_error_text};

verus! {

#[derive(Debug)]
pub enum CompareCommitsError {
    InvalidBranchName(BranchNameError),
    RepositoryError(GitRepositoryError),
}

/// The text of a commit comparison error.
pub open spec fn compare_commits_error_text(e: CompareCommitsError) -> Seq<char> {
    match e {
        CompareCommitsError::InvalidBranchName(b) => "Invalid branch name: "@ + branch_name_error_text(b),
        CompareCommitsError::RepositoryError(g) => "Git repository error: "@ + repository_error_text(g),
    }
}

impl CompareCommitsError {
    /// The text of the error, for display.
    pub fn message(&self) -> (r: String)
        ensures
            r@ == compare_commits_error_text(*self),
    {
        match self {
            CompareCommitsError::InvalidBranchName(e) => {
                let mut m = "Invalid branch name: ".to_owned();
                m.append(e.message().as_str());
                m
            },
            CompareCommitsError::RepositoryError(e) => {
                let mut m = "Git repository error: ".to_owned();
                m.append(e.message().as_str());
                m
            },
        }
    }
}

#[derive(Debug)]
pub enum CompareFilesError {
    InvalidBranchName(BranchNameError),
    RepositoryError(GitRepositoryError),
}

/// The text of a file comparison error.
pub open spec fn compare_files_error_text(e: CompareFilesError) -> Seq<char> {
    match e {
        CompareFilesError::InvalidBranchName(b) => "Invalid branch name: "@ + branch_name_error_text(b),
        CompareFilesError::RepositoryError(g) => "Git repository error: "@ + repository_error_text(g),
    }
}

impl CompareFilesError {
    /// The text of the error, for display.
    pub fn message(&self) -> (r: String)
        ensures
            r@ == compare_files_error_text(*self),
    {
        match self {
            CompareFilesError::InvalidBranchName(e) => {
                let mut m = "Invalid branch name: ".to_owned();
                m.append(e.message().as_str());
                m
            },
            CompareFilesError::RepositoryError(e) => {
                let mut m = "Git repository error: ".to_owned();
                m.append(e.message().as_str());
                m
            },
        }
    }
}

/// What comparing commits against the branch named `name` may give: the name's own
/// error where it is invalid; else the records of the commits of some list from HEAD
/// that some list from the branch lacks, or the repository's error.
pub open spec fn commit_comparison_result(
    name: Seq<char>,
    r: Result<Vec<CommitDto>, CompareCommitsError>,
) -> bool {
    if !is_valid_branch_name(name) {
        match r {
            Err(CompareCommitsError::InvalidBranchName(e)) => branch_name_rejection(e, name),
            _ => false,
        }
    } else {
        match r {
            Ok(v) => exists|h: Seq<Commit>, b: Seq<Commit>| #[trigger]
                commit_records_of(v@, not_in_branch(h, b)),
            Err(e) => e is RepositoryError,
        }
    }
}

/// What comparing files against the branch named `name` may give: the name's own
/// error where it is invalid; else the records of some list of changes, or the
/// repository's error.
pub open spec fn file_comparison_result(name: Seq<char>, r: Result<Vec<FileDto>, CompareFilesError>) -> bool {
    if !is_valid_branch_name(name) {
        match r {
            Err(CompareFilesError::InvalidBranchName(e)) => branch_name_rejection(e, name),
            _ => false,
        }
    } else {
        match r {
            Ok(v) => exists|c: Seq<FileChange>| #[trigger] file_records_of(v@, c),
            Err(e) => e is RepositoryError,
        }
    }
}

/// What comparing the commits gives, once the repository has answered: the records
/// of the commits of HEAD that the branch lacks, or the first error.
pub open spec fn commits_outcome(
    head: Result<Vec<Commit>, GitRepositoryError>,
    branch: Result<Vec<Commit>, GitRepositoryError>,
    r: Result<Vec<CommitDto>, CompareCommitsError>,
) -> bool {
    match head {
        Err(e) => r == Err::<Vec<CommitDto>, CompareCommitsError>(
            CompareCommitsError::RepositoryError(e),
        ),
        Ok(h) => match branch {
            Err(e) => r == Err::<Vec<CommitDto>, CompareCommitsError>(
                CompareCommitsError::RepositoryError(e),
            ),
            Ok(b) => r is Ok && commit_records_of(r->Ok_0@, not_in_branch(h@, b@)),
        },
    }
}

/// The records of the commits of `head` that `branch` lacks, or the first error
/// that the repository gave.
pub fn compare_commit_results(
    head: Result<Vec<Commit>, GitRepositoryError>,
    branch: Result<Vec<Commit>, GitRepositoryError>,
) -> (r: Result<Vec<CommitDto>, CompareCommitsError>)
    ensures
        commits_outcome(head, branch, r),
{
    match head {
        Err(e) => Err(CompareCommitsError::RepositoryError(e)),
        Ok(h) => match branch {
            Err(e) => Err(CompareCommitsError::RepositoryError(e)),
            Ok(b) => {
                let kept = CommitComparisonDomainService::commits_not_in_branch(h, b);
                Ok(commit_records(&kept))
            },
        },
    }
}

/// Lists the commits reachable from HEAD that a branch does not reach.
pub struct CompareCommitsUseCase<'a, R> {
    git_repository: &'a R,
}

impl<'a, R: GitRepository> CompareCommitsUseCase<'a, R> {
    pub closed spec fn repository(&self) -> R {
        *self.git_repository
    }

    pub fn new(git_repository: &'a R) -> (r: Self)
        ensures
            r.repository() == *git_repository,
    {
        CompareCommitsUseCase { git_repository }
    }

    /// Checks the branch name before asking the repository anything; then takes the
    /// commits from HEAD and from the branch and keeps those of HEAD that the branch
    /// lacks, in HEAD's order.
    pub fn execute(&self, branch_name: String) -> (r: Result<Vec<CommitDto>, CompareCommitsError>)
        ensures
            commit_comparison_result(branch_name@, r),
    {
        let branch = match BranchName::new(branch_name) {
            Ok(b) => b,
            Err(e) => return Err(CompareCommitsError::InvalidBranchName(e)),
        };
        let head = self.git_repository.get_commits_from_head();
        if head.is_err() {
            return compare_commit_results(head, Ok(Vec::new()));
        }
        let branch_commits = self.git_repository.get_commits_from_branch(&branch);
        compare_commit_results(head, branch_commits)
    }
}

/// What comparing the files gives, once the repository has answered.
pub open spec fn files_outcome(
    changes: Result<Vec<FileChange>, GitRepositoryError>,
    r: Result<Vec<FileDto>, CompareFilesError>,
) -> bool {
    match changes {
        Err(e) => r == Err::<Vec<FileDto>, CompareFilesError>(CompareFilesError::RepositoryError(e)),
        Ok(c) => r is Ok && file_records_of(r->Ok_0@, c@),
    }
}

/// The records of the changed paths, or the error that the repository gave.
pub fn compare_file_results(changes: Result<Vec<FileChange>, GitRepositoryError>) -> (r: Result<
    Vec<FileDto>,
    CompareFilesError,
>)
    ensures
        files_outcome(changes, r),
{
    match changes {
        Err(e) => Err(CompareFilesError::RepositoryError(e)),
        Ok(c) => Ok(file_records(&c)),
    }
}

/// Lists the paths that differ between a branch's tree and HEAD's.
pub struct CompareFilesUseCase<'a, R> {
    git_repository: &'a R,
}

impl<'a, R: GitRepository> CompareFilesUseCase<'a, R> {
    pub closed spec fn repository(&self) -> R {
        *self.git_repository
    }

    pub fn new(git_repository: &'a R) -> (r: Self)
        ensures
            r.repository() == *git_repository,
    {
        CompareFilesUseCase { git_repository }
    }

    /// Checks the branch name before asking the repository anything; then maps each
    /// changed path to its record, in the order the repository gave.
    pub fn execute(&self, branch_name: String) -> (r: Result<Vec<FileDto>, CompareFilesError>)
        ensures
            file_comparison_result(branch_name@, r),
    {
        let branch = match BranchName::new(branch_name) {
            Ok(b) => b,
            Err(e) => return Err(CompareFilesError::InvalidBranchName(e)),
        };
        let changes = self.git_repository.get_file_changes_between_branches(&branch);
        compare_file_results(changes)
    }
}

} // verus!
