use vstd::prelude::*;

use crate::branch_name::BranchName;
use crate::commit::Commit;
use crate::file_change::FileChange;

verus! {

/// What can go wrong when reading a repository.
#[derive(Debug)]
pub enum GitRepositoryError {
    RepositoryNotFound,
    BranchNotFound { branch: String },
    GitOperationFailed { message: String },
    InvalidData { message: String },
    IoError(String),
}

/// The text of a repository error.
pub open spec fn repository_error_text(e: GitRepositoryError) -> Seq<char> {
    match e {
        GitRepositoryError::RepositoryNotFound => "Repository not found or invalid"@,
        GitRepositoryError::BranchNotFound { branch } => "Branch not found: "@ + branch@,
        GitRepositoryError::GitOperationFailed { message } => "Git operation failed: "@ + message@,
        GitRepositoryError::InvalidData { message } => "Invalid repository data: "@ + message@,
        GitRepositoryError::IoError(message) => "IO error: "@ + message@,
    }
}

impl GitRepositoryError {
    /// The text of the error, for display.
    pub fn message(&self) -> (r: String)
        ensures
            r@ == repository_error_text(*self),
    {
        match self {
            GitRepositoryError::RepositoryNotFound => "Repository not found or invalid".to_owned(),
            GitRepositoryError::BranchNotFound { branch } => {
                let mut m = "Branch not found: ".to_owned();
                m.append(branch.as_str());
                m
            },
            GitRepositoryError::GitOperationFailed { message } => {
                let mut m = "Git operation failed: ".to_owned();
                m.append(message.as_str());
                m
            },
            GitRepositoryError::InvalidData { message } => {
                let mut m = "Invalid repository data: ".to_owned();
                m.append(message.as_str());
                m
            },
            GitRepositoryError::IoError(message) => {
                let mut m = "IO error: ".to_owned();
                m.append(message.as_str());
                m
            },
        }
    }
}

/// Read access to a repository: the commits reachable from HEAD or from a local
/// branch, newest first, and the changed paths between a branch's tree and HEAD's.
pub trait GitRepository {
    fn get_commits_from_head(&self) -> Result<Vec<Commit>, GitRepositoryError>;

    fn get_commits_from_branch(&self, branch: &BranchName) -> Result<
        Vec<Commit>,
        GitRepositoryError,
    >;

    fn get_file_changes_between_branches(&self, branch: &BranchName) -> Result<
        Vec<FileChange>,
        GitRepositoryError,
    >;
}

} // verus!
