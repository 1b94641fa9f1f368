//! Compares the current HEAD of a repository with a named branch: the commits that
//! HEAD reaches and the branch does not, and the paths that differ between the two
//! trees. Reading the repository is left to an implementation of `GitRepository`.

pub mod branch_name;
pub mod cli;
pub mod commit;
pub mod commit_hash;
pub mod comparison;
pub mod dto;
pub mod file_change;
pub mod file_path;
pub mod formatter;
pub mod records;
pub mod repository;
pub mod time_format;
pub mod use_cases;

pub use branch_name::{BranchName, BranchNameError};
pub use cli::{Args, CommandController, CommandError, CommandOutput, Commands, OutputFormat};
pub use commit::Commit;
pub use commit_hash::{CommitHash, CommitHashError};
pub use comparison::CommitComparisonDomainService;
pub use dto::{CommitDto, FileDto};
pub use file_change::{FileChange, FileChangeStatus};
pub use file_path::{FilePath, FilePathError};
pub use formatter::SimpleFormatter;
pub use records::{CommitInfo, FileInfo};
pub use repository::{GitRepository, GitRepositoryError};
pub use time_format::format_timestamp;
pub use use_cases::{CompareCommitsError, CompareCommitsUseCase, CompareFilesError, CompareFilesUseCase};
