use std::cell::Cell;

use arlon::{
    Args, BranchName, BranchNameError, CommandController, CommandError, CommandOutput, Commands,
    Commit, CommitHash, CompareCommitsError, CompareCommitsUseCase, CompareFilesError,
    CompareFilesUseCase, FileChange, FileChangeStatus, FilePath, GitRepository,
    GitRepositoryError, OutputFormat,
};

/// A repository double: fixed answers, a branch that exists, and a call counter.
struct FakeRepository {
    head: Vec<Commit>,
    branch: Vec<Commit>,
    changes: Vec<FileChange>,
    known_branch: String,
    head_fails: bool,
    calls: Cell<usize>,
}

impl FakeRepository {
    fn new(head: Vec<Commit>, branch: Vec<Commit>, changes: Vec<FileChange>) -> Self {
        FakeRepository {
            head,
            branch,
            changes,
            known_branch: "main".to_string(),
            head_fails: false,
            calls: Cell::new(0),
        }
    }

    fn lookup(&self, branch: &BranchName) -> Result<(), GitRepositoryError> {
        if branch.as_str() == self.known_branch {
            Ok(())
        } else {
            Err(GitRepositoryError::BranchNotFound { branch: branch.to_string() })
        }
    }
}

impl GitRepository for FakeRepository {
    fn get_commits_from_head(&self) -> Result<Vec<Commit>, GitRepositoryError> {
        self.calls.set(self.calls.get() + 1);
        if self.head_fails {
            return Err(GitRepositoryError::BranchNotFound { branch: "nonexistent".to_string() });
        }
        Ok(self.head.clone())
    }

    fn get_commits_from_branch(&self, branch: &BranchName) -> Result<Vec<Commit>, GitRepositoryError> {
        self.calls.set(self.calls.get() + 1);
        self.lookup(branch)?;
        Ok(self.branch.clone())
    }

    fn get_file_changes_between_branches(
        &self,
        branch: &BranchName,
    ) -> Result<Vec<FileChange>, GitRepositoryError> {
        self.calls.set(self.calls.get() + 1);
        self.lookup(branch)?;
        Ok(self.changes.clone())
    }
}

fn commit(hash: &str, message: &str, timestamp: i64) -> Commit {
    Commit::new(
        CommitHash::new(hash.to_string()).unwrap(),
        "Test Author".to_string(),
        "test@example.com".to_string(),
        timestamp,
        message.to_string(),
    )
}

fn create_test_commit() -> Commit {
    commit("abcdef1234567890abcdef1234567890abcdef12", "Test commit message", 1634567890)
}

fn create_test_file_change() -> FileChange {
    FileChange::new(FilePath::new("src/main.rs".to_string()).unwrap(), FileChangeStatus::Modified)
}

#[test]
fn compare_commits_test_execute_success() {
    let repo = FakeRepository::new(vec![create_test_commit()], vec![], vec![]);
    let use_case = CompareCommitsUseCase::new(&repo);
    let result = use_case.execute("main".to_string());

    assert!(result.is_ok());
    let commits = result.unwrap();
    assert_eq!(commits.len(), 1);
    assert_eq!(commits[0].hash, "abcdef1234567890abcdef1234567890abcdef12");
    assert_eq!(commits[0].author, "Test Author");
    assert_eq!(commits[0].message, "Test commit message");
    assert_eq!(repo.calls.get(), 2);
}

#[test]
fn compare_commits_test_execute_invalid_branch_name() {
    let repo = FakeRepository::new(vec![], vec![], vec![]);
    let use_case = CompareCommitsUseCase::new(&repo);

    let result = use_case.execute("".to_string());

    assert!(result.is_err());
    assert!(matches!(result.unwrap_err(), CompareCommitsError::InvalidBranchName(_)));
}

#[test]
fn compare_commits_test_execute_repository_error() {
    let mut repo = FakeRepository::new(vec![], vec![], vec![]);
    repo.head_fails = true;

    let use_case = CompareCommitsUseCase::new(&repo);
    let result = use_case.execute("nonexistent".to_string());

    assert!(result.is_err());
    assert!(matches!(result.unwrap_err(), CompareCommitsError::RepositoryError(_)));
    assert_eq!(repo.calls.get(), 1);
}

#[test]
fn test_execute_empty_commits() {
    let repo = FakeRepository::new(vec![], vec![], vec![]);
    let use_case = CompareCommitsUseCase::new(&repo);
    let result = use_case.execute("main".to_string());

    assert!(result.is_ok());
    assert_eq!(result.unwrap().len(), 0);
}

#[test]
fn compare_commits_reports_the_oldest_commit_missing_from_main() {
    let c1 = commit("1111111111111111111111111111111111111111", "C1", 300);
    let c2 = commit("2222222222222222222222222222222222222222", "C2", 200);
    let c3 = commit("3333333333333333333333333333333333333333", "C3", 100);
    let repo = FakeRepository::new(vec![c1.clone(), c2.clone(), c3], vec![c1, c2], vec![]);

    let records = CompareCommitsUseCase::new(&repo).execute("main".to_string()).unwrap();

    assert_eq!(records.len(), 1);
    assert_eq!(records[0].hash, "3333333333333333333333333333333333333333");
    assert_eq!(records[0].message, "C3");
    assert_eq!(records[0].date, "1970-01-01 00:01:40");
}

#[test]
fn empty_branch_name_is_rejected_before_any_repository_call() {
    let repo = FakeRepository::new(vec![create_test_commit()], vec![], vec![create_test_file_change()]);

    let commits = CompareCommitsUseCase::new(&repo).execute("".to_string());
    assert!(matches!(commits, Err(CompareCommitsError::InvalidBranchName(BranchNameError::Empty))));
    let files = CompareFilesUseCase::new(&repo).execute("".to_string());
    assert!(matches!(files, Err(CompareFilesError::InvalidBranchName(BranchNameError::Empty))));

    assert_eq!(repo.calls.get(), 0);
}

#[test]
fn malformed_branch_name_is_rejected_before_any_repository_call() {
    let repo = FakeRepository::new(vec![], vec![], vec![]);
    let result = CompareCommitsUseCase::new(&repo).execute("a..b".to_string());
    assert!(matches!(
        result,
        Err(CompareCommitsError::InvalidBranchName(BranchNameError::InvalidCharacters(_)))
    ));
    assert_eq!(repo.calls.get(), 0);
}

#[test]
fn missing_branch_error_names_the_branch() {
    let repo = FakeRepository::new(vec![create_test_commit()], vec![], vec![]);

    match CompareCommitsUseCase::new(&repo).execute("nonexistent".to_string()) {
        Err(CompareCommitsError::RepositoryError(GitRepositoryError::BranchNotFound { branch })) => {
            assert_eq!(branch, "nonexistent")
        }
        _ => panic!("expected BranchNotFound"),
    }
    match CompareFilesUseCase::new(&repo).execute("nonexistent".to_string()) {
        Err(CompareFilesError::RepositoryError(GitRepositoryError::BranchNotFound { branch })) => {
            assert_eq!(branch, "nonexistent")
        }
        _ => panic!("expected BranchNotFound"),
    }
}

#[test]
fn compare_files_test_execute_success() {
    let repo = FakeRepository::new(vec![], vec![], vec![create_test_file_change()]);
    let use_case = CompareFilesUseCase::new(&repo);
    let result = use_case.execute("main".to_string());

    assert!(result.is_ok());
    let files = result.unwrap();
    assert_eq!(files.len(), 1);
    assert_eq!(files[0].path, "src/main.rs");
    assert_eq!(files[0].status, "modified");
}

#[test]
fn compare_files_test_execute_invalid_branch_name() {
    let repo = FakeRepository::new(vec![], vec![], vec![]);
    let use_case = CompareFilesUseCase::new(&repo);

    let result = use_case.execute("".to_string());

    assert!(result.is_err());
    assert!(matches!(result.unwrap_err(), CompareFilesError::InvalidBranchName(_)));
}

#[test]
fn compare_files_test_execute_repository_error() {
    let repo = FakeRepository::new(vec![], vec![], vec![]);
    let use_case = CompareFilesUseCase::new(&repo);
    let result = use_case.execute("nonexistent".to_string());

    assert!(result.is_err());
    assert!(matches!(result.unwrap_err(), CompareFilesError::RepositoryError(_)));
}

#[test]
fn test_execute_empty_files() {
    let repo = FakeRepository::new(vec![], vec![], vec![]);
    let use_case = CompareFilesUseCase::new(&repo);
    let result = use_case.execute("main".to_string());

    assert!(result.is_ok());
    assert_eq!(result.unwrap().len(), 0);
}

#[test]
fn compare_files_reports_a_modified_readme() {
    let change = FileChange::new(
        FilePath::new("docs/readme.md".to_string()).unwrap(),
        FileChangeStatus::Modified,
    );
    let repo = FakeRepository::new(vec![], vec![], vec![change]);

    let records = CompareFilesUseCase::new(&repo).execute("main".to_string()).unwrap();

    assert_eq!(records.len(), 1);
    assert_eq!(records[0].path, "docs/readme.md");
    assert_eq!(records[0].status, "modified");
}

#[test]
fn test_command_controller_with_mock_repository() {
    let repo = FakeRepository::new(vec![], vec![], vec![]);
    let controller = CommandController::new(repo);
    let commands = Commands::Commits { branch: "main".to_string(), format: OutputFormat::Simple };

    let result = controller.execute(commands);
    assert!(result.is_ok());
}

#[test]
fn command_controller_hands_back_records_and_format() {
    let repo = FakeRepository::new(vec![], vec![], vec![create_test_file_change()]);
    let controller = CommandController::new(repo);
    let args = Args { command: Commands::Files { branch: "main".to_string(), format: OutputFormat::Json } };

    match controller.execute(args.command) {
        Ok(CommandOutput::Files { records, format }) => {
            assert_eq!(format, OutputFormat::Json);
            assert_eq!(records.len(), 1);
            assert_eq!(records[0].path, "src/main.rs");
        }
        _ => panic!("expected file records"),
    }
}

#[test]
fn command_controller_wraps_use_case_errors() {
    let controller = CommandController::new(FakeRepository::new(vec![], vec![], vec![]));
    let result = controller.execute(Commands::Commits { branch: ".x".to_string(), format: OutputFormat::Simple });
    match result {
        Err(e) => {
            assert_eq!(
                e.message(),
                "Compare commits failed: Invalid branch name: Branch name contains invalid characters: .x"
            );
            assert!(matches!(e, CommandError::CompareCommitsError(_)));
        }
        Ok(_) => panic!("expected an error"),
    }
    let result = controller.execute(Commands::Files { branch: "gone".to_string(), format: OutputFormat::Simple });
    match result {
        Err(e) => assert_eq!(
            e.message(),
            "Compare files failed: Git repository error: Branch not found: gone"
        ),
        Ok(_) => panic!("expected an error"),
    }
}

#[test]
fn repository_and_output_error_messages() {
    assert_eq!(GitRepositoryError::RepositoryNotFound.message(), "Repository not found or invalid");
    assert_eq!(
        GitRepositoryError::GitOperationFailed { message: "boom".to_string() }.message(),
        "Git operation failed: boom"
    );
    assert_eq!(GitRepositoryError::IoError("disk".to_string()).message(), "IO error: disk");
    assert_eq!(
        GitRepositoryError::InvalidData { message: "bad".to_string() }.message(),
        "Invalid repository data: bad"
    );
    assert_eq!(
        CommandError::RepositoryError(GitRepositoryError::RepositoryNotFound).message(),
        "Repository error: Repository not found or invalid"
    );
    assert_eq!(CommandError::OutputError("closed".to_string()).message(), "Output error: closed");
}
