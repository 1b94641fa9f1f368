use vstd::prelude::*;

use crate::file_path::FilePath;

verus! {

/// How a path differs between two trees.
#[derive(Debug, Clone, Copy, PartialEq, Eq, Structural)]
pub enum FileChangeStatus {
    Added,
    Deleted,
    Modified,
    Renamed,
    Copied,
    Ignored,
    Untracked,
    Typechange,
    Unreadable,
    Conflicted,
    Unmodified,
}

/// The lowercase token that names each status.
pub open spec fn status_token(s: FileChangeStatus) -> Seq<char> {
    match s {
        FileChangeStatus::Added => "added"@,
        FileChangeStatus::Deleted => "deleted"@,
        FileChangeStatus::Modified => "modified"@,
        FileChangeStatus::Renamed => "renamed"@,
        FileChangeStatus::Copied => "copied"@,
        FileChangeStatus::Ignored => "ignored"@,
        FileChangeStatus::Untracked => "untracked"@,
        FileChangeStatus::Typechange => "typechange"@,
        FileChangeStatus::Unreadable => "unreadable"@,
        FileChangeStatus::Conflicted => "conflicted"@,
        FileChangeStatus::Unmodified => "unmodified"@,
    }
}

impl FileChangeStatus {
    pub fn as_str(&self) -> (r: &'static str)
        ensures
            r@ == status_token(*self),
    {
        match self {
            FileChangeStatus::Added => "added",
            FileChangeStatus::Deleted => "deleted",
            FileChangeStatus::Modified => "modified",
            FileChangeStatus::Renamed => "renamed",
            FileChangeStatus::Copied => "copied",
            FileChangeStatus::Ignored => "ignored",
            FileChangeStatus::Untracked => "untracked",
            FileChangeStatus::Typechange => "typechange",
            FileChangeStatus::Unreadable => "unreadable",
            FileChangeStatus::Conflicted => "conflicted",
            FileChangeStatus::Unmodified => "unmodified",
        }
    }
}

/// The path that names a diff entry: the new one where present, else the old one.
pub open spec fn delta_path(new_path: Option<String>, old_path: Option<String>) -> Option<String> {
    match new_path {
        Some(p) => Some(p),
        None => old_path,
    }
}

/// One changed path and how it changed.
#[derive(Debug, PartialEq)]
pub struct FileChange {
    path: FilePath,
    status: FileChangeStatus,
}

impl FileChange {
    pub closed spec fn spec_path(&self) -> Seq<char> {
        self.path@
    }

    pub closed spec fn spec_status(&self) -> FileChangeStatus {
        self.status
    }

    pub fn new(path: FilePath, status: FileChangeStatus) -> (r: FileChange)
        ensures
            r.spec_path() == path@,
            r.spec_status() == status,
    {
        FileChange { path, status }
    }

    /// The change for one entry of a tree diff: named by its new path where there is
    /// one, else by its old path. An entry with neither, or whose chosen path is empty,
    /// gives none.
    pub fn from_delta(status: FileChangeStatus, new_path: Option<String>, old_path: Option<String>) -> (r:
        Option<FileChange>)
        ensures
            match delta_path(new_path, old_path) {
                None => r is None,
                Some(p) => if p@.len() == 0 {
                    r is None
                } else {
                    r is Some && r->Some_0.spec_path() == p@ && r->Some_0.spec_status() == status
                },
            },
    {
        let chosen = match new_path {
            Some(p) => Some(p),
            None => old_path,
        };
        match chosen {
            None => None,
            Some(p) => match FilePath::new(p) {
                Ok(path) => Some(FileChange::new(path, status)),
                Err(_) => None,
            },
        }
    }

    pub fn path(&self) -> (r: &FilePath)
        ensures
            r@ == self.spec_path(),
    {
        &self.path
    }

    pub fn status(&self) -> (r: &FileChangeStatus)
        ensures
            *r == self.spec_status(),
    {
        &self.status
    }
}

impl Clone for FileChange {
    fn clone(&self) -> (r: Self)
        ensures
            r == *self,
    {
        FileChange { path: self.path.clone(), status: self.status }
    }
}

} // verus!
