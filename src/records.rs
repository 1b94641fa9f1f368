use vstd::prelude::*;

verus! {

/// A commit as the repository reports it, before its identifier is checked.
#[derive(Debug, Clone, PartialEq)]
pub struct CommitInfo {
    pub hash: String,
    pub author: String,
    pub email: String,
    pub timestamp: i64,
    pub message: String,
}

/// A changed path as reported, with its status token.
#[derive(Debug, Clone, PartialEq)]
pub struct FileInfo {
    pub path: String,
    pub status: String,
}

} // verus!
