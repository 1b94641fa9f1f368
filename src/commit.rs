use vstd::prelude::*;

use crate::commit_hash::{CommitHash, is_valid_commit_hash};
use crate::records::CommitInfo;
use crate::repository::GitRepositoryError;
use crate::time_format::{utc_timestamp_text, format_timestamp};

verus! {

/// A commit: its identifier, author, author's email, time in seconds since the
/// epoch, and summary line.
#[derive(Debug, PartialEq)]
pub struct Commit {
    hash: CommitHash,
    author: String,
    email: String,
    timestamp: i64,
    message: String,
}

impl Commit {
    pub closed spec fn spec_hash(&self) -> Seq<char> {
        self.hash@
    }

    pub closed spec fn spec_author(&self) -> Seq<char> {
        self.author@
    }

    pub closed spec fn spec_email(&self) -> Seq<char> {
        self.email@
    }

    pub closed spec fn spec_timestamp(&self) -> i64 {
        self.timestamp
    }

    pub closed spec fn spec_message(&self) -> Seq<char> {
        self.message@
    }

    pub fn new(hash: CommitHash, author: String, email: String, timestamp: i64, message: String) -> (r:
        Commit)
        ensures
            r.spec_hash() == hash@,
            r.spec_author() == author@,
            r.spec_email() == email@,
            r.spec_timestamp() == timestamp,
            r.spec_message() == message@,
    {
        Commit { hash, author, email, timestamp, message }
    }

    pub fn hash(&self) -> (r: &CommitHash)
        ensures
            r@ == self.spec_hash(),
    {
        &self.hash
    }

    pub fn author(&self) -> (r: &str)
        ensures
            r@ == self.spec_author(),
    {
        self.author.as_str()
    }

    pub fn email(&self) -> (r: &str)
        ensures
            r@ == self.spec_email(),
    {
        self.email.as_str()
    }

    pub fn timestamp(&self) -> (r: i64)
        ensures
            r == self.spec_timestamp(),
    {
        self.timestamp
    }

    pub fn message(&self) -> (r: &str)
        ensures
            r@ == self.spec_message(),
    {
        self.message.as_str()
    }

    /// Builds a commit from what the repository reported; an identifier that is not
    /// forty hexadecimal digits makes the data invalid.
    pub fn from_info(info: CommitInfo) -> (r: Result<Commit, GitRepositoryError>)
        ensures
            match r {
                Ok(c) => {
                    &&& is_valid_commit_hash(info.hash@)
                    &&& c.spec_hash() == info.hash@
                    &&& c.spec_author() == info.author@
                    &&& c.spec_email() == info.email@
                    &&& c.spec_timestamp() == info.timestamp
                    &&& c.spec_message() == info.message@
                },
                Err(GitRepositoryError::InvalidData { message }) => {
                    &&& !is_valid_commit_hash(info.hash@)
                    &&& message@ == "Invalid commit hash: "@ + if info.hash@.len() == 0 {
                        "Commit hash cannot be empty"@
                    } else {
                        "Invalid commit hash format: "@ + info.hash@
                    }
                },
                Err(_) => false,
            },
    {
        match CommitHash::new(info.hash) {
            Ok(hash) => Ok(Commit::new(hash, info.author, info.email, info.timestamp, info.message)),
            Err(e) => {
                let mut message = "Invalid commit hash: ".to_owned();
                message.append(e.message().as_str());
                Err(GitRepositoryError::InvalidData { message })
            },
        }
    }

    /// The commit's time as `YYYY-MM-DD HH:MM:SS` in UTC.
    pub fn formatted_date(&self) -> (r: String)
        ensures
            r@ == utc_timestamp_text(self.spec_timestamp() as int),
    {
        format_timestamp(self.timestamp)
    }
}

impl Clone for Commit {
    fn clone(&self) -> (r: Self)
        ensures
            r == *self,
    {
        Commit {
            hash: self.hash.clone(),
            author: self.author.clone(),
            email: self.email.clone(),
            timestamp: self.timestamp,
            message: self.message.clone(),
        }
    }
}

} // verus!
