use vstd::prelude::*;

use crate::commit::Commit;
use crate::file_change::{FileChange, status_token};
use crate::records::CommitInfo;
use crate::time_format::format_timestamp;
use crate::time_format::utc_timestamp_text;

verus! {

/// A commit as handed to the output.
#[derive(Debug, Clone)]
pub struct CommitDto {
    pub hash: String,
    pub author: String,
    pub email: String,
    pub date: String,
    pub message: String,
}

/// A changed path as handed to the output.
#[derive(Debug, Clone)]
pub struct FileDto {
    pub path: String,
    pub status: String,
}

/// `r` is the output record of `c`.
pub open spec fn is_commit_record(r: CommitDto, c: Commit) -> bool {
    &&& r.hash@ == c.spec_hash()
    &&& r.author@ == c.spec_author()
    &&& r.email@ == c.spec_email()
    &&& r.date@ == utc_timestamp_text(c.spec_timestamp() as int)
    &&& r.message@ == c.spec_message()
}

/// `r` is the output record of `f`.
pub open spec fn is_file_record(r: FileDto, f: FileChange) -> bool {
    &&& r.path@ == f.spec_path()
    &&& r.status@ == status_token(f.spec_status())
}

/// `rs` holds the records of `cs`, one for one, in order.
pub open spec fn commit_records_of(rs: Seq<CommitDto>, cs: Seq<Commit>) -> bool {
    &&& rs.len() == cs.len()
    &&& forall|i: int| 0 <= i < rs.len() ==> is_commit_record(#[trigger] rs[i], cs[i])
}

/// `rs` holds the records of `fs`, one for one, in order.
pub open spec fn file_records_of(rs: Seq<FileDto>, fs: Seq<FileChange>) -> bool {
    &&& rs.len() == fs.len()
    &&& forall|i: int| 0 <= i < rs.len() ==> is_file_record(#[trigger] rs[i], fs[i])
}

impl CommitDto {
    pub fn from_commit(commit: &Commit) -> (r: CommitDto)
        ensures
            is_commit_record(r, *commit),
    {
        CommitDto {
            hash: commit.hash().to_string(),
            author: commit.author().to_owned(),
            email: commit.email().to_owned(),
            date: commit.formatted_date(),
            message: commit.message().to_owned(),
        }
    }
}

impl CommitDto {
    /// The record of a commit as the repository reported it, its identifier unchecked.
    pub fn from_info(info: &CommitInfo) -> (r: CommitDto)
        ensures
            r.hash@ == info.hash@,
            r.author@ == info.author@,
            r.email@ == info.email@,
            r.date@ == utc_timestamp_text(info.timestamp as int),
            r.message@ == info.message@,
    {
        CommitDto {
            hash: info.hash.clone(),
            author: info.author.clone(),
            email: info.email.clone(),
            date: format_timestamp(info.timestamp),
            message: info.message.clone(),
        }
    }
}

impl FileDto {
    pub fn from_file_change(change: &FileChange) -> (r: FileDto)
        ensures
            is_file_record(r, *change),
    {
        FileDto { path: change.path().to_string_lossy(), status: change.status().as_str().to_owned() }
    }
}

/// The records of `commits`, in order.
pub fn commit_records(commits: &Vec<Commit>) -> (r: Vec<CommitDto>)
    ensures
        commit_records_of(r@, commits@),
{
    let mut out: Vec<CommitDto> = Vec::new();
    let mut i: usize = 0;
    while i < commits.len()
        invariant
            i <= commits@.len(),
            out@.len() == i,
            forall|k: int| 0 <= k < i ==> is_commit_record(#[trigger] out@[k], commits@[k]),
        decreases commits@.len() - i,
    {
        out.push(CommitDto::from_commit(&commits[i]));
        i = i + 1;
    }
    out
}

/// The records of `changes`, in order.
pub fn file_records(changes: &Vec<FileChange>) -> (r: Vec<FileDto>)
    ensures
        file_records_of(r@, changes@),
{
    let mut out: Vec<FileDto> = Vec::new();
    let mut i: usize = 0;
    while i < changes.len()
        invariant
            i <= changes@.len(),
            out@.len() == i,
            forall|k: int| 0 <= k < i ==> is_file_record(#[trigger] out@[k], changes@[k]),
        decreases changes@.len() - i,
    {
        out.push(FileDto::from_file_change(&changes[i]));
        i = i + 1;
    }
    out
}

impl From<Commit> for CommitDto {
    fn from(commit: Commit) -> (r: CommitDto) {
        CommitDto::from_commit(&commit)
    }
}

impl vstd::std_specs::convert::FromSpecImpl<Commit> for CommitDto {
    open spec fn obeys_from_spec() -> bool {
        false
    }

    open spec fn from_spec(v: Commit) -> CommitDto {
        arbitrary()
    }
}

impl From<FileChange> for FileDto {
    fn from(change: FileChange) -> (r: FileDto) {
        FileDto::from_file_change(&change)
    }
}

impl vstd::std_specs::convert::FromSpecImpl<FileChange> for FileDto {
    open spec fn obeys_from_spec() -> bool {
        false
    }

    open spec fn from_spec(v: FileChange) -> FileDto {
        arbitrary()
    }
}

} // verus!
