use vstd::prelude::*;

use crate::dto::{CommitDto, FileDto};

verus! {

/// The line `hash date message` of a commit record.
pub open spec fn commit_line_text(c: CommitDto) -> Seq<char> {
    c.hash@ + " "@ + c.date@ + " "@ + c.message@
}

/// The line `status path` of a file record.
pub open spec fn file_line_text(f: FileDto) -> Seq<char> {
    f.status@ + " "@ + f.path@
}

/// One line per commit record, in order, each ended by a newline.
pub open spec fn commits_text(cs: Seq<CommitDto>) -> Seq<char>
    decreases cs.len(),
{
    if cs.len() == 0 {
        Seq::empty()
    } else {
        commits_text(cs.drop_last()) + commit_line_text(cs.last()) + "\n"@
    }
}

/// One line per file record, in order, each ended by a newline.
pub open spec fn files_text(fs: Seq<FileDto>) -> Seq<char>
    decreases fs.len(),
{
    if fs.len() == 0 {
        Seq::empty()
    } else {
        files_text(fs.drop_last()) + file_line_text(fs.last()) + "\n"@
    }
}

/// The line-oriented rendering of records.
pub struct SimpleFormatter;

impl SimpleFormatter {
    pub fn commit_line(&self, commit: &CommitDto) -> (r: String)
        ensures
            r@ == commit_line_text(*commit),
    {
        let mut line = commit.hash.clone();
        line.append(" ");
        line.append(commit.date.as_str());
        line.append(" ");
        line.append(commit.message.as_str());
        line
    }

    pub fn file_line(&self, file: &FileDto) -> (r: String)
        ensures
            r@ == file_line_text(*file),
    {
        let mut line = file.status.clone();
        line.append(" ");
        line.append(file.path.as_str());
        line
    }

    /// The text for a list of commit records, one line each, in order.
    pub fn render_commits(&self, commits: &Vec<CommitDto>) -> (r: String)
        ensures
            r@ == commits_text(commits@),
    {
        let mut out = String::new();
        let mut i: usize = 0;
        while i < commits.len()
            invariant
                i <= commits@.len(),
                out@ == commits_text(commits@.subrange(0, i as int)),
            decreases commits@.len() - i,
        {
            let line = self.commit_line(&commits[i]);
            out.append(line.as_str());
            out.append("\n");
            proof {
                let s = commits@.subrange(0, i + 1);
                assert(s.drop_last() =~= commits@.subrange(0, i as int));
                assert(s.last() == commits@[i as int]);
            }
            i = i + 1;
        }
        assert(commits@.subrange(0, commits@.len() as int) =~= commits@);
        out
    }

    /// The text for a list of file records, one line each, in order.
    pub fn render_files(&self, files: &Vec<FileDto>) -> (r: String)
        ensures
            r@ == files_text(files@),
    {
        let mut out = String::new();
        let mut i: usize = 0;
        while i < files.len()
            invariant
                i <= files@.len(),
                out@ == files_text(files@.subrange(0, i as int)),
            decreases files@.len() - i,
        {
            let line = self.file_line(&files[i]);
            out.append(line.as_str());
            out.append("\n");
            proof {
                let s = files@.subrange(0, i + 1);
                assert(s.drop_last() =~= files@.subrange(0, i as int));
                assert(s.last() == files@[i as int]);
            }
            i = i + 1;
        }
        assert(files@.subrange(0, files@.len() as int) =~= files@);
        out
    }
}

} // verus!
