use vstd::prelude::*;

use crate::commit::Commit;
use crate::commit_hash::CommitHash;

verus! {

/// Some commit of `commits` has the identifier `h`.
pub open spec fn has_hash(commits: Seq<Commit>, h: Seq<char>) -> bool {
    exists|j: int| 0 <= j < commits.len() && (#[trigger] commits[j]).spec_hash() == h
}

/// The commits of `head`, in their order, whose identifier no commit of `branch` has.
pub open spec fn not_in_branch(head: Seq<Commit>, branch: Seq<Commit>) -> Seq<Commit> {
    head.filter(|c: Commit| !has_hash(branch, c.spec_hash()))
}

/// `idx` gives, for each element of `sub`, a position in `s` that holds it, and the
/// positions increase: `sub` lists elements of `s` in the order of `s`.
pub open spec fn keeps_order(sub: Seq<Commit>, s: Seq<Commit>, idx: Seq<int>) -> bool {
    &&& idx.len() == sub.len()
    &&& forall|k: int| 0 <= k < idx.len() ==> 0 <= #[trigger] idx[k] < s.len()
    &&& forall|k: int| 0 <= k < idx.len() ==> sub[k] == s[#[trigger] idx[k]]
    &&& forall|k: int, l: int| 0 <= k < l < idx.len() ==> #[trigger] idx[k] < #[trigger] idx[l]
}

/// Positions in `s` of the elements that `s.filter(p)` keeps, in increasing order.
proof fn lemma_filter_positions(s: Seq<Commit>, p: spec_fn(Commit) -> bool) -> (idx: Seq<int>)
    ensures
        idx.len() == s.filter(p).len(),
        forall|k: int| 0 <= k < idx.len() ==> 0 <= #[trigger] idx[k] < s.len(),
        forall|k: int| 0 <= k < idx.len() ==> s.filter(p)[k] == s[#[trigger] idx[k]],
        forall|k: int, l: int| 0 <= k < l < idx.len() ==> #[trigger] idx[k] < #[trigger] idx[l],
    decreases s.len(),
{
    reveal(Seq::filter);
    if s.len() == 0 {
        Seq::empty()
    } else {
        let rest = lemma_filter_positions(s.drop_last(), p);
        if p(s.last()) {
            rest.push(s.len() - 1)
        } else {
            rest
        }
    }
}

/// The result holds exactly the commits of `head` whose identifier no commit of
/// `branch` has, in the order of `head`, and is no longer than `head`.
pub proof fn lemma_not_in_branch_exact(head: Seq<Commit>, branch: Seq<Commit>)
    ensures
        not_in_branch(head, branch).len() <= head.len(),
        forall|k: int|
            0 <= k < not_in_branch(head, branch).len() ==> head.contains(
                #[trigger] not_in_branch(head, branch)[k],
            ) && !has_hash(branch, not_in_branch(head, branch)[k].spec_hash()),
        forall|i: int|
            0 <= i < head.len() && !has_hash(branch, head[i].spec_hash()) ==> not_in_branch(
                head,
                branch,
            ).contains(#[trigger] head[i]),
        exists|idx: Seq<int>| #[trigger] keeps_order(not_in_branch(head, branch), head, idx),
{
    broadcast use vstd::seq_lib::group_filter_ensures;

    let p = |c: Commit| !has_hash(branch, c.spec_hash());
    let r = not_in_branch(head, branch);
    assert forall|k: int| 0 <= k < r.len() implies head.contains(#[trigger] r[k]) && !has_hash(
        branch,
        r[k].spec_hash(),
    ) by {
        head.lemma_filter_pred(p, k);
        assert(r.contains(r[k]));
        head.lemma_filter_contains_rev(p, r[k]);
    }
    assert forall|i: int|
        0 <= i < head.len() && !has_hash(branch, head[i].spec_hash()) implies r.contains(
        #[trigger] head[i],
    ) by {
        head.lemma_filter_contains(p, i);
    }
    let idx = lemma_filter_positions(head, p);
    assert(keeps_order(r, head, idx));
}

/// Comparing a list of commits with itself leaves nothing.
pub proof fn lemma_not_in_branch_self(commits: Seq<Commit>)
    ensures
        not_in_branch(commits, commits) == Seq::<Commit>::empty(),
{
    let p = |c: Commit| !has_hash(commits, c.spec_hash());
    assert forall|i: int| 0 <= i < commits.len() implies !p(#[trigger] commits[i]) by {
        assert(commits[i].spec_hash() == commits[i].spec_hash());
    }
    assert(commits.all(|x: Commit| !p(x)));
    commits.lemma_all_neg_filter_empty(p);
    assert(not_in_branch(commits, commits) =~= Seq::<Commit>::empty());
}

proof fn lemma_filter_keep_all(s: Seq<Commit>, p: spec_fn(Commit) -> bool)
    requires
        forall|i: int| 0 <= i < s.len() ==> p(#[trigger] s[i]),
    ensures
        s.filter(p) == s,
    decreases s.len(),
{
    reveal(Seq::filter);
    if s.len() > 0 {
        lemma_filter_keep_all(s.drop_last(), p);
        assert(s.drop_last().push(s.last()) =~= s);
    }
}

/// Against a branch without commits, every commit of HEAD is kept, in order.
pub proof fn lemma_not_in_empty_branch(head: Seq<Commit>)
    ensures
        not_in_branch(head, Seq::<Commit>::empty()) == head,
{
    let p = |c: Commit| !has_hash(Seq::<Commit>::empty(), c.spec_hash());
    lemma_filter_keep_all(head, p);
}

/// Without commits on HEAD, nothing is reported.
pub proof fn lemma_empty_head(branch: Seq<Commit>)
    ensures
        not_in_branch(Seq::<Commit>::empty(), branch) == Seq::<Commit>::empty(),
{
    reveal(Seq::filter);
}

/// Whether some commit of `branch` has the identifier `h`.
fn branch_has(branch: &Vec<Commit>, h: &CommitHash) -> (r: bool)
    ensures
        r == has_hash(branch@, h@),
{
    let mut j: usize = 0;
    while j < branch.len()
        invariant
            j <= branch@.len(),
            forall|k: int| 0 <= k < j ==> (#[trigger] branch@[k]).spec_hash() != h@,
        decreases branch@.len() - j,
    {
        if branch[j].hash().same_as(h) {
            return true;
        }
        j = j + 1;
    }
    false
}

/// Computes which commits reachable from HEAD a branch lacks.
pub struct CommitComparisonDomainService;

impl CommitComparisonDomainService {
    /// The commits of `head_commits`, in their order, whose identifier is not that of
    /// any commit of `branch_commits`. Duplicates in `head_commits` are kept.
    pub fn commits_not_in_branch(head_commits: Vec<Commit>, branch_commits: Vec<Commit>) -> (r: Vec<
        Commit,
    >)
        ensures
            r@ == not_in_branch(head_commits@, branch_commits@),
    {
        let ghost keep = |c: Commit| !has_hash(branch_commits@, c.spec_hash());
        let mut out: Vec<Commit> = Vec::new();
        let mut i: usize = 0;
        while i < head_commits.len()
            invariant
                i <= head_commits@.len(),
                keep == (|c: Commit| !has_hash(branch_commits@, c.spec_hash())),
                out@ == head_commits@.subrange(0, i as int).filter(keep),
            decreases head_commits@.len() - i,
        {
            let c = head_commits[i].clone();
            let absent = !branch_has(&branch_commits, c.hash());
            proof {
                let s = head_commits@.subrange(0, i + 1);
                assert(s.drop_last() =~= head_commits@.subrange(0, i as int));
                assert(s.last() == c);
                reveal(Seq::filter);
            }
            if absent {
                out.push(c);
            }
            i = i + 1;
        }
        assert(head_commits@.subrange(0, head_commits@.len() as int) =~= head_commits@);
        out
    }

    /// Same as `commits_not_in_branch`.
    pub fn find_commits_not_in_branch(head_commits: Vec<Commit>, branch_commits: Vec<Commit>) -> (r:
        Vec<Commit>)
        ensures
            r@ == not_in_branch(head_commits@, branch_commits@),
    {
        Self::commits_not_in_branch(head_commits, branch_commits)
    }
}

} // verus!
