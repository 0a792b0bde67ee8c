//! Commit records and the passes that enrich them after parsing.
use vstd::prelude::*;
use crate::graph::{GraphLine, first_lane, is_first_lane};
use crate::text::views;

verus! {

/// One commit of the history, as the list view shows it.
#[derive(Debug, Clone)]
pub struct Commit {
    /// Full hash: the identity of the commit.
    pub hash: String,
    pub short_hash: String,
    pub message: String,
    pub author: String,
    pub email: String,
    /// Author date in seconds since the Unix epoch, UTC.
    pub date: i64,
    /// Parent hashes, first parent first.
    pub parents: Vec<String>,
    /// Names of the references that point at this commit, in listing order.
    pub refs: Vec<String>,
    /// Rendering lane chosen from the graph tokens.
    pub lane: usize,
    /// Decoded graph prefix of the commit's row.
    pub graph: Vec<GraphLine>,
    /// Paths touched by the commit, filled only by the detail lookup.
    pub files: Vec<String>,
    /// Per-path change counts, filled only by the detail lookup.
    pub stats: Vec<(String, i32)>,
}

impl Commit {
    pub open spec fn refs_view(&self) -> Seq<Seq<char>> {
        views(self.refs@)
    }
}

/// `b` is `a` with only its lane changed to `lane`.
pub open spec fn same_but_lane(a: Commit, b: Commit, lane: usize) -> bool {
    b == Commit { lane, ..a }
}

/// Sets each commit's lane to the column of its first vertical or merge graph
/// token, or 0 where there is none; nothing else changes.
pub fn generate_graph(commits: &mut Vec<Commit>)
    ensures
        final(commits)@.len() == old(commits)@.len(),
        forall|i: int|
            0 <= i < old(commits)@.len() ==> {
                &&& is_first_lane(old(commits)@[i].graph@, final(commits)@[i].lane as int)
                &&& #[trigger] final(commits)@[i] == (Commit {
                    lane: final(commits)@[i].lane,
                    ..old(commits)@[i]
                })
            },
{
    let mut i: usize = 0;
    while i < commits.len()
        invariant
            i <= commits@.len() == old(commits)@.len(),
            forall|k: int|
                0 <= k < i ==> {
                    &&& is_first_lane(old(commits)@[k].graph@, commits@[k].lane as int)
                    &&& #[trigger] commits@[k] == (Commit {
                        lane: commits@[k].lane,
                        ..old(commits)@[k]
                    })
                },
            forall|k: int| i <= k < commits@.len() ==> #[trigger] commits@[k] == old(commits)@[k],
        decreases commits@.len() - i,
    {
        let lane = first_lane(commits[i].graph.as_slice());
        commits[i].lane = lane;
        i = i + 1;
    }
}

/// Names of the references in `refs` (pairs of name and target hash) whose
/// target is `h`, in listing order.
pub open spec fn refs_for(refs: Seq<(String, String)>, h: Seq<char>) -> Seq<Seq<char>>
    decreases refs.len(),
{
    if refs.len() == 0 {
        Seq::empty()
    } else {
        let rest = refs_for(refs.drop_last(), h);
        if refs.last().1@ == h {
            rest.push(refs.last().0@)
        } else {
            rest
        }
    }
}

/// The references that a commit shows once `refs` has been attached: those
/// that target its hash, or its earlier ones where none does.
pub open spec fn attached_refs(c: Commit, refs: Seq<(String, String)>) -> Seq<Seq<char>> {
    if refs_for(refs, c.hash@).len() > 0 {
        refs_for(refs, c.hash@)
    } else {
        c.refs_view()
    }
}

/// `new` is `old` with `refs` attached: only the reference lists change.
pub open spec fn is_attached(old: Seq<Commit>, new: Seq<Commit>, refs: Seq<(String, String)>) -> bool {
    &&& new.len() == old.len()
    &&& forall|i: int|
        0 <= i < old.len() ==> {
            &&& #[trigger] new[i] == (Commit { refs: new[i].refs, ..old[i] })
            &&& new[i].refs_view() == attached_refs(old[i], refs)
        }
}

/// Attaching the same references twice gives the same reference lists as
/// attaching them once, and changes nothing else.
pub proof fn attach_is_idempotent(
    a: Seq<Commit>,
    b: Seq<Commit>,
    c: Seq<Commit>,
    refs: Seq<(String, String)>,
)
    requires
        is_attached(a, b, refs),
        is_attached(b, c, refs),
    ensures
        c.len() == b.len(),
        forall|i: int|
            0 <= i < c.len() ==> #[trigger] c[i].refs_view() == b[i].refs_view() && c[i] == (
            Commit { refs: c[i].refs, ..b[i] }),
{
    assert forall|i: int| 0 <= i < c.len() implies #[trigger] c[i].refs_view() == b[i].refs_view()
        && c[i] == (Commit { refs: c[i].refs, ..b[i] }) by {
        assert(b[i] == (Commit { refs: b[i].refs, ..a[i] }));
        assert(b[i].hash == a[i].hash);
    }
}

/// Names of the references whose target is `hash`, in listing order.
fn refs_targeting(refs: &Vec<(String, String)>, hash: &String) -> (r: Vec<String>)
    ensures
        views(r@) == refs_for(refs@, hash@),
{
    let mut r: Vec<String> = Vec::new();
    let mut j: usize = 0;
    assert(refs@.subrange(0, 0) =~= Seq::<(String, String)>::empty());
    assert(views(r@) =~= Seq::<Seq<char>>::empty());
    while j < refs.len()
        invariant
            j <= refs@.len(),
            views(r@) == refs_for(refs@.subrange(0, j as int), hash@),
        decreases refs@.len() - j,
    {
        let ghost old_r = r@;
        assert(refs@.subrange(0, j + 1).drop_last() =~= refs@.subrange(0, j as int));
        if refs[j].1 == *hash {
            r.push(refs[j].0.clone());
            assert(views(r@) =~= views(old_r).push(refs@[j as int].0@));
        }
        j = j + 1;
    }
    assert(refs@.subrange(0, refs@.len() as int) =~= refs@);
    r
}

/// Attaches references, given as pairs of name and target hash, to the
/// commits they target; a commit that no reference targets keeps its list.
pub fn add_refs(commits: &mut Vec<Commit>, refs: &Vec<(String, String)>)
    ensures
        is_attached(old(commits)@, final(commits)@, refs@),
{
    let mut i: usize = 0;
    while i < commits.len()
        invariant
            i <= commits@.len() == old(commits)@.len(),
            forall|k: int|
                0 <= k < i ==> {
                    &&& #[trigger] commits@[k] == (Commit { refs: commits@[k].refs, ..old(commits)@[k] })
                    &&& commits@[k].refs_view() == attached_refs(old(commits)@[k], refs@)
                },
            forall|k: int| i <= k < commits@.len() ==> #[trigger] commits@[k] == old(commits)@[k],
        decreases commits@.len() - i,
    {
        let names = refs_targeting(refs, &commits[i].hash);
        if names.len() > 0 {
            commits[i].refs = names;
        }
        i = i + 1;
    }
}

} // verus!
