//! Construction of the commit store: parse, assign lanes, attach references.
use vstd::prelude::*;
use crate::commit::{Commit, add_refs, generate_graph, refs_for};
use crate::graph::{graph_of, is_first_lane};
use crate::log::{fields, is_record_of, parents_of_fields, parse_git_log_at, record_lines};
use crate::text::views;
use crate::time::log_date_value;

verus! {

/// `c` is the stored commit of record line `l`: its fields read from the line,
/// its lane from its graph, its references those of `refs` that target it.
pub open spec fn is_entry_of(c: Commit, l: Seq<char>, refs: Seq<(String, String)>, now: i64) -> bool {
    let f = fields(l);
    &&& c.graph@ == graph_of(f[0])
    &&& c.hash@ == f[1]
    &&& c.short_hash@ == f[2]
    &&& c.author@ == f[3]
    &&& c.email@ == f[4]
    &&& c.date == log_date_value(f[5], now)
    &&& c.message@ == f[6]
    &&& views(c.parents@) == parents_of_fields(f)
    &&& views(c.refs@) == refs_for(refs, f[1])
    &&& is_first_lane(c.graph@, c.lane as int)
    &&& c.files@.len() == 0
    &&& c.stats@.len() == 0
}

/// `r` is the store built from log `s` and references `refs`.
pub open spec fn is_store_of(r: Seq<Commit>, s: Seq<char>, refs: Seq<(String, String)>, now: i64) -> bool {
    &&& r.len() == record_lines(s).len()
    &&& forall|i: int| 0 <= i < r.len() ==> is_entry_of(#[trigger] r[i], record_lines(s)[i], refs, now)
}

/// Builds the store from the log text and the repository's references (pairs
/// of name and target hash), dates that cannot be read taken as `now`.
pub fn build_commits_at(output: &str, refs: &Vec<(String, String)>, now: i64) -> (r: Vec<Commit>)
    ensures
        is_store_of(r@, output@, refs@, now),
{
    let mut commits = parse_git_log_at(output, now);
    let ghost parsed = commits@;
    generate_graph(&mut commits);
    let ghost laned = commits@;
    add_refs(&mut commits, refs);
    assert forall|i: int| 0 <= i < commits@.len() implies is_entry_of(
        #[trigger] commits@[i],
        record_lines(output@)[i],
        refs@,
        now,
    ) by {
        assert(is_record_of(parsed[i], record_lines(output@)[i], now));
        assert(laned[i] == (Commit { lane: laned[i].lane, ..parsed[i] }));
        assert(commits@[i] == (Commit { refs: commits@[i].refs, ..laned[i] }));
        assert(views(laned[i].refs@) =~= Seq::<Seq<char>>::empty());
        let m = refs_for(refs@, laned[i].hash@);
        if m.len() == 0 {
            assert(m =~= Seq::<Seq<char>>::empty());
        }
    }
    commits
}

/// Builds the store against the current time: the result is what
/// `build_commits_at` gives for some reading of the clock.
pub fn build_commits(output: &str, refs: &Vec<(String, String)>) -> (r: Vec<Commit>)
    ensures
        exists|now: i64| #[trigger] is_store_of(r@, output@, refs@, now),
{
    let now = crate::time::now_seconds();
    let r = build_commits_at(output, refs, now);
    assert(is_store_of(r@, output@, refs@, now));
    r
}

} // verus!
