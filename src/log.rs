//! Parsing of the graph-annotated, pipe-delimited commit log.
use vstd::prelude::*;
use vstd::slice::slice_subrange;
use crate::commit::Commit;
use crate::graph::{graph_of, graph_of_chars};
use crate::text::{split_chars, split_on, split_words, string_of, trim, trim_bounds, views, words};
use crate::time::{LOG_DATE_FORMAT, log_date_value, offset_datetime_of, parse_log_date, rfc3339_of};

verus! {

/// The `|`-separated fields of a log line.
pub open spec fn fields(l: Seq<char>) -> Seq<Seq<char>> {
    split_on(l, '|')
}

/// A trimmed line that holds a commit: at least seven fields.
pub open spec fn is_record_line(l: Seq<char>) -> bool {
    fields(l).len() >= 7
}

/// The trimmed lines of the log, in order.
pub open spec fn trimmed_lines(s: Seq<char>) -> Seq<Seq<char>> {
    split_on(s, '\n').map_values(|l: Seq<char>| trim(l))
}

/// The lines of the log that become commits, trimmed, in order; blank lines
/// and lines with fewer than seven fields are left out.
pub open spec fn record_lines(s: Seq<char>) -> Seq<Seq<char>> {
    trimmed_lines(s).filter(|l: Seq<char>| is_record_line(l))
}

/// Parent hashes of a record: the words of the eighth field, if there is one.
pub open spec fn parents_of_fields(f: Seq<Seq<char>>) -> Seq<Seq<char>> {
    if f.len() > 7 {
        words(f[7])
    } else {
        Seq::empty()
    }
}

/// `c` is the commit that record line `l` describes, dates that cannot be read
/// taken as `now`.
pub open spec fn is_record_of(c: Commit, l: Seq<char>, now: i64) -> bool {
    let f = fields(l);
    &&& c.graph@ == graph_of(f[0])
    &&& c.hash@ == f[1]
    &&& c.short_hash@ == f[2]
    &&& c.author@ == f[3]
    &&& c.email@ == f[4]
    &&& c.date == log_date_value(f[5], now)
    &&& c.message@ == f[6]
    &&& views(c.parents@) == parents_of_fields(f)
    &&& c.refs@.len() == 0
    &&& c.lane == 0
    &&& c.files@.len() == 0
    &&& c.stats@.len() == 0
}

/// Text without the delimiter is one piece.
pub proof fn lemma_split_without_delimiter(s: Seq<char>, d: char)
    requires
        !s.contains(d),
    ensures
        split_on(s, d) == seq![s],
    decreases s.len(),
{
    if s.len() > 0 {
        assert(!s.drop_last().contains(d)) by {
            if s.drop_last().contains(d) {
                let k = choose|k: int| 0 <= k < s.drop_last().len() && s.drop_last()[k] == d;
                assert(s[k] == d);
            }
        }
        lemma_split_without_delimiter(s.drop_last(), d);
        assert(s.last() != d) by {
            if s.last() == d {
                assert(s[s.len() - 1] == d);
            }
        }
        assert(s.drop_last().push(s.last()) =~= s);
        assert(seq![s.drop_last()].update(0, s) =~= seq![s]);
    } else {
        assert(s =~= Seq::<char>::empty());
    }
}

/// A line with fewer than seven fields gives no record, and no error.
pub proof fn short_line_yields_no_record(l: Seq<char>)
    requires
        !l.contains('\n'),
        fields(trim(l)).len() < 7,
    ensures
        record_lines(l).len() == 0,
{
    lemma_split_without_delimiter(l, '\n');
    let t = trimmed_lines(l);
    assert(t =~= seq![trim(l)]);
    assert(t =~= Seq::<Seq<char>>::empty().push(trim(l)));
    Seq::<Seq<char>>::empty().lemma_filter_push(trim(l), |x: Seq<char>| is_record_line(x));
    assert(Seq::<Seq<char>>::empty().filter(|x: Seq<char>| is_record_line(x)) =~= Seq::<Seq<char>>::empty());
}

/// A date that neither format reads is taken as the parse time; the other
/// fields of its record do not depend on it.
pub proof fn unreadable_date_is_now(c: Commit, l: Seq<char>, now: i64)
    requires
        is_record_of(c, l, now),
        rfc3339_of(fields(l)[5]) is None,
        offset_datetime_of(fields(l)[5], LOG_DATE_FORMAT@) is None,
    ensures
        c.date == now,
        c.hash@ == fields(l)[1],
        c.message@ == fields(l)[6],
{
}

/// `r` holds one commit per record line of log `s`, in order.
pub open spec fn is_log_of(r: Seq<Commit>, s: Seq<char>, now: i64) -> bool {
    &&& r.len() == record_lines(s).len()
    &&& forall|i: int| 0 <= i < r.len() ==> is_record_of(#[trigger] r[i], record_lines(s)[i], now)
}

/// The commit of one trimmed line, or `None` where it has fewer than seven
/// fields.
pub fn parse_record(l: &[char], now: i64) -> (r: Option<Commit>)
    ensures
        r is Some <==> is_record_line(l@),
        r matches Some(c) ==> is_record_of(c, l@, now),
{
    let f = split_chars(l, '|');
    if f.len() < 7 {
        return None;
    }
    let parents = if f.len() > 7 {
        split_words(f[7].as_slice())
    } else {
        Vec::new()
    };
    proof {
        if f@.len() <= 7 {
            assert(views(parents@) =~= Seq::<Seq<char>>::empty());
        }
    }
    let date_str = string_of(f[5].as_slice());
    let date = parse_log_date(date_str.as_str(), now);
    Some(
        Commit {
            hash: string_of(f[1].as_slice()),
            short_hash: string_of(f[2].as_slice()),
            message: string_of(f[6].as_slice()),
            author: string_of(f[3].as_slice()),
            email: string_of(f[4].as_slice()),
            date,
            parents,
            refs: Vec::new(),
            lane: 0,
            graph: graph_of_chars(f[0].as_slice()),
            files: Vec::new(),
            stats: Vec::new(),
        },
    )
}

/// Parses the whole log: one commit per record line, in order, with empty
/// references, lane 0 and dates that cannot be read taken as `now`.
pub fn parse_git_log_at(output: &str, now: i64) -> (r: Vec<Commit>)
    ensures
        is_log_of(r@, output@, now),
{
    let cs = crate::text::chars_of(output);
    let lines = split_chars(cs.as_slice(), '\n');
    let ghost tl = trimmed_lines(output@);
    let ghost pred = |l: Seq<char>| is_record_line(l);
    let mut r: Vec<Commit> = Vec::new();
    let mut k: usize = 0;
    assert(tl.subrange(0, 0).filter(pred) =~= Seq::<Seq<char>>::empty());
    while k < lines.len()
        invariant
            k <= lines@.len() == tl.len(),
            tl == trimmed_lines(output@),
            cs@ == output@,
            pred == (|l: Seq<char>| is_record_line(l)),
            forall|j: int| 0 <= j < lines@.len() ==> tl[j] == trim((#[trigger] lines@[j])@),
            r@.len() == tl.subrange(0, k as int).filter(pred).len(),
            forall|i: int|
                0 <= i < r@.len() ==> is_record_of(
                    #[trigger] r@[i],
                    tl.subrange(0, k as int).filter(pred)[i],
                    now,
                ),
        decreases lines@.len() - k,
    {
        let line = lines[k].as_slice();
        let (lo, hi) = trim_bounds(line);
        let t = slice_subrange(line, lo, hi);
        assert(tl.subrange(0, k + 1) =~= tl.subrange(0, k as int).push(tl[k as int]));
        proof {
            tl.subrange(0, k as int).lemma_filter_push(tl[k as int], pred);
        }
        match parse_record(t, now) {
            Some(c) => {
                r.push(c);
            },
            None => {},
        }
        k = k + 1;
    }
    assert(tl.subrange(0, tl.len() as int) =~= tl);
    r
}

/// Parses the whole log against the current time: the result is what
/// `parse_git_log_at` gives for some reading of the clock.
pub fn parse_git_log(output: &str) -> (r: Vec<Commit>)
    ensures
        exists|now: i64| #[trigger] is_log_of(r@, output@, now),
{
    let now = crate::time::now_seconds();
    let r = parse_git_log_at(output, now);
    assert(is_log_of(r@, output@, now));
    r
}

} // verus!
