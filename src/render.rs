//! Projection of commit records to display lines.
use vstd::prelude::*;
use crate::commit::Commit;
use crate::graph::{GraphLine, GraphLineType};
use crate::text::{append_str, views};
use crate::time::{format_timestamp, formatted_of};

verus! {

/// The character that stands for a token kind, Unicode or ASCII.
pub open spec fn glyph(t: GraphLineType, unicode: bool) -> char {
    match t {
        GraphLineType::Vertical => if unicode {
            '\u{2502}'
        } else {
            '|'
        },
        GraphLineType::Horizontal => if unicode {
            '\u{2500}'
        } else {
            '-'
        },
        GraphLineType::Corner => if unicode {
            '\u{2514}'
        } else {
            '\\'
        },
        GraphLineType::Merge => '\u{25cf}',
        GraphLineType::Blank => ' ',
    }
}

/// The drawn graph of a row: one glyph per token, or a dot for a row without
/// tokens.
pub open spec fn graph_text(g: Seq<GraphLine>, unicode: bool) -> Seq<char> {
    if g.len() == 0 {
        seq!['\u{25cf}']
    } else {
        Seq::new(g.len(), |i: int| glyph(g[i].line_type, unicode))
    }
}

/// The pieces joined with `", "`.
pub open spec fn join_comma(s: Seq<Seq<char>>) -> Seq<char>
    decreases s.len(),
{
    if s.len() == 0 {
        Seq::empty()
    } else if s.len() == 1 {
        s[0]
    } else {
        join_comma(s.drop_last()) + seq![',', ' '] + s.last()
    }
}

/// The reference annotation of a row: ` (a, b)`, or nothing without references.
pub open spec fn refs_text(refs: Seq<Seq<char>>) -> Seq<char> {
    if refs.len() == 0 {
        Seq::empty()
    } else {
        seq![' ', '('] + join_comma(refs) + seq![')']
    }
}

/// The display line of a commit: graph, short hash, author, date, message and
/// references, separated by single spaces.
pub open spec fn row_text(c: Commit, unicode: bool, date: Seq<char>) -> Seq<char> {
    graph_text(c.graph@, unicode) + seq![' '] + c.short_hash@ + seq![' '] + c.author@ + seq![' ']
        + date + seq![' '] + c.message@ + refs_text(views(c.refs@))
}

pub fn glyph_of(t: GraphLineType, unicode: bool) -> (r: char)
    ensures
        r == glyph(t, unicode),
{
    match t {
        GraphLineType::Vertical => if unicode {
            '\u{2502}'
        } else {
            '|'
        },
        GraphLineType::Horizontal => if unicode {
            '\u{2500}'
        } else {
            '-'
        },
        GraphLineType::Corner => if unicode {
            '\u{2514}'
        } else {
            '\\'
        },
        GraphLineType::Merge => '\u{25cf}',
        GraphLineType::Blank => ' ',
    }
}

/// Draws the graph tokens of a row.
pub fn render_graph_line(g: &[GraphLine], unicode: bool) -> (r: String)
    ensures
        r@ == graph_text(g@, unicode),
{
    let mut r = String::new();
    if g.len() == 0 {
        r.push('\u{25cf}');
        assert(r@ =~= seq!['\u{25cf}']);
        return r;
    }
    let mut i: usize = 0;
    while i < g.len()
        invariant
            i <= g@.len(),
            r@ =~= Seq::new(i as nat, |k: int| glyph(g@[k].line_type, unicode)),
        decreases g.len() - i,
    {
        r.push(glyph_of(g[i].line_type, unicode));
        i = i + 1;
    }
    r
}

/// Appends the reference annotation of `refs` to `s`.
fn append_refs(s: &mut String, refs: &Vec<String>)
    ensures
        final(s)@ == old(s)@ + refs_text(views(refs@)),
{
    if refs.len() == 0 {
        assert(old(s)@ + refs_text(views(refs@)) =~= old(s)@);
        return;
    }
    s.push(' ');
    s.push('(');
    let ghost start = s@;
    let mut i: usize = 0;
    while i < refs.len()
        invariant
            0 < refs@.len(),
            i <= refs@.len(),
            start == old(s)@ + seq![' ', '('],
            s@ == start + join_comma(views(refs@).subrange(0, i as int)),
        decreases refs.len() - i,
    {
        let ghost v = views(refs@);
        assert(v.subrange(0, i + 1).drop_last() =~= v.subrange(0, i as int));
        if i > 0 {
            s.push(',');
            s.push(' ');
        }
        append_str(s, refs[i].as_str());
        proof {
            if i == 0 {
                assert(join_comma(v.subrange(0, 0)) =~= Seq::<char>::empty());
                assert(s@ =~= start + join_comma(v.subrange(0, 1)));
            } else {
                assert(s@ =~= start + join_comma(v.subrange(0, i + 1)));
            }
        }
        i = i + 1;
    }
    assert(views(refs@).subrange(0, refs@.len() as int) =~= views(refs@));
    s.push(')');
    assert(s@ =~= old(s)@ + refs_text(views(refs@)));
}

/// The display line of a commit, with its date already written out.
pub fn format_row(c: &Commit, unicode: bool, date: &str) -> (r: String)
    ensures
        r@ == row_text(*c, unicode, date@),
{
    let mut r = render_graph_line(c.graph.as_slice(), unicode);
    r.push(' ');
    append_str(&mut r, c.short_hash.as_str());
    r.push(' ');
    append_str(&mut r, c.author.as_str());
    r.push(' ');
    append_str(&mut r, date);
    r.push(' ');
    append_str(&mut r, c.message.as_str());
    append_refs(&mut r, &c.refs);
    assert(r@ =~= row_text(*c, unicode, date@));
    r
}

/// The display line of a commit, its date written with a strftime format;
/// `None` where chrono cannot write the date with that format.
pub fn render_commit(c: &Commit, unicode: bool, date_format: &str) -> (r: Option<String>)
    ensures
        match formatted_of(c.date, date_format@) {
            Some(d) => r matches Some(t) && t@ == row_text(*c, unicode, d),
            None => r is None,
        },
{
    match format_timestamp(c.date, date_format) {
        Some(d) => Some(format_row(c, unicode, d.as_str())),
        None => None,
    }
}

} // verus!
