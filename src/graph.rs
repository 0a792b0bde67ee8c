//! Decoding of the graph-glyph prefix of a log row, and lane assignment.
use vstd::prelude::*;

verus! {

/// Semantic kind of one glyph column of the commit graph.
#[derive(Debug, Clone, Copy, PartialEq, Eq, Structural)]
pub enum GraphLineType {
    Blank,
    Vertical,
    Horizontal,
    Corner,
    Merge,
}

/// One decoded column of a row's graph prefix.
#[derive(Debug, Clone, Copy, PartialEq, Eq, Structural)]
pub struct GraphLine {
    pub line_type: GraphLineType,
    /// Zero-based column of the glyph within the row.
    pub lane: usize,
    /// Whether the glyph is the merge marker `+`.
    pub merge: bool,
}

/// The characters that the log producer uses to draw the graph.
pub open spec fn is_graph_glyph(c: char) -> bool {
    c == ' ' || c == '|' || c == '*' || c == '-' || c == '_' || c == '/' || c == '\\' || c == '+'
}

/// The kind of a glyph character; every other character is `Blank`.
pub open spec fn kind_of(c: char) -> GraphLineType {
    if c == '|' || c == '*' {
        GraphLineType::Vertical
    } else if c == '-' || c == '_' {
        GraphLineType::Horizontal
    } else if c == '/' || c == '\\' {
        GraphLineType::Corner
    } else if c == '+' {
        GraphLineType::Merge
    } else {
        GraphLineType::Blank
    }
}

/// The decoded token for character `c` standing in column `i`.
pub open spec fn token_of(c: char, i: int) -> GraphLine {
    GraphLine { line_type: kind_of(c), lane: i as usize, merge: c == '+' }
}

/// The token sequence of a graph prefix: one token per character, in column order.
pub open spec fn graph_of(s: Seq<char>) -> Seq<GraphLine> {
    Seq::new(s.len(), |i: int| token_of(s[i], i))
}

/// Tokens that can carry a commit's lane.
pub open spec fn is_lane_kind(t: GraphLineType) -> bool {
    t == GraphLineType::Vertical || t == GraphLineType::Merge
}

/// `l` is the column of the first vertical or merge token, or 0 if there is none.
pub open spec fn is_first_lane(g: Seq<GraphLine>, l: int) -> bool {
    ||| (0 <= l < g.len() && is_lane_kind(g[l].line_type) && forall|j: int|
        0 <= j < l ==> !is_lane_kind(#[trigger] g[j].line_type))
    ||| (l == 0 && forall|j: int| 0 <= j < g.len() ==> !is_lane_kind(#[trigger] g[j].line_type))
}

/// Classification is closed and total: a character outside the glyph set is
/// `Blank`, and `+` alone is a merge marker.
pub proof fn classification_is_closed(c: char)
    ensures
        !is_graph_glyph(c) ==> kind_of(c) == GraphLineType::Blank,
        token_of(c, 0).merge <==> c == '+',
        kind_of(c) == GraphLineType::Merge <==> c == '+',
{
}

/// The lane rule picks exactly one column.
pub proof fn first_lane_is_unique(g: Seq<GraphLine>, a: int, b: int)
    requires
        is_first_lane(g, a),
        is_first_lane(g, b),
    ensures
        a == b,
{
    if a < b {
        if 0 <= b < g.len() && is_lane_kind(g[b].line_type) && 0 <= a < g.len() {
            assert(!is_lane_kind(g[a].line_type));
        } else if 0 <= a < g.len() && is_lane_kind(g[a].line_type) {
            assert(!is_lane_kind(g[a].line_type));
        }
    } else if b < a {
        if 0 <= a < g.len() && is_lane_kind(g[a].line_type) && 0 <= b < g.len() {
            assert(!is_lane_kind(g[b].line_type));
        } else if 0 <= b < g.len() && is_lane_kind(g[b].line_type) {
            assert(!is_lane_kind(g[b].line_type));
        }
    }
}

/// Kind of a single glyph character.
pub fn classify(c: char) -> (r: GraphLineType)
    ensures
        r == kind_of(c),
{
    if c == '|' || c == '*' {
        GraphLineType::Vertical
    } else if c == '-' || c == '_' {
        GraphLineType::Horizontal
    } else if c == '/' || c == '\\' {
        GraphLineType::Corner
    } else if c == '+' {
        GraphLineType::Merge
    } else {
        GraphLineType::Blank
    }
}

/// Decodes a graph prefix given as characters.
pub fn graph_of_chars(s: &[char]) -> (r: Vec<GraphLine>)
    ensures
        r@ == graph_of(s@),
{
    let mut r: Vec<GraphLine> = Vec::new();
    let mut i: usize = 0;
    while i < s.len()
        invariant
            i <= s@.len(),
            r@.len() == i,
            forall|k: int| 0 <= k < i ==> r@[k] == token_of(s@[k], k),
        decreases s.len() - i,
    {
        let c = s[i];
        r.push(GraphLine { line_type: classify(c), lane: i, merge: c == '+' });
        i = i + 1;
    }
    assert(r@ =~= graph_of(s@));
    r
}

/// Decodes a graph prefix: one token per character, by column.
pub fn parse_graph_line(graph_str: &str) -> (r: Vec<GraphLine>)
    ensures
        r@ == graph_of(graph_str@),
{
    let cs = crate::text::chars_of(graph_str);
    graph_of_chars(cs.as_slice())
}

/// The lane of a token sequence: the column of the first vertical or merge
/// token, or 0.
pub fn first_lane(g: &[GraphLine]) -> (r: usize)
    ensures
        is_first_lane(g@, r as int),
{
    let mut i: usize = 0;
    while i < g.len()
        invariant
            i <= g@.len(),
            forall|j: int| 0 <= j < i ==> !is_lane_kind(#[trigger] g@[j].line_type),
        decreases g.len() - i,
    {
        let t = g[i].line_type;
        if t == GraphLineType::Vertical || t == GraphLineType::Merge {
            return i;
        }
        i = i + 1;
    }
    0
}

} // verus!
