use gittree::{parse_graph_line, Commit, GraphLineType, generate_graph};

#[test]
fn test_parse_graph_line() {
    let graph = parse_graph_line("| | *");
    assert_eq!(graph.len(), 5);
    assert!(matches!(graph[0].line_type, GraphLineType::Vertical));
    assert!(matches!(graph[1].line_type, GraphLineType::Blank));
    assert!(matches!(graph[2].line_type, GraphLineType::Vertical));
    assert!(matches!(graph[3].line_type, GraphLineType::Blank));
    assert!(matches!(graph[4].line_type, GraphLineType::Vertical));
}

#[test]
fn every_glyph_has_its_kind() {
    let g = parse_graph_line(" |*-_/\\+x");
    let kinds: Vec<GraphLineType> = g.iter().map(|t| t.line_type).collect();
    assert_eq!(
        kinds,
        vec![
            GraphLineType::Blank,
            GraphLineType::Vertical,
            GraphLineType::Vertical,
            GraphLineType::Horizontal,
            GraphLineType::Horizontal,
            GraphLineType::Corner,
            GraphLineType::Corner,
            GraphLineType::Merge,
            GraphLineType::Blank,
        ]
    );
    for (i, t) in g.iter().enumerate() {
        assert_eq!(t.lane, i);
        assert_eq!(t.merge, i == 7);
    }
}

#[test]
fn unknown_characters_are_blank() {
    let g = parse_graph_line("a9é.");
    assert_eq!(g.len(), 4);
    assert!(g.iter().all(|t| t.line_type == GraphLineType::Blank && !t.merge));
}

#[test]
fn empty_prefix_has_no_tokens() {
    assert!(parse_graph_line("").is_empty());
}

fn bare(graph: &str, lane: usize) -> Commit {
    Commit {
        hash: String::from("h"),
        short_hash: String::from("h"),
        message: String::new(),
        author: String::new(),
        email: String::new(),
        date: 0,
        parents: Vec::new(),
        refs: Vec::new(),
        lane,
        graph: parse_graph_line(graph),
        files: Vec::new(),
        stats: Vec::new(),
    }
}

#[test]
fn lane_is_first_vertical_or_merge_column() {
    let mut cs = vec![bare(" | | ", 0), bare("  +|", 0), bare("-/ *", 0), bare("", 3), bare(" -/\\", 5)];
    generate_graph(&mut cs);
    assert_eq!(cs[0].lane, 1);
    assert_eq!(cs[1].lane, 2);
    assert_eq!(cs[2].lane, 3);
    assert_eq!(cs[3].lane, 0);
    assert_eq!(cs[4].lane, 0);
}

#[test]
fn lane_assignment_is_deterministic() {
    let mut a = vec![bare("/ |*", 0)];
    let mut b = vec![bare("/ |*", 0)];
    generate_graph(&mut a);
    generate_graph(&mut b);
    generate_graph(&mut b);
    assert_eq!(a[0].lane, 2);
    assert_eq!(b[0].lane, 2);
}
