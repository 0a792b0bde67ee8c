use gittree::{
    add_refs, build_commits_at, first_reading, time_from_readings, parse_git_log, parse_git_log_at, parse_time_at, render_commit,
    Commit, GraphLineType,
};

const LINE: &str = "* |aaaa1111|aaaa|Alice|alice@example.com|2024-01-02 03:04:05 +0000|First commit|bbbb2222 cccc3333";

#[test]
fn parses_all_fields_of_a_record() {
    let cs = parse_git_log_at(LINE, 7);
    assert_eq!(cs.len(), 1);
    let c = &cs[0];
    assert_eq!(c.hash, "aaaa1111");
    assert_eq!(c.short_hash, "aaaa");
    assert_eq!(c.author, "Alice");
    assert_eq!(c.email, "alice@example.com");
    assert_eq!(c.date, 1704164645);
    assert_eq!(c.message, "First commit");
    assert_eq!(c.parents, vec!["bbbb2222".to_string(), "cccc3333".to_string()]);
    assert!(c.refs.is_empty());
    assert_eq!(c.lane, 0);
    assert_eq!(c.graph.len(), 2);
    assert_eq!(c.graph[0].line_type, GraphLineType::Vertical);
    assert_eq!(c.graph[1].line_type, GraphLineType::Blank);
    assert!(c.files.is_empty());
    assert!(c.stats.is_empty());
}

#[test]
fn short_lines_yield_no_records() {
    assert!(parse_git_log_at("| |a|b|c|d", 0).is_empty());
    assert!(parse_git_log_at("|\n| |\n\n   \n", 0).is_empty());
    assert!(parse_git_log_at("", 0).is_empty());
}

#[test]
fn blank_and_short_lines_are_skipped_among_records() {
    let text = format!("\n{}\n|  \n  \r\n* |d|d|D|d@x|2024-01-02T03:04:05Z|Second|\n", LINE);
    let cs = parse_git_log_at(&text, 0);
    assert_eq!(cs.len(), 2);
    assert_eq!(cs[1].hash, "d");
    assert_eq!(cs[1].date, 1704164645);
    assert!(cs[1].parents.is_empty());
}

#[test]
fn missing_parent_field_gives_root() {
    let cs = parse_git_log_at("*|x|x|A|a@b|2024-01-02 03:04:05 +0200|msg", 0);
    assert_eq!(cs.len(), 1);
    assert!(cs[0].parents.is_empty());
    assert_eq!(cs[0].date, 1704157445);
}

#[test]
fn unreadable_date_becomes_now() {
    let cs = parse_git_log_at("*|x|y|A|a@b|yesterday|msg|p", 4242);
    assert_eq!(cs.len(), 1);
    assert_eq!(cs[0].date, 4242);
    assert_eq!(cs[0].hash, "x");
    assert_eq!(cs[0].short_hash, "y");
    assert_eq!(cs[0].message, "msg");
    assert_eq!(cs[0].parents, vec!["p".to_string()]);
}

#[test]
fn unreadable_date_uses_the_clock() {
    let before = chrono::Utc::now().timestamp();
    let cs = parse_git_log("*|x|y|A|a@b|not a date|msg|");
    let after = chrono::Utc::now().timestamp();
    assert_eq!(cs.len(), 1);
    assert!(before <= cs[0].date && cs[0].date <= after);
    assert_eq!(cs[0].author, "A");
}

#[test]
fn references_attach_by_hash_in_order() {
    let text = "*|h1|h1|A|a|2024-01-02 03:04:05 +0000|one|h2\n*|h2|h2|A|a|2024-01-02 03:04:05 +0000|two|";
    let refs = vec![
        ("refs/heads/main".to_string(), "h1".to_string()),
        ("refs/tags/v1".to_string(), "zz".to_string()),
        ("refs/tags/v0".to_string(), "h1".to_string()),
    ];
    let cs = build_commits_at(text, &refs, 0);
    assert_eq!(cs[0].refs, vec!["refs/heads/main".to_string(), "refs/tags/v0".to_string()]);
    assert!(cs[1].refs.is_empty());
}

#[test]
fn attaching_references_twice_changes_nothing() {
    let text = "*|h1|h1|A|a|2024-01-02 03:04:05 +0000|one|\n*|h2|h2|A|a|2024-01-02 03:04:05 +0000|two|h1";
    let refs = vec![("main".to_string(), "h2".to_string()), ("dev".to_string(), "h2".to_string())];
    let mut once = parse_git_log_at(text, 0);
    add_refs(&mut once, &refs);
    let mut twice = parse_git_log_at(text, 0);
    add_refs(&mut twice, &refs);
    add_refs(&mut twice, &refs);
    assert_eq!(once[1].refs, vec!["main".to_string(), "dev".to_string()]);
    for (a, b) in once.iter().zip(twice.iter()) {
        assert_eq!(a.refs, b.refs);
    }
}

#[test]
fn store_assigns_lanes() {
    let cs = build_commits_at("| *|h|h|A|a|2024-01-02 03:04:05 +0000|m|\n  * |k|k|A|a|x|m|", &Vec::new(), 0);
    assert_eq!(cs.len(), 2);
    assert_eq!(cs[0].lane, 0);
    // the second line is trimmed before its prefix is read
    assert_eq!(cs[1].lane, 0);
    let cs = build_commits_at("-+|h|h|A|a|2024-01-02 03:04:05 +0000|m|", &Vec::new(), 0);
    assert_eq!(cs[0].lane, 1);
}

#[test]
fn time_filters_read_each_form() {
    let now: i64 = 1_700_000_000;
    assert_eq!(parse_time_at("2024-01-02T03:04:05Z", now), Some(1704164645));
    assert_eq!(parse_time_at("2024-01-02 03:04:05", now), Some(1704164645));
    assert_eq!(parse_time_at("2024-01-02", now), Some(1704153600));
    assert_eq!(parse_time_at("2w", now), Some(now - 1209600));
    assert_eq!(parse_time_at("1w", now), Some(now - 604800));
    assert_eq!(parse_time_at("3d", now), Some(now - 259200));
    assert_eq!(parse_time_at("2d", now), Some(now - 172800));
    assert_eq!(parse_time_at("1d", now), Some(now - 86400));
    assert_eq!(parse_time_at("12h", now), Some(now - 43200));
    assert_eq!(parse_time_at("6h", now), Some(now - 21600));
    assert_eq!(parse_time_at("1h", now), Some(now - 3600));
    assert_eq!(parse_time_at("5d", now), None);
    assert_eq!(parse_time_at("", now), None);
}

fn dated(date: i64) -> Commit {
    Commit {
        hash: "h".to_string(),
        short_hash: "h".to_string(),
        message: "m".to_string(),
        author: "a".to_string(),
        email: String::new(),
        date,
        parents: Vec::new(),
        refs: Vec::new(),
        lane: 0,
        graph: Vec::new(),
        files: Vec::new(),
        stats: Vec::new(),
    }
}

#[test]
fn timestamps_are_written_with_the_format() {
    assert_eq!(render_commit(&dated(1704164645), false, "%Y-%m-%d %H:%M"), Some("\u{25cf} h a 2024-01-02 03:04 m".to_string()));
    assert_eq!(render_commit(&dated(0), false, "%Y-%m-%d"), Some("\u{25cf} h a 1970-01-01 m".to_string()));
    assert_eq!(render_commit(&dated(0), false, "%Q"), None);
    assert_eq!(render_commit(&dated(i64::MAX), false, "%Y"), None);
}

#[test]
fn date_readings_fall_back_in_order() {
    assert_eq!(first_reading(Some(1), Some(2), 3), 1);
    assert_eq!(first_reading(None, Some(2), 3), 2);
    assert_eq!(first_reading(None, None, 3), 3);
    assert_eq!(time_from_readings(Some(1), Some(2), Some(3), Some(4), 100), Some(1));
    assert_eq!(time_from_readings(None, Some(2), Some(3), Some(4), 100), Some(2));
    assert_eq!(time_from_readings(None, None, Some(3), Some(4), 100), Some(3));
    assert_eq!(time_from_readings(None, None, None, Some(4), 100), Some(96));
    assert_eq!(time_from_readings(None, None, None, None, 100), None);
}
