use gittree::{build_commits_at, event_for_key, Action, Commit, Key, NavEvent, Selection};

fn commit(hash: &str, parents: &[&str]) -> Commit {
    Commit {
        hash: hash.to_string(),
        short_hash: hash[..1].to_string(),
        message: String::new(),
        author: String::new(),
        email: String::new(),
        date: 0,
        parents: parents.iter().map(|p| p.to_string()).collect(),
        refs: Vec::new(),
        lane: 0,
        graph: Vec::new(),
        files: Vec::new(),
        stats: Vec::new(),
    }
}

fn at(selected: usize) -> Selection {
    Selection { selected, offset: 0, show_help: false, unicode: false, should_quit: false }
}

#[test]
fn end_to_end_parent_jump_lands_on_second_commit() {
    let text = "*|c1|c1|A|a|2024-01-01 00:00:00 +0000|first|\n\
                *|c2|c2|A|a|2024-01-02 00:00:00 +0000|second|c1\n\
                *|c3|c3|A|a|2024-01-03 00:00:00 +0000|third|c2";
    let cs = build_commits_at(text, &Vec::new(), 0);
    assert_eq!(cs.len(), 3);
    let mut s = Selection::new(false);
    s.handle_event(&cs, NavEvent::Down);
    s.handle_event(&cs, NavEvent::Down);
    assert_eq!(s.selected, 2);
    s.handle_event(&cs, NavEvent::Parent);
    assert_eq!(s.selected, 1);
    s.handle_event(&cs, NavEvent::Parent);
    assert_eq!(s.selected, 0);
    s.handle_event(&cs, NavEvent::Parent);
    assert_eq!(s.selected, 0);
    s.handle_event(&cs, NavEvent::Child);
    assert_eq!(s.selected, 1);
}

#[test]
fn down_down_parent_from_top() {
    let text = "*|c3|c3|A|a|2024-01-03 00:00:00 +0000|third|c2\n\
                *|c2|c2|A|a|2024-01-02 00:00:00 +0000|second|c1\n\
                *|c1|c1|A|a|2024-01-01 00:00:00 +0000|first|";
    let cs = build_commits_at(text, &Vec::new(), 0);
    let mut s = Selection::new(false);
    s.handle_event(&cs, NavEvent::Up);
    s.handle_event(&cs, NavEvent::Child);
    assert_eq!(s.selected, 0);
    s.handle_event(&cs, NavEvent::Parent);
    assert_eq!(s.selected, 1);
    s.handle_event(&cs, NavEvent::Child);
    assert_eq!(s.selected, 0);
}

#[test]
fn parent_jump_from_root_does_nothing() {
    let cs = vec![commit("b", &["a"]), commit("a", &[])];
    let mut s = at(1);
    let a = s.handle_event(&cs, NavEvent::Parent);
    assert_eq!(s, at(1));
    assert!(matches!(a, Action::Nothing));
}

#[test]
fn parent_outside_the_store_does_nothing() {
    let cs = vec![commit("b", &["zz"]), commit("a", &[])];
    let mut s = at(0);
    s.handle_event(&cs, NavEvent::Parent);
    assert_eq!(s, at(0));
}

#[test]
fn child_jump_without_children_does_nothing() {
    let cs = vec![commit("b", &["a"]), commit("a", &[])];
    let mut s = at(0);
    s.handle_event(&cs, NavEvent::Child);
    assert_eq!(s, at(0));
}

#[test]
fn child_jump_picks_earliest_child() {
    let cs = vec![commit("x", &["q"]), commit("c2", &["m", "a"]), commit("c1", &["a"]), commit("a", &[])];
    let mut s = at(3);
    s.handle_event(&cs, NavEvent::Child);
    assert_eq!(s.selected, 1);
}

#[test]
fn paging_saturates() {
    let cs: Vec<Commit> = (0..25).map(|i| commit(&format!("h{}", i), &[])).collect();
    let mut s = at(0);
    s.handle_event(&cs, NavEvent::PageDown);
    assert_eq!(s.selected, 10);
    s.handle_event(&cs, NavEvent::PageDown);
    assert_eq!(s.selected, 20);
    s.handle_event(&cs, NavEvent::PageDown);
    assert_eq!(s.selected, 24);
    s.handle_event(&cs, NavEvent::PageUp);
    assert_eq!(s.selected, 14);
    s.handle_event(&cs, NavEvent::PageUp);
    assert_eq!(s.selected, 4);
    s.handle_event(&cs, NavEvent::PageUp);
    assert_eq!(s.selected, 0);
    s.handle_event(&cs, NavEvent::Bottom);
    assert_eq!(s.selected, 24);
    s.handle_event(&cs, NavEvent::Down);
    assert_eq!(s.selected, 24);
    s.handle_event(&cs, NavEvent::Top);
    assert_eq!(s.selected, 0);
}

#[test]
fn selection_stays_in_range_on_small_stores() {
    let events = [
        NavEvent::Down,
        NavEvent::PageDown,
        NavEvent::Bottom,
        NavEvent::Up,
        NavEvent::PageUp,
        NavEvent::Top,
        NavEvent::Parent,
        NavEvent::Child,
    ];
    let one = vec![commit("a", &["a"])];
    let empty: Vec<Commit> = Vec::new();
    let mut s1 = at(0);
    let mut s0 = at(0);
    for _ in 0..3 {
        for e in events {
            s1.handle_event(&one, e);
            assert_eq!(s1.selected, 0);
            let a = s0.handle_event(&empty, e);
            assert_eq!(s0.selected, 0);
            assert!(matches!(a, Action::Nothing));
        }
    }
}

#[test]
fn toggles_and_quit() {
    let cs = vec![commit("a", &[])];
    let mut s = Selection::new(true);
    s.handle_event(&cs, NavEvent::ToggleHelp);
    assert!(s.show_help);
    s.handle_event(&cs, NavEvent::ToggleUnicode);
    assert!(!s.unicode);
    s.handle_event(&cs, NavEvent::ToggleHelp);
    assert!(!s.show_help);
    assert!(!s.should_quit);
    s.handle_event(&cs, NavEvent::Quit);
    assert!(s.should_quit);
}

#[test]
fn commands_name_the_selected_commit() {
    let cs = vec![commit("abc123", &[]), commit("def456", &["abc123"])];
    let mut s = at(1);
    match s.handle_event(&cs, NavEvent::Checkout) {
        Action::Checkout(h) => assert_eq!(h, "def456"),
        _ => panic!("expected checkout"),
    }
    match s.handle_event(&cs, NavEvent::Reset) {
        Action::Reset(h) => assert_eq!(h, "def456"),
        _ => panic!("expected reset"),
    }
    match s.handle_event(&cs, NavEvent::CherryPick) {
        Action::CherryPick(h) => assert_eq!(h, "def456"),
        _ => panic!("expected cherry-pick"),
    }
    match s.handle_event(&cs, NavEvent::Revert) {
        Action::Revert(h) => assert_eq!(h, "def456"),
        _ => panic!("expected revert"),
    }
    match s.handle_event(&cs, NavEvent::Branch) {
        Action::CreateBranch(n, h) => {
            assert_eq!(n, "branch-d");
            assert_eq!(h, "def456");
        }
        _ => panic!("expected branch"),
    }
    match s.handle_event(&cs, NavEvent::Tag) {
        Action::CreateTag(n, h) => {
            assert_eq!(n, "tag-d");
            assert_eq!(h, "def456");
        }
        _ => panic!("expected tag"),
    }
    assert!(matches!(s.handle_event(&cs, NavEvent::Details), Action::ShowDetails(1)));
    assert_eq!(s, at(1));
}

#[test]
fn keys_map_to_events() {
    assert_eq!(event_for_key(Key::Char('q')), Some(NavEvent::Quit));
    assert_eq!(event_for_key(Key::Esc), Some(NavEvent::Quit));
    assert_eq!(event_for_key(Key::Char('j')), Some(NavEvent::Down));
    assert_eq!(event_for_key(Key::Up), Some(NavEvent::Up));
    assert_eq!(event_for_key(Key::Left), Some(NavEvent::Parent));
    assert_eq!(event_for_key(Key::Char('l')), Some(NavEvent::Child));
    assert_eq!(event_for_key(Key::Char('G')), Some(NavEvent::Bottom));
    assert_eq!(event_for_key(Key::Char('x')), Some(NavEvent::Reset));
    assert_eq!(event_for_key(Key::Char('r')), Some(NavEvent::Revert));
    assert_eq!(event_for_key(Key::Enter), Some(NavEvent::Details));
    assert_eq!(event_for_key(Key::Char('z')), None);
    assert_eq!(event_for_key(Key::Other), None);
}
