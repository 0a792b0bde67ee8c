//! Selection state of the list view and its transitions on input events.
use vstd::prelude::*;
use crate::commit::Commit;
use crate::text::views;

verus! {

/// Prefix of the name of a branch created at the selected commit.
pub const BRANCH_PREFIX: &'static str = "branch-";

/// Prefix of the name of a tag created at the selected commit.
pub const TAG_PREFIX: &'static str = "tag-";

/// Number of rows that a page movement skips.
pub const PAGE: usize = 10;

/// Selection state of the list view.
#[derive(Debug, Clone, Copy, PartialEq, Eq, Structural)]
pub struct Selection {
    /// Index of the selected commit; 0 when the store is empty.
    pub selected: usize,
    /// First row shown in the viewport.
    pub offset: usize,
    pub show_help: bool,
    /// Whether the graph is drawn with Unicode glyphs rather than ASCII.
    pub unicode: bool,
    pub should_quit: bool,
}

/// Discrete input events of the list view.
#[derive(Debug, Clone, Copy, PartialEq, Eq, Structural)]
pub enum NavEvent {
    Quit,
    ToggleHelp,
    ToggleUnicode,
    Up,
    Down,
    Parent,
    Child,
    Top,
    Bottom,
    PageUp,
    PageDown,
    Details,
    Checkout,
    Reset,
    CherryPick,
    Revert,
    Branch,
    Tag,
}

/// What the caller must carry out after an event: the commands name the
/// selected commit by its full hash.
#[derive(Debug)]
pub enum Action {
    Nothing,
    ShowDetails(usize),
    Checkout(String),
    Reset(String),
    CherryPick(String),
    Revert(String),
    /// Name of the new branch, then the hash it points at.
    CreateBranch(String, String),
    /// Name of the new tag, then the hash it points at.
    CreateTag(String, String),
}

/// Keys of the terminal, as far as the list view tells them apart.
#[derive(Debug, Clone, Copy, PartialEq, Eq, Structural)]
pub enum Key {
    Char(char),
    Up,
    Down,
    Left,
    Right,
    PageUp,
    PageDown,
    Enter,
    Esc,
    Other,
}

/// The selection lies in the store, or is 0 on an empty store.
pub open spec fn index_valid(sel: int, len: int) -> bool {
    (len == 0 && sel == 0) || (0 <= sel < len)
}

/// `i` is the first commit of `cs` whose hash is `h`.
pub open spec fn is_first_with_hash(cs: Seq<Commit>, h: Seq<char>, i: int) -> bool {
    &&& 0 <= i < cs.len()
    &&& cs[i].hash@ == h
    &&& forall|j: int| 0 <= j < i ==> (#[trigger] cs[j]).hash@ != h
}

/// `i` is the first commit of `cs` that lists `h` among its parents.
pub open spec fn is_first_child(cs: Seq<Commit>, h: Seq<char>, i: int) -> bool {
    &&& 0 <= i < cs.len()
    &&& views(cs[i].parents@).contains(h)
    &&& forall|j: int| 0 <= j < i ==> !views((#[trigger] cs[j]).parents@).contains(h)
}

pub open spec fn hash_target(cs: Seq<Commit>, h: Seq<char>) -> Option<int> {
    if exists|i: int| is_first_with_hash(cs, h, i) {
        Some(choose|i: int| is_first_with_hash(cs, h, i))
    } else {
        None
    }
}

pub open spec fn child_target(cs: Seq<Commit>, h: Seq<char>) -> Option<int> {
    if exists|i: int| is_first_child(cs, h, i) {
        Some(choose|i: int| is_first_child(cs, h, i))
    } else {
        None
    }
}

/// The last index of a store of `len` commits, 0 for an empty one.
pub open spec fn last_index(len: int) -> int {
    if len > 0 {
        len - 1
    } else {
        0
    }
}

/// The selection after event `ev` on store `cs`.
pub open spec fn next_selected(sel: int, cs: Seq<Commit>, ev: NavEvent) -> int {
    let len = cs.len() as int;
    match ev {
        NavEvent::Up => if sel > 0 {
            sel - 1
        } else {
            sel
        },
        NavEvent::Down => if sel < len - 1 {
            sel + 1
        } else {
            sel
        },
        NavEvent::PageUp => if sel > PAGE {
            sel - PAGE
        } else {
            0
        },
        NavEvent::PageDown => if sel + PAGE < len {
            sel + PAGE
        } else {
            last_index(len)
        },
        NavEvent::Top => 0,
        NavEvent::Bottom => last_index(len),
        NavEvent::Parent => if 0 <= sel < len && cs[sel].parents@.len() > 0 {
            match hash_target(cs, cs[sel].parents@[0]@) {
                Some(i) => i,
                None => sel,
            }
        } else {
            sel
        },
        NavEvent::Child => if 0 <= sel < len {
            match child_target(cs, cs[sel].hash@) {
                Some(i) => i,
                None => sel,
            }
        } else {
            sel
        },
        _ => sel,
    }
}

/// The state after event `ev` on store `cs`.
pub open spec fn next_state(s: Selection, cs: Seq<Commit>, ev: NavEvent) -> Selection {
    Selection {
        selected: next_selected(s.selected as int, cs, ev) as usize,
        offset: s.offset,
        show_help: if ev == NavEvent::ToggleHelp {
            !s.show_help
        } else {
            s.show_help
        },
        unicode: if ev == NavEvent::ToggleUnicode {
            !s.unicode
        } else {
            s.unicode
        },
        should_quit: s.should_quit || ev == NavEvent::Quit,
    }
}

/// The state after a sequence of events.
pub open spec fn run_events(s: Selection, cs: Seq<Commit>, evs: Seq<NavEvent>) -> Selection
    decreases evs.len(),
{
    if evs.len() == 0 {
        s
    } else {
        run_events(next_state(s, cs, evs[0]), cs, evs.drop_first())
    }
}

/// `a` is what event `ev` asks of the caller with commit `sel` selected.
pub open spec fn is_action_for(a: Action, cs: Seq<Commit>, sel: int, ev: NavEvent) -> bool {
    if 0 <= sel < cs.len() {
        let c = cs[sel];
        match ev {
            NavEvent::Details => a == Action::ShowDetails(sel as usize),
            NavEvent::Checkout => a matches Action::Checkout(h) && h@ == c.hash@,
            NavEvent::Reset => a matches Action::Reset(h) && h@ == c.hash@,
            NavEvent::CherryPick => a matches Action::CherryPick(h) && h@ == c.hash@,
            NavEvent::Revert => a matches Action::Revert(h) && h@ == c.hash@,
            NavEvent::Branch => a matches Action::CreateBranch(n, h) && n@ == BRANCH_PREFIX@
                + c.short_hash@ && h@ == c.hash@,
            NavEvent::Tag => a matches Action::CreateTag(n, h) && n@ == TAG_PREFIX@
                + c.short_hash@ && h@ == c.hash@,
            _ => a is Nothing,
        }
    } else {
        a is Nothing
    }
}

/// The event that a key stands for.
pub open spec fn key_event(k: Key) -> Option<NavEvent> {
    match k {
        Key::Char('q') | Key::Esc => Some(NavEvent::Quit),
        Key::Char('?') => Some(NavEvent::ToggleHelp),
        Key::Char('u') => Some(NavEvent::ToggleUnicode),
        Key::Up | Key::Char('k') => Some(NavEvent::Up),
        Key::Down | Key::Char('j') => Some(NavEvent::Down),
        Key::Left | Key::Char('h') => Some(NavEvent::Parent),
        Key::Right | Key::Char('l') => Some(NavEvent::Child),
        Key::Char('g') => Some(NavEvent::Top),
        Key::Char('G') => Some(NavEvent::Bottom),
        Key::PageUp => Some(NavEvent::PageUp),
        Key::PageDown => Some(NavEvent::PageDown),
        Key::Enter => Some(NavEvent::Details),
        Key::Char('c') => Some(NavEvent::Checkout),
        Key::Char('x') => Some(NavEvent::Reset),
        Key::Char('p') => Some(NavEvent::CherryPick),
        Key::Char('r') => Some(NavEvent::Revert),
        Key::Char('b') => Some(NavEvent::Branch),
        Key::Char('t') => Some(NavEvent::Tag),
        _ => None,
    }
}

/// One event keeps the selection inside the store, or at 0 on an empty store.
pub proof fn step_keeps_selection_valid(s: Selection, cs: Seq<Commit>, ev: NavEvent)
    requires
        index_valid(s.selected as int, cs.len() as int),
    ensures
        index_valid(next_state(s, cs, ev).selected as int, cs.len() as int),
{
    let sel = s.selected as int;
    if ev == NavEvent::Parent && 0 <= sel < cs.len() && cs[sel].parents@.len() > 0 {
        let h = cs[sel].parents@[0]@;
        if exists|i: int| is_first_with_hash(cs, h, i) {
            let i = choose|i: int| is_first_with_hash(cs, h, i);
            assert(0 <= i < cs.len());
        }
    }
    if ev == NavEvent::Child && 0 <= sel < cs.len() {
        let h = cs[sel].hash@;
        if exists|i: int| is_first_child(cs, h, i) {
            let i = choose|i: int| is_first_child(cs, h, i);
            assert(0 <= i < cs.len());
        }
    }
}

/// No finite sequence of events moves the selection out of the store; on an
/// empty store it stays at 0.
pub proof fn selection_stays_valid(s: Selection, cs: Seq<Commit>, evs: Seq<NavEvent>)
    requires
        index_valid(s.selected as int, cs.len() as int),
    ensures
        index_valid(run_events(s, cs, evs).selected as int, cs.len() as int),
        cs.len() == 0 ==> run_events(s, cs, evs).selected == 0,
    decreases evs.len(),
{
    if evs.len() > 0 {
        step_keeps_selection_valid(s, cs, evs[0]);
        selection_stays_valid(next_state(s, cs, evs[0]), cs, evs.drop_first());
    }
}

/// Jumping to the parent of a root commit leaves the state as it is.
pub proof fn parent_jump_from_root_is_noop(s: Selection, cs: Seq<Commit>)
    requires
        index_valid(s.selected as int, cs.len() as int),
        cs.len() > 0 ==> cs[s.selected as int].parents@.len() == 0,
    ensures
        next_state(s, cs, NavEvent::Parent) == s,
{
}

/// Jumping to the child of a commit that no commit lists as parent leaves the
/// state as it is.
pub proof fn child_jump_without_child_is_noop(s: Selection, cs: Seq<Commit>)
    requires
        index_valid(s.selected as int, cs.len() as int),
        forall|i: int|
            0 <= i < cs.len() ==> !views((#[trigger] cs[i]).parents@).contains(
                cs[s.selected as int].hash@,
            ),
    ensures
        next_state(s, cs, NavEvent::Child) == s,
{
}

/// Where commits `i < j` both list the selected commit as a parent, the child
/// jump lands on a child that comes no later than `i`: the earliest one.
pub proof fn child_jump_prefers_earliest(s: Selection, cs: Seq<Commit>, i: int, j: int)
    requires
        0 <= s.selected < cs.len() <= usize::MAX,
        0 <= i < j < cs.len(),
        views(cs[i].parents@).contains(cs[s.selected as int].hash@),
        views(cs[j].parents@).contains(cs[s.selected as int].hash@),
    ensures
        next_state(s, cs, NavEvent::Child).selected as int != j,
        next_state(s, cs, NavEvent::Child).selected <= i,
        views(cs[next_state(s, cs, NavEvent::Child).selected as int].parents@).contains(
            cs[s.selected as int].hash@,
        ),
{
    let h = cs[s.selected as int].hash@;
    lemma_least_child(cs, h, i);
    let k = choose|k: int| #[trigger] is_first_child(cs, h, k) && k <= i;
    assert(is_first_child(cs, h, k));
    let k2 = choose|k: int| is_first_child(cs, h, k);
    assert(k2 == k) by {
        if k2 < k {
            assert(!views(cs[k2].parents@).contains(h));
        } else if k < k2 {
            assert(!views(cs[k].parents@).contains(h));
        }
    }
}

/// Some commit at or before `i` is the first child of `h`, where `i` is one.
pub proof fn lemma_least_child(cs: Seq<Commit>, h: Seq<char>, i: int)
    requires
        0 <= i < cs.len(),
        views(cs[i].parents@).contains(h),
    ensures
        exists|k: int| #[trigger] is_first_child(cs, h, k) && k <= i,
    decreases i,
{
    if exists|j: int| 0 <= j < i && views((#[trigger] cs[j]).parents@).contains(h) {
        let j = choose|j: int| 0 <= j < i && views((#[trigger] cs[j]).parents@).contains(h);
        lemma_least_child(cs, h, j);
    } else {
        assert(is_first_child(cs, h, i));
    }
}

/// Key bindings of the list view.
pub fn event_for_key(k: Key) -> (r: Option<NavEvent>)
    ensures
        r == key_event(k),
{
    match k {
        Key::Char('q') | Key::Esc => Some(NavEvent::Quit),
        Key::Char('?') => Some(NavEvent::ToggleHelp),
        Key::Char('u') => Some(NavEvent::ToggleUnicode),
        Key::Up | Key::Char('k') => Some(NavEvent::Up),
        Key::Down | Key::Char('j') => Some(NavEvent::Down),
        Key::Left | Key::Char('h') => Some(NavEvent::Parent),
        Key::Right | Key::Char('l') => Some(NavEvent::Child),
        Key::Char('g') => Some(NavEvent::Top),
        Key::Char('G') => Some(NavEvent::Bottom),
        Key::PageUp => Some(NavEvent::PageUp),
        Key::PageDown => Some(NavEvent::PageDown),
        Key::Enter => Some(NavEvent::Details),
        Key::Char('c') => Some(NavEvent::Checkout),
        Key::Char('x') => Some(NavEvent::Reset),
        Key::Char('p') => Some(NavEvent::CherryPick),
        Key::Char('r') => Some(NavEvent::Revert),
        Key::Char('b') => Some(NavEvent::Branch),
        Key::Char('t') => Some(NavEvent::Tag),
        _ => None,
    }
}

/// Index of the first commit whose hash is `h`.
pub fn find_hash(commits: &Vec<Commit>, h: &String) -> (r: Option<usize>)
    ensures
        match r {
            Some(i) => hash_target(commits@, h@) == Some(i as int),
            None => hash_target(commits@, h@) is None,
        },
{
    let mut i: usize = 0;
    while i < commits.len()
        invariant
            i <= commits@.len(),
            forall|j: int| 0 <= j < i ==> (#[trigger] commits@[j]).hash@ != h@,
        decreases commits@.len() - i,
    {
        if commits[i].hash == *h {
            assert(is_first_with_hash(commits@, h@, i as int));
            let ghost k = choose|k: int| is_first_with_hash(commits@, h@, k);
            assert(k == i) by {
                if k < i {
                    assert(commits@[k].hash@ != h@);
                } else if k > i {
                    assert(commits@[i as int].hash@ != h@);
                }
            }
            return Some(i);
        }
        i = i + 1;
    }
    None
}

/// Whether `h` is among the parents of `c`.
fn lists_parent(c: &Commit, h: &String) -> (r: bool)
    ensures
        r == views(c.parents@).contains(h@),
{
    let mut j: usize = 0;
    while j < c.parents.len()
        invariant
            j <= c.parents@.len(),
            forall|k: int| 0 <= k < j ==> (#[trigger] c.parents@[k])@ != h@,
        decreases c.parents@.len() - j,
    {
        if c.parents[j] == *h {
            assert(views(c.parents@)[j as int] == h@);
            return true;
        }
        j = j + 1;
    }
    proof {
        if views(c.parents@).contains(h@) {
            let k = choose|k: int| 0 <= k < views(c.parents@).len() && views(c.parents@)[k] == h@;
            assert(c.parents@[k]@ == h@);
        }
    }
    false
}

/// Index of the first commit that lists `h` among its parents.
pub fn find_child(commits: &Vec<Commit>, h: &String) -> (r: Option<usize>)
    ensures
        match r {
            Some(i) => child_target(commits@, h@) == Some(i as int),
            None => child_target(commits@, h@) is None,
        },
{
    let mut i: usize = 0;
    while i < commits.len()
        invariant
            i <= commits@.len(),
            forall|j: int| 0 <= j < i ==> !views((#[trigger] commits@[j]).parents@).contains(h@),
        decreases commits@.len() - i,
    {
        if lists_parent(&commits[i], h) {
            assert(is_first_child(commits@, h@, i as int));
            let ghost k = choose|k: int| is_first_child(commits@, h@, k);
            assert(k == i) by {
                if k < i {
                    assert(!views(commits@[k].parents@).contains(h@));
                } else if k > i {
                    assert(!views(commits@[i as int].parents@).contains(h@));
                }
            }
            return Some(i);
        }
        i = i + 1;
    }
    None
}

/// `prefix` followed by `t`.
fn prefixed(prefix: &str, t: &String) -> (r: String)
    ensures
        r@ == prefix@ + t@,
{
    let mut r = prefix.to_owned();
    crate::text::append_str(&mut r, t.as_str());
    r
}

impl Selection {
    /// The state at the start of a session: first commit selected.
    pub fn new(unicode: bool) -> (r: Selection)
        ensures
            r == (Selection { selected: 0, offset: 0, show_help: false, unicode, should_quit: false }),
    {
        Selection { selected: 0, offset: 0, show_help: false, unicode, should_quit: false }
    }

    /// Applies one input event to the state and says what the caller must do.
    pub fn handle_event(&mut self, commits: &Vec<Commit>, ev: NavEvent) -> (a: Action)
        ensures
            *final(self) == next_state(*old(self), commits@, ev),
            is_action_for(a, commits@, old(self).selected as int, ev),
    {
        let len = commits.len();
        let sel = self.selected;
        match ev {
            NavEvent::Quit => {
                self.should_quit = true;
            },
            NavEvent::ToggleHelp => {
                self.show_help = !self.show_help;
            },
            NavEvent::ToggleUnicode => {
                self.unicode = !self.unicode;
            },
            NavEvent::Up => {
                if sel > 0 {
                    self.selected = sel - 1;
                }
            },
            NavEvent::Down => {
                if len > 0 && sel < len - 1 {
                    self.selected = sel + 1;
                }
            },
            NavEvent::Parent => {
                if sel < len && commits[sel].parents.len() > 0 {
                    if let Some(i) = find_hash(commits, &commits[sel].parents[0]) {
                        self.selected = i;
                    }
                }
            },
            NavEvent::Child => {
                if sel < len {
                    if let Some(i) = find_child(commits, &commits[sel].hash) {
                        self.selected = i;
                    }
                }
            },
            NavEvent::Top => {
                self.selected = 0;
            },
            NavEvent::Bottom => {
                self.selected = if len > 0 { len - 1 } else { 0 };
            },
            NavEvent::PageUp => {
                self.selected = if sel > PAGE { sel - PAGE } else { 0 };
            },
            NavEvent::PageDown => {
                self.selected = if len >= PAGE && sel < len - PAGE {
                    sel + PAGE
                } else if len > 0 {
                    len - 1
                } else {
                    0
                };
            },
            _ => {
                if sel >= len {
                    return Action::Nothing;
                }
                let c = &commits[sel];
                return match ev {
                    NavEvent::Details => Action::ShowDetails(sel),
                    NavEvent::Checkout => Action::Checkout(c.hash.clone()),
                    NavEvent::Reset => Action::Reset(c.hash.clone()),
                    NavEvent::CherryPick => Action::CherryPick(c.hash.clone()),
                    NavEvent::Revert => Action::Revert(c.hash.clone()),
                    NavEvent::Branch => Action::CreateBranch(
                        prefixed(BRANCH_PREFIX, &c.short_hash),
                        c.hash.clone(),
                    ),
                    _ => Action::CreateTag(prefixed(TAG_PREFIX, &c.short_hash), c.hash.clone()),
                };
            },
        }
        Action::Nothing
    }
}

} // verus!
