//! The application state: which screen is shown, the state kept per Backlog
//! space, the cursors of every list, the search, and the filters.

use vstd::prelude::*;
use crate::config::{Config, find_space_config, first_space_named, has_space_named};
use crate::models::{Comment, Issue, IssueStatus, Project, User};
use crate::search::{match_list, first_above, last_below, position_above, position_below, all_positions, lemma_match_list_all};
use crate::event::AppEvent;
use crate::status_filter::{default_ids, default_status_ids};
use crate::text::{chars_of, contains_chars, to_lowercase, is_infix, folded, folded_contains};

verus! {

/// The screen on display.
#[derive(Clone, Copy, PartialEq, Eq, Structural, Debug)]
pub enum Screen {
    SpaceSelect,
    ProjectSelect,
    IssueList,
    IssueDetail,
    Filter,
    StatusFilter,
}

/// What the application knows of one Backlog space.
#[derive(Debug)]
pub struct SpaceState {
    pub issues: Option<Vec<Issue>>,
    pub users: Option<Vec<User>>,
    pub users_error: bool,
    pub loading_issues: bool,
    pub projects: Option<Vec<Project>>,
    pub loading_projects: bool,
    pub selected_project: Option<Project>,
    pub statuses: Option<Vec<IssueStatus>>,
    pub loading_statuses: bool,
    pub filter_status_ids: Vec<i64>,
}

/// A space state before anything was fetched for it.
pub open spec fn is_fresh(s: SpaceState) -> bool {
    &&& s.issues is None
    &&& s.users is None
    &&& !s.users_error
    &&& !s.loading_issues
    &&& s.projects is None
    &&& !s.loading_projects
    &&& s.selected_project is None
    &&& s.statuses is None
    &&& !s.loading_statuses
    &&& s.filter_status_ids@.len() == 0
}

impl Default for SpaceState {
    fn default() -> (res: Self)
        ensures
            is_fresh(res),
    {
        SpaceState {
            issues: None,
            users: None,
            users_error: false,
            loading_issues: false,
            projects: None,
            loading_projects: false,
            selected_project: None,
            statuses: None,
            loading_statuses: false,
            filter_status_ids: Vec::new(),
        }
    }
}

/// The state of the space named `name`.
#[derive(Debug)]
pub struct SpaceEntry {
    pub name: String,
    pub state: SpaceState,
}

/// The position of the first entry named `name`, or the number of entries
/// when none is.
pub open spec fn entry_pos(entries: Seq<SpaceEntry>, name: Seq<char>) -> int
    decreases entries.len(),
{
    if entries.len() == 0 {
        0
    } else if entries[0].name@ == name {
        0
    } else {
        1 + entry_pos(entries.drop_first(), name)
    }
}

/// Some entry is named `name`.
pub open spec fn has_entry(entries: Seq<SpaceEntry>, name: Seq<char>) -> bool {
    exists|i: int| 0 <= i < entries.len() && #[trigger] entries[i].name@ == name
}

/// `entry_pos` is the least position carrying the name, and it is the
/// number of entries exactly when no entry carries it.
pub proof fn lemma_entry_pos(entries: Seq<SpaceEntry>, name: Seq<char>)
    ensures
        0 <= entry_pos(entries, name) <= entries.len(),
        entry_pos(entries, name) < entries.len() ==> entries[entry_pos(entries, name)].name@ == name,
        forall|j: int| 0 <= j < entry_pos(entries, name) ==> #[trigger] entries[j].name@ != name,
        has_entry(entries, name) <==> entry_pos(entries, name) < entries.len(),
    decreases entries.len(),
{
    if entries.len() > 0 && entries[0].name@ != name {
        let rest = entries.drop_first();
        lemma_entry_pos(rest, name);
        assert forall|j: int| 0 <= j < entry_pos(entries, name) implies #[trigger] entries[j].name@
            != name by {
            if j > 0 {
                assert(entries[j] == rest[j - 1]);
            }
        }
        if has_entry(entries, name) {
            let k = choose|k: int| 0 <= k < entries.len() && #[trigger] entries[k].name@ == name;
            assert(rest[k - 1].name@ == name);
        }
        if entry_pos(entries, name) < entries.len() {
            let f = entry_pos(rest, name);
            assert(entries[f + 1] == rest[f]);
        }
    }
}

/// Replacing the state of an entry keeps every entry's name, hence every
/// entry position.
pub proof fn lemma_entry_pos_update(entries: Seq<SpaceEntry>, p: int, e: SpaceEntry, name: Seq<char>)
    requires
        0 <= p < entries.len(),
        e.name@ == entries[p].name@,
    ensures
        entry_pos(entries.update(p, e), name) == entry_pos(entries, name),
    decreases entries.len(),
{
    let u = entries.update(p, e);
    assert(u[0].name@ == entries[0].name@);
    if p == 0 {
        assert(u.drop_first() =~= entries.drop_first());
    } else {
        lemma_entry_pos_update(entries.drop_first(), p - 1, e, name);
        assert(u.drop_first() =~= entries.drop_first().update(p - 1, e));
    }
}

/// The position of the entry named `name`, if any.
pub fn find_entry(entries: &Vec<SpaceEntry>, name: &String) -> (res: Option<usize>)
    ensures
        match res {
            Some(i) => i == entry_pos(entries@, name@) && i < entries@.len(),
            None => !has_entry(entries@, name@) && entry_pos(entries@, name@) == entries@.len(),
        },
{
    proof {
        lemma_entry_pos(entries@, name@);
    }
    let mut i: usize = 0;
    while i < entries.len()
        invariant
            i <= entries@.len(),
            forall|j: int| 0 <= j < i ==> #[trigger] entries@[j].name@ != name@,
            0 <= entry_pos(entries@, name@) <= entries@.len(),
            entry_pos(entries@, name@) < entries@.len() ==> entries@[entry_pos(entries@, name@)].name@
                == name@,
            forall|j: int| 0 <= j < entry_pos(entries@, name@) ==> #[trigger] entries@[j].name@ != name@,
        decreases entries.len() - i,
    {
        if entries[i].name == *name {
            return Some(i);
        }
        i += 1;
    }
    None
}

/// The whole application state.
pub struct AppState {
    pub demo_mode: bool,
    pub config: Config,
    pub current_space_idx: usize,
    pub space_cursor_idx: usize,
    /// One entry per distinct space name of the configuration.
    pub spaces: Vec<SpaceEntry>,
    pub selected_issue_idx: usize,
    pub detail_issue: Option<Issue>,
    pub detail_comments: Option<Vec<Comment>>,
    pub filter_assignee_id: Option<i64>,
    pub filter_cursor_idx: usize,
    pub project_cursor_idx: usize,
    pub screen: Screen,
    pub status_message: Option<String>,
    pub should_quit: bool,
    pub detail_scroll_offset: u16,
    pub status_filter_cursor_idx: usize,
    pub status_filter_pending: Vec<i64>,
    pub search_active: bool,
    pub search_query: String,
    pub search_match_idx: usize,
}

/// An issue matches a query when the query is empty, or when the lowercased
/// query occurs in the lowercased issue key or summary.
pub open spec fn issue_matches(issue: Issue, query: Seq<char>) -> bool {
    query.len() == 0 || folded_contains(issue.issue_key@, query) || folded_contains(
        issue.summary@,
        query,
    )
}

/// A status matches a query when the query is empty or the lowercased query
/// occurs in its lowercased name.
pub open spec fn status_matches(status: IssueStatus, query: Seq<char>) -> bool {
    query.len() == 0 || folded_contains(status.name@, query)
}

/// Row `k` of the assignee list matches a query: row 0 is the "ALL" row,
/// matched when the lowercased query occurs in `all`; row `k > 0` is user
/// `k - 1`, matched by name.  Every row matches the empty query.
pub open spec fn user_row_matches(users: Seq<User>, k: int, query: Seq<char>) -> bool {
    query.len() == 0 || if k == 0 {
        is_infix(folded(query), "all"@)
    } else {
        folded_contains(users[k - 1].name@, query)
    }
}

/// The issues of a space, empty when not loaded.
pub open spec fn issues_of(s: SpaceState) -> Seq<Issue> {
    match s.issues {
        Some(v) => v@,
        None => Seq::empty(),
    }
}

/// The users of a space, empty when not loaded.
pub open spec fn users_of(s: SpaceState) -> Seq<User> {
    match s.users {
        Some(v) => v@,
        None => Seq::empty(),
    }
}

/// The statuses of a space, empty when not loaded.
pub open spec fn statuses_of(s: SpaceState) -> Seq<IssueStatus> {
    match s.statuses {
        Some(v) => v@,
        None => Seq::empty(),
    }
}

/// The projects of a space, empty when not loaded.
pub open spec fn projects_of(s: SpaceState) -> Seq<Project> {
    match s.projects {
        Some(v) => v@,
        None => Seq::empty(),
    }
}

impl AppState {
    /// The state is usable: at least one space is configured, the current
    /// space index is in range, and every configured space has an entry.
    pub open spec fn wf(&self) -> bool {
        &&& self.config.spaces@.len() > 0
        &&& self.current_space_idx < self.config.spaces@.len()
        &&& forall|i: int|
            0 <= i < self.config.spaces@.len() ==> entry_pos(
                self.spaces@,
                #[trigger] self.config.spaces@[i].name@,
            ) < self.spaces@.len()
    }

    /// The name of the current space.
    pub open spec fn current_name(&self) -> Seq<char> {
        self.config.spaces@[self.current_space_idx as int].name@
    }

    /// The position of the current space's entry.
    pub open spec fn current_pos(&self) -> int {
        entry_pos(self.spaces@, self.current_name())
    }

    /// The state of the current space.
    pub open spec fn current(&self) -> SpaceState {
        self.spaces@[self.current_pos()].state
    }

    /// Positions of the current space's issues that match the query.
    pub open spec fn issue_match_list(&self) -> Seq<usize> {
        let issues = issues_of(self.current());
        let q = self.search_query@;
        match_list(issues.len(), |k: int| issue_matches(issues[k], q))
    }

    /// Rows of the assignee list (row 0 is "ALL") that match the query.
    pub open spec fn user_match_list(&self) -> Seq<usize> {
        let users = users_of(self.current());
        let q = self.search_query@;
        match_list(users.len() + 1, |k: int| user_row_matches(users, k, q))
    }

    /// Positions of the current space's statuses that match the query.
    pub open spec fn status_match_list(&self) -> Seq<usize> {
        let statuses = statuses_of(self.current());
        let q = self.search_query@;
        match_list(statuses.len(), |k: int| status_matches(statuses[k], q))
    }

    /// A new state for `config`: one fresh entry per distinct space name,
    /// the first space named like the default space as current space (the
    /// first space when none is), and the space selection screen shown.
    pub fn new(config: Config, demo_mode: bool) -> (s: Self)
        ensures
            s.demo_mode == demo_mode,
            s.config == config,
            s.current_space_idx == (if has_space_named(config.spaces@, config.default_space@) {
                first_space_named(config.spaces@, config.default_space@)
            } else {
                0
            }),
            s.space_cursor_idx == s.current_space_idx,
            forall|i: int| 0 <= i < s.spaces@.len() ==> is_fresh(#[trigger] s.spaces@[i].state),
            forall|i: int, j: int|
                0 <= i < j < s.spaces@.len() ==> s.spaces@[i].name@ != s.spaces@[j].name@,
            forall|name: Seq<char>| has_entry(s.spaces@, name) <==> has_space_named(config.spaces@, name),
            s.selected_issue_idx == 0,
            s.detail_issue is None,
            s.detail_comments is None,
            s.filter_assignee_id is None,
            s.filter_cursor_idx == 0,
            s.project_cursor_idx == 0,
            s.screen == Screen::SpaceSelect,
            s.status_message is None,
            !s.should_quit,
            s.detail_scroll_offset == 0,
            s.status_filter_cursor_idx == 0,
            s.status_filter_pending@.len() == 0,
            !s.search_active,
            s.search_query@.len() == 0,
            s.search_match_idx == 0,
            config.spaces@.len() > 0 ==> s.wf(),
    {
        let mut spaces: Vec<SpaceEntry> = Vec::new();
        let mut i: usize = 0;
        while i < config.spaces.len()
            invariant
                i <= config.spaces@.len(),
                forall|j: int| 0 <= j < spaces@.len() ==> is_fresh(#[trigger] spaces@[j].state),
                forall|a: int, b: int|
                    0 <= a < b < spaces@.len() ==> spaces@[a].name@ != spaces@[b].name@,
                forall|name: Seq<char>|
                    has_entry(spaces@, name) <==> has_space_named(config.spaces@.take(i as int), name),
            decreases config.spaces.len() - i,
        {
            let name = &config.spaces[i].name;
            let found = find_entry(&spaces, name);
            let ghost before = spaces@;
            if found.is_none() {
                spaces.push(SpaceEntry { name: name.clone(), state: SpaceState::default() });
            }
            proof {
                let t0 = config.spaces@.take(i as int);
                let t1 = config.spaces@.take(i + 1);
                assert forall|n: Seq<char>| has_entry(spaces@, n) <==> has_space_named(t1, n) by {
                    if has_space_named(t1, n) {
                        let k = choose|k: int| 0 <= k < t1.len() && #[trigger] t1[k].name@ == n;
                        if k < i {
                            assert(t0[k].name@ == n);
                            assert(has_space_named(t0, n));
                            assert(has_entry(before, n));
                            let e = choose|e: int| 0 <= e < before.len() && #[trigger] before[e].name@ == n;
                            assert(spaces@[e].name@ == n);
                        } else if found.is_none() {
                            assert(spaces@[before.len() as int].name@ == n);
                        } else {
                            let e = found.unwrap() as int;
                            lemma_entry_pos(before, name@);
                            assert(spaces@[e].name@ == n);
                        }
                    }
                    if has_entry(spaces@, n) {
                        let e = choose|e: int| 0 <= e < spaces@.len() && #[trigger] spaces@[e].name@ == n;
                        if e < before.len() {
                            assert(before[e].name@ == n);
                            assert(has_entry(before, n));
                            assert(has_space_named(t0, n));
                            let k = choose|k: int| 0 <= k < t0.len() && #[trigger] t0[k].name@ == n;
                            assert(t1[k].name@ == n);
                        } else {
                            assert(t1[i as int].name@ == n);
                        }
                    }
                }
            }
            i += 1;
        }
        assert(config.spaces@.take(config.spaces@.len() as int) =~= config.spaces@);
        let current_space_idx = match find_space_config(&config.spaces, &config.default_space) {
            Some(p) => p,
            None => 0,
        };
        proof {
            if config.spaces@.len() > 0 {
                assert forall|k: int| 0 <= k < config.spaces@.len() implies entry_pos(
                    spaces@,
                    #[trigger] config.spaces@[k].name@,
                ) < spaces@.len() by {
                    lemma_entry_pos(spaces@, config.spaces@[k].name@);
                }
            }
        }
        AppState {
            demo_mode,
            config,
            current_space_idx,
            space_cursor_idx: current_space_idx,
            spaces,
            selected_issue_idx: 0,
            detail_issue: None,
            detail_comments: None,
            filter_assignee_id: None,
            filter_cursor_idx: 0,
            project_cursor_idx: 0,
            screen: Screen::SpaceSelect,
            status_message: None,
            should_quit: false,
            detail_scroll_offset: 0,
            status_filter_cursor_idx: 0,
            status_filter_pending: Vec::new(),
            search_active: false,
            search_query: String::new(),
            search_match_idx: 0,
        }
    }
}


/// `after` is `before` switched to space `idx`: the search is cleared, the
/// issue cursor, the detail view, the project cursor and the assignee filter
/// are reset, and the project selection screen is shown.  The spaces' own
/// states are untouched.
pub open spec fn space_switched(before: AppState, after: AppState, idx: usize) -> bool {
    &&& after.search_query@.len() == 0
    &&& after == (AppState {
        search_active: false,
        search_query: after.search_query,
        search_match_idx: 0,
        filter_cursor_idx: 0,
        status_filter_cursor_idx: 0,
        selected_issue_idx: 0,
        detail_issue: None,
        detail_comments: None,
        detail_scroll_offset: 0,
        project_cursor_idx: 0,
        filter_assignee_id: None,
        current_space_idx: idx,
        screen: Screen::ProjectSelect,
        ..before
    })
}

/// `s` with the search ended, its query being `q` (an empty text).
pub open spec fn cleared(s: AppState, q: String) -> AppState {
    AppState {
        search_active: false,
        search_query: q,
        search_match_idx: 0,
        filter_cursor_idx: 0,
        status_filter_cursor_idx: 0,
        ..s
    }
}

/// In a usable state the current space has an entry.
pub proof fn lemma_wf_current(s: AppState)
    requires
        s.wf(),
    ensures
        0 <= s.current_pos() < s.spaces@.len(),
        s.spaces@[s.current_pos()].name@ == s.current_name(),
{
    lemma_entry_pos(s.spaces@, s.current_name());
    let k = s.current_space_idx as int;
    assert(entry_pos(s.spaces@, s.config.spaces@[k].name@) < s.spaces@.len());
}

/// `after` differs from `before` at most in the state of the current space's
/// entry, which is `st` in `after`.
pub open spec fn current_set_to(before: AppState, after: AppState, st: SpaceState) -> bool {
    &&& after.spaces@ == before.spaces@.update(
        before.current_pos(),
        SpaceEntry { name: before.spaces@[before.current_pos()].name, state: st },
    )
    &&& after == (AppState { spaces: after.spaces, ..before })
}

/// Changing only the current space's state keeps the state usable and the
/// same space current.
pub proof fn lemma_current_set_to(before: AppState, after: AppState, st: SpaceState)
    requires
        before.wf(),
        current_set_to(before, after, st),
    ensures
        after.wf(),
        after.current_pos() == before.current_pos(),
        after.current() == st,
{
    let p = before.current_pos();
    let e = SpaceEntry { name: before.spaces@[p].name, state: st };
    lemma_entry_pos(before.spaces@, before.current_name());
    let k = before.current_space_idx as int;
    assert(0 <= k < before.config.spaces@.len());
    assert(entry_pos(before.spaces@, before.config.spaces@[k].name@) < before.spaces@.len());
    assert(before.current_pos() < before.spaces@.len());
    assert forall|i: int| 0 <= i < after.config.spaces@.len() implies entry_pos(
        after.spaces@,
        #[trigger] after.config.spaces@[i].name@,
    ) < after.spaces@.len() by {
        lemma_entry_pos_update(before.spaces@, p, e, after.config.spaces@[i].name@);
    }
    lemma_entry_pos_update(before.spaces@, p, e, before.current_name());
}

/// The state after moving the issue cursor down (see `navigate_down`).
pub open spec fn after_down(s: AppState) -> AppState {
    let n = issues_of(s.current()).len();
    let sel = s.selected_issue_idx;
    let m = s.issue_match_list();
    let p = first_above(m, sel);
    if n == 0 {
        s
    } else if s.search_query@.len() == 0 {
        AppState {
            selected_issue_idx: if sel + 1 < n {
                (sel + 1) as usize
            } else {
                sel
            },
            ..s
        }
    } else if p < m.len() {
        AppState { selected_issue_idx: m[p], search_match_idx: p as usize, ..s }
    } else {
        s
    }
}

/// The state after moving the issue cursor up (see `navigate_up`).
pub open spec fn after_up(s: AppState) -> AppState {
    let sel = s.selected_issue_idx;
    let m = s.issue_match_list();
    let p = last_below(m, sel);
    if s.search_query@.len() == 0 {
        AppState {
            selected_issue_idx: if sel > 0 {
                (sel - 1) as usize
            } else {
                sel
            },
            ..s
        }
    } else if p >= 0 {
        AppState { selected_issue_idx: m[p], search_match_idx: p as usize, ..s }
    } else {
        s
    }
}

impl AppState {
    /// The name of the current space.
    pub fn current_space_name(&self) -> (res: &str)
        requires
            self.current_space_idx < self.config.spaces@.len(),
        ensures
            res@ == self.current_name(),
    {
        self.config.spaces[self.current_space_idx].name.as_str()
    }

    /// The position of the current space's entry.
    fn current_entry_idx(&self) -> (res: usize)
        requires
            self.wf(),
        ensures
            res == self.current_pos(),
            res < self.spaces@.len(),
    {
        let name = &self.config.spaces[self.current_space_idx].name;
        assert(entry_pos(self.spaces@, self.config.spaces@[self.current_space_idx as int].name@)
            < self.spaces@.len());
        match find_entry(&self.spaces, name) {
            Some(i) => i,
            None => {
                proof {
                    lemma_entry_pos(self.spaces@, name@);
                }
                0
            },
        }
    }

    /// The state of the current space.
    pub fn current_space_state(&self) -> (res: &SpaceState)
        requires
            self.wf(),
        ensures
            *res == self.current(),
    {
        let i = self.current_entry_idx();
        &self.spaces[i].state
    }

    /// The state of the current space, for change in place: every other part
    /// of the application state stays as it was.
    pub fn current_space_state_mut(&mut self) -> (res: &mut SpaceState)
        requires
            old(self).wf(),
        ensures
            *res == old(self).current(),
            final(self).spaces@ == old(self).spaces@.update(
                old(self).current_pos(),
                SpaceEntry { name: old(self).spaces@[old(self).current_pos()].name, state: *final(res) },
            ),
            *final(self) == (AppState { spaces: final(self).spaces, ..*old(self) }),
    {
        let i = self.current_entry_idx();
        &mut self.spaces[i].state
    }

    /// Issues should be fetched for the current space: its statuses are
    /// known, its issues are not, and nothing is being fetched for it.
    pub fn needs_issue_fetch(&self) -> (res: bool)
        requires
            self.wf(),
        ensures
            res == (self.current().statuses is Some && self.current().issues is None
                && !self.current().loading_issues && !self.current().loading_statuses),
    {
        let state = self.current_space_state();
        state.statuses.is_some() && state.issues.is_none() && !state.loading_issues
            && !state.loading_statuses
    }

    /// Projects should be fetched for the current space: they are not known
    /// and not being fetched.
    pub fn needs_projects_fetch(&self) -> (res: bool)
        requires
            self.wf(),
        ensures
            res == (self.current().projects is None && !self.current().loading_projects),
    {
        let state = self.current_space_state();
        state.projects.is_none() && !state.loading_projects
    }

    /// The project selected in the current space, if any.
    pub fn selected_project(&self) -> (res: Option<&Project>)
        requires
            self.wf(),
        ensures
            match res {
                Some(p) => self.current().selected_project == Some(*p),
                None => self.current().selected_project is None,
            },
    {
        self.current_space_state().selected_project.as_ref()
    }

    /// The issue under the cursor, if the current space's issues are loaded
    /// and the cursor is within them.
    pub fn selected_issue(&self) -> (res: Option<&Issue>)
        requires
            self.wf(),
        ensures
            match res {
                Some(i) => self.selected_issue_idx < issues_of(self.current()).len() && *i == issues_of(
                    self.current(),
                )[self.selected_issue_idx as int],
                None => self.selected_issue_idx >= issues_of(self.current()).len(),
            },
    {
        match &self.current_space_state().issues {
            Some(issues) => {
                if self.selected_issue_idx < issues.len() {
                    Some(&issues[self.selected_issue_idx])
                } else {
                    None
                }
            },
            None => None,
        }
    }

    /// Moves the issue cursor down.  Without a search query it moves one
    /// row unless on the last row; with one it jumps to the next matching
    /// issue below and records that match's rank, and stays when there is
    /// none.  Nothing moves when no issue is loaded.
    pub fn navigate_down(&mut self)
        requires
            old(self).wf(),
        ensures
            *final(self) == after_down(*old(self)),
    {
        let len = match &self.current_space_state().issues {
            Some(v) => v.len(),
            None => 0,
        };
        if len == 0 {
            return;
        }
        if self.search_query.as_str().is_empty() {
            if self.selected_issue_idx < len - 1 {
                self.selected_issue_idx = self.selected_issue_idx + 1;
            }
        } else {
            let matches = self.matching_issue_indices();
            match position_above(&matches, self.selected_issue_idx) {
                Some(pos) => {
                    self.selected_issue_idx = matches[pos];
                    self.search_match_idx = pos;
                },
                None => {},
            }
        }
    }

    /// Moves the issue cursor up.  Without a search query it moves one row
    /// unless on the first row; with one it jumps to the nearest matching
    /// issue above and records that match's rank, and stays when there is
    /// none.
    pub fn navigate_up(&mut self)
        requires
            old(self).wf(),
        ensures
            *final(self) == after_up(*old(self)),
    {
        if self.search_query.as_str().is_empty() {
            if self.selected_issue_idx > 0 {
                self.selected_issue_idx = self.selected_issue_idx - 1;
            }
        } else {
            let matches = self.matching_issue_indices();
            match position_below(&matches, self.selected_issue_idx) {
                Some(pos) => {
                    self.selected_issue_idx = matches[pos];
                    self.search_match_idx = pos;
                },
                None => {},
            }
        }
    }

    /// Switches to space `idx`: the search is cleared, the issue cursor,
    /// the detail view, the project cursor and the assignee filter are
    /// reset, and the project selection screen is shown.
    pub fn select_space(&mut self, idx: usize)
        ensures
            space_switched(*old(self), *final(self), idx),
            old(self).wf() && idx < old(self).config.spaces@.len() ==> final(self).wf(),
    {
        self.clear_search();
        self.selected_issue_idx = 0;
        self.detail_issue = None;
        self.detail_comments = None;
        self.detail_scroll_offset = 0;
        self.project_cursor_idx = 0;
        self.filter_assignee_id = None;
        self.current_space_idx = idx;
        self.screen = Screen::ProjectSelect;
    }

    /// Ends the search: no search typing, an empty query, and the match
    /// rank and the popup cursors back at the top.  The issue cursor stays.
    pub fn clear_search(&mut self)
        ensures
            final(self).search_query@.len() == 0,
            *final(self) == (AppState {
                search_active: false,
                search_query: final(self).search_query,
                search_match_idx: 0,
                filter_cursor_idx: 0,
                status_filter_cursor_idx: 0,
                ..*old(self)
            }),
    {
        self.search_active = false;
        self.search_query = String::new();
        self.search_match_idx = 0;
        self.filter_cursor_idx = 0;
        self.status_filter_cursor_idx = 0;
    }

    /// Positions, in the full issue list of the current space, of the issues
    /// that match the search query (all of them for an empty query; none
    /// when no issue is loaded).
    pub fn matching_issue_indices(&self) -> (res: Vec<usize>)
        requires
            self.wf(),
        ensures
            res@ == self.issue_match_list(),
    {
        let state = self.current_space_state();
        let ghost q = self.search_query@;
        let issues = match &state.issues {
            Some(v) => v,
            None => {
                return Vec::new();
            },
        };
        let ghost pred = |k: int| issue_matches(issues@[k], q);
        if self.search_query.as_str().is_empty() {
            proof {
                lemma_match_list_all(issues@.len(), pred);
            }
            return all_positions(issues.len());
        }
        let query = chars_of(to_lowercase(self.search_query.as_str()).as_str());
        let mut res: Vec<usize> = Vec::new();
        let mut i: usize = 0;
        while i < issues.len()
            invariant
                i <= issues@.len(),
                q.len() > 0,
                query@ == folded(q),
                res@ == match_list(i as nat, pred),
                forall|k: int| #[trigger] pred(k) == issue_matches(issues@[k], q),
            decreases issues.len() - i,
        {
            let key = chars_of(to_lowercase(issues[i].issue_key.as_str()).as_str());
            let summary = chars_of(to_lowercase(issues[i].summary.as_str()).as_str());
            let ghost before = res@;
            let hit = contains_chars(&key, &query) || contains_chars(&summary, &query);
            if hit {
                res.push(i);
            }
            proof {
                assert(hit == pred(i as int));
                assert(match_list((i + 1) as nat, pred) == (if pred(i as int) {
                    before.push(i)
                } else {
                    before
                }));
            }
            i += 1;
        }
        res
    }

    /// Rows of the assignee list that match the search query: row 0 is the
    /// "ALL" row, matched when the lowercased query occurs in `all`, and row
    /// `k + 1` is user `k`, matched by name.  Every row matches an empty
    /// query.
    pub fn matching_user_indices(&self) -> (res: Vec<usize>)
        requires
            self.wf(),
        ensures
            res@ == self.user_match_list(),
    {
        let state = self.current_space_state();
        let ghost q = self.search_query@;
        let ghost users = users_of(*state);
        let ghost pred = |k: int| user_row_matches(users, k, q);
        let user_count = match &state.users {
            Some(u) => u.len(),
            None => 0,
        };
        if self.search_query.as_str().is_empty() {
            proof {
                lemma_match_list_all((user_count + 1) as nat, pred);
                lemma_match_list_all(user_count as nat, pred);
            }
            let mut all_rows = all_positions(user_count);
            all_rows.push(user_count);
            proof {
                assert(all_rows@ =~= Seq::new((user_count + 1) as nat, |k: int| k as usize));
            }
            return all_rows;
        }
        let query = chars_of(to_lowercase(self.search_query.as_str()).as_str());
        let all = chars_of("all");
        let mut res: Vec<usize> = Vec::new();
        let hit_all = contains_chars(&all, &query);
        if hit_all {
            res.push(0);
        }
        proof {
            assert(hit_all == pred(0));
            assert(match_list(0, pred) =~= Seq::<usize>::empty());
            assert(res@ =~= match_list(1, pred));
        }
        if let Some(list) = &state.users {
            let mut i: usize = 0;
            while i < list.len()
                invariant
                    i <= list@.len(),
                    list@ == users,
                    q.len() > 0,
                    query@ == folded(q),
                    res@ == match_list((i + 1) as nat, pred),
                    forall|k: int| #[trigger] pred(k) == user_row_matches(users, k, q),
                decreases list.len() - i,
            {
                let name = chars_of(to_lowercase(list[i].name.as_str()).as_str());
                let ghost before = res@;
                let hit = contains_chars(&name, &query);
                if hit {
                    res.push(i + 1);
                }
                proof {
                    assert(hit == pred(i + 1));
                    assert(match_list((i + 2) as nat, pred) == (if pred(i + 1) {
                        before.push((i + 1) as usize)
                    } else {
                        before
                    }));
                }
                i += 1;
            }
        }
        res
    }

    /// Positions, in the full status list of the current space, of the
    /// statuses whose name matches the search query (all of them for an
    /// empty query; none when no status is loaded).
    pub fn matching_status_indices(&self) -> (res: Vec<usize>)
        requires
            self.wf(),
        ensures
            res@ == self.status_match_list(),
    {
        let state = self.current_space_state();
        let ghost q = self.search_query@;
        let statuses = match &state.statuses {
            Some(v) => v,
            None => {
                return Vec::new();
            },
        };
        let ghost pred = |k: int| status_matches(statuses@[k], q);
        if self.search_query.as_str().is_empty() {
            proof {
                lemma_match_list_all(statuses@.len(), pred);
            }
            return all_positions(statuses.len());
        }
        let query = chars_of(to_lowercase(self.search_query.as_str()).as_str());
        let mut res: Vec<usize> = Vec::new();
        let mut i: usize = 0;
        while i < statuses.len()
            invariant
                i <= statuses@.len(),
                q.len() > 0,
                query@ == folded(q),
                res@ == match_list(i as nat, pred),
                forall|k: int| #[trigger] pred(k) == status_matches(statuses@[k], q),
            decreases statuses.len() - i,
        {
            let name = chars_of(to_lowercase(statuses[i].name.as_str()).as_str());
            let ghost before = res@;
            let hit = contains_chars(&name, &query);
            if hit {
                res.push(i);
            }
            proof {
                assert(hit == pred(i as int));
                assert(match_list((i + 1) as nat, pred) == (if pred(i as int) {
                    before.push(i)
                } else {
                    before
                }));
            }
            i += 1;
        }
        res
    }
}


/// The entries with the state of the entry named `name` replaced by `st`;
/// unchanged when no entry is named so.
pub open spec fn with_space_state(entries: Seq<SpaceEntry>, name: Seq<char>, st: SpaceState) -> Seq<
    SpaceEntry,
> {
    let p = entry_pos(entries, name);
    if p < entries.len() {
        entries.update(p, SpaceEntry { name: entries[p].name, state: st })
    } else {
        entries
    }
}

/// The state of the entry named `name` (meaningful when there is one).
pub open spec fn state_named(entries: Seq<SpaceEntry>, name: Seq<char>) -> SpaceState {
    entries[entry_pos(entries, name)].state
}

/// The status line shown for a failed request: "⚠ [<space>] <message>".
pub open spec fn api_error_text(space: Seq<char>, message: Seq<char>) -> Seq<char> {
    "⚠ ["@ + space + "] "@ + message
}

/// What an API failure leaves of a space's state: nothing is being fetched
/// any more and unknown users mark the assignee list as failed.  (Unknown
/// statuses become an empty list; `handle_event` states that part.)
pub open spec fn after_api_error(st: SpaceState) -> SpaceState {
    SpaceState {
        loading_issues: false,
        loading_projects: false,
        loading_statuses: false,
        users_error: if st.users is None {
            true
        } else {
            st.users_error
        },
        ..st
    }
}

impl AppState {
    /// Applies an event from the outside world.
    ///
    /// - `IssuesLoaded`: the named space gets the issues and stops loading
    ///   them; the issue cursor goes to the top and the status line clears.
    /// - `IssueDetailLoaded`: the search is cleared and the issue is shown
    ///   from its top, without comments yet.
    /// - `CommentsLoaded`: kept when they belong to the issue on display.
    /// - `SpaceUsersLoaded`: the named space gets its users.
    /// - `ProjectsLoaded`: the named space gets its projects and stops
    ///   loading them.
    /// - `ApiError`: the status line shows the space and message; the named
    ///   space stops loading (see `after_api_error`).
    /// - `StatusesLoaded`: the named space gets its statuses and the default
    ///   status filter (every status but "完了" and "Closed").
    /// - `Key`: nothing.
    ///
    /// An event for a space without an entry changes no space state.
    #[verifier::rlimit(40)]
    pub fn handle_event(&mut self, event: AppEvent)
        ensures
            old(self).wf() ==> final(self).wf(),
            match event {
                AppEvent::IssuesLoaded { space, issues } => {
                    let st = state_named(old(self).spaces@, space@);
                    &&& final(self).spaces@ == with_space_state(
                        old(self).spaces@,
                        space@,
                        SpaceState { issues: Some(issues), loading_issues: false, ..st },
                    )
                    &&& *final(self) == (AppState {
                        spaces: final(self).spaces,
                        selected_issue_idx: 0,
                        status_message: None,
                        ..*old(self)
                    })
                },
                AppEvent::IssueDetailLoaded(issue) => {
                    &&& final(self).search_query@.len() == 0
                    &&& *final(self) == (AppState {
                        search_active: false,
                        search_query: final(self).search_query,
                        search_match_idx: 0,
                        filter_cursor_idx: 0,
                        status_filter_cursor_idx: 0,
                        detail_issue: Some(issue),
                        detail_scroll_offset: 0,
                        detail_comments: None,
                        screen: Screen::IssueDetail,
                        ..*old(self)
                    })
                },
                AppEvent::CommentsLoaded { issue_key, comments } => {
                    if old(self).detail_issue matches Some(d) && d.issue_key@ == issue_key@ {
                        *final(self) == (AppState { detail_comments: Some(comments), ..*old(self) })
                    } else {
                        *final(self) == *old(self)
                    }
                },
                AppEvent::SpaceUsersLoaded { space, users } => {
                    let st = state_named(old(self).spaces@, space@);
                    &&& final(self).spaces@ == with_space_state(
                        old(self).spaces@,
                        space@,
                        SpaceState { users: Some(users), users_error: false, ..st },
                    )
                    &&& *final(self) == (AppState { spaces: final(self).spaces, ..*old(self) })
                },
                AppEvent::ProjectsLoaded { space, projects } => {
                    let st = state_named(old(self).spaces@, space@);
                    &&& final(self).spaces@ == with_space_state(
                        old(self).spaces@,
                        space@,
                        SpaceState { projects: Some(projects), loading_projects: false, ..st },
                    )
                    &&& *final(self) == (AppState { spaces: final(self).spaces, ..*old(self) })
                },
                AppEvent::ApiError { space, message } => {
                    let st = state_named(old(self).spaces@, space@);
                    &&& final(self).spaces@.len() == old(self).spaces@.len()
                    &&& forall|i: int|
                        0 <= i < old(self).spaces@.len() && i != entry_pos(old(self).spaces@, space@)
                            ==> #[trigger] final(self).spaces@[i] == old(self).spaces@[i]
                    &&& entry_pos(old(self).spaces@, space@) < old(self).spaces@.len() ==> {
                        let e = final(self).spaces@[entry_pos(old(self).spaces@, space@)];
                        &&& e.name == old(self).spaces@[entry_pos(old(self).spaces@, space@)].name
                        &&& e.state.statuses matches Some(v) && (st.statuses is None ==> v@.len() == 0)
                        &&& e.state == (SpaceState { statuses: e.state.statuses, ..after_api_error(st) })
                        &&& st.statuses is Some ==> e.state.statuses == st.statuses
                        &&& e.state.users == st.users
                        &&& e.state.users_error == (st.users is None || st.users_error)
                    }
                    &&& final(self).status_message matches Some(m) && m@ == api_error_text(space@, message@)
                    &&& *final(self) == (AppState {
                        spaces: final(self).spaces,
                        status_message: final(self).status_message,
                        ..*old(self)
                    })
                },
                AppEvent::StatusesLoaded { space, statuses } => {
                    let st = state_named(old(self).spaces@, space@);
                    &&& final(self).spaces@.len() == old(self).spaces@.len()
                    &&& forall|i: int|
                        0 <= i < old(self).spaces@.len() && i != entry_pos(old(self).spaces@, space@)
                            ==> #[trigger] final(self).spaces@[i] == old(self).spaces@[i]
                    &&& entry_pos(old(self).spaces@, space@) < old(self).spaces@.len() ==> {
                        let e = final(self).spaces@[entry_pos(old(self).spaces@, space@)];
                        &&& e.name == old(self).spaces@[entry_pos(old(self).spaces@, space@)].name
                        &&& e.state.filter_status_ids@ == default_ids(statuses@)
                        &&& e.state == (SpaceState {
                            statuses: Some(statuses),
                            loading_statuses: false,
                            filter_status_ids: e.state.filter_status_ids,
                            ..st
                        })
                    }
                    &&& *final(self) == (AppState { spaces: final(self).spaces, ..*old(self) })
                },
                AppEvent::Key(_) => *final(self) == *old(self),
            },
    {
        let ghost old_spaces = self.spaces@;
        match event {
            AppEvent::IssuesLoaded { space, issues } => {
                if let Some(i) = find_entry(&self.spaces, &space) {
                    self.spaces[i].state.issues = Some(issues);
                    self.spaces[i].state.loading_issues = false;
                }
                self.selected_issue_idx = 0;
                self.status_message = None;
            },
            AppEvent::IssueDetailLoaded(issue) => {
                self.clear_search();
                self.detail_issue = Some(issue);
                self.detail_scroll_offset = 0;
                self.detail_comments = None;
                self.screen = Screen::IssueDetail;
            },
            AppEvent::CommentsLoaded { issue_key, comments } => {
                let same = match &self.detail_issue {
                    Some(d) => d.issue_key == issue_key,
                    None => false,
                };
                if same {
                    self.detail_comments = Some(comments);
                }
            },
            AppEvent::SpaceUsersLoaded { space, users } => {
                if let Some(i) = find_entry(&self.spaces, &space) {
                    self.spaces[i].state.users = Some(users);
                    self.spaces[i].state.users_error = false;
                }
            },
            AppEvent::ProjectsLoaded { space, projects } => {
                if let Some(i) = find_entry(&self.spaces, &space) {
                    self.spaces[i].state.projects = Some(projects);
                    self.spaces[i].state.loading_projects = false;
                }
            },
            AppEvent::ApiError { space, message } => {
                let mut msg = String::from_str("⚠ [");
                msg.append(space.as_str());
                msg.append("] ");
                msg.append(message.as_str());
                self.status_message = Some(msg);
                if let Some(i) = find_entry(&self.spaces, &space) {
                    self.spaces[i].state.loading_issues = false;
                    self.spaces[i].state.loading_projects = false;
                    self.spaces[i].state.loading_statuses = false;
                    if self.spaces[i].state.statuses.is_none() {
                        self.spaces[i].state.statuses = Some(Vec::new());
                    }
                    if self.spaces[i].state.users.is_none() {
                        self.spaces[i].state.users_error = true;
                    }
                }
            },
            AppEvent::StatusesLoaded { space, statuses } => {
                if let Some(i) = find_entry(&self.spaces, &space) {
                    let default_ids = default_status_ids(&statuses);
                    self.spaces[i].state.filter_status_ids = default_ids;
                    self.spaces[i].state.statuses = Some(statuses);
                    self.spaces[i].state.loading_statuses = false;
                }
            },
            AppEvent::Key(_) => {},
        }
        proof {
            if old(self).wf() {
                assert forall|i: int| 0 <= i < self.config.spaces@.len() implies entry_pos(
                    self.spaces@,
                    #[trigger] self.config.spaces@[i].name@,
                ) < self.spaces@.len() by {
                    let n = self.config.spaces@[i].name@;
                    lemma_entry_pos(old_spaces, n);
                    lemma_entry_pos(self.spaces@, n);
                    let p = entry_pos(old_spaces, n);
                    assert(self.spaces@[p].name@ == n);
                }
            }
        }
    }
}

} // verus!
