//! How each screen reacts to a key.  Every handler changes the application
//! state and returns the one outside effect the key calls for (a request to
//! start, an event to deliver, a page to open), which the caller carries
//! out.

use vstd::prelude::*;
use crate::app::{
    lemma_entry_pos, find_entry, SpaceEntry,
    AppState, Screen, SpaceState, after_down, after_up, issues_of, projects_of, statuses_of, users_of,
    entry_pos, current_set_to, lemma_current_set_to, lemma_wf_current, cleared, space_switched,
};
use crate::models::User;
use crate::config::{Config, SpaceConfig, find_space_config, first_space_named, has_space_named};
use crate::event::{AppEvent, Key};
use crate::mock::{self, demo_issues, demo_projects, demo_statuses, demo_users};
use crate::search::{first_above, last_below, position_above, position_below};
use crate::status_filter::{toggle_status, toggled};
use crate::text::{pop_char, push_char};

verus! {

/// What the caller must do after a key or an event was handled.
#[allow(inconsistent_fields)]
pub enum Effect {
    /// Nothing.
    Nothing,
    /// Deliver this event to the application (demo mode stands in for the
    /// API this way).
    Deliver(AppEvent),
    /// Deliver these events to the application, in order.
    DeliverAll(Vec<AppEvent>),
    /// Fetch the issues of a space with the given filters; answer with
    /// `IssuesLoaded` or `ApiError`.
    FetchIssues {
        space: String,
        host: String,
        api_key: String,
        project_id: Option<i64>,
        assignee_id: Option<i64>,
        status_ids: Vec<i64>,
    },
    /// Fetch the statuses of a project; answer with `StatusesLoaded` or
    /// `ApiError`.
    FetchStatuses { space: String, host: String, api_key: String, project_id: i64 },
    /// Fetch the projects of a space; answer with `ProjectsLoaded` or
    /// `ApiError`.
    FetchProjects { space: String, host: String, api_key: String },
    /// Fetch one issue and, at the same time, its comments; answer with
    /// `IssueDetailLoaded` and `CommentsLoaded`, or `ApiError`.
    FetchIssueDetail { space: String, host: String, api_key: String, issue_key: String },
    /// Fetch the projects of a space, then the members of each project;
    /// answer with `ProjectsLoaded` and then `SpaceUsersLoaded` (each user
    /// once), or `ApiError` when the projects cannot be had.
    FetchSpaceData { space: String, host: String, api_key: String },
    /// Open this address in the web browser.
    OpenUrl(String),
}

/// The configuration of the first space named `name`.
pub open spec fn space_cfg(config: Config, name: Seq<char>) -> SpaceConfig {
    config.spaces@[first_space_named(config.spaces@, name)]
}

/// A request for the current space can be addressed: in demo mode always,
/// else when the configuration has a space of that name.
pub open spec fn can_fetch(state: AppState, config: Config) -> bool {
    state.demo_mode || has_space_named(config.spaces@, state.current_name())
}

/// `eff` asks for the issues of the current space with the given filters:
/// the demo issues are delivered in demo mode, a request is made otherwise.
pub open spec fn fetches_issues(
    eff: Effect,
    state: AppState,
    config: Config,
    project_id: Option<i64>,
    assignee_id: Option<i64>,
    status_ids: Seq<i64>,
) -> bool {
    if state.demo_mode {
        eff matches Effect::Deliver(AppEvent::IssuesLoaded { space, issues }) && space@
            == state.current_name() && demo_issues(issues@)
    } else {
        eff matches Effect::FetchIssues { space, host, api_key, project_id: p, assignee_id: a, status_ids: ids }
            && space@ == state.current_name() && host == space_cfg(config, state.current_name()).host
            && api_key == space_cfg(config, state.current_name()).api_key && p == project_id && a
            == assignee_id && ids@ == status_ids
    }
}

/// `eff` asks for the statuses of a project of the current space.
pub open spec fn fetches_statuses(eff: Effect, state: AppState, config: Config, project_id: i64) -> bool {
    if state.demo_mode {
        eff matches Effect::Deliver(AppEvent::StatusesLoaded { space, statuses }) && space@
            == state.current_name() && demo_statuses(statuses@)
    } else {
        eff matches Effect::FetchStatuses { space, host, api_key, project_id: p } && space@
            == state.current_name() && host == space_cfg(config, state.current_name()).host && api_key
            == space_cfg(config, state.current_name()).api_key && p == project_id
    }
}

/// `eff` asks for the projects of the current space: in demo mode the demo
/// projects and then the demo users are delivered, a request is made
/// otherwise.
pub open spec fn fetches_projects(eff: Effect, state: AppState, config: Config) -> bool {
    if state.demo_mode {
        &&& eff matches Effect::DeliverAll(events)
        &&& events@.len() == 2
        &&& events@[0] matches AppEvent::ProjectsLoaded { space, projects }
        &&& space@ == state.current_name() && demo_projects(projects@)
        &&& events@[1] matches AppEvent::SpaceUsersLoaded { space: users_space, users }
        &&& users_space@ == state.current_name() && demo_users(users@)
    } else {
        eff matches Effect::FetchProjects { space, host, api_key } && space@ == state.current_name()
            && host == space_cfg(config, state.current_name()).host && api_key == space_cfg(
            config,
            state.current_name(),
        ).api_key
    }
}

fn current_space_config(state: &AppState, config: &Config) -> (res: (String, String, String))
    requires
        state.current_space_idx < state.config.spaces@.len(),
        has_space_named(config.spaces@, state.current_name()),
    ensures
        res.0@ == state.current_name(),
        res.1 == space_cfg(*config, state.current_name()).host,
        res.2 == space_cfg(*config, state.current_name()).api_key,
{
    let space = String::from_str(state.current_space_name());
    let i = find_space_config(&config.spaces, &space).unwrap();
    (space, config.spaces[i].host.clone(), config.spaces[i].api_key.clone())
}

/// Asks for the issues of the current space: in demo mode the demo issues
/// are delivered at once, otherwise a request is made with the space's host
/// and API key and the given filters.
pub fn fetch_issues(
    state: &AppState,
    config: &Config,
    project_id: Option<i64>,
    assignee_id: Option<i64>,
    status_ids: Vec<i64>,
) -> (eff: Effect)
    requires
        state.current_space_idx < state.config.spaces@.len(),
        can_fetch(*state, *config),
    ensures
        fetches_issues(eff, *state, *config, project_id, assignee_id, status_ids@),
{
    if state.demo_mode {
        let space = String::from_str(state.current_space_name());
        return Effect::Deliver(AppEvent::IssuesLoaded { space, issues: mock::issues() });
    }
    let (space, host, api_key) = current_space_config(state, config);
    Effect::FetchIssues { space, host, api_key, project_id, assignee_id, status_ids }
}

/// Asks for the statuses of a project of the current space (the demo
/// statuses in demo mode).
pub fn fetch_statuses(state: &AppState, config: &Config, project_id: i64) -> (eff: Effect)
    requires
        state.current_space_idx < state.config.spaces@.len(),
        can_fetch(*state, *config),
    ensures
        fetches_statuses(eff, *state, *config, project_id),
{
    if state.demo_mode {
        let space = String::from_str(state.current_space_name());
        return Effect::Deliver(AppEvent::StatusesLoaded { space, statuses: mock::statuses() });
    }
    let (space, host, api_key) = current_space_config(state, config);
    Effect::FetchStatuses { space, host, api_key, project_id }
}

/// Asks for the projects of the current space (in demo mode the demo
/// projects, followed by the demo users).
pub fn fetch_projects(state: &AppState, config: &Config) -> (eff: Effect)
    requires
        state.current_space_idx < state.config.spaces@.len(),
        can_fetch(*state, *config),
    ensures
        fetches_projects(eff, *state, *config),
{
    if state.demo_mode {
        let space = String::from_str(state.current_space_name());
        let users_space = String::from_str(state.current_space_name());
        let mut events: Vec<AppEvent> = Vec::new();
        events.push(AppEvent::ProjectsLoaded { space, projects: mock::projects() });
        events.push(AppEvent::SpaceUsersLoaded { space: users_space, users: mock::users() });
        return Effect::DeliverAll(events);
    }
    let (space, host, api_key) = current_space_config(state, config);
    Effect::FetchProjects { space, host, api_key }
}

/// The web address of an issue: `https://<host>/view/<key>`.
pub open spec fn issue_page(host: Seq<char>, key: Seq<char>) -> Seq<char> {
    "https://"@ + host + "/view/"@ + key
}

/// The state after a key on the issue detail screen.
pub open spec fn detail_key_result(key: Key, s: AppState) -> AppState {
    match key {
        Key::Char('j') | Key::Down => AppState {
            detail_scroll_offset: (s.detail_scroll_offset + 1) as u16,
            ..s
        },
        Key::Char('k') | Key::Up => AppState {
            detail_scroll_offset: if s.detail_scroll_offset > 0 {
                (s.detail_scroll_offset - 1) as u16
            } else {
                0
            },
            ..s
        },
        Key::Esc => AppState {
            screen: Screen::IssueList,
            detail_issue: None,
            detail_scroll_offset: 0,
            detail_comments: None,
            ..s
        },
        _ => s,
    }
}

/// Handles a key on the issue detail screen: `j`/Down and `k`/Up scroll
/// (never above the top), Esc closes the detail and returns to the issue
/// list, and `o` opens the issue's page in the browser when an issue is on
/// display.
pub fn handle_detail_key(key: Key, state: &mut AppState) -> (eff: Effect)
    requires
        (key == Key::Char('j') || key == Key::Down) ==> old(state).detail_scroll_offset < u16::MAX,
        (key == Key::Char('o') && old(state).detail_issue is Some) ==> old(state).current_space_idx
            < old(state).config.spaces@.len(),
    ensures
        *final(state) == detail_key_result(key, *old(state)),
        key == Key::Char('o') && old(state).detail_issue is Some ==> (eff matches Effect::OpenUrl(u)
            && u@ == issue_page(
            old(state).config.spaces@[old(state).current_space_idx as int].host@,
            old(state).detail_issue->0.issue_key@,
        )),
        !(key == Key::Char('o') && old(state).detail_issue is Some) ==> eff is Nothing,
{
    match key {
        Key::Char('j') | Key::Down => {
            state.detail_scroll_offset = state.detail_scroll_offset + 1;
            Effect::Nothing
        },
        Key::Char('k') | Key::Up => {
            if state.detail_scroll_offset > 0 {
                state.detail_scroll_offset = state.detail_scroll_offset - 1;
            }
            Effect::Nothing
        },
        Key::Esc => {
            state.screen = Screen::IssueList;
            state.detail_issue = None;
            state.detail_scroll_offset = 0;
            state.detail_comments = None;
            Effect::Nothing
        },
        Key::Char('o') => {
            match &state.detail_issue {
                Some(issue) => {
                    let url = String::from_str("https://").concat(
                        state.config.spaces[state.current_space_idx].host.as_str(),
                    ).concat("/view/").concat(issue.issue_key.as_str());
                    Effect::OpenUrl(url)
                },
                None => Effect::Nothing,
            }
        },
        _ => Effect::Nothing,
    }
}

/// The state after a key on the space selection screen.
pub open spec fn space_select_result(key: Key, s: AppState, config: Config) -> AppState {
    match key {
        Key::Char('q') => AppState { should_quit: true, ..s },
        Key::Char('j') | Key::Down => AppState {
            space_cursor_idx: if s.space_cursor_idx + 1 < config.spaces@.len() {
                (s.space_cursor_idx + 1) as usize
            } else {
                s.space_cursor_idx
            },
            ..s
        },
        Key::Char('k') | Key::Up => AppState {
            space_cursor_idx: if s.space_cursor_idx > 0 {
                (s.space_cursor_idx - 1) as usize
            } else {
                s.space_cursor_idx
            },
            ..s
        },
        _ => s,
    }
}

/// Handles a key on the space selection screen: `q` quits, `j`/Down and
/// `k`/Up move the cursor within the configured spaces, Enter switches to
/// the space under the cursor (see `AppState::select_space`) when any space
/// is configured.
pub fn handle_space_select_key(key: Key, state: &mut AppState, config: &Config)
    ensures
        key == Key::Enter && config.spaces@.len() > 0 ==> space_switched(
            *old(state),
            *final(state),
            old(state).space_cursor_idx,
        ),
        !(key == Key::Enter && config.spaces@.len() > 0) ==> *final(state) == space_select_result(
            key,
            *old(state),
            *config,
        ),
        old(state).wf() && old(state).space_cursor_idx < old(state).config.spaces@.len()
            ==> final(state).wf(),
{
    match key {
        Key::Char('q') => {
            state.should_quit = true;
        },
        Key::Char('j') | Key::Down => {
            let n = config.spaces.len();
            let max = if n > 0 {
                n - 1
            } else {
                0
            };
            if state.space_cursor_idx < max {
                state.space_cursor_idx = state.space_cursor_idx + 1;
            }
        },
        Key::Char('k') | Key::Up => {
            if state.space_cursor_idx > 0 {
                state.space_cursor_idx = state.space_cursor_idx - 1;
            }
        },
        Key::Enter => {
            if config.spaces.len() == 0 {
                return;
            }
            let idx = state.space_cursor_idx;
            state.select_space(idx);
        },
        _ => {},
    }
}

/// The state after a key on the project selection screen, Enter aside.
pub open spec fn project_select_result(key: Key, s: AppState) -> AppState {
    let count = projects_of(s.current()).len();
    match key {
        Key::Char('q') => AppState { should_quit: true, ..s },
        Key::Char('j') | Key::Down => AppState {
            project_cursor_idx: if count > 0 && s.project_cursor_idx + 1 < count {
                (s.project_cursor_idx + 1) as usize
            } else {
                s.project_cursor_idx
            },
            ..s
        },
        Key::Char('k') | Key::Up => AppState {
            project_cursor_idx: if s.project_cursor_idx > 0 {
                (s.project_cursor_idx - 1) as usize
            } else {
                s.project_cursor_idx
            },
            ..s
        },
        Key::Esc => AppState { project_cursor_idx: 0, screen: Screen::SpaceSelect, ..s },
        _ => s,
    }
}

/// Enter on the project selection screen picks a project: there is one
/// under the cursor.
pub open spec fn picks_project(key: Key, s: AppState) -> bool {
    key == Key::Enter && s.project_cursor_idx < projects_of(s.current()).len()
}

/// Handles a key on the project selection screen: `q` quits, `j`/Down and
/// `k`/Up move the cursor within the projects, Esc goes back to the space
/// selection, and Enter on a project selects it for the current space,
/// forgets the space's statuses, status filter and issues, shows the issue
/// list, and asks for the project's statuses (issues follow once they are
/// known).
pub fn handle_project_select_key(key: Key, state: &mut AppState, config: &Config) -> (eff: Effect)
    requires
        old(state).wf(),
        picks_project(key, *old(state)) ==> can_fetch(*old(state), *config),
    ensures
        final(state).wf(),
        !picks_project(key, *old(state)) ==> *final(state) == project_select_result(key, *old(state))
            && eff is Nothing,
        picks_project(key, *old(state)) ==> {
            let st = final(state).spaces@[old(state).current_pos()].state;
            let project = projects_of(old(state).current())[old(state).project_cursor_idx as int];
            &&& st.filter_status_ids@.len() == 0
            &&& current_set_to(
                AppState { screen: Screen::IssueList, ..*old(state) },
                *final(state),
                SpaceState {
                    selected_project: Some(project),
                    statuses: None,
                    filter_status_ids: st.filter_status_ids,
                    issues: None,
                    loading_statuses: true,
                    ..old(state).current()
                },
            )
            &&& fetches_statuses(eff, *old(state), *config, project.id)
        },
{
    let project_count = match &state.current_space_state().projects {
        Some(p) => p.len(),
        None => 0,
    };
    match key {
        Key::Char('q') => {
            state.should_quit = true;
            Effect::Nothing
        },
        Key::Char('j') | Key::Down => {
            if project_count > 0 && state.project_cursor_idx < project_count - 1 {
                state.project_cursor_idx = state.project_cursor_idx + 1;
            }
            Effect::Nothing
        },
        Key::Char('k') | Key::Up => {
            if state.project_cursor_idx > 0 {
                state.project_cursor_idx = state.project_cursor_idx - 1;
            }
            Effect::Nothing
        },
        Key::Esc => {
            state.project_cursor_idx = 0;
            state.screen = Screen::SpaceSelect;
            Effect::Nothing
        },
        Key::Enter => {
            if project_count == 0 {
                return Effect::Nothing;
            }
            let project = match &state.current_space_state().projects {
                Some(p) => if state.project_cursor_idx < p.len() {
                    Some(p[state.project_cursor_idx].clone())
                } else {
                    None
                },
                None => None,
            };
            match project {
                Some(project) => {
                    let project_id = project.id;
                    let ghost mid = *state;
                    state.screen = Screen::IssueList;
                    let ghost before = *state;
                    proof {
                        lemma_wf_current(before);
                    }
                    let ss = state.current_space_state_mut();
                    ss.selected_project = Some(project);
                    ss.statuses = None;
                    ss.filter_status_ids = Vec::new();
                    ss.issues = None;
                    ss.loading_statuses = true;
                    proof {
                        lemma_current_set_to(before, *state, state.spaces@[before.current_pos()].state);
                    }
                    fetch_statuses(state, config, project_id)
                },
                None => Effect::Nothing,
            }
        },
        _ => Effect::Nothing,
    }
}

/// The first element of a match list, or `d` when it is empty.
pub open spec fn first_or(m: Seq<usize>, d: usize) -> usize {
    if m.len() > 0 {
        m[0]
    } else {
        d
    }
}

/// The rank after `n` (next match, wrapping around) in a list of `len`
/// matches.
pub open spec fn next_rank(idx: usize, len: nat) -> usize {
    ((idx + 1) % (len as int)) as usize
}

/// The rank after `N` (previous match, wrapping around) in a list of `len`
/// matches.
pub open spec fn prev_rank(idx: usize, len: nat) -> usize {
    ((idx + len - 1) % (len as int)) as usize
}

/// The text after a search key: a character is appended, Backspace removes
/// the last character.
pub open spec fn edited_query(q: Seq<char>, key: Key) -> Seq<char> {
    match key {
        Key::Char(c) => q.push(c),
        Key::Backspace => if q.len() > 0 {
            q.drop_last()
        } else {
            q
        },
        _ => q,
    }
}

/// The position of the first user with id `id`, or the number of users.
pub open spec fn user_pos(users: Seq<User>, id: i64) -> int
    decreases users.len(),
{
    if users.len() == 0 {
        0
    } else if users[0].id == id {
        0
    } else {
        1 + user_pos(users.drop_first(), id)
    }
}

pub proof fn lemma_user_pos(users: Seq<User>, id: i64)
    ensures
        0 <= user_pos(users, id) <= users.len(),
        user_pos(users, id) < users.len() ==> users[user_pos(users, id)].id == id,
        forall|j: int| 0 <= j < user_pos(users, id) ==> #[trigger] users[j].id != id,
    decreases users.len(),
{
    if users.len() > 0 && users[0].id != id {
        lemma_user_pos(users.drop_first(), id);
        assert forall|j: int| 0 <= j < user_pos(users, id) implies #[trigger] users[j].id != id by {
            if j > 0 {
                assert(users[j] == users.drop_first()[j - 1]);
            }
        }
        if user_pos(users, id) < users.len() {
            assert(users[user_pos(users, id)] == users.drop_first()[user_pos(users, id) - 1]);
        }
    }
}

/// The assignee list row of the current assignee filter: row 0 ("ALL") when
/// there is no filter or the user is unknown, else the user's position
/// plus one.
pub open spec fn assignee_row(s: AppState) -> usize {
    match s.filter_assignee_id {
        None => 0,
        Some(aid) => match s.current().users {
            None => 0,
            Some(u) => if user_pos(u@, aid) < u@.len() {
                (user_pos(u@, aid) + 1) as usize
            } else {
                0
            },
        },
    }
}

/// The assignee list row of the user with id `aid`: its position plus one,
/// or 0 when no user has that id.
pub fn user_row_of(users: &Vec<User>, aid: i64) -> (res: usize)
    ensures
        res > 0 <==> user_pos(users@, aid) < users@.len(),
        res > 0 ==> res - 1 == user_pos(users@, aid),
        res == (if user_pos(users@, aid) < users@.len() {
            (user_pos(users@, aid) + 1) as usize
        } else {
            0usize
        }),
{
    proof {
        lemma_user_pos(users@, aid);
    }
    let mut i: usize = 0;
    while i < users.len()
        invariant
            i <= users@.len(),
            forall|j: int| 0 <= j < i ==> #[trigger] users@[j].id != aid,
            0 <= user_pos(users@, aid) <= users@.len(),
            user_pos(users@, aid) < users@.len() ==> users@[user_pos(users@, aid)].id == aid,
            forall|j: int| 0 <= j < user_pos(users@, aid) ==> #[trigger] users@[j].id != aid,
        decreases users.len() - i,
    {
        if users[i].id == aid {
            assert(user_pos(users@, aid) == i) by {
                if user_pos(users@, aid) < i {
                    assert(users@[user_pos(users@, aid)].id == aid);
                }
            }
            return i + 1;
        }
        i += 1;
    }
    0
}

/// The id of the project selected in the current space, if any.
pub open spec fn selected_project_id(s: AppState) -> Option<i64> {
    match s.current().selected_project {
        Some(p) => Some(p.id),
        None => None,
    }
}

/// The project an issue request is for: `id` when the current space has a
/// selected project `p` (then `id == Some(p.id)`), `None` when it has none.
pub open spec fn requests_project(s: AppState, id: Option<i64>) -> bool {
    &&& forall|p: crate::models::Project| s.current().selected_project == Some(p) ==> id == Some(p.id)
    &&& s.current().selected_project is None ==> id is None
}

/// The key can be handled on the issue list: a request it starts can be
/// addressed, and stepping through matches stays within machine integers.
pub open spec fn list_key_ready(key: Key, s: AppState, config: Config) -> bool {
    let m = s.issue_match_list();
    &&& !s.search_active && key == Key::Char('r') ==> can_fetch(s, config)
    &&& !s.search_active && key == Key::Enter && s.selected_issue_idx < issues_of(s.current()).len()
        ==> can_fetch(s, config)
    &&& !s.search_active && key == Key::Char('n') && s.search_query@.len() > 0 && m.len() > 0
        ==> s.search_match_idx < usize::MAX
    &&& !s.search_active && key == Key::Char('N') && s.search_query@.len() > 0 && m.len() > 0
        ==> s.search_match_idx + m.len() <= usize::MAX
}

/// The state after a key typed while searching: `moved` is `s` with the
/// edited query, the match rank reset and the screen's cursor on the first
/// match; `at_top` is `s` with the screen's cursor at the top, from which Esc
/// clears the search.
pub open spec fn search_typing_result(
    key: Key,
    s: AppState,
    t: AppState,
    moved: AppState,
    at_top: AppState,
) -> bool {
    match key {
        Key::Char(_) => t.search_query@ == edited_query(s.search_query@, key) && t == moved,
        Key::Backspace => t.search_query@ == edited_query(s.search_query@, key) && if t.search_query@.len()
            > 0 {
            t == moved
        } else {
            t == (AppState { search_query: t.search_query, ..s })
        },
        Key::Enter => t == (AppState { search_active: false, ..s }),
        Key::Esc => t.search_query@.len() == 0 && t == cleared(at_top, t.search_query),
        _ => t == s,
    }
}

/// The space after the current one, wrapping around to the first.
pub open spec fn next_space(s: AppState) -> usize {
    ((s.current_space_idx + 1) % (s.config.spaces@.len() as int)) as usize
}

/// The space before the current one, wrapping around to the last.
pub open spec fn prev_space(s: AppState) -> usize {
    if s.current_space_idx == 0 {
        (s.config.spaces@.len() - 1) as usize
    } else {
        (s.current_space_idx - 1) as usize
    }
}

/// The state and effect after a key on the issue list.
pub open spec fn list_key_result(key: Key, s: AppState, config: Config, t: AppState, eff: Effect) -> bool {
    let cur = s.current();
    let issues = issues_of(cur);
    let sel = s.selected_issue_idx;
    let m = s.issue_match_list();
    if s.search_active {
        &&& search_typing_result(
            key,
            s,
            t,
            AppState {
                search_query: t.search_query,
                search_match_idx: 0,
                selected_issue_idx: first_or(t.issue_match_list(), sel),
                ..s
            },
            AppState { selected_issue_idx: 0, ..s },
        )
        &&& eff is Nothing
    } else {
        match key {
            Key::Char('q') => t == (AppState { should_quit: true, ..s }) && eff is Nothing,
            Key::Char('j') | Key::Down => t == after_down(s) && eff is Nothing,
            Key::Char('k') | Key::Up => t == after_up(s) && eff is Nothing,
            Key::Enter => if sel < issues.len() {
                if s.demo_mode {
                    &&& t.detail_comments matches Some(c) && c@.len() == 0
                    &&& t == (AppState { detail_comments: t.detail_comments, ..s })
                    &&& eff matches Effect::Deliver(AppEvent::IssueDetailLoaded(i)) && i == issues[sel as int]
                } else {
                    &&& t == (AppState { detail_comments: None, ..s })
                    &&& eff matches Effect::FetchIssueDetail { space, host, api_key, issue_key }
                    &&& space@ == s.current_name()
                    &&& host == space_cfg(config, s.current_name()).host
                    &&& api_key == space_cfg(config, s.current_name()).api_key
                    &&& issue_key == issues[sel as int].issue_key
                }
            } else {
                t == s && eff is Nothing
            },
            Key::Char('f') => t == (AppState {
                filter_cursor_idx: assignee_row(s),
                screen: Screen::Filter,
                ..s
            }) && eff is Nothing,
            Key::Char('s') => {
                &&& t.status_filter_pending@ == cur.filter_status_ids@
                &&& t == (AppState {
                    status_filter_pending: t.status_filter_pending,
                    status_filter_cursor_idx: 0,
                    screen: Screen::StatusFilter,
                    ..s
                })
                &&& eff is Nothing
            },
            Key::Esc => {
                &&& t.search_query@.len() == 0
                &&& t == cleared(
                    AppState { selected_issue_idx: 0, screen: Screen::ProjectSelect, ..s },
                    t.search_query,
                )
                &&& eff is Nothing
            },
            Key::Char('r') => {
                &&& t.search_query@.len() == 0
                &&& current_set_to(
                    cleared(s, t.search_query),
                    t,
                    SpaceState { issues: None, loading_issues: true, ..cur },
                )
                &&& fetches_issues(
                    eff,
                    s,
                    config,
                    selected_project_id(s),
                    s.filter_assignee_id,
                    cur.filter_status_ids@,
                )
            },
            Key::Char('/') => {
                &&& t.search_query@.len() == 0
                &&& t == (AppState {
                    search_active: true,
                    search_query: t.search_query,
                    search_match_idx: 0,
                    ..s
                })
                &&& eff is Nothing
            },
            Key::Char('n') => if s.search_query@.len() > 0 && m.len() > 0 {
                let r = next_rank(s.search_match_idx, m.len());
                t == (AppState { search_match_idx: r, selected_issue_idx: m[r as int], ..s })
                    && eff is Nothing
            } else {
                t == s && eff is Nothing
            },
            Key::Char('N') => if s.search_query@.len() > 0 && m.len() > 0 {
                let r = prev_rank(s.search_match_idx, m.len());
                t == (AppState { search_match_idx: r, selected_issue_idx: m[r as int], ..s })
                    && eff is Nothing
            } else {
                t == s && eff is Nothing
            },
            Key::Char(']') => space_switched(s, t, next_space(s)) && eff is Nothing,
            Key::Char('[') => space_switched(s, t, prev_space(s)) && eff is Nothing,
            _ => t == s && eff is Nothing,
        }
    }
}

fn copy_ids(v: &Vec<i64>) -> (res: Vec<i64>)
    ensures
        res@ == v@,
{
    let mut res: Vec<i64> = Vec::new();
    let mut i: usize = 0;
    while i < v.len()
        invariant
            i <= v@.len(),
            res@ == v@.take(i as int),
        decreases v.len() - i,
    {
        res.push(v[i]);
        assert(v@.take(i + 1) =~= v@.take(i as int).push(v@[i as int]));
        i += 1;
    }
    assert(v@.take(i as int) =~= v@);
    res
}

fn project_id_of(state: &AppState) -> (res: Option<i64>)
    requires
        state.wf(),
    ensures
        res == selected_project_id(*state),
{
    match state.selected_project() {
        Some(p) => Some(p.id),
        None => None,
    }
}

/// Drops the current space's issues and marks them as being fetched.
fn mark_issues_loading(state: &mut AppState)
    requires
        old(state).wf(),
    ensures
        final(state).wf(),
        current_set_to(
            *old(state),
            *final(state),
            SpaceState { issues: None, loading_issues: true, ..old(state).current() },
        ),
{
    let ghost before = *state;
    proof {
        lemma_wf_current(before);
    }
    let ss = state.current_space_state_mut();
    ss.issues = None;
    ss.loading_issues = true;
    proof {
        lemma_current_set_to(before, *state, state.spaces@[before.current_pos()].state);
    }
}

/// Handles a key on the issue list.
///
/// While a search is being typed, characters extend the query and Backspace
/// shortens it, the match rank resets and the cursor jumps to the first
/// match (Backspace leaves the cursor when the query becomes empty); Enter
/// ends the typing and keeps the query; Esc clears the search and puts the
/// cursor back on the first issue.
///
/// Otherwise: `q` quits; `j`/Down and `k`/Up move the cursor (see
/// `navigate_down`, `navigate_up`); Enter opens the issue under the cursor
/// (fetching it and its comments, or delivering it at once in demo mode);
/// `f` opens the assignee filter on the current assignee's row; `s` opens
/// the status filter with the current filter as pending selection; Esc goes
/// back to the project selection with the cursor at the top; `r` clears the
/// search and fetches the issues anew; `/` starts a search; `n` and `N` go to
/// the next and previous match, wrapping around; `]` and `[` switch to the
/// next and previous space, wrapping around (see `AppState::select_space`).
pub fn handle_list_key(key: Key, state: &mut AppState, config: &Config) -> (eff: Effect)
    requires
        old(state).wf(),
        list_key_ready(key, *old(state), *config),
    ensures
        final(state).wf(),
        list_key_result(key, *old(state), *config, *final(state), eff),
{
    let ghost s = *state;
    proof {
        lemma_wf_current(s);
    }
    if state.search_active {
        match key {
            Key::Char(c) => {
                push_char(&mut state.search_query, c);
                state.search_match_idx = 0;
                let matches = state.matching_issue_indices();
                if matches.len() > 0 {
                    state.selected_issue_idx = matches[0];
                }
            },
            Key::Backspace => {
                pop_char(&mut state.search_query);
                if !state.search_query.as_str().is_empty() {
                    state.search_match_idx = 0;
                    let matches = state.matching_issue_indices();
                    if matches.len() > 0 {
                        state.selected_issue_idx = matches[0];
                    }
                }
            },
            Key::Enter => {
                state.search_active = false;
            },
            Key::Esc => {
                state.clear_search();
                state.selected_issue_idx = 0;
            },
            _ => {},
        }
        return Effect::Nothing;
    }
    match key {
        Key::Char('q') => {
            state.should_quit = true;
            Effect::Nothing
        },
        Key::Char('j') | Key::Down => {
            state.navigate_down();
            Effect::Nothing
        },
        Key::Char('k') | Key::Up => {
            state.navigate_up();
            Effect::Nothing
        },
        Key::Enter => {
            let issue = match state.selected_issue() {
                Some(i) => Some(i.clone()),
                None => None,
            };
            match issue {
                Some(issue) => {
                    if state.demo_mode {
                        state.detail_comments = Some(Vec::new());
                        Effect::Deliver(AppEvent::IssueDetailLoaded(issue))
                    } else {
                        state.detail_comments = None;
                        let (space, host, api_key) = current_space_config(state, config);
                        Effect::FetchIssueDetail { space, host, api_key, issue_key: issue.issue_key }
                    }
                },
                None => Effect::Nothing,
            }
        },
        Key::Char('f') => {
            let row = match state.filter_assignee_id {
                None => 0,
                Some(aid) => match &state.current_space_state().users {
                    None => 0,
                    Some(users) => user_row_of(users, aid),
                },
            };
            state.filter_cursor_idx = row;
            state.screen = Screen::Filter;
            Effect::Nothing
        },
        Key::Char('s') => {
            let pending = copy_ids(&state.current_space_state().filter_status_ids);
            state.status_filter_pending = pending;
            state.status_filter_cursor_idx = 0;
            state.screen = Screen::StatusFilter;
            Effect::Nothing
        },
        Key::Esc => {
            state.selected_issue_idx = 0;
            state.clear_search();
            state.screen = Screen::ProjectSelect;
            Effect::Nothing
        },
        Key::Char('r') => {
            state.clear_search();
            let project_id = project_id_of(state);
            let assignee_id = state.filter_assignee_id;
            let status_ids = copy_ids(&state.current_space_state().filter_status_ids);
            mark_issues_loading(state);
            fetch_issues(state, config, project_id, assignee_id, status_ids)
        },
        Key::Char('/') => {
            state.search_active = true;
            state.search_query = String::new();
            state.search_match_idx = 0;
            Effect::Nothing
        },
        Key::Char('n') => {
            if !state.search_query.as_str().is_empty() {
                let matches = state.matching_issue_indices();
                if matches.len() > 0 {
                    state.search_match_idx = (state.search_match_idx + 1) % matches.len();
                    state.selected_issue_idx = matches[state.search_match_idx];
                }
            }
            Effect::Nothing
        },
        Key::Char('N') => {
            if !state.search_query.as_str().is_empty() {
                let matches = state.matching_issue_indices();
                if matches.len() > 0 {
                    state.search_match_idx = (state.search_match_idx + matches.len() - 1)
                        % matches.len();
                    state.selected_issue_idx = matches[state.search_match_idx];
                }
            }
            Effect::Nothing
        },
        Key::Char(']') => {
            let n = state.config.spaces.len();
            let idx = (state.current_space_idx + 1) % n;
            state.select_space(idx);
            Effect::Nothing
        },
        Key::Char('[') => {
            let idx = if state.current_space_idx == 0 {
                state.config.spaces.len() - 1
            } else {
                state.current_space_idx - 1
            };
            state.select_space(idx);
            Effect::Nothing
        },
        _ => Effect::Nothing,
    }
}

/// The key can be handled on the assignee filter: a request it starts can be
/// addressed, and stepping through matches stays within machine integers.
pub open spec fn filter_key_ready(key: Key, s: AppState, config: Config) -> bool {
    let m = s.user_match_list();
    &&& !s.search_active && key == Key::Enter ==> can_fetch(s, config)
    &&& !s.search_active && key == Key::Char('n') && s.search_query@.len() > 0 && m.len() > 0
        ==> s.search_match_idx < usize::MAX
    &&& !s.search_active && key == Key::Char('N') && s.search_query@.len() > 0 && m.len() > 0
        ==> s.search_match_idx + m.len() <= usize::MAX
}

/// The assignee filter chosen by Enter on the assignee list: none on the
/// "ALL" row, the user's id on a user's row, unchanged past the last row.
pub open spec fn chosen_assignee(s: AppState) -> Option<i64> {
    let users = users_of(s.current());
    if s.filter_cursor_idx == 0 {
        None
    } else if s.current().users is Some && s.filter_cursor_idx - 1 < users.len() {
        Some(users[s.filter_cursor_idx - 1].id)
    } else {
        s.filter_assignee_id
    }
}

/// The state and effect after a key on the assignee filter.
pub open spec fn filter_key_result(key: Key, s: AppState, config: Config, t: AppState, eff: Effect) -> bool {
    let cur = s.current();
    let total = users_of(cur).len() + 1;
    let c = s.filter_cursor_idx;
    let m = s.user_match_list();
    if s.search_active {
        &&& match key {
            Key::Esc => t.search_query@.len() == 0 && t == cleared(
                AppState { screen: Screen::IssueList, ..s },
                t.search_query,
            ),
            _ => search_typing_result(
                key,
                s,
                t,
                AppState {
                    search_query: t.search_query,
                    search_match_idx: 0,
                    filter_cursor_idx: first_or(t.user_match_list(), c),
                    ..s
                },
                s,
            ),
        }
        &&& eff is Nothing
    } else {
        match key {
            Key::Esc => t == (AppState { screen: Screen::IssueList, ..s }) && eff is Nothing,
            Key::Char('j') | Key::Down => eff is Nothing && if s.search_query@.len() > 0 {
                let p = first_above(m, c);
                if p < m.len() {
                    t == (AppState { filter_cursor_idx: m[p], search_match_idx: p as usize, ..s })
                } else {
                    t == s
                }
            } else if c + 1 < total {
                t == (AppState { filter_cursor_idx: (c + 1) as usize, ..s })
            } else {
                t == s
            },
            Key::Char('k') | Key::Up => eff is Nothing && if s.search_query@.len() > 0 {
                let p = last_below(m, c);
                if p >= 0 {
                    t == (AppState { filter_cursor_idx: m[p], search_match_idx: p as usize, ..s })
                } else {
                    t == s
                }
            } else if c > 0 {
                t == (AppState { filter_cursor_idx: (c - 1) as usize, ..s })
            } else {
                t == s
            },
            Key::Enter => {
                let chosen = AppState { filter_assignee_id: chosen_assignee(s), screen: Screen::IssueList, ..s };
                &&& t.search_query@.len() == 0
                &&& current_set_to(
                    cleared(chosen, t.search_query),
                    t,
                    SpaceState { issues: None, loading_issues: true, ..cur },
                )
                &&& fetches_issues(
                    eff,
                    s,
                    config,
                    selected_project_id(s),
                    chosen_assignee(s),
                    cur.filter_status_ids@,
                )
            },
            Key::Char('/') => {
                &&& t.search_query@.len() == 0
                &&& t == (AppState {
                    search_active: true,
                    search_query: t.search_query,
                    search_match_idx: 0,
                    ..s
                })
                &&& eff is Nothing
            },
            Key::Char('n') => eff is Nothing && if s.search_query@.len() > 0 && m.len() > 0 {
                let r = next_rank(s.search_match_idx, m.len());
                t == (AppState { search_match_idx: r, filter_cursor_idx: m[r as int], ..s })
            } else {
                t == s
            },
            Key::Char('N') => eff is Nothing && if s.search_query@.len() > 0 && m.len() > 0 {
                let r = prev_rank(s.search_match_idx, m.len());
                t == (AppState { search_match_idx: r, filter_cursor_idx: m[r as int], ..s })
            } else {
                t == s
            },
            _ => t == s && eff is Nothing,
        }
    }
}

/// Handles a key on the assignee filter popup, whose rows are "ALL" and then
/// the users of the current space.
///
/// While a search is being typed, keys edit the query as on the issue list,
/// moving the row cursor to the first matching row; Esc also closes the
/// popup.  Otherwise: Esc closes the popup; `j`/Down and `k`/Up move among
/// the rows (among the matching rows when a query is set); Enter applies
/// the row under the cursor as assignee filter, clears the search, returns
/// to the issue list and fetches the issues anew; `/`, `n` and `N` search as
/// on the issue list.
pub fn handle_filter_key(key: Key, state: &mut AppState, config: &Config) -> (eff: Effect)
    requires
        old(state).wf(),
        filter_key_ready(key, *old(state), *config),
    ensures
        final(state).wf(),
        filter_key_result(key, *old(state), *config, *final(state), eff),
{
    let ghost s = *state;
    proof {
        lemma_wf_current(s);
    }
    let user_count = match &state.current_space_state().users {
        Some(u) => u.len(),
        None => 0,
    };
    if state.search_active {
        match key {
            Key::Char(c) => {
                push_char(&mut state.search_query, c);
                state.search_match_idx = 0;
                let matches = state.matching_user_indices();
                if matches.len() > 0 {
                    state.filter_cursor_idx = matches[0];
                }
            },
            Key::Backspace => {
                pop_char(&mut state.search_query);
                if !state.search_query.as_str().is_empty() {
                    state.search_match_idx = 0;
                    let matches = state.matching_user_indices();
                    if matches.len() > 0 {
                        state.filter_cursor_idx = matches[0];
                    }
                }
            },
            Key::Enter => {
                state.search_active = false;
            },
            Key::Esc => {
                state.clear_search();
                state.screen = Screen::IssueList;
            },
            _ => {},
        }
        return Effect::Nothing;
    }
    match key {
        Key::Esc => {
            state.screen = Screen::IssueList;
            Effect::Nothing
        },
        Key::Char('j') | Key::Down => {
            if !state.search_query.as_str().is_empty() {
                let matches = state.matching_user_indices();
                match position_above(&matches, state.filter_cursor_idx) {
                    Some(pos) => {
                        state.filter_cursor_idx = matches[pos];
                        state.search_match_idx = pos;
                    },
                    None => {},
                }
            } else if state.filter_cursor_idx < user_count {
                state.filter_cursor_idx = state.filter_cursor_idx + 1;
            }
            Effect::Nothing
        },
        Key::Char('k') | Key::Up => {
            if !state.search_query.as_str().is_empty() {
                let matches = state.matching_user_indices();
                match position_below(&matches, state.filter_cursor_idx) {
                    Some(pos) => {
                        state.filter_cursor_idx = matches[pos];
                        state.search_match_idx = pos;
                    },
                    None => {},
                }
            } else if state.filter_cursor_idx > 0 {
                state.filter_cursor_idx = state.filter_cursor_idx - 1;
            }
            Effect::Nothing
        },
        Key::Enter => {
            if state.filter_cursor_idx == 0 {
                state.filter_assignee_id = None;
            } else {
                let chosen = match &state.current_space_state().users {
                    Some(users) => if state.filter_cursor_idx - 1 < users.len() {
                        Some(users[state.filter_cursor_idx - 1].id)
                    } else {
                        None
                    },
                    None => None,
                };
                if let Some(id) = chosen {
                    state.filter_assignee_id = Some(id);
                }
            }
            state.clear_search();
            state.screen = Screen::IssueList;
            let project_id = project_id_of(state);
            let assignee_id = state.filter_assignee_id;
            let status_ids = copy_ids(&state.current_space_state().filter_status_ids);
            mark_issues_loading(state);
            fetch_issues(state, config, project_id, assignee_id, status_ids)
        },
        Key::Char('/') => {
            state.search_active = true;
            state.search_query = String::new();
            state.search_match_idx = 0;
            Effect::Nothing
        },
        Key::Char('n') => {
            if !state.search_query.as_str().is_empty() {
                let matches = state.matching_user_indices();
                if matches.len() > 0 {
                    state.search_match_idx = (state.search_match_idx + 1) % matches.len();
                    state.filter_cursor_idx = matches[state.search_match_idx];
                }
            }
            Effect::Nothing
        },
        Key::Char('N') => {
            if !state.search_query.as_str().is_empty() {
                let matches = state.matching_user_indices();
                if matches.len() > 0 {
                    state.search_match_idx = (state.search_match_idx + matches.len() - 1)
                        % matches.len();
                    state.filter_cursor_idx = matches[state.search_match_idx];
                }
            }
            Effect::Nothing
        },
        _ => Effect::Nothing,
    }
}

/// The key can be handled on the status filter: a request it starts can be
/// addressed, and stepping through matches stays within machine integers.
pub open spec fn status_key_ready(key: Key, s: AppState, config: Config) -> bool {
    let m = s.status_match_list();
    &&& !s.search_active && key == Key::Enter ==> can_fetch(s, config)
    &&& !s.search_active && key == Key::Char('n') && s.search_query@.len() > 0 && m.len() > 0
        ==> s.search_match_idx < usize::MAX
    &&& !s.search_active && key == Key::Char('N') && s.search_query@.len() > 0 && m.len() > 0
        ==> s.search_match_idx + m.len() <= usize::MAX
}

/// The state and effect after a key on the status filter.
pub open spec fn status_key_result(key: Key, s: AppState, config: Config, t: AppState, eff: Effect) -> bool {
    let cur = s.current();
    let statuses = statuses_of(cur);
    let count = statuses.len();
    let c = s.status_filter_cursor_idx;
    let m = s.status_match_list();
    if s.search_active {
        &&& match key {
            Key::Esc => t.search_query@.len() == 0 && t.status_filter_pending@.len() == 0 && t == cleared(
                AppState {
                    status_filter_pending: t.status_filter_pending,
                    screen: Screen::IssueList,
                    ..s
                },
                t.search_query,
            ),
            _ => search_typing_result(
                key,
                s,
                t,
                AppState {
                    search_query: t.search_query,
                    search_match_idx: 0,
                    status_filter_cursor_idx: first_or(t.status_match_list(), c),
                    ..s
                },
                s,
            ),
        }
        &&& eff is Nothing
    } else {
        match key {
            Key::Esc => t.status_filter_pending@.len() == 0 && t == (AppState {
                status_filter_pending: t.status_filter_pending,
                screen: Screen::IssueList,
                ..s
            }) && eff is Nothing,
            Key::Char('j') | Key::Down => eff is Nothing && if s.search_query@.len() > 0 {
                let p = first_above(m, c);
                if p < m.len() {
                    t == (AppState { status_filter_cursor_idx: m[p], search_match_idx: p as usize, ..s })
                } else {
                    t == s
                }
            } else if count > 0 && c + 1 < count {
                t == (AppState { status_filter_cursor_idx: (c + 1) as usize, ..s })
            } else {
                t == s
            },
            Key::Char('k') | Key::Up => eff is Nothing && if s.search_query@.len() > 0 {
                let p = last_below(m, c);
                if p >= 0 {
                    t == (AppState { status_filter_cursor_idx: m[p], search_match_idx: p as usize, ..s })
                } else {
                    t == s
                }
            } else if c > 0 {
                t == (AppState { status_filter_cursor_idx: (c - 1) as usize, ..s })
            } else {
                t == s
            },
            Key::Char(' ') => eff is Nothing && if c < count {
                &&& t.status_filter_pending@ == toggled(s.status_filter_pending@, statuses[c as int].id)
                &&& t == (AppState { status_filter_pending: t.status_filter_pending, ..s })
            } else {
                t == s
            },
            Key::Enter => {
                let st = t.spaces@[s.current_pos()].state;
                &&& t.search_query@.len() == 0
                &&& t.status_filter_pending@.len() == 0
                &&& st.filter_status_ids@ == s.status_filter_pending@
                &&& current_set_to(
                    cleared(
                        AppState {
                            status_filter_pending: t.status_filter_pending,
                            screen: Screen::IssueList,
                            ..s
                        },
                        t.search_query,
                    ),
                    t,
                    SpaceState {
                        filter_status_ids: st.filter_status_ids,
                        issues: None,
                        loading_issues: true,
                        ..cur
                    },
                )
                &&& fetches_issues(
                    eff,
                    s,
                    config,
                    selected_project_id(s),
                    s.filter_assignee_id,
                    s.status_filter_pending@,
                )
            },
            Key::Char('/') => {
                &&& t.search_query@.len() == 0
                &&& t == (AppState {
                    search_active: true,
                    search_query: t.search_query,
                    search_match_idx: 0,
                    ..s
                })
                &&& eff is Nothing
            },
            Key::Char('n') => eff is Nothing && if s.search_query@.len() > 0 && m.len() > 0 {
                let r = next_rank(s.search_match_idx, m.len());
                t == (AppState { search_match_idx: r, status_filter_cursor_idx: m[r as int], ..s })
            } else {
                t == s
            },
            Key::Char('N') => eff is Nothing && if s.search_query@.len() > 0 && m.len() > 0 {
                let r = prev_rank(s.search_match_idx, m.len());
                t == (AppState { search_match_idx: r, status_filter_cursor_idx: m[r as int], ..s })
            } else {
                t == s
            },
            _ => t == s && eff is Nothing,
        }
    }
}

/// Applies a status filter to the current space and marks its issues as
/// being fetched.
fn apply_status_filter(state: &mut AppState, ids: Vec<i64>)
    requires
        old(state).wf(),
    ensures
        final(state).wf(),
        current_set_to(
            *old(state),
            *final(state),
            SpaceState { filter_status_ids: ids, issues: None, loading_issues: true, ..old(state).current() },
        ),
{
    let ghost before = *state;
    proof {
        lemma_wf_current(before);
    }
    let ss = state.current_space_state_mut();
    ss.filter_status_ids = ids;
    ss.issues = None;
    ss.loading_issues = true;
    proof {
        lemma_current_set_to(before, *state, state.spaces@[before.current_pos()].state);
    }
}

/// Handles a key on the status filter popup, whose rows are the statuses of
/// the current space.
///
/// While a search is being typed, keys edit the query as on the issue list,
/// moving the row cursor to the first matching status; Esc also drops the
/// pending selection and closes the popup.  Otherwise: Esc drops the pending
/// selection and closes the popup; `j`/Down and `k`/Up move among the
/// statuses (among the matching ones when a query is set); Space toggles
/// the status under the cursor in the pending selection; Enter makes the
/// pending selection the space's status filter, clears the search, returns
/// to the issue list and fetches the issues anew; `/`, `n` and `N` search as
/// on the issue list.
#[verifier::rlimit(40)]
pub fn handle_status_filter_key(key: Key, state: &mut AppState, config: &Config) -> (eff: Effect)
    requires
        old(state).wf(),
        status_key_ready(key, *old(state), *config),
    ensures
        final(state).wf(),
        status_key_result(key, *old(state), *config, *final(state), eff),
{
    let ghost s = *state;
    proof {
        lemma_wf_current(s);
    }
    let status_count = match &state.current_space_state().statuses {
        Some(v) => v.len(),
        None => 0,
    };
    if state.search_active {
        match key {
            Key::Char(c) => {
                push_char(&mut state.search_query, c);
                state.search_match_idx = 0;
                let matches = state.matching_status_indices();
                if matches.len() > 0 {
                    state.status_filter_cursor_idx = matches[0];
                }
            },
            Key::Backspace => {
                pop_char(&mut state.search_query);
                if !state.search_query.as_str().is_empty() {
                    state.search_match_idx = 0;
                    let matches = state.matching_status_indices();
                    if matches.len() > 0 {
                        state.status_filter_cursor_idx = matches[0];
                    }
                }
            },
            Key::Enter => {
                state.search_active = false;
            },
            Key::Esc => {
                state.status_filter_pending = Vec::new();
                state.clear_search();
                state.screen = Screen::IssueList;
            },
            _ => {},
        }
        return Effect::Nothing;
    }
    match key {
        Key::Esc => {
            state.status_filter_pending = Vec::new();
            state.screen = Screen::IssueList;
            Effect::Nothing
        },
        Key::Char('j') | Key::Down => {
            if !state.search_query.as_str().is_empty() {
                let matches = state.matching_status_indices();
                match position_above(&matches, state.status_filter_cursor_idx) {
                    Some(pos) => {
                        state.status_filter_cursor_idx = matches[pos];
                        state.search_match_idx = pos;
                    },
                    None => {},
                }
            } else if status_count > 0 && state.status_filter_cursor_idx < status_count - 1 {
                state.status_filter_cursor_idx = state.status_filter_cursor_idx + 1;
            }
            Effect::Nothing
        },
        Key::Char('k') | Key::Up => {
            if !state.search_query.as_str().is_empty() {
                let matches = state.matching_status_indices();
                match position_below(&matches, state.status_filter_cursor_idx) {
                    Some(pos) => {
                        state.status_filter_cursor_idx = matches[pos];
                        state.search_match_idx = pos;
                    },
                    None => {},
                }
            } else if state.status_filter_cursor_idx > 0 {
                state.status_filter_cursor_idx = state.status_filter_cursor_idx - 1;
            }
            Effect::Nothing
        },
        Key::Char(' ') => {
            if status_count > 0 {
                let id = match &state.current_space_state().statuses {
                    Some(v) => if state.status_filter_cursor_idx < v.len() {
                        Some(v[state.status_filter_cursor_idx].id)
                    } else {
                        None
                    },
                    None => None,
                };
                if let Some(id) = id {
                    toggle_status(&mut state.status_filter_pending, id);
                }
            }
            Effect::Nothing
        },
        Key::Enter => {
            let pending = copy_ids(&state.status_filter_pending);
            let project_id = project_id_of(state);
            let assignee_id = state.filter_assignee_id;
            let status_ids = copy_ids(&state.status_filter_pending);
            state.status_filter_pending = Vec::new();
            state.clear_search();
            state.screen = Screen::IssueList;
            apply_status_filter(state, pending);
            fetch_issues(state, config, project_id, assignee_id, status_ids)
        },
        Key::Char('/') => {
            state.search_active = true;
            state.search_query = String::new();
            state.search_match_idx = 0;
            Effect::Nothing
        },
        Key::Char('n') => {
            if !state.search_query.as_str().is_empty() {
                let matches = state.matching_status_indices();
                if matches.len() > 0 {
                    state.search_match_idx = (state.search_match_idx + 1) % matches.len();
                    state.status_filter_cursor_idx = matches[state.search_match_idx];
                }
            }
            Effect::Nothing
        },
        Key::Char('N') => {
            if !state.search_query.as_str().is_empty() {
                let matches = state.matching_status_indices();
                if matches.len() > 0 {
                    state.search_match_idx = (state.search_match_idx + matches.len() - 1)
                        % matches.len();
                    state.status_filter_cursor_idx = matches[state.search_match_idx];
                }
            }
            Effect::Nothing
        },
        _ => Effect::Nothing,
    }
}

/// The key can be handled on the screen on display.
pub open spec fn key_ready(key: Key, s: AppState, config: Config) -> bool {
    match s.screen {
        Screen::SpaceSelect => true,
        Screen::ProjectSelect => picks_project(key, s) ==> can_fetch(s, config),
        Screen::IssueList => list_key_ready(key, s, config),
        Screen::IssueDetail => (key == Key::Char('j') || key == Key::Down) ==> s.detail_scroll_offset
            < u16::MAX,
        Screen::Filter => filter_key_ready(key, s, config),
        Screen::StatusFilter => status_key_ready(key, s, config),
    }
}

/// Handles a key with the handler of the screen on display.
pub fn handle_key(key: Key, state: &mut AppState, config: &Config) -> (eff: Effect)
    requires
        old(state).wf(),
        key_ready(key, *old(state), *config),
    ensures
        !(old(state).screen == Screen::SpaceSelect && key == Key::Enter
            && old(state).space_cursor_idx >= old(state).config.spaces@.len()) ==> final(state).wf(),
        match old(state).screen {
            Screen::SpaceSelect => eff is Nothing && (if key == Key::Enter && config.spaces@.len() > 0 {
                space_switched(*old(state), *final(state), old(state).space_cursor_idx)
            } else {
                *final(state) == space_select_result(key, *old(state), *config)
            }),
            Screen::ProjectSelect => if picks_project(key, *old(state)) {
                let st = final(state).spaces@[old(state).current_pos()].state;
                let project = projects_of(old(state).current())[old(state).project_cursor_idx as int];
                &&& st.filter_status_ids@.len() == 0
                &&& current_set_to(
                    AppState { screen: Screen::IssueList, ..*old(state) },
                    *final(state),
                    SpaceState {
                        selected_project: Some(project),
                        statuses: None,
                        filter_status_ids: st.filter_status_ids,
                        issues: None,
                        loading_statuses: true,
                        ..old(state).current()
                    },
                )
                &&& fetches_statuses(eff, *old(state), *config, project.id)
            } else {
                *final(state) == project_select_result(key, *old(state)) && eff is Nothing
            },
            Screen::IssueList => list_key_result(key, *old(state), *config, *final(state), eff),
            Screen::IssueDetail => {
                &&& *final(state) == detail_key_result(key, *old(state))
                &&& key == Key::Char('o') && old(state).detail_issue is Some ==> (eff matches Effect::OpenUrl(u)
                    && u@ == issue_page(
                    old(state).config.spaces@[old(state).current_space_idx as int].host@,
                    old(state).detail_issue->0.issue_key@,
                ))
                &&& !(key == Key::Char('o') && old(state).detail_issue is Some) ==> eff is Nothing
            },
            Screen::Filter => filter_key_result(key, *old(state), *config, *final(state), eff),
            Screen::StatusFilter => status_key_result(key, *old(state), *config, *final(state), eff),
        },
{
    match state.screen {
        Screen::SpaceSelect => {
            handle_space_select_key(key, state, config);
            Effect::Nothing
        },
        Screen::ProjectSelect => handle_project_select_key(key, state, config),
        Screen::IssueList => handle_list_key(key, state, config),
        Screen::IssueDetail => {
            let ghost s = *state;
            let eff = handle_detail_key(key, state);
            assert(final(state).wf()) by {
                assert(*state == detail_key_result(key, s));
            }
            eff
        },
        Screen::Filter => handle_filter_key(key, state, config),
        Screen::StatusFilter => handle_status_filter_key(key, state, config),
    }
}

/// After an event, a fetch is due: issues on the issue list when the
/// current space needs them, projects on the project selection when the
/// current space needs them.
pub open spec fn issue_fetch_due(s: AppState) -> bool {
    &&& s.screen == Screen::IssueList
    &&& s.current().statuses is Some
    &&& s.current().issues is None
    &&& !s.current().loading_issues
    &&& !s.current().loading_statuses
}

/// See `issue_fetch_due`.
pub open spec fn projects_fetch_due(s: AppState) -> bool {
    s.screen == Screen::ProjectSelect && s.current().projects is None && !s.current().loading_projects
}

/// Starts the fetch an event made due: the issues of the current space with
/// its filters when `issue_fetch_due` (marking them as being fetched), or
/// its projects when `projects_fetch_due` (marking them so).
pub fn auto_fetch(state: &mut AppState, config: &Config) -> (eff: Effect)
    requires
        old(state).wf(),
        issue_fetch_due(*old(state)) || projects_fetch_due(*old(state)) ==> can_fetch(*old(state), *config),
    ensures
        final(state).wf(),
        issue_fetch_due(*old(state)) ==> {
            &&& current_set_to(
                *old(state),
                *final(state),
                SpaceState { loading_issues: true, ..old(state).current() },
            )
            &&& fetches_issues(
                eff,
                *old(state),
                *config,
                selected_project_id(*old(state)),
                old(state).filter_assignee_id,
                old(state).current().filter_status_ids@,
            )
        },
        projects_fetch_due(*old(state)) ==> {
            &&& current_set_to(
                *old(state),
                *final(state),
                SpaceState { loading_projects: true, ..old(state).current() },
            )
            &&& fetches_projects(eff, *old(state), *config)
        },
        !issue_fetch_due(*old(state)) && !projects_fetch_due(*old(state)) ==> *final(state) == *old(state)
            && eff is Nothing,
        issue_fetch_due(*old(state)) && !old(state).demo_mode ==> (eff matches Effect::FetchIssues {
            project_id,
            assignee_id,
            status_ids,
            ..
        } && requests_project(*old(state), project_id) && assignee_id == old(state).filter_assignee_id
            && status_ids@ == old(state).current().filter_status_ids@),
{
    let ghost before = *state;
    proof {
        lemma_wf_current(before);
    }
    if state.screen == Screen::IssueList && state.needs_issue_fetch() {
        let project_id = project_id_of(state);
        let assignee_id = state.filter_assignee_id;
        let status_ids = copy_ids(&state.current_space_state().filter_status_ids);
        let eff = fetch_issues(state, config, project_id, assignee_id, status_ids);
        let ss = state.current_space_state_mut();
        ss.loading_issues = true;
        proof {
            lemma_current_set_to(before, *state, state.spaces@[before.current_pos()].state);
        }
        return eff;
    }
    if state.screen == Screen::ProjectSelect && state.needs_projects_fetch() {
        let eff = fetch_projects(state, config);
        let ss = state.current_space_state_mut();
        ss.loading_projects = true;
        proof {
            lemma_current_set_to(before, *state, state.spaces@[before.current_pos()].state);
        }
        return eff;
    }
    Effect::Nothing
}

/// One of the first `i` configured spaces has entry `j` as first entry.
pub open spec fn marked(s: AppState, i: int, j: int) -> bool {
    exists|k: int| 0 <= k < i && entry_pos(s.spaces@, #[trigger] s.config.spaces@[k].name@) == j
}

/// Entry `e` is entry `j` of `s` with its projects marked as loading when one
/// of the first `i` configured spaces has it as first entry.
pub open spec fn started_entry(s: AppState, e: SpaceEntry, i: int, j: int) -> bool {
    &&& e.name == s.spaces@[j].name
    &&& e.state == (SpaceState {
        loading_projects: s.spaces@[j].state.loading_projects || marked(s, i, j),
        ..s.spaces@[j].state
    })
}

proof fn lemma_marked_step(s: AppState, i: int, j: int)
    requires
        0 <= i < s.config.spaces@.len(),
    ensures
        marked(s, i + 1, j) <==> (marked(s, i, j) || entry_pos(s.spaces@, s.config.spaces@[i].name@) == j),
{
    if marked(s, i + 1, j) {
        let k = choose|k: int| 0 <= k < i + 1 && entry_pos(s.spaces@, #[trigger] s.config.spaces@[k].name@) == j;
        if k < i {
            assert(marked(s, i, j));
        }
    }
    if marked(s, i, j) {
        let k = choose|k: int| 0 <= k < i && entry_pos(s.spaces@, #[trigger] s.config.spaces@[k].name@) == j;
        assert(0 <= k < i + 1 && entry_pos(s.spaces@, s.config.spaces@[k].name@) == j);
    }
    if entry_pos(s.spaces@, s.config.spaces@[i].name@) == j {
        assert(0 <= i < i + 1 && entry_pos(s.spaces@, s.config.spaces@[i].name@) == j);
    }
}

/// Prepares the start of a session: every configured space is marked as
/// loading its projects, and for each configured space, in order, the
/// effects that load its projects and users are returned: in demo mode the
/// demo projects and demo users are delivered, else its projects and
/// members are fetched.
pub fn start(state: &mut AppState) -> (effs: Vec<Effect>)
    requires
        old(state).wf(),
    ensures
        final(state).wf(),
        final(state).spaces@.len() == old(state).spaces@.len(),
        forall|j: int|
            0 <= j < old(state).spaces@.len() ==> started_entry(
                *old(state),
                #[trigger] final(state).spaces@[j],
                old(state).config.spaces@.len() as int,
                j,
            ),
        *final(state) == (AppState { spaces: final(state).spaces, ..*old(state) }),
        ({
            let cfg = old(state).config.spaces@;
            if old(state).demo_mode {
                &&& effs@.len() == 2 * cfg.len()
                &&& forall|i: int|
                    0 <= i < cfg.len() ==> (#[trigger] effs@[2 * i] matches Effect::Deliver(
                        AppEvent::ProjectsLoaded { space, projects },
                    ) && space@ == cfg[i].name@ && demo_projects(projects@))
                &&& forall|i: int|
                    0 <= i < cfg.len() ==> (#[trigger] effs@[2 * i + 1] matches Effect::Deliver(
                        AppEvent::SpaceUsersLoaded { space, users },
                    ) && space@ == cfg[i].name@ && demo_users(users@))
            } else {
                &&& effs@.len() == cfg.len()
                &&& forall|i: int|
                    0 <= i < cfg.len() ==> (#[trigger] effs@[i] matches Effect::FetchSpaceData {
                        space,
                        host,
                        api_key,
                    } && space@ == cfg[i].name@ && host == cfg[i].host && api_key == cfg[i].api_key)
            }
        }),
{
    let ghost s = *state;
    let mut effs: Vec<Effect> = Vec::new();
    let mut i: usize = 0;
    let n = state.config.spaces.len();
    while i < n
        invariant
            n == s.config.spaces@.len(),
            i <= n,
            state.spaces@.len() == s.spaces@.len(),
            forall|j: int| 0 <= j < s.spaces@.len() ==> started_entry(s, #[trigger] state.spaces@[j], i as int, j),
            *state == (AppState { spaces: state.spaces, ..s }),
            s.wf(),
            s.demo_mode ==> {
                &&& effs@.len() == 2 * i
                &&& forall|k: int|
                    0 <= k < i ==> (#[trigger] effs@[2 * k] matches Effect::Deliver(
                        AppEvent::ProjectsLoaded { space, projects },
                    ) && space@ == s.config.spaces@[k].name@ && demo_projects(projects@))
                &&& forall|k: int|
                    0 <= k < i ==> (#[trigger] effs@[2 * k + 1] matches Effect::Deliver(
                        AppEvent::SpaceUsersLoaded { space, users },
                    ) && space@ == s.config.spaces@[k].name@ && demo_users(users@))
            },
            !s.demo_mode ==> {
                &&& effs@.len() == i
                &&& forall|k: int|
                    0 <= k < i ==> (#[trigger] effs@[k] matches Effect::FetchSpaceData {
                        space,
                        host,
                        api_key,
                    } && space@ == s.config.spaces@[k].name@ && host == s.config.spaces@[k].host
                        && api_key == s.config.spaces@[k].api_key)
            },
        decreases n - i,
    {
        let ghost prev = state.spaces@;
        let ghost name = s.config.spaces@[i as int].name@;
        proof {
            assert(entry_pos(s.spaces@, s.config.spaces@[i as int].name@) < s.spaces@.len());
            lemma_entry_pos(s.spaces@, name);
            lemma_entry_pos(state.spaces@, name);
            let p = entry_pos(s.spaces@, name);
            assert forall|q: int| 0 <= q <= p && q < s.spaces@.len() implies #[trigger] state.spaces@[q].name@ == s.spaces@[q].name@ by {}
            assert(entry_pos(state.spaces@, name) == p) by {
                if entry_pos(state.spaces@, name) < p {
                    let q = entry_pos(state.spaces@, name);
                    assert(state.spaces@[q].name@ == name);
                    assert(s.spaces@[q].name@ == name);
                }
                if entry_pos(state.spaces@, name) > p {
                    assert(state.spaces@[p].name@ == name);
                }
            }
        }
        match find_entry(&state.spaces, &state.config.spaces[i].name) {
            Some(j) => {
                state.spaces[j].state.loading_projects = true;
            },
            None => {},
        }
        if state.demo_mode {
            let space = state.config.spaces[i].name.clone();
            effs.push(Effect::Deliver(AppEvent::ProjectsLoaded { space, projects: mock::projects() }));
            let space = state.config.spaces[i].name.clone();
            effs.push(Effect::Deliver(AppEvent::SpaceUsersLoaded { space, users: mock::users() }));
        } else {
            let space = state.config.spaces[i].name.clone();
            let host = state.config.spaces[i].host.clone();
            let api_key = state.config.spaces[i].api_key.clone();
            effs.push(Effect::FetchSpaceData { space, host, api_key });
        }
        proof {
            let p = entry_pos(s.spaces@, name);
            assert forall|j: int| 0 <= j < s.spaces@.len() implies started_entry(
                s,
                #[trigger] state.spaces@[j],
                i + 1,
                j,
            ) by {
                lemma_marked_step(s, i as int, j);
                assert(started_entry(s, prev[j], i as int, j));
                if j != p {
                    assert(state.spaces@[j] == prev[j]);
                } else {
                    assert(marked(s, i + 1, j));
                    assert(state.spaces@[j].name == prev[j].name);
                    assert(state.spaces@[j].state == (SpaceState { loading_projects: true, ..prev[j].state }));
                }
            }
        }
        i += 1;
    }
    proof {
        assert forall|k: int| 0 <= k < state.config.spaces@.len() implies entry_pos(
            state.spaces@,
            #[trigger] state.config.spaces@[k].name@,
        ) < state.spaces@.len() by {
            let nm = s.config.spaces@[k].name@;
            lemma_entry_pos(s.spaces@, nm);
            lemma_entry_pos(state.spaces@, nm);
            let p = entry_pos(s.spaces@, nm);
            assert(state.spaces@[p].name@ == nm);
        }
    }
    effs
}

} // verus!
