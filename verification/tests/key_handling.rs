use lazybacklog::app::{AppState, Screen};
use lazybacklog::config::{Config, SpaceConfig};
use lazybacklog::event::{AppEvent, Key};
use lazybacklog::handler::{
    auto_fetch, handle_filter_key, handle_key, handle_list_key, handle_project_select_key,
    handle_space_select_key, handle_status_filter_key, start, Effect,
};
use lazybacklog::mock;
use lazybacklog::models::{Issue, IssueStatus, Project, User};

fn make_config(names: &[&str]) -> Config {
    Config {
        default_space: names[0].to_string(),
        spaces: names
            .iter()
            .map(|n| SpaceConfig {
                name: n.to_string(),
                host: format!("{}.backlog.com", n),
                api_key: format!("key-{}", n),
            })
            .collect(),
    }
}

fn make_issue(key: &str) -> Issue {
    Issue {
        id: 1,
        issue_key: key.to_string(),
        summary: format!("Summary of {}", key),
        description: None,
        assignee: None,
        status: IssueStatus { id: 1, name: "Open".to_string() },
        priority: None,
        issue_type: None,
        due_date: None,
    }
}

fn state_with_issues(keys: &[&str]) -> (AppState, Config) {
    let config = make_config(&["space1"]);
    let mut state = AppState::new(config.clone(), false);
    state.handle_event(AppEvent::IssuesLoaded {
        space: "space1".to_string(),
        issues: keys.iter().map(|k| make_issue(k)).collect(),
    });
    state.screen = Screen::IssueList;
    (state, config)
}

#[test]
fn list_search_typing_moves_to_first_match() {
    let (mut state, config) = state_with_issues(&["ABC-1", "PROJ-1", "PROJ-2"]);
    handle_list_key(Key::Char('/'), &mut state, &config);
    assert!(state.search_active);
    for c in "proj".chars() {
        handle_list_key(Key::Char(c), &mut state, &config);
    }
    assert_eq!(state.search_query, "proj");
    assert_eq!(state.selected_issue_idx, 1);
    handle_list_key(Key::Enter, &mut state, &config);
    assert!(!state.search_active);
    assert_eq!(state.search_query, "proj");
}

#[test]
fn list_backspace_to_empty_keeps_cursor() {
    let (mut state, config) = state_with_issues(&["ABC-1", "PROJ-1"]);
    handle_list_key(Key::Char('/'), &mut state, &config);
    handle_list_key(Key::Char('p'), &mut state, &config);
    assert_eq!(state.selected_issue_idx, 1);
    handle_list_key(Key::Backspace, &mut state, &config);
    assert!(state.search_query.is_empty());
    assert_eq!(state.selected_issue_idx, 1);
}

#[test]
fn list_esc_in_search_clears_query() {
    let (mut state, config) = state_with_issues(&["PROJ-1"]);
    handle_list_key(Key::Char('/'), &mut state, &config);
    handle_list_key(Key::Char('x'), &mut state, &config);
    handle_list_key(Key::Esc, &mut state, &config);
    assert!(!state.search_active);
    assert!(state.search_query.is_empty());
    assert_eq!(state.search_match_idx, 0);
}

#[test]
fn list_n_and_shift_n_wrap_around() {
    let (mut state, config) = state_with_issues(&["PROJ-1", "ABC-1", "PROJ-2", "PROJ-3"]);
    state.search_query = "proj".to_string();
    handle_list_key(Key::Char('n'), &mut state, &config);
    assert_eq!((state.search_match_idx, state.selected_issue_idx), (1, 2));
    handle_list_key(Key::Char('n'), &mut state, &config);
    assert_eq!((state.search_match_idx, state.selected_issue_idx), (2, 3));
    handle_list_key(Key::Char('n'), &mut state, &config);
    assert_eq!((state.search_match_idx, state.selected_issue_idx), (0, 0));
    handle_list_key(Key::Char('N'), &mut state, &config);
    assert_eq!((state.search_match_idx, state.selected_issue_idx), (2, 3));
    handle_list_key(Key::Char('N'), &mut state, &config);
    assert_eq!((state.search_match_idx, state.selected_issue_idx), (1, 2));
}

#[test]
fn list_n_without_matches_is_noop() {
    let (mut state, config) = state_with_issues(&["PROJ-1"]);
    state.search_query = "zzz".to_string();
    state.selected_issue_idx = 0;
    handle_list_key(Key::Char('n'), &mut state, &config);
    assert_eq!(state.selected_issue_idx, 0);
    assert_eq!(state.search_match_idx, 0);
}

#[test]
fn list_refresh_clears_search_and_fetches() {
    let (mut state, config) = state_with_issues(&["PROJ-1"]);
    state.search_query = "proj".to_string();
    state.filter_assignee_id = Some(42);
    state.current_space_state_mut().filter_status_ids = vec![1, 2];
    let eff = handle_list_key(Key::Char('r'), &mut state, &config);
    assert!(state.search_query.is_empty());
    assert!(state.current_space_state().issues.is_none());
    assert!(state.current_space_state().loading_issues);
    match eff {
        Effect::FetchIssues { space, host, api_key, project_id, assignee_id, status_ids } => {
            assert_eq!(space, "space1");
            assert_eq!(host, "space1.backlog.com");
            assert_eq!(api_key, "key-space1");
            assert_eq!(project_id, None);
            assert_eq!(assignee_id, Some(42));
            assert_eq!(status_ids, vec![1, 2]);
        }
        _ => panic!("expected an issue fetch"),
    }
}

#[test]
fn list_enter_fetches_detail() {
    let (mut state, config) = state_with_issues(&["PROJ-1", "PROJ-2"]);
    state.selected_issue_idx = 1;
    state.detail_comments = Some(vec![]);
    let eff = handle_list_key(Key::Enter, &mut state, &config);
    assert!(state.detail_comments.is_none());
    match eff {
        Effect::FetchIssueDetail { space, host, issue_key, .. } => {
            assert_eq!(space, "space1");
            assert_eq!(host, "space1.backlog.com");
            assert_eq!(issue_key, "PROJ-2");
        }
        _ => panic!("expected a detail fetch"),
    }
}

#[test]
fn list_enter_in_demo_delivers_issue() {
    let config = mock::demo_config();
    let mut state = AppState::new(config.clone(), true);
    state.handle_event(AppEvent::IssuesLoaded { space: "demo".to_string(), issues: mock::issues() });
    state.selected_issue_idx = 2;
    let eff = handle_list_key(Key::Enter, &mut state, &config);
    assert_eq!(state.detail_comments.as_ref().map(|c| c.len()), Some(0));
    match eff {
        Effect::Deliver(AppEvent::IssueDetailLoaded(issue)) => assert_eq!(issue.issue_key, "DEMO-3"),
        _ => panic!("expected a delivered issue"),
    }
}

#[test]
fn list_f_opens_filter_on_current_assignee() {
    let (mut state, config) = state_with_issues(&["PROJ-1"]);
    state.handle_event(AppEvent::SpaceUsersLoaded {
        space: "space1".to_string(),
        users: vec![User { id: 1, name: "Alice".to_string() }, User { id: 2, name: "Bob".to_string() }],
    });
    state.filter_assignee_id = Some(2);
    handle_list_key(Key::Char('f'), &mut state, &config);
    assert_eq!(state.screen, Screen::Filter);
    assert_eq!(state.filter_cursor_idx, 2);
    state.screen = Screen::IssueList;
    state.filter_assignee_id = Some(99);
    handle_list_key(Key::Char('f'), &mut state, &config);
    assert_eq!(state.filter_cursor_idx, 0);
}

#[test]
fn list_s_and_esc() {
    let (mut state, config) = state_with_issues(&["PROJ-1"]);
    state.current_space_state_mut().filter_status_ids = vec![3, 4];
    handle_list_key(Key::Char('s'), &mut state, &config);
    assert_eq!(state.screen, Screen::StatusFilter);
    assert_eq!(state.status_filter_pending, vec![3, 4]);
    state.screen = Screen::IssueList;
    state.selected_issue_idx = 0;
    handle_list_key(Key::Esc, &mut state, &config);
    assert_eq!(state.screen, Screen::ProjectSelect);
}

#[test]
fn list_q_quits() {
    let (mut state, config) = state_with_issues(&[]);
    handle_list_key(Key::Char('q'), &mut state, &config);
    assert!(state.should_quit);
}

#[test]
fn filter_enter_applies_user_and_fetches() {
    let (mut state, config) = state_with_issues(&["PROJ-1"]);
    state.handle_event(AppEvent::SpaceUsersLoaded {
        space: "space1".to_string(),
        users: vec![User { id: 10, name: "Alice".to_string() }, User { id: 20, name: "Bob".to_string() }],
    });
    state.screen = Screen::Filter;
    handle_filter_key(Key::Char('j'), &mut state, &config);
    handle_filter_key(Key::Char('j'), &mut state, &config);
    handle_filter_key(Key::Char('j'), &mut state, &config);
    assert_eq!(state.filter_cursor_idx, 2);
    let eff = handle_filter_key(Key::Enter, &mut state, &config);
    assert_eq!(state.filter_assignee_id, Some(20));
    assert_eq!(state.screen, Screen::IssueList);
    assert!(state.current_space_state().loading_issues);
    assert!(matches!(eff, Effect::FetchIssues { assignee_id: Some(20), .. }));
}

#[test]
fn filter_search_all_row() {
    let (mut state, config) = state_with_issues(&[]);
    state.handle_event(AppEvent::SpaceUsersLoaded {
        space: "space1".to_string(),
        users: vec![User { id: 10, name: "Alice".to_string() }, User { id: 20, name: "Bob".to_string() }],
    });
    state.screen = Screen::Filter;
    state.filter_cursor_idx = 2;
    handle_filter_key(Key::Char('/'), &mut state, &config);
    handle_filter_key(Key::Char('a'), &mut state, &config);
    assert_eq!(state.matching_user_indices(), vec![0, 1]);
    assert_eq!(state.filter_cursor_idx, 0);
    handle_filter_key(Key::Esc, &mut state, &config);
    assert_eq!(state.screen, Screen::IssueList);
    assert!(state.search_query.is_empty());
}

#[test]
fn filter_enter_on_all_row_clears_assignee() {
    let (mut state, config) = state_with_issues(&[]);
    state.filter_assignee_id = Some(5);
    state.screen = Screen::Filter;
    state.filter_cursor_idx = 0;
    handle_filter_key(Key::Enter, &mut state, &config);
    assert_eq!(state.filter_assignee_id, None);
}

fn statuses() -> Vec<IssueStatus> {
    vec![
        IssueStatus { id: 1, name: "Open".to_string() },
        IssueStatus { id: 2, name: "In Progress".to_string() },
        IssueStatus { id: 4, name: "Closed".to_string() },
    ]
}

#[test]
fn status_filter_toggle_and_apply() {
    let (mut state, config) = state_with_issues(&["PROJ-1"]);
    state.handle_event(AppEvent::StatusesLoaded { space: "space1".to_string(), statuses: statuses() });
    assert_eq!(state.current_space_state().filter_status_ids, vec![1, 2]);
    handle_list_key(Key::Char('s'), &mut state, &config);
    handle_status_filter_key(Key::Char(' '), &mut state, &config);
    assert_eq!(state.status_filter_pending, vec![2]);
    handle_status_filter_key(Key::Down, &mut state, &config);
    handle_status_filter_key(Key::Down, &mut state, &config);
    handle_status_filter_key(Key::Down, &mut state, &config);
    assert_eq!(state.status_filter_cursor_idx, 2);
    handle_status_filter_key(Key::Char(' '), &mut state, &config);
    assert_eq!(state.status_filter_pending, vec![2, 4]);
    let eff = handle_status_filter_key(Key::Enter, &mut state, &config);
    assert_eq!(state.current_space_state().filter_status_ids, vec![2, 4]);
    assert!(state.status_filter_pending.is_empty());
    assert_eq!(state.screen, Screen::IssueList);
    match eff {
        Effect::FetchIssues { status_ids, .. } => assert_eq!(status_ids, vec![2, 4]),
        _ => panic!("expected an issue fetch"),
    }
}

#[test]
fn status_filter_esc_discards_pending() {
    let (mut state, config) = state_with_issues(&[]);
    state.screen = Screen::StatusFilter;
    state.status_filter_pending = vec![1];
    handle_status_filter_key(Key::Esc, &mut state, &config);
    assert!(state.status_filter_pending.is_empty());
    assert_eq!(state.screen, Screen::IssueList);
}

#[test]
fn status_filter_search_moves_cursor() {
    let (mut state, config) = state_with_issues(&[]);
    state.handle_event(AppEvent::StatusesLoaded { space: "space1".to_string(), statuses: statuses() });
    state.screen = Screen::StatusFilter;
    handle_status_filter_key(Key::Char('/'), &mut state, &config);
    handle_status_filter_key(Key::Char('c'), &mut state, &config);
    assert_eq!(state.status_filter_cursor_idx, 2);
    handle_status_filter_key(Key::Enter, &mut state, &config);
    handle_status_filter_key(Key::Char('k'), &mut state, &config);
    assert_eq!(state.status_filter_cursor_idx, 2);
}

#[test]
fn space_select_moves_and_selects() {
    let config = make_config(&["space1", "space2"]);
    let mut state = AppState::new(config.clone(), false);
    handle_space_select_key(Key::Char('j'), &mut state, &config);
    handle_space_select_key(Key::Char('j'), &mut state, &config);
    assert_eq!(state.space_cursor_idx, 1);
    handle_space_select_key(Key::Enter, &mut state, &config);
    assert_eq!(state.current_space_idx, 1);
    assert_eq!(state.screen, Screen::ProjectSelect);
    assert_eq!(state.current_space_name(), "space2");
}

#[test]
fn project_select_enter_selects_and_fetches_statuses() {
    let config = make_config(&["space1"]);
    let mut state = AppState::new(config.clone(), false);
    state.handle_event(AppEvent::ProjectsLoaded {
        space: "space1".to_string(),
        projects: vec![
            Project { id: 1, project_key: "A".to_string(), name: "a".to_string() },
            Project { id: 7, project_key: "B".to_string(), name: "b".to_string() },
        ],
    });
    state.screen = Screen::ProjectSelect;
    handle_project_select_key(Key::Down, &mut state, &config);
    handle_project_select_key(Key::Down, &mut state, &config);
    assert_eq!(state.project_cursor_idx, 1);
    let eff = handle_project_select_key(Key::Enter, &mut state, &config);
    assert_eq!(state.screen, Screen::IssueList);
    assert_eq!(state.selected_project().map(|p| p.id), Some(7));
    assert!(state.current_space_state().loading_statuses);
    match eff {
        Effect::FetchStatuses { project_id, host, .. } => {
            assert_eq!(project_id, 7);
            assert_eq!(host, "space1.backlog.com");
        }
        _ => panic!("expected a status fetch"),
    }
}

#[test]
fn project_select_enter_without_projects_is_noop() {
    let config = make_config(&["space1"]);
    let mut state = AppState::new(config.clone(), false);
    state.screen = Screen::ProjectSelect;
    let eff = handle_project_select_key(Key::Enter, &mut state, &config);
    assert!(matches!(eff, Effect::Nothing));
    assert_eq!(state.screen, Screen::ProjectSelect);
}

#[test]
fn demo_project_selection_delivers_statuses() {
    let config = mock::demo_config();
    let mut state = AppState::new(config.clone(), true);
    state.handle_event(AppEvent::ProjectsLoaded { space: "demo".to_string(), projects: mock::projects() });
    state.screen = Screen::ProjectSelect;
    let eff = handle_key(Key::Enter, &mut state, &config);
    match eff {
        Effect::Deliver(AppEvent::StatusesLoaded { space, statuses }) => {
            assert_eq!(space, "demo");
            assert_eq!(statuses.len(), 4);
        }
        _ => panic!("expected delivered statuses"),
    }
}

#[test]
fn auto_fetch_issues_after_statuses() {
    let config = make_config(&["space1"]);
    let mut state = AppState::new(config.clone(), false);
    state.screen = Screen::IssueList;
    state.handle_event(AppEvent::StatusesLoaded { space: "space1".to_string(), statuses: statuses() });
    let eff = auto_fetch(&mut state, &config);
    assert!(state.current_space_state().loading_issues);
    match eff {
        Effect::FetchIssues { status_ids, .. } => assert_eq!(status_ids, vec![1, 2]),
        _ => panic!("expected an issue fetch"),
    }
    let again = auto_fetch(&mut state, &config);
    assert!(matches!(again, Effect::Nothing));
}

#[test]
fn auto_fetch_projects_on_project_select() {
    let config = make_config(&["space1"]);
    let mut state = AppState::new(config.clone(), false);
    state.screen = Screen::ProjectSelect;
    let eff = auto_fetch(&mut state, &config);
    assert!(state.current_space_state().loading_projects);
    assert!(matches!(eff, Effect::FetchProjects { .. }));
}

#[test]
fn start_marks_projects_loading() {
    let config = make_config(&["space1", "space2"]);
    let mut state = AppState::new(config.clone(), false);
    let effs = start(&mut state);
    assert_eq!(effs.len(), 2);
    assert!(state.spaces.iter().all(|e| e.state.loading_projects));
    assert!(!state.needs_projects_fetch());
    match &effs[1] {
        Effect::FetchSpaceData { space, host, api_key } => {
            assert_eq!(space, "space2");
            assert_eq!(host, "space2.backlog.com");
            assert_eq!(api_key, "key-space2");
        }
        _ => panic!("expected a space data fetch"),
    }
}

#[test]
fn start_in_demo_delivers_projects_and_users() {
    let config = mock::demo_config();
    let mut state = AppState::new(config, true);
    let effs = start(&mut state);
    assert_eq!(effs.len(), 2);
    assert!(matches!(&effs[0], Effect::Deliver(AppEvent::ProjectsLoaded { projects, .. }) if projects.len() == 2));
    assert!(matches!(&effs[1], Effect::Deliver(AppEvent::SpaceUsersLoaded { users, .. }) if users.len() == 3));
}

#[test]
fn detail_o_opens_issue_page() {
    let config = make_config(&["space1"]);
    let mut state = AppState::new(config.clone(), false);
    state.screen = Screen::IssueDetail;
    state.detail_issue = Some(make_issue("PROJ-9"));
    let eff = handle_key(Key::Char('o'), &mut state, &config);
    match eff {
        Effect::OpenUrl(u) => assert_eq!(u, "https://space1.backlog.com/view/PROJ-9"),
        _ => panic!("expected a page to open"),
    }
}

#[test]
fn list_esc_in_search_puts_cursor_on_first_issue() {
    let (mut state, config) = state_with_issues(&["A-1", "B-1", "C-1"]);
    handle_list_key(Key::Char('/'), &mut state, &config);
    handle_list_key(Key::Char('c'), &mut state, &config);
    assert_eq!(state.selected_issue_idx, 2);
    handle_list_key(Key::Esc, &mut state, &config);
    assert!(!state.search_active);
    assert!(state.search_query.is_empty());
    assert_eq!(state.search_match_idx, 0);
    assert_eq!(state.selected_issue_idx, 0);
    assert_eq!(state.screen, Screen::IssueList);
}

#[test]
fn list_brackets_switch_space_with_wrap() {
    let config = make_config(&["s1", "s2", "s3"]);
    let mut state = AppState::new(config.clone(), false);
    state.screen = Screen::IssueList;
    state.selected_issue_idx = 4;
    let eff = handle_list_key(Key::Char(']'), &mut state, &config);
    assert!(matches!(eff, Effect::Nothing));
    assert_eq!(state.current_space_name(), "s2");
    assert_eq!(state.screen, Screen::ProjectSelect);
    assert_eq!(state.selected_issue_idx, 0);
    state.screen = Screen::IssueList;
    handle_list_key(Key::Char(']'), &mut state, &config);
    state.screen = Screen::IssueList;
    handle_list_key(Key::Char(']'), &mut state, &config);
    assert_eq!(state.current_space_name(), "s1");
    state.screen = Screen::IssueList;
    handle_list_key(Key::Char('['), &mut state, &config);
    assert_eq!(state.current_space_name(), "s3");
    state.screen = Screen::IssueList;
    handle_list_key(Key::Char('['), &mut state, &config);
    assert_eq!(state.current_space_name(), "s2");
}

#[test]
fn demo_fetch_projects_delivers_projects_then_users() {
    let config = mock::demo_config();
    let state = AppState::new(config.clone(), true);
    let eff = lazybacklog::handler::fetch_projects(&state, &config);
    match eff {
        Effect::DeliverAll(events) => {
            assert_eq!(events.len(), 2);
            match &events[0] {
                AppEvent::ProjectsLoaded { space, projects } => {
                    assert_eq!(space, state.current_space_name());
                    assert_eq!(projects.len(), mock::projects().len());
                }
                _ => panic!("expected projects first"),
            }
            match &events[1] {
                AppEvent::SpaceUsersLoaded { space, users } => {
                    assert_eq!(space, state.current_space_name());
                    assert_eq!(users.len(), mock::users().len());
                }
                _ => panic!("expected users second"),
            }
        }
        _ => panic!("expected the demo events"),
    }
}
