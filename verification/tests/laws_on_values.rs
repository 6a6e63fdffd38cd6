use lazybacklog::app::AppState;
use lazybacklog::config::{Config, SpaceConfig};
use lazybacklog::event::AppEvent;
use lazybacklog::models::{Issue, IssueStatus, Project};
use lazybacklog::status_filter::toggle_status;

fn issue(key: &str) -> Issue {
    Issue {
        id: 1,
        issue_key: key.to_string(),
        summary: String::new(),
        description: None,
        assignee: None,
        status: IssueStatus { id: 1, name: "Open".to_string() },
        priority: None,
        issue_type: None,
        due_date: None,
    }
}

fn state(keys: &[&str]) -> AppState {
    let config = Config {
        default_space: "s".to_string(),
        spaces: vec![SpaceConfig { name: "s".to_string(), host: "h".to_string(), api_key: "k".to_string() }],
    };
    let mut st = AppState::new(config, false);
    st.handle_event(AppEvent::IssuesLoaded {
        space: "s".to_string(),
        issues: keys.iter().map(|k| issue(k)).collect(),
    });
    st
}

#[test]
fn down_then_up_restores_cursor() {
    let mut st = state(&["A-1", "A-2", "A-3"]);
    st.selected_issue_idx = 1;
    st.navigate_down();
    st.navigate_up();
    assert_eq!(st.selected_issue_idx, 1);
}

#[test]
fn search_moves_stay_on_matches() {
    let mut st = state(&["X-1", "A-1", "X-2", "A-2"]);
    st.search_query = "a-".to_string();
    st.selected_issue_idx = 0;
    st.navigate_down();
    assert_eq!((st.selected_issue_idx, st.search_match_idx), (1, 0));
    st.navigate_down();
    assert_eq!((st.selected_issue_idx, st.search_match_idx), (3, 1));
    st.navigate_down();
    assert_eq!(st.selected_issue_idx, 3);
    st.navigate_up();
    assert_eq!((st.selected_issue_idx, st.search_match_idx), (1, 0));
    st.navigate_up();
    assert_eq!(st.selected_issue_idx, 1);
}

#[test]
fn toggling_twice_restores_absent_id() {
    let mut v = vec![1i64, 3];
    toggle_status(&mut v, 2);
    toggle_status(&mut v, 2);
    assert_eq!(v, vec![1, 3]);
}

#[test]
fn loaded_issues_end_fetch() {
    let mut st = state(&[]);
    st.current_space_state_mut().statuses = Some(vec![]);
    st.current_space_state_mut().issues = None;
    assert!(st.needs_issue_fetch());
    st.handle_event(AppEvent::IssuesLoaded { space: "s".to_string(), issues: vec![issue("A-1")] });
    assert!(!st.needs_issue_fetch());
}

#[test]
fn api_error_ends_every_load() {
    let mut st = state(&[]);
    st.current_space_state_mut().loading_issues = true;
    st.current_space_state_mut().loading_projects = true;
    st.current_space_state_mut().loading_statuses = true;
    st.handle_event(AppEvent::ApiError { space: "s".to_string(), message: "boom".to_string() });
    let ss = st.current_space_state();
    assert!(!ss.loading_issues && !ss.loading_projects && !ss.loading_statuses);
    assert_eq!(ss.statuses.as_ref().map(|v| v.len()), Some(0));
    assert!(ss.users_error);
    assert_eq!(st.status_message.as_deref(), Some("⚠ [s] boom"));
}

#[test]
fn events_for_unknown_spaces_change_no_space() {
    let mut st = state(&["A-1"]);
    st.handle_event(AppEvent::ApiError { space: "other".to_string(), message: "m".to_string() });
    assert!(st.current_space_state().statuses.is_none());
    assert!(!st.current_space_state().users_error);
    assert_eq!(st.current_space_state().issues.as_ref().map(|v| v.len()), Some(1));
}

#[test]
fn new_state_has_one_entry_per_distinct_name() {
    let config = Config {
        default_space: "b".to_string(),
        spaces: vec![
            SpaceConfig { name: "a".to_string(), host: "h".to_string(), api_key: "k".to_string() },
            SpaceConfig { name: "b".to_string(), host: "h".to_string(), api_key: "k".to_string() },
            SpaceConfig { name: "a".to_string(), host: "h2".to_string(), api_key: "k".to_string() },
        ],
    };
    let st = AppState::new(config, false);
    let names: Vec<&str> = st.spaces.iter().map(|e| e.name.as_str()).collect();
    assert_eq!(names, vec!["a", "b"]);
    assert_eq!(st.current_space_idx, 1);
}

#[test]
fn switching_back_keeps_each_space_selection() {
    let config = Config {
        default_space: "a".to_string(),
        spaces: vec![
            SpaceConfig { name: "a".to_string(), host: "a.h".to_string(), api_key: "k".to_string() },
            SpaceConfig { name: "b".to_string(), host: "b.h".to_string(), api_key: "k".to_string() },
        ],
    };
    let mut st = AppState::new(config, false);
    let project = Project { id: 7, project_key: "P".to_string(), name: "Proj".to_string() };
    st.current_space_state_mut().selected_project = Some(project);
    st.selected_issue_idx = 3;
    st.select_space(1);
    assert_eq!(st.current_space_name(), "b");
    assert!(st.current_space_state().selected_project.is_none());
    st.select_space(0);
    assert_eq!(st.current_space_name(), "a");
    assert_eq!(st.current_space_state().selected_project.as_ref().map(|p| p.id), Some(7));
    assert_eq!(st.selected_issue_idx, 0);
}

#[test]
fn longer_query_never_adds_matches() {
    let mut st = state(&["AB-1", "AC-2", "AB-3", "X-4"]);
    st.search_query = "a".to_string();
    let short = st.matching_issue_indices();
    st.search_query = "ab".to_string();
    let long = st.matching_issue_indices();
    assert_eq!(short, vec![0, 1, 2]);
    assert_eq!(long, vec![0, 2]);
    assert!(long.iter().all(|x| short.contains(x)));
}

#[test]
fn longer_mixed_case_query_never_adds_matches() {
    let mut st = state(&["ab-1", "AC-2", "Ab-3", "x-4"]);
    st.search_query = "A".to_string();
    let short = st.matching_issue_indices();
    st.search_query = "aB".to_string();
    let long = st.matching_issue_indices();
    assert_eq!(short, vec![0, 1, 2]);
    assert_eq!(long, vec![0, 2]);
    assert!(long.iter().all(|x| short.contains(x)));
}
