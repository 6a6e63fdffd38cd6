use lazybacklog::app::AppState;
use lazybacklog::config::{Config, SpaceConfig};
use lazybacklog::event::AppEvent;
use lazybacklog::mock;
use lazybacklog::models::{IssueStatus, User};
use lazybacklog::view::{
    centered_rect, detail_fields, detail_title, filter_bar_text, filter_help_text, filter_rows,
    help_bar_text, issue_list_footer, issue_row, project_row, status_rows, title_text, Rect,
};

fn state() -> AppState {
    let config = Config {
        default_space: "space1".to_string(),
        spaces: vec![SpaceConfig {
            name: "space1".to_string(),
            host: "h".to_string(),
            api_key: "k".to_string(),
        }],
    };
    AppState::new(config, false)
}

#[test]
fn popup_geometry() {
    let r = centered_rect(50, 60, Rect { x: 0, y: 0, width: 80, height: 24 });
    assert_eq!(r, Rect { x: 20, y: 5, width: 40, height: 14 });
    let r = centered_rect(40, 60, Rect { x: 2, y: 1, width: 15, height: 7 });
    assert_eq!(r, Rect { x: 6, y: 2, width: 6, height: 4 });
}

#[test]
fn title_and_help() {
    assert_eq!(title_text("myspace"), " lazybacklog ──── [myspace] ");
    let mut s = state();
    assert!(help_bar_text(&s).contains("[/] Search"));
    s.search_query = "x".to_string();
    assert!(help_bar_text(&s).contains("[n/N] Next/Prev Match"));
    s.search_active = true;
    assert_eq!(help_bar_text(&s), " [Enter] Confirm  [Esc] Cancel");
}

#[test]
fn filter_bar_shows_assignee_and_status() {
    let mut s = state();
    assert_eq!(filter_bar_text(&s), " Assignee: ALL  |  Status: 読み込み中...");
    s.filter_assignee_id = Some(42);
    assert_eq!(filter_bar_text(&s), " Assignee: ID:42  |  Status: 読み込み中...");
    s.handle_event(AppEvent::SpaceUsersLoaded {
        space: "space1".to_string(),
        users: vec![User { id: 42, name: "Alice".to_string() }],
    });
    s.handle_event(AppEvent::StatusesLoaded {
        space: "space1".to_string(),
        statuses: vec![
            IssueStatus { id: 1, name: "Open".to_string() },
            IssueStatus { id: 2, name: "Closed".to_string() },
        ],
    });
    assert_eq!(filter_bar_text(&s), " Assignee: Alice  |  Status: Open");
}

#[test]
fn footers() {
    assert_eq!(issue_list_footer(false, "", 0, 3), "(3)");
    assert_eq!(issue_list_footer(false, "", 0, 100), "(showing: 100 / limit 100)");
    assert_eq!(issue_list_footer(true, "pr", 2, 5), "/ pr█  (2 matches)");
    assert_eq!(issue_list_footer(false, "pr", 2, 5), "/ pr  (2 matches)");
    assert_eq!(filter_help_text(false, "", 3), "[Enter] 選択  [/] 検索  [Esc] キャンセル");
    assert_eq!(filter_help_text(true, "al", 1), "/ al█  (1 matches)");
    assert_eq!(filter_help_text(false, "al", 1), "/ al  (1 matches)  [n/N] 移動  [Esc] 解除");
}

#[test]
fn popup_rows() {
    let mut s = state();
    s.handle_event(AppEvent::SpaceUsersLoaded {
        space: "space1".to_string(),
        users: vec![User { id: 1, name: "Alice".to_string() }, User { id: 2, name: "Bob".to_string() }],
    });
    let rows = filter_rows(&s);
    let labels: Vec<(usize, &str)> = rows.iter().map(|(i, t)| (*i, t.as_str())).collect();
    assert_eq!(labels, vec![(0, "ALL (フィルターなし)"), (1, "Alice"), (2, "Bob")]);
    s.search_query = "bo".to_string();
    let rows = filter_rows(&s);
    assert_eq!(rows.len(), 1);
    assert_eq!(rows[0].0, 2);

    assert_eq!(status_rows(&None, &vec![]), vec!["読み込み中...".to_string()]);
    assert_eq!(status_rows(&Some(vec![]), &vec![]), vec!["ステータスなし".to_string()]);
    let rows = status_rows(
        &Some(vec![
            IssueStatus { id: 1, name: "Open".to_string() },
            IssueStatus { id: 2, name: "Closed".to_string() },
        ]),
        &vec![2],
    );
    assert_eq!(rows, vec!["[ ] Open".to_string(), "[✓] Closed".to_string()]);
}

#[test]
fn demo_data() {
    let c = mock::demo_config();
    assert_eq!(c.default_space, "demo");
    assert_eq!(c.spaces.len(), 1);
    assert_eq!(mock::projects().len(), 2);
    assert_eq!(mock::users()[2].name, "Charlie");
    assert_eq!(mock::statuses()[3].name, "Closed");
    let issues = mock::issues();
    assert_eq!(issues.len(), 10);
    assert_eq!(issues[9].issue_key, "DEMO-10");
    assert_eq!(project_row(&mock::projects()[1]), "SAMPLE - Sample Project");
    let (key, summary, assignee, status) = issue_row(&issues[2]);
    assert_eq!((key.as_str(), assignee.as_str(), status.as_str()), ("DEMO-3", "-", "Open"));
    assert_eq!(summary, "Write API documentation");
    assert_eq!(detail_title(&issues[0]), " DEMO-1: Set up CI pipeline for the project ");
    let (a, p, t, d) = detail_fields(&issues[1]);
    assert_eq!((a.as_str(), p.as_str(), t.as_str(), d.as_str()), ("Bob", "Normal", "Bug", "-"));
}

#[test]
fn demo_default_filter_drops_closed() {
    let mut s = AppState::new(mock::demo_config(), true);
    s.handle_event(AppEvent::StatusesLoaded { space: "demo".to_string(), statuses: mock::statuses() });
    assert_eq!(s.current_space_state().filter_status_ids, vec![1, 2, 3]);
}
