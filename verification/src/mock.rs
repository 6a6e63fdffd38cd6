//! Data for the demo mode: one space, two projects, three users, four
//! statuses and ten issues, served without any network access.

use vstd::prelude::*;
use crate::config::{Config, SpaceConfig};
use crate::models::{Issue, IssueStatus, IssueType, Priority, Project, User};

verus! {

/// An optional text seen as characters.
pub open spec fn opt_text(o: Option<String>) -> Option<Seq<char>> {
    match o {
        Some(s) => Some(s@),
        None => None,
    }
}

/// An optional user seen as its id and name.
pub open spec fn opt_user(o: Option<User>) -> Option<(i64, Seq<char>)> {
    match o {
        Some(u) => Some((u.id, u.name@)),
        None => None,
    }
}

/// An optional priority seen as its id and name.
pub open spec fn opt_priority(o: Option<Priority>) -> Option<(i64, Seq<char>)> {
    match o {
        Some(p) => Some((p.id, p.name@)),
        None => None,
    }
}

/// An optional issue type seen as its id and name.
pub open spec fn opt_issue_type(o: Option<IssueType>) -> Option<(i64, Seq<char>)> {
    match o {
        Some(t) => Some((t.id, t.name@)),
        None => None,
    }
}

/// A user with the given id and name.
pub open spec fn user_is(u: User, id: i64, name: Seq<char>) -> bool {
    u.id == id && u.name@ == name
}

/// A project with the given id, key and name.
pub open spec fn project_is(p: Project, id: i64, key: Seq<char>, name: Seq<char>) -> bool {
    p.id == id && p.project_key@ == key && p.name@ == name
}

/// A status with the given id and name.
pub open spec fn status_is(s: IssueStatus, id: i64, name: Seq<char>) -> bool {
    s.id == id && s.name@ == name
}

/// An issue with the given fields.
pub open spec fn issue_is(
    i: Issue,
    id: i64,
    key: Seq<char>,
    summary: Seq<char>,
    description: Option<Seq<char>>,
    assignee: Option<(i64, Seq<char>)>,
    status: (i64, Seq<char>),
    priority: Option<(i64, Seq<char>)>,
    issue_type: Option<(i64, Seq<char>)>,
    due_date: Option<Seq<char>>,
) -> bool {
    &&& i.id == id
    &&& i.issue_key@ == key
    &&& i.summary@ == summary
    &&& opt_text(i.description) == description
    &&& opt_user(i.assignee) == assignee
    &&& i.status.id == status.0 && i.status.name@ == status.1
    &&& opt_priority(i.priority) == priority
    &&& opt_issue_type(i.issue_type) == issue_type
    &&& opt_text(i.due_date) == due_date
}

/// The demo projects.
pub open spec fn demo_projects(res: Seq<Project>) -> bool {
    &&& res.len() == 2
    &&& project_is(res[0], 1, "DEMO"@, "Demo Project"@)
    &&& project_is(res[1], 2, "SAMPLE"@, "Sample Project"@)
}

/// The demo users.
pub open spec fn demo_users(res: Seq<User>) -> bool {
    &&& res.len() == 3
    &&& user_is(res[0], 10, "Alice"@)
    &&& user_is(res[1], 20, "Bob"@)
    &&& user_is(res[2], 30, "Charlie"@)
}

/// The demo statuses.
pub open spec fn demo_statuses(res: Seq<IssueStatus>) -> bool {
    &&& res.len() == 4
    &&& status_is(res[0], 1, "Open"@)
    &&& status_is(res[1], 2, "In Progress"@)
    &&& status_is(res[2], 3, "Resolved"@)
    &&& status_is(res[3], 4, "Closed"@)
}

/// The ten demo issues, DEMO-1 to DEMO-10, field by field.
pub open spec fn demo_issues(res: Seq<Issue>) -> bool {
    &&& res.len() == 10
    &&& issue_is(
        res[0],
        1,
        "DEMO-1"@,
        "Set up CI pipeline for the project"@,
        Some("Configure GitHub Actions to run tests and linting on every PR."@),
        Some((10i64, "Alice"@)),
        (2i64, "In Progress"@),
        Some((2i64, "High"@)),
        Some((1i64, "Task"@)),
        Some("2026-04-01T00:00:00Z"@),
    )
    &&& issue_is(
        res[1],
        2,
        "DEMO-2"@,
        "Fix login page layout on mobile"@,
        Some("The login form overflows on small screens. Apply responsive CSS."@),
        Some((20i64, "Bob"@)),
        (1i64, "Open"@),
        Some((3i64, "Normal"@)),
        Some((2i64, "Bug"@)),
        None,
    )
    &&& issue_is(
        res[2],
        3,
        "DEMO-3"@,
        "Write API documentation"@,
        None,
        None,
        (1i64, "Open"@),
        Some((4i64, "Low"@)),
        Some((1i64, "Task"@)),
        Some("2026-05-15T00:00:00Z"@),
    )
    &&& issue_is(
        res[3],
        4,
        "DEMO-4"@,
        "Add dark mode support"@,
        Some("Implement a dark theme toggle in the settings panel."@),
        Some((30i64, "Charlie"@)),
        (2i64, "In Progress"@),
        Some((3i64, "Normal"@)),
        Some((3i64, "Feature"@)),
        None,
    )
    &&& issue_is(
        res[4],
        5,
        "DEMO-5"@,
        "Upgrade dependencies to latest stable versions"@,
        Some("Run cargo update and resolve any breaking changes."@),
        Some((10i64, "Alice"@)),
        (3i64, "Resolved"@),
        Some((3i64, "Normal"@)),
        Some((1i64, "Task"@)),
        Some("2026-03-20T00:00:00Z"@),
    )
    &&& issue_is(
        res[5],
        6,
        "DEMO-6"@,
        "Search bar returns no results for Japanese queries"@,
        Some("Unicode normalization issue. Needs investigation."@),
        None,
        (1i64, "Open"@),
        Some((2i64, "High"@)),
        Some((2i64, "Bug"@)),
        None,
    )
    &&& issue_is(
        res[6],
        7,
        "DEMO-7"@,
        "Export issues to CSV"@,
        Some("Allow users to download the current issue list as a CSV file."@),
        Some((20i64, "Bob"@)),
        (1i64, "Open"@),
        Some((4i64, "Low"@)),
        Some((3i64, "Feature"@)),
        Some("2026-06-01T00:00:00Z"@),
    )
    &&& issue_is(
        res[7],
        8,
        "DEMO-8"@,
        "Performance regression in issue list rendering"@,
        Some("List scrolling drops below 30fps when more than 200 issues are loaded."@),
        Some((30i64, "Charlie"@)),
        (2i64, "In Progress"@),
        Some((2i64, "High"@)),
        Some((2i64, "Bug"@)),
        None,
    )
    &&& issue_is(
        res[8],
        9,
        "DEMO-9"@,
        "Add keyboard shortcut cheat sheet"@,
        None,
        None,
        (3i64, "Resolved"@),
        Some((4i64, "Low"@)),
        Some((1i64, "Task"@)),
        None,
    )
    &&& issue_is(
        res[9],
        10,
        "DEMO-10"@,
        "Implement email notifications for due dates"@,
        Some("Send a daily digest email to assignees with issues due within 3 days."@),
        Some((10i64, "Alice"@)),
        (1i64, "Open"@),
        Some((3i64, "Normal"@)),
        Some((3i64, "Feature"@)),
        Some("2026-07-01T00:00:00Z"@),
    )
}

fn text(s: &str) -> (res: String)
    ensures
        res@ == s@,
{
    String::from_str(s)
}

fn opt(s: Option<&str>) -> (res: Option<String>)
    ensures
        opt_text(res) == match s {
            Some(t) => Some(t@),
            None => None,
        },
{
    match s {
        Some(t) => Some(text(t)),
        None => None,
    }
}

fn user(id: i64, name: &str) -> (res: User)
    ensures
        user_is(res, id, name@),
{
    User { id, name: text(name) }
}

fn status(id: i64, name: &str) -> (res: IssueStatus)
    ensures
        status_is(res, id, name@),
{
    IssueStatus { id, name: text(name) }
}

fn issue(
    id: i64,
    key: &str,
    summary: &str,
    description: Option<&str>,
    assignee: Option<(i64, &str)>,
    state: (i64, &str),
    priority: Option<(i64, &str)>,
    issue_type: Option<(i64, &str)>,
    due_date: Option<&str>,
) -> (res: Issue)
    ensures
        issue_is(
            res,
            id,
            key@,
            summary@,
            match description {
                Some(t) => Some(t@),
                None => None,
            },
            match assignee {
                Some(a) => Some((a.0, a.1@)),
                None => None,
            },
            (state.0, state.1@),
            match priority {
                Some(a) => Some((a.0, a.1@)),
                None => None,
            },
            match issue_type {
                Some(a) => Some((a.0, a.1@)),
                None => None,
            },
            match due_date {
                Some(t) => Some(t@),
                None => None,
            },
        ),
{
    let assignee = match assignee {
        Some(a) => Some(user(a.0, a.1)),
        None => None,
    };
    let priority = match priority {
        Some(a) => Some(Priority { id: a.0, name: text(a.1) }),
        None => None,
    };
    let issue_type = match issue_type {
        Some(a) => Some(IssueType { id: a.0, name: text(a.1) }),
        None => None,
    };
    Issue {
        id,
        issue_key: text(key),
        summary: text(summary),
        description: opt(description),
        assignee,
        status: status(state.0, state.1),
        priority,
        issue_type,
        due_date: opt(due_date),
    }
}

/// The demo configuration: one space "demo" on host "mock" with key "mock",
/// which is also the default space.
pub fn demo_config() -> (res: Config)
    ensures
        res.default_space@ == "demo"@,
        res.spaces@.len() == 1,
        res.spaces@[0].name@ == "demo"@,
        res.spaces@[0].host@ == "mock"@,
        res.spaces@[0].api_key@ == "mock"@,
{
    let mut spaces: Vec<SpaceConfig> = Vec::new();
    spaces.push(SpaceConfig { name: text("demo"), host: text("mock"), api_key: text("mock") });
    Config { default_space: text("demo"), spaces }
}

/// The demo projects: DEMO (1, "Demo Project") and SAMPLE (2, "Sample
/// Project").
pub fn projects() -> (res: Vec<Project>)
    ensures
        demo_projects(res@),
{
    let mut res: Vec<Project> = Vec::new();
    res.push(Project { id: 1, project_key: text("DEMO"), name: text("Demo Project") });
    res.push(Project { id: 2, project_key: text("SAMPLE"), name: text("Sample Project") });
    res
}

/// The demo users: Alice (10), Bob (20) and Charlie (30).
pub fn users() -> (res: Vec<User>)
    ensures
        demo_users(res@),
{
    let mut res: Vec<User> = Vec::new();
    res.push(user(10, "Alice"));
    res.push(user(20, "Bob"));
    res.push(user(30, "Charlie"));
    res
}

/// The demo statuses: Open (1), In Progress (2), Resolved (3), Closed (4).
pub fn statuses() -> (res: Vec<IssueStatus>)
    ensures
        demo_statuses(res@),
{
    let mut res: Vec<IssueStatus> = Vec::new();
    res.push(status(1, "Open"));
    res.push(status(2, "In Progress"));
    res.push(status(3, "Resolved"));
    res.push(status(4, "Closed"));
    res
}

/// The ten demo issues, DEMO-1 to DEMO-10.
pub fn issues() -> (res: Vec<Issue>)
    ensures
        demo_issues(res@),
{
    let mut res: Vec<Issue> = Vec::new();
    res.push(issue(
        1,
        "DEMO-1",
        "Set up CI pipeline for the project",
        Some("Configure GitHub Actions to run tests and linting on every PR."),
        Some((10i64, "Alice")),
        (2, "In Progress"),
        Some((2i64, "High")),
        Some((1i64, "Task")),
        Some("2026-04-01T00:00:00Z"),
    ));
    res.push(issue(
        2,
        "DEMO-2",
        "Fix login page layout on mobile",
        Some("The login form overflows on small screens. Apply responsive CSS."),
        Some((20i64, "Bob")),
        (1, "Open"),
        Some((3i64, "Normal")),
        Some((2i64, "Bug")),
        None,
    ));
    res.push(issue(
        3,
        "DEMO-3",
        "Write API documentation",
        None,
        None,
        (1, "Open"),
        Some((4i64, "Low")),
        Some((1i64, "Task")),
        Some("2026-05-15T00:00:00Z"),
    ));
    res.push(issue(
        4,
        "DEMO-4",
        "Add dark mode support",
        Some("Implement a dark theme toggle in the settings panel."),
        Some((30i64, "Charlie")),
        (2, "In Progress"),
        Some((3i64, "Normal")),
        Some((3i64, "Feature")),
        None,
    ));
    res.push(issue(
        5,
        "DEMO-5",
        "Upgrade dependencies to latest stable versions",
        Some("Run cargo update and resolve any breaking changes."),
        Some((10i64, "Alice")),
        (3, "Resolved"),
        Some((3i64, "Normal")),
        Some((1i64, "Task")),
        Some("2026-03-20T00:00:00Z"),
    ));
    res.push(issue(
        6,
        "DEMO-6",
        "Search bar returns no results for Japanese queries",
        Some("Unicode normalization issue. Needs investigation."),
        None,
        (1, "Open"),
        Some((2i64, "High")),
        Some((2i64, "Bug")),
        None,
    ));
    res.push(issue(
        7,
        "DEMO-7",
        "Export issues to CSV",
        Some("Allow users to download the current issue list as a CSV file."),
        Some((20i64, "Bob")),
        (1, "Open"),
        Some((4i64, "Low")),
        Some((3i64, "Feature")),
        Some("2026-06-01T00:00:00Z"),
    ));
    res.push(issue(
        8,
        "DEMO-8",
        "Performance regression in issue list rendering",
        Some("List scrolling drops below 30fps when more than 200 issues are loaded."),
        Some((30i64, "Charlie")),
        (2, "In Progress"),
        Some((2i64, "High")),
        Some((2i64, "Bug")),
        None,
    ));
    res.push(issue(
        9,
        "DEMO-9",
        "Add keyboard shortcut cheat sheet",
        None,
        None,
        (3, "Resolved"),
        Some((4i64, "Low")),
        Some((1i64, "Task")),
        None,
    ));
    res.push(issue(
        10,
        "DEMO-10",
        "Implement email notifications for due dates",
        Some("Send a daily digest email to assignees with issues due within 3 days."),
        Some((10i64, "Alice")),
        (1, "Open"),
        Some((3i64, "Normal")),
        Some((3i64, "Feature")),
        Some("2026-07-01T00:00:00Z"),
    ));
    res
}

} // verus!
