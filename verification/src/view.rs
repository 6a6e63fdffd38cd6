//! What the screens show, as text and positions: popup geometry, title,
//! filter bar, help bars, list rows and footers.  Drawing them is left to
//! the terminal front end.

use vstd::prelude::*;
use crate::app::{AppState, users_of};
use crate::handler::user_pos;
use crate::models::{Issue, IssueStatus, Project, User};
use crate::status_filter::{filter_text, status_filter_text};
use crate::text::{decimal, push_decimal, push_signed_decimal, signed_decimal};

verus! {

/// A rectangle of terminal cells.
#[derive(Clone, Copy, PartialEq, Eq, Structural, Debug)]
pub struct Rect {
    pub x: u16,
    pub y: u16,
    pub width: u16,
    pub height: u16,
}

/// A popup taking `percent_x` percent of the width and `percent_y` percent
/// of the height of `area` (rounded down), centred in it (leftover cells
/// split with the extra one after).
pub fn centered_rect(percent_x: u16, percent_y: u16, area: Rect) -> (res: Rect)
    requires
        percent_x <= 100,
        percent_y <= 100,
        area.x + (area.width - area.width * percent_x / 100) / 2 <= u16::MAX,
        area.y + (area.height - area.height * percent_y / 100) / 2 <= u16::MAX,
    ensures
        res.width == area.width * percent_x / 100,
        res.height == area.height * percent_y / 100,
        res.x == area.x + (area.width - res.width) / 2,
        res.y == area.y + (area.height - res.height) / 2,
        res.x + res.width <= area.x + area.width,
        res.y + res.height <= area.y + area.height,
{
    let aw = area.width as u32;
    let ah = area.height as u32;
    let px = percent_x as u32;
    let py = percent_y as u32;
    assert(aw * px <= aw * 100 && aw * 100 <= 65535 * 100) by (nonlinear_arith)
        requires
            px <= 100,
            aw <= 65535,
    ;
    assert(ah * py <= ah * 100 && ah * 100 <= 65535 * 100) by (nonlinear_arith)
        requires
            py <= 100,
            ah <= 65535,
    ;
    let w32 = aw * px / 100;
    let h32 = ah * py / 100;
    assert(w32 <= aw) by (nonlinear_arith)
        requires
            w32 == aw * px / 100,
            aw * px <= aw * 100,
    ;
    assert(h32 <= ah) by (nonlinear_arith)
        requires
            h32 == ah * py / 100,
            ah * py <= ah * 100,
    ;
    let width = w32 as u16;
    let height = h32 as u16;
    Rect {
        x: area.x + (area.width - width) / 2,
        y: area.y + (area.height - height) / 2,
        width,
        height,
    }
}

/// The title bar of the issue list: ` lazybacklog ──── [<space>] `.
pub open spec fn title_spec(space: Seq<char>) -> Seq<char> {
    " lazybacklog ──── ["@ + space + "] "@
}

/// The title bar naming the current space.
pub fn title_text(space: &str) -> (res: String)
    ensures
        res@ == title_spec(space@),
{
    String::from_str(" lazybacklog ──── [").concat(space).concat("] ")
}

/// The assignee named in the filter bar: "ALL" without a filter, the user's
/// name when the user is known, else `ID:<id>`.
pub open spec fn assignee_label_spec(users: Option<Seq<User>>, aid: Option<i64>) -> Seq<char> {
    match aid {
        None => "ALL"@,
        Some(a) => match users {
            Some(u) => if user_pos(u, a) < u.len() {
                u[user_pos(u, a)].name@
            } else {
                "ID:"@ + signed_decimal(a as int)
            },
            None => "ID:"@ + signed_decimal(a as int),
        },
    }
}

/// The filter bar: ` Assignee: <assignee>  |  Status: <status filter>`.
pub open spec fn filter_bar_spec(s: AppState) -> Seq<char> {
    let cur = s.current();
    " Assignee: "@ + assignee_label_spec(
        match cur.users {
            Some(u) => Some(u@),
            None => None,
        },
        s.filter_assignee_id,
    ) + "  |  Status: "@ + filter_text(
        cur.filter_status_ids@,
        match cur.statuses {
            Some(v) => Some(v@),
            None => None,
        },
    )
}

fn assignee_label(users: &Option<Vec<User>>, aid: Option<i64>) -> (res: String)
    ensures
        res@ == assignee_label_spec(
            match users {
                Some(u) => Some(u@),
                None => None,
            },
            aid,
        ),
{
    match aid {
        None => String::from_str("ALL"),
        Some(a) => {
            let mut fallback = String::from_str("ID:");
            push_signed_decimal(&mut fallback, a);
            match users {
                Some(u) => {
                    proof {
                        crate::handler::lemma_user_pos(u@, a);
                    }
                    let row = crate::handler::user_row_of(u, a);
                    if row > 0 {
                        let n = u[row - 1].name.clone();
                        assert(user_pos(u@, a) < u@.len());
                        assert(n@ == u@[user_pos(u@, a)].name@);
                        n
                    } else {
                        assert(fallback@ == "ID:"@ + signed_decimal(a as int));
                        fallback
                    }
                },
                None => fallback,
            }
        },
    }
}

/// The filter bar of the issue list.
pub fn filter_bar_text(state: &AppState) -> (res: String)
    requires
        state.wf(),
    ensures
        res@ == filter_bar_spec(*state),
{
    let cur = state.current_space_state();
    let label = assignee_label(&cur.users, state.filter_assignee_id);
    let status = status_filter_text(cur.filter_status_ids.as_slice(), &cur.statuses);
    String::from_str(" Assignee: ").concat(label.as_str()).concat("  |  Status: ").concat(status.as_str())
}

/// The help bar of the issue list: the typing hints while a query is being
/// typed, the hints with match navigation while a query is set, else the
/// plain hints.
pub open spec fn help_bar_spec(search_active: bool, query_empty: bool) -> Seq<char> {
    if search_active {
        " [Enter] Confirm  [Esc] Cancel"@
    } else if !query_empty {
        " [j/k] Move  [Enter] Detail  [f] Assignee  [s] Status  [r] Refresh  [n/N] Next/Prev Match  [Esc] Back  [q] Quit"@
    } else {
        " [j/k] Move  [Enter] Detail  [f] Assignee  [s] Status  [r] Refresh  [/] Search  [Esc] Back  [q] Quit"@
    }
}

/// The help bar of the issue list.
pub fn help_bar_text(state: &AppState) -> (res: String)
    ensures
        res@ == help_bar_spec(state.search_active, state.search_query@.len() == 0),
{
    if state.search_active {
        String::from_str(" [Enter] Confirm  [Esc] Cancel")
    } else if !state.search_query.as_str().is_empty() {
        String::from_str(
            " [j/k] Move  [Enter] Detail  [f] Assignee  [s] Status  [r] Refresh  [n/N] Next/Prev Match  [Esc] Back  [q] Quit",
        )
    } else {
        String::from_str(
            " [j/k] Move  [Enter] Detail  [f] Assignee  [s] Status  [r] Refresh  [/] Search  [Esc] Back  [q] Quit",
        )
    }
}

/// The search bar `/ <query>[█]  (<n> matches)`, with the cursor block
/// while the query is being typed.
pub open spec fn search_bar_spec(active: bool, query: Seq<char>, matches: nat) -> Seq<char> {
    "/ "@ + query + (if active {
        "█"@
    } else {
        Seq::empty()
    }) + "  ("@ + decimal(matches) + " matches)"@
}

/// The footer of the issue list: the search bar while a search is typed or
/// set; else the issue count, flagged as capped at the request limit of 100
/// when it reaches it.
pub open spec fn issue_footer_spec(active: bool, query: Seq<char>, matches: nat, count: nat) -> Seq<char> {
    if active || query.len() > 0 {
        search_bar_spec(active, query, matches)
    } else if count >= 100 {
        "(showing: "@ + decimal(count) + " / limit 100)"@
    } else {
        "("@ + decimal(count) + ")"@
    }
}

/// The footer of the issue list, given the number of matching issues and
/// of loaded issues.
pub fn issue_list_footer(active: bool, query: &str, matches: usize, count: usize) -> (res: String)
    ensures
        res@ == issue_footer_spec(active, query@, matches as nat, count as nat),
{
    if active || !query.is_empty() {
        let mut s = String::from_str("/ ");
        s.append(query);
        if active {
            s.append("█");
        }
        s.append("  (");
        push_decimal(&mut s, matches as u64);
        s.append(" matches)");
        proof {
            reveal_strlit("█");
        }
        assert(s@ =~= search_bar_spec(active, query@, matches as nat));
        s
    } else if count >= 100 {
        let mut s = String::from_str("(showing: ");
        push_decimal(&mut s, count as u64);
        s.append(" / limit 100)");
        s
    } else {
        let mut s = String::from_str("(");
        push_decimal(&mut s, count as u64);
        s.append(")");
        s
    }
}

/// The help line of the assignee popup: the search bar while a search is
/// typed; the search bar with match keys while a query is set; else the
/// plain hints.
pub open spec fn filter_help_spec(active: bool, query: Seq<char>, matches: nat) -> Seq<char> {
    if active {
        "/ "@ + query + "█"@ + "  ("@ + decimal(matches) + " matches)"@
    } else if query.len() > 0 {
        "/ "@ + query + "  ("@ + decimal(matches) + " matches)"@ + "  [n/N] 移動  [Esc] 解除"@
    } else {
        "[Enter] 選択  [/] 検索  [Esc] キャンセル"@
    }
}

/// The help line of the assignee popup, given the number of rows shown.
pub fn filter_help_text(active: bool, query: &str, matches: usize) -> (res: String)
    ensures
        res@ == filter_help_spec(active, query@, matches as nat),
{
    if active {
        let mut s = String::from_str("/ ");
        s.append(query);
        s.append("█");
        s.append("  (");
        push_decimal(&mut s, matches as u64);
        s.append(" matches)");
        s
    } else if !query.is_empty() {
        let mut s = String::from_str("/ ");
        s.append(query);
        s.append("  (");
        push_decimal(&mut s, matches as u64);
        s.append(" matches)");
        s.append("  [n/N] 移動  [Esc] 解除");
        s
    } else {
        String::from_str("[Enter] 選択  [/] 検索  [Esc] キャンセル")
    }
}

/// The label of row `k` of the assignee popup: "ALL (フィルターなし)" for
/// row 0, the name of user `k - 1` otherwise.
pub open spec fn filter_row_label(users: Seq<User>, k: int) -> Seq<char> {
    if k == 0 {
        "ALL (フィルターなし)"@
    } else {
        users[k - 1].name@
    }
}

/// The rows shown in the assignee popup: the matching rows (all rows
/// without a query), each with its row number and label.
pub fn filter_rows(state: &AppState) -> (res: Vec<(usize, String)>)
    requires
        state.wf(),
    ensures
        res@.len() == state.user_match_list().len(),
        forall|i: int|
            0 <= i < res@.len() ==> (#[trigger] res@[i]).0 == state.user_match_list()[i] && res@[i].1@
                == filter_row_label(users_of(state.current()), state.user_match_list()[i] as int),
{
    let rows = state.matching_user_indices();
    let cur = state.current_space_state();
    let count = match &cur.users {
        Some(u) => u.len(),
        None => 0,
    };
    assert(count == users_of(state.current()).len());
    proof {
        crate::search::lemma_match_list(
            (users_of(state.current()).len() + 1) as nat,
            |k: int| crate::app::user_row_matches(users_of(state.current()), k, state.search_query@),
        );
    }
    let mut res: Vec<(usize, String)> = Vec::new();
    let mut i: usize = 0;
    while i < rows.len()
        invariant
            i <= rows@.len(),
            rows@ == state.user_match_list(),
            *cur == state.current(),
            forall|j: int| 0 <= j < rows@.len() ==> rows@[j] < users_of(state.current()).len() + 1,
            res@.len() == i,
            forall|j: int|
                0 <= j < i ==> (#[trigger] res@[j]).0 == rows@[j] && res@[j].1@ == filter_row_label(
                    users_of(state.current()),
                    rows@[j] as int,
                ),
        decreases rows.len() - i,
    {
        let k = rows[i];
        let label = if k == 0 {
            String::from_str("ALL (フィルターなし)")
        } else {
            match &cur.users {
                Some(u) => u[k - 1].name.clone(),
                None => String::new(),
            }
        };
        res.push((k, label));
        i += 1;
    }
    res
}

/// The position of `x` in `list`, if it occurs (`position(|&i| i == x)`).
pub fn position_of(list: &Vec<usize>, x: usize) -> (res: Option<usize>)
    ensures
        match res {
            Some(p) => p < list@.len() && list@[p as int] == x && forall|j: int|
                0 <= j < p ==> list@[j] != x,
            None => !list@.contains(x),
        },
{
    let mut i: usize = 0;
    while i < list.len()
        invariant
            i <= list@.len(),
            forall|j: int| 0 <= j < i ==> list@[j] != x,
        decreases list.len() - i,
    {
        if list[i] == x {
            return Some(i);
        }
        i += 1;
    }
    None
}

/// One row of the status popup: a check box ticked when the status is in
/// the pending selection, then the status name.
pub open spec fn status_row_spec(s: IssueStatus, pending: Seq<i64>) -> Seq<char> {
    (if pending.contains(s.id) {
        "[✓] "@
    } else {
        "[ ] "@
    }) + s.name@
}

/// The rows of the status popup: "読み込み中..." while statuses are not
/// loaded, "ステータスなし" when there is none, else one check box row per
/// status.
pub fn status_rows(statuses: &Option<Vec<IssueStatus>>, pending: &Vec<i64>) -> (res: Vec<String>)
    ensures
        statuses is None ==> res@.len() == 1 && res@[0]@ == "読み込み中..."@,
        statuses matches Some(v) && v@.len() == 0 ==> res@.len() == 1 && res@[0]@ == "ステータスなし"@,
        statuses matches Some(v) ==> (v@.len() > 0 ==> res@.len() == v@.len() && forall|i: int|
            0 <= i < v@.len() ==> (#[trigger] res@[i])@ == status_row_spec(v@[i], pending@)),
{
    let mut res: Vec<String> = Vec::new();
    match statuses {
        None => {
            res.push(String::from_str("読み込み中..."));
        },
        Some(v) => {
            if v.len() == 0 {
                res.push(String::from_str("ステータスなし"));
            } else {
                let mut i: usize = 0;
                while i < v.len()
                    invariant
                        i <= v@.len(),
                        res@.len() == i,
                        forall|j: int|
                            0 <= j < i ==> (#[trigger] res@[j])@ == status_row_spec(v@[j], pending@),
                    decreases v.len() - i,
                {
                    let mut checked = false;
                    let mut k: usize = 0;
                    while k < pending.len()
                        invariant
                            i < v@.len(),
                            k <= pending@.len(),
                            checked == (exists|m: int| 0 <= m < k && pending@[m] == v@[i as int].id),
                        decreases pending.len() - k,
                    {
                        if pending[k] == v[i].id {
                            checked = true;
                        }
                        k += 1;
                    }
                    let row = if checked {
                        String::from_str("[✓] ").concat(v[i].name.as_str())
                    } else {
                        String::from_str("[ ] ").concat(v[i].name.as_str())
                    };
                    res.push(row);
                    i += 1;
                }
            }
        },
    }
    res
}

/// One row of the project list: `<key> - <name>`.
pub fn project_row(p: &Project) -> (res: String)
    ensures
        res@ == p.project_key@ + " - "@ + p.name@,
{
    p.project_key.clone().concat(" - ").concat(p.name.as_str())
}

/// An optional name, or "-" when absent.
pub open spec fn or_dash(o: Option<Seq<char>>) -> Seq<char> {
    match o {
        Some(s) => s,
        None => "-"@,
    }
}

/// The cells of an issue's row in the issue list: key, summary, assignee
/// name (or "-") and status name.
pub fn issue_row(issue: &Issue) -> (res: (String, String, String, String))
    ensures
        res.0@ == issue.issue_key@,
        res.1@ == issue.summary@,
        res.2@ == or_dash(
            match issue.assignee {
                Some(u) => Some(u.name@),
                None => None,
            },
        ),
        res.3@ == issue.status.name@,
{
    let assignee = match &issue.assignee {
        Some(u) => u.name.clone(),
        None => String::from_str("-"),
    };
    (issue.issue_key.clone(), issue.summary.clone(), assignee, issue.status.name.clone())
}

/// The title of the issue detail box: ` <key>: <summary> `.
pub fn detail_title(issue: &Issue) -> (res: String)
    ensures
        res@ == " "@ + issue.issue_key@ + ": "@ + issue.summary@ + " "@,
{
    String::from_str(" ").concat(issue.issue_key.as_str()).concat(": ").concat(issue.summary.as_str()).concat(
        " ",
    )
}

/// The facts shown in the issue detail box: assignee, priority, type and
/// due date, each "-" when absent.
pub fn detail_fields(issue: &Issue) -> (res: (String, String, String, String))
    ensures
        res.0@ == or_dash(
            match issue.assignee {
                Some(u) => Some(u.name@),
                None => None,
            },
        ),
        res.1@ == or_dash(
            match issue.priority {
                Some(p) => Some(p.name@),
                None => None,
            },
        ),
        res.2@ == or_dash(
            match issue.issue_type {
                Some(t) => Some(t.name@),
                None => None,
            },
        ),
        res.3@ == or_dash(
            match issue.due_date {
                Some(d) => Some(d@),
                None => None,
            },
        ),
{
    let a = match &issue.assignee {
        Some(u) => u.name.clone(),
        None => String::from_str("-"),
    };
    let p = match &issue.priority {
        Some(x) => x.name.clone(),
        None => String::from_str("-"),
    };
    let t = match &issue.issue_type {
        Some(x) => x.name.clone(),
        None => String::from_str("-"),
    };
    let d = match &issue.due_date {
        Some(x) => x.clone(),
        None => String::from_str("-"),
    };
    (a, p, t, d)
}

/// The description of an issue, or "(no description)".
pub fn description_text(issue: &Issue) -> (res: String)
    ensures
        res@ == match issue.description {
            Some(d) => d@,
            None => "(no description)"@,
        },
{
    match &issue.description {
        Some(d) => d.clone(),
        None => String::from_str("(no description)"),
    }
}

} // verus!
