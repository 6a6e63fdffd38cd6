//! Properties that hold across the operations of the library: how cursors
//! move among search matches, what loading results do to fetch decisions,
//! and what the default status filter selects.

use vstd::prelude::*;
use crate::app::{AppState, SpaceState, after_api_error, after_down, status_matches, statuses_of, user_row_matches, users_of, after_up, issue_matches, issues_of, space_switched, state_named, with_space_state, lemma_wf_current};
use crate::models::{Issue, IssueStatus};
use crate::search::{first_above, last_below, lemma_first_above, lemma_last_below, lemma_match_list, lemma_match_list_all};
use crate::handler::{Effect, filter_key_result, requests_project, list_key_result, next_rank, prev_rank, status_key_result};
use crate::config::Config;
use crate::event::Key;
use crate::app::Screen;
use crate::status_filter::{chosen_names, default_ids, filter_text, join, open_by_default};
use crate::text::{ascii_lower, folded, is_ascii_text, is_infix, lemma_ascii_lower_concat, lemma_infix_trans};

verus! {

/// With an empty search query every issue matches: the match list is every
/// position of the issue list, in order.
pub proof fn law_empty_query_matches_all(s: AppState)
    requires
        s.search_query@.len() == 0,
    ensures
        s.issue_match_list() == Seq::new(issues_of(s.current()).len(), |k: int| k as usize),
{
    let issues = issues_of(s.current());
    let q = s.search_query@;
    lemma_match_list_all(issues.len(), |k: int| issue_matches(issues[k], q));
}

/// Without a search query, moving down and then up brings the cursor back
/// whenever it was not on the last issue.
pub proof fn law_down_then_up(s: AppState)
    requires
        s.search_query@.len() == 0,
        s.selected_issue_idx + 1 < issues_of(s.current()).len(),
        issues_of(s.current()).len() <= usize::MAX,
    ensures
        after_up(after_down(s)) == s,
{
}

/// Without a search query, moving up and then down brings the cursor back
/// whenever it was not on the first issue and within the list.
pub proof fn law_up_then_down(s: AppState)
    requires
        s.search_query@.len() == 0,
        0 < s.selected_issue_idx < issues_of(s.current()).len(),
        issues_of(s.current()).len() <= usize::MAX,
    ensures
        after_down(after_up(s)) == s,
{
}

/// Moving the cursor keeps it on an issue when it was on one, with or
/// without a search query.
pub proof fn law_moves_stay_in_list(s: AppState)
    requires
        s.selected_issue_idx < issues_of(s.current()).len(),
        issues_of(s.current()).len() <= usize::MAX,
    ensures
        after_down(s).selected_issue_idx < issues_of(s.current()).len(),
        after_up(s).selected_issue_idx < issues_of(s.current()).len(),
{
    let issues = issues_of(s.current());
    let q = s.search_query@;
    let pred = |k: int| issue_matches(issues[k], q);
    lemma_match_list(issues.len(), pred);
    lemma_first_above(s.issue_match_list(), s.selected_issue_idx);
    lemma_last_below(s.issue_match_list(), s.selected_issue_idx);
}

/// With a search query, moving down goes to the nearest matching issue
/// below the cursor and records its rank among the matches; when no
/// matching issue lies below, the cursor stays.
pub proof fn law_down_finds_next_match(s: AppState)
    requires
        s.search_query@.len() > 0,
        issues_of(s.current()).len() > 0,
        issues_of(s.current()).len() <= usize::MAX,
    ensures
        ({
            let issues = issues_of(s.current());
            let t = after_down(s);
            let sel = s.selected_issue_idx;
            if exists|k: int| sel < k < issues.len() && #[trigger] issue_matches(issues[k], s.search_query@) {
                &&& sel < t.selected_issue_idx < issues.len()
                &&& issue_matches(issues[t.selected_issue_idx as int], s.search_query@)
                &&& forall|k: int|
                    sel < k < t.selected_issue_idx ==> !#[trigger] issue_matches(issues[k], s.search_query@)
                &&& s.issue_match_list()[t.search_match_idx as int] == t.selected_issue_idx
            } else {
                t == s
            }
        }),
{
    let issues = issues_of(s.current());
    let q = s.search_query@;
    let pred = |k: int| issue_matches(issues[k], q);
    let m = s.issue_match_list();
    let sel = s.selected_issue_idx;
    lemma_match_list(issues.len(), pred);
    lemma_first_above(m, sel);
    let p = first_above(m, sel);
    if exists|k: int| sel < k < issues.len() && #[trigger] issue_matches(issues[k], q) {
        let k = choose|k: int| sel < k < issues.len() && #[trigger] issue_matches(issues[k], q);
        assert(pred(k));
        assert(m.contains(k as usize));
        let j = choose|j: int| 0 <= j < m.len() && m[j] == k as usize;
        assert(p < m.len()) by {
            if p >= m.len() {
                assert(m[j] <= sel);
            }
        }
        assert(pred(m[p] as int));
        assert forall|k2: int| sel < k2 < m[p] implies !#[trigger] issue_matches(issues[k2], q) by {
            if issue_matches(issues[k2], q) {
                assert(pred(k2));
                assert(m.contains(k2 as usize));
                let j2 = choose|j2: int| 0 <= j2 < m.len() && m[j2] == k2 as usize;
                if j2 < p {
                    assert(m[j2] <= sel);
                } else if j2 > p {
                    assert(m[j2] > m[p]);
                }
            }
        }
    } else {
        assert(p == m.len()) by {
            if p < m.len() {
                assert(pred(m[p] as int));
                assert(sel < m[p] as int && (m[p] as int) < issues.len() && issue_matches(issues[m[p] as int], q));
            }
        }
    }
}

/// With a search query, moving up goes to the nearest matching issue above
/// the cursor and records its rank among the matches; when no matching issue
/// lies above, the cursor stays.
pub proof fn law_up_finds_previous_match(s: AppState)
    requires
        s.search_query@.len() > 0,
        issues_of(s.current()).len() <= usize::MAX,
    ensures
        ({
            let issues = issues_of(s.current());
            let t = after_up(s);
            let sel = s.selected_issue_idx;
            if exists|k: int| 0 <= k < sel && k < issues.len() && #[trigger] issue_matches(issues[k], s.search_query@) {
                &&& t.selected_issue_idx < sel
                &&& issue_matches(issues[t.selected_issue_idx as int], s.search_query@)
                &&& forall|k: int|
                    t.selected_issue_idx < k < sel && k < issues.len() ==> !#[trigger] issue_matches(issues[k], s.search_query@)
                &&& s.issue_match_list()[t.search_match_idx as int] == t.selected_issue_idx
            } else {
                t == s
            }
        }),
{
    let issues = issues_of(s.current());
    let q = s.search_query@;
    let pred = |k: int| issue_matches(issues[k], q);
    let m = s.issue_match_list();
    let sel = s.selected_issue_idx;
    lemma_match_list(issues.len(), pred);
    lemma_last_below(m, sel);
    let p = last_below(m, sel);
    if exists|k: int| 0 <= k < sel && k < issues.len() && #[trigger] issue_matches(issues[k], q) {
        let k = choose|k: int| 0 <= k < sel && k < issues.len() && #[trigger] issue_matches(issues[k], q);
        assert(pred(k));
        assert(m.contains(k as usize));
        let j = choose|j: int| 0 <= j < m.len() && m[j] == k as usize;
        assert(p >= 0) by {
            if p < 0 {
                assert(m[j] >= sel);
            }
        }
        assert(pred(m[p] as int));
        assert forall|k2: int| m[p] < k2 < sel && k2 < issues.len() implies !#[trigger] issue_matches(issues[k2], q) by {
            if issue_matches(issues[k2], q) {
                assert(pred(k2));
                assert(m.contains(k2 as usize));
                let j2 = choose|j2: int| 0 <= j2 < m.len() && m[j2] == k2 as usize;
                if j2 > p {
                    assert(m[j2] >= sel);
                } else if j2 < p {
                    assert(m[j2] < m[p]);
                }
            }
        }
    } else {
        assert(p == -1) by {
            if p >= 0 {
                assert(pred(m[p] as int));
                assert(0 <= m[p] as int && (m[p] as int) < sel && (m[p] as int) < issues.len() && issue_matches(issues[m[p] as int], q));
            }
        }
    }
}

/// Stepping to the next match and then to the previous one (`n` then `N`)
/// comes back to the same rank, and both stay among the matches.
pub proof fn law_next_then_previous(idx: usize, len: nat)
    requires
        idx < len,
        idx + len <= usize::MAX,
    ensures
        next_rank(idx, len) < len,
        prev_rank(idx, len) < len,
        prev_rank(next_rank(idx, len), len) == idx,
        next_rank(prev_rank(idx, len), len) == idx,
{
    let n = next_rank(idx, len);
    let p = prev_rank(idx, len);
    if idx + 1 < len {
        assert((idx + 1) % (len as int) == idx + 1) by (nonlinear_arith)
            requires
                0 <= idx + 1 < len,
        ;
    } else {
        assert((idx + 1) % (len as int) == 0) by (nonlinear_arith)
            requires
                idx + 1 == len,
                len > 0,
        ;
    }
    if idx > 0 {
        assert((idx + len - 1) % (len as int) == idx - 1) by (nonlinear_arith)
            requires
                0 < idx < len,
        ;
    } else {
        assert((idx + len - 1) % (len as int) == len - 1) by (nonlinear_arith)
            requires
                idx == 0,
                len > 0,
        ;
    }
    if n > 0 {
        assert((n + len - 1) % (len as int) == n - 1) by (nonlinear_arith)
            requires
                0 < n < len,
        ;
    } else {
        assert((n + len - 1) % (len as int) == len - 1) by (nonlinear_arith)
            requires
                n == 0,
                len > 0,
        ;
    }
    if p + 1 < len {
        assert((p + 1) % (len as int) == p + 1) by (nonlinear_arith)
            requires
                0 <= p + 1 < len,
        ;
    } else {
        assert((p + 1) % (len as int) == 0) by (nonlinear_arith)
            requires
                p + 1 == len,
                len > 0,
        ;
    }
}

/// Once the issues of the current space arrive, the current space has them
/// and no longer needs or awaits them, so no new issue fetch is started.
pub proof fn law_loaded_issues_end_fetch(s: AppState, t: AppState, issues: Vec<Issue>)
    requires
        s.wf(),
        t.spaces@ == with_space_state(
            s.spaces@,
            s.current_name(),
            SpaceState { issues: Some(issues), loading_issues: false, ..state_named(s.spaces@, s.current_name()) },
        ),
        t == (AppState { spaces: t.spaces, selected_issue_idx: 0, status_message: None, ..s }),
    ensures
        t.wf(),
        t.current().issues == Some(issues),
        !t.current().loading_issues,
        t.selected_issue_idx == 0,
{
    lemma_wf_current(s);
    let p = s.current_pos();
    let e = crate::app::SpaceEntry {
        name: s.spaces@[p].name,
        state: SpaceState { issues: Some(issues), loading_issues: false, ..s.spaces@[p].state },
    };
    assert(t.spaces@ == s.spaces@.update(p, e));
    let s2 = AppState { selected_issue_idx: 0, status_message: None, ..s };
    assert(s2.current_pos() == p);
    crate::app::lemma_current_set_to(s2, t, e.state);
}

/// The default status filter selects exactly the ids of the statuses not
/// named "完了" or "Closed".
pub proof fn law_default_filter(statuses: Seq<IssueStatus>)
    ensures
        forall|id: i64|
            default_ids(statuses).contains(id) <==> exists|i: int|
                0 <= i < statuses.len() && #[trigger] statuses[i].id == id && open_by_default(statuses[i]),
    decreases statuses.len(),
{
    if statuses.len() > 0 {
        let rest = statuses.drop_last();
        law_default_filter(rest);
        let r = default_ids(rest);
        assert forall|id: i64|
            default_ids(statuses).contains(id) <==> exists|i: int|
                0 <= i < statuses.len() && #[trigger] statuses[i].id == id && open_by_default(statuses[i]) by {
            let last = statuses.last();
            if default_ids(statuses).contains(id) {
                let d = default_ids(statuses);
                let j = choose|j: int| 0 <= j < d.len() && d[j] == id;
                if j < r.len() {
                    assert(d[j] == r[j]);
                    assert(r.contains(id));
                    let i = choose|i: int| 0 <= i < rest.len() && #[trigger] rest[i].id == id && open_by_default(rest[i]);
                    assert(statuses[i] == rest[i]);
                } else {
                    assert(statuses[statuses.len() - 1] == last);
                }
            }
            if exists|i: int| 0 <= i < statuses.len() && #[trigger] statuses[i].id == id && open_by_default(statuses[i]) {
                let i = choose|i: int| 0 <= i < statuses.len() && #[trigger] statuses[i].id == id && open_by_default(statuses[i]);
                if i < statuses.len() - 1 {
                    assert(rest[i] == statuses[i]);
                    assert(r.contains(id));
                    let j = choose|j: int| 0 <= j < r.len() && r[j] == id;
                    let d = default_ids(statuses);
                    assert(d[j] == id);
                } else {
                    let d = default_ids(statuses);
                    assert(d[r.len() as int] == id);
                }
            }
        }
    }
}

/// Each space keeps its own state across space switches: switching to
/// another configured space and back leaves every space's state (issues,
/// users, statuses, projects and the selected project) as it was, with the
/// first space current again.
pub proof fn law_switch_back_keeps_spaces(s: AppState, t: AppState, u: AppState, other: usize)
    requires
        s.wf(),
        other < s.config.spaces@.len(),
        space_switched(s, t, other),
        space_switched(t, u, s.current_space_idx),
    ensures
        t.wf(),
        u.wf(),
        t.spaces == s.spaces,
        u.spaces == s.spaces,
        u.current_space_idx == s.current_space_idx,
        u.current() == s.current(),
{
}

/// Lengthening an ASCII search query never adds a match: when the query of
/// `longer` is the query of `shorter` with ASCII text appended, every issue,
/// status and assignee row that the longer query matches is matched by the
/// shorter one.  Both match lists are increasing, so the longer query's
/// list is a sublist of the shorter one's.
pub proof fn law_longer_query_never_adds_matches(shorter: AppState, longer: AppState)
    requires
        shorter.search_query@.is_prefix_of(longer.search_query@),
        is_ascii_text(longer.search_query@),
        longer.current() == shorter.current(),
        issues_of(shorter.current()).len() <= usize::MAX,
        statuses_of(shorter.current()).len() <= usize::MAX,
        users_of(shorter.current()).len() < usize::MAX,
    ensures
        forall|x: usize| #[trigger] longer.issue_match_list().contains(x)
            ==> shorter.issue_match_list().contains(x),
        forall|x: usize| #[trigger] longer.status_match_list().contains(x)
            ==> shorter.status_match_list().contains(x),
        forall|x: usize| #[trigger] longer.user_match_list().contains(x)
            ==> shorter.user_match_list().contains(x),
{
    let q1 = shorter.search_query@;
    let q2 = longer.search_query@;
    let t = q2.subrange(q1.len() as int, q2.len() as int);
    assert(q2 =~= q1 + t);
    lemma_ascii_lower_concat(q1, t);
    let l1 = folded(q1);
    let l2 = folded(q2);
    assert(l1 == ascii_lower(q1) && l2 == ascii_lower(q1) + ascii_lower(t));
    assert(l2.subrange(0, 0 + l1.len() as int) =~= l1);
    assert(is_infix(l1, l2));
    lemma_narrower_folded_query(shorter, longer);
}

/// Matching narrows as the lowercased query grows: when the shorter query
/// is a prefix of the longer one and its lowercase occurs in the longer
/// one's lowercase, the longer query matches nothing the shorter one does
/// not.
proof fn lemma_narrower_folded_query(shorter: AppState, longer: AppState)
    requires
        shorter.search_query@.is_prefix_of(longer.search_query@),
        is_infix(folded(shorter.search_query@), folded(longer.search_query@)),
        longer.current() == shorter.current(),
        issues_of(shorter.current()).len() <= usize::MAX,
        statuses_of(shorter.current()).len() <= usize::MAX,
        users_of(shorter.current()).len() < usize::MAX,
    ensures
        forall|x: usize| #[trigger] longer.issue_match_list().contains(x)
            ==> shorter.issue_match_list().contains(x),
        forall|x: usize| #[trigger] longer.status_match_list().contains(x)
            ==> shorter.status_match_list().contains(x),
        forall|x: usize| #[trigger] longer.user_match_list().contains(x)
            ==> shorter.user_match_list().contains(x),
{
    let q1 = shorter.search_query@;
    let q2 = longer.search_query@;
    let l1 = folded(q1);
    let l2 = folded(q2);
    let issues = issues_of(shorter.current());
    let statuses = statuses_of(shorter.current());
    let users = users_of(shorter.current());
    let ip1 = |k: int| issue_matches(issues[k], q1);
    let ip2 = |k: int| issue_matches(issues[k], q2);
    let sp1 = |k: int| status_matches(statuses[k], q1);
    let sp2 = |k: int| status_matches(statuses[k], q2);
    let up1 = |k: int| user_row_matches(users, k, q1);
    let up2 = |k: int| user_row_matches(users, k, q2);
    lemma_match_list(issues.len(), ip1);
    lemma_match_list(issues.len(), ip2);
    lemma_match_list(statuses.len(), sp1);
    lemma_match_list(statuses.len(), sp2);
    lemma_match_list(users.len() + 1, up1);
    lemma_match_list(users.len() + 1, up2);
    assert forall|hay: Seq<char>| #[trigger] is_infix(l2, hay) implies is_infix(l1, hay) by {
        lemma_infix_trans(l1, l2, hay);
    }
    assert(q1.len() > 0 ==> q2.len() > 0);
    assert forall|x: usize| #[trigger] longer.issue_match_list().contains(x) implies shorter.issue_match_list().contains(x) by {
        let m2 = longer.issue_match_list();
        let j = choose|j: int| 0 <= j < m2.len() && m2[j] == x;
        assert(ip2(m2[j] as int));
        assert(ip1(x as int));
        assert(shorter.issue_match_list().contains((x as int) as usize));
    }
    assert forall|x: usize| #[trigger] longer.status_match_list().contains(x) implies shorter.status_match_list().contains(x) by {
        let m2 = longer.status_match_list();
        let j = choose|j: int| 0 <= j < m2.len() && m2[j] == x;
        assert(sp2(m2[j] as int));
        assert(sp1(x as int));
        assert(shorter.status_match_list().contains((x as int) as usize));
    }
    assert forall|x: usize| #[trigger] longer.user_match_list().contains(x) implies shorter.user_match_list().contains(x) by {
        let m2 = longer.user_match_list();
        let j = choose|j: int| 0 <= j < m2.len() && m2[j] == x;
        assert(up2(m2[j] as int));
        assert(up1(x as int));
        assert(shorter.user_match_list().contains((x as int) as usize));
    }
}

/// What the issue search finds: with a non-empty query, an issue of the
/// current space is among the matches exactly when the lowercased query
/// occurs in its lowercased key or in its lowercased summary, whatever
/// characters they hold; with an empty query every issue is.
pub proof fn law_issue_search_finds_key_or_summary(s: AppState, k: int)
    requires
        0 <= k < issues_of(s.current()).len(),
        issues_of(s.current()).len() <= usize::MAX,
    ensures
        s.issue_match_list().contains(k as usize) <==> (s.search_query@.len() == 0 || is_infix(
            folded(s.search_query@),
            folded(issues_of(s.current())[k].issue_key@),
        ) || is_infix(folded(s.search_query@), folded(issues_of(s.current())[k].summary@))),
{
    let issues = issues_of(s.current());
    let q = s.search_query@;
    let pred = |j: int| issue_matches(issues[j], q);
    lemma_match_list(issues.len(), pred);
    let m = s.issue_match_list();
    if m.contains(k as usize) {
        let j = choose|j: int| 0 <= j < m.len() && m[j] == k as usize;
        assert(pred(m[j] as int));
    }
}

/// `r` on the issue list requests the issues of the selected project, with
/// the current assignee filter and status filter.
pub proof fn law_refresh_requests_selected_project(
    s: AppState,
    config: Config,
    t: AppState,
    eff: Effect,
)
    requires
        !s.search_active,
        !s.demo_mode,
        list_key_result(Key::Char('r'), s, config, t, eff),
    ensures
        eff matches Effect::FetchIssues { project_id, assignee_id, status_ids, .. } && requests_project(
            s,
            project_id,
        ) && assignee_id == s.filter_assignee_id && status_ids@ == s.current().filter_status_ids@,
{
}

/// Applying the assignee filter with Enter requests the issues of the
/// selected project with the chosen assignee and the status filter.
pub proof fn law_assignee_apply_requests_selected_project(
    s: AppState,
    config: Config,
    t: AppState,
    eff: Effect,
)
    requires
        !s.search_active,
        !s.demo_mode,
        filter_key_result(Key::Enter, s, config, t, eff),
    ensures
        eff matches Effect::FetchIssues { project_id, status_ids, .. } && requests_project(s, project_id)
            && status_ids@ == s.current().filter_status_ids@,
{
}

/// Applying the status filter with Enter requests the issues of the
/// selected project with the current assignee and the new status filter.
pub proof fn law_status_apply_requests_selected_project(
    s: AppState,
    config: Config,
    t: AppState,
    eff: Effect,
)
    requires
        !s.search_active,
        !s.demo_mode,
        status_key_result(Key::Enter, s, config, t, eff),
    ensures
        eff matches Effect::FetchIssues { project_id, assignee_id, status_ids, .. } && requests_project(
            s,
            project_id,
        ) && assignee_id == s.filter_assignee_id && status_ids@ == s.status_filter_pending@,
{
}

/// Without a search query, `k`/Up on the assignee popup moves the cursor
/// exactly one row up unless it is on the first row, where it stays.
pub proof fn law_assignee_up_moves_one_row(s: AppState, config: Config, key: Key, t: AppState, eff: Effect)
    requires
        key == Key::Char('k') || key == Key::Up,
        !s.search_active,
        s.search_query@.len() == 0,
        filter_key_result(key, s, config, t, eff),
    ensures
        s.filter_cursor_idx > 0 ==> t.filter_cursor_idx + 1 == s.filter_cursor_idx,
        s.filter_cursor_idx == 0 ==> t.filter_cursor_idx == 0,
        t == (AppState { filter_cursor_idx: t.filter_cursor_idx, ..s }),
{
}

/// Without a search query, `j`/Down on the assignee popup moves the cursor
/// exactly one row down unless it is on the last row ("ALL" and then one row
/// per user), where it stays.
pub proof fn law_assignee_down_moves_one_row(s: AppState, config: Config, key: Key, t: AppState, eff: Effect)
    requires
        key == Key::Char('j') || key == Key::Down,
        !s.search_active,
        s.search_query@.len() == 0,
        users_of(s.current()).len() <= usize::MAX,
        filter_key_result(key, s, config, t, eff),
    ensures
        s.filter_cursor_idx < users_of(s.current()).len() ==> t.filter_cursor_idx == s.filter_cursor_idx + 1,
        s.filter_cursor_idx >= users_of(s.current()).len() ==> t.filter_cursor_idx == s.filter_cursor_idx,
        t == (AppState { filter_cursor_idx: t.filter_cursor_idx, ..s }),
{
}

/// Without a search query, `j` then `k` on the assignee popup comes back to
/// the same row whenever the cursor was not on the last row.
pub proof fn law_assignee_down_then_up(
    s: AppState,
    config: Config,
    t: AppState,
    u: AppState,
    e1: Effect,
    e2: Effect,
)
    requires
        !s.search_active,
        s.search_query@.len() == 0,
        s.filter_cursor_idx < users_of(s.current()).len(),
        users_of(s.current()).len() <= usize::MAX,
        filter_key_result(Key::Char('j'), s, config, t, e1),
        filter_key_result(Key::Char('k'), t, config, u, e2),
    ensures
        u == s,
{
}

/// Joining one more text onto a list of at least one text puts the
/// separator and then that text after the join of the list; a single text
/// joins to itself.
pub proof fn law_join_appends(list: Seq<Seq<char>>, x: Seq<char>, sep: Seq<char>)
    ensures
        list.len() >= 1 ==> join(list.push(x), sep) == join(list, sep) + sep + x,
        join(seq![x], sep) == x,
{
    assert(list.push(x).drop_last() =~= list);
}

/// The names a status filter shows are the names of the selected statuses,
/// in status order: the statuses whose id is in the filter, each once.
pub proof fn law_chosen_names_are_selected_statuses(statuses: Seq<IssueStatus>, ids: Seq<i64>)
    ensures
        chosen_names(statuses, ids) == statuses.filter(|st: IssueStatus| ids.contains(st.id)).map_values(
            |st: IssueStatus| st.name@,
        ),
    decreases statuses.len(),
{
    reveal(Seq::filter);
    if statuses.len() > 0 {
        law_chosen_names_are_selected_statuses(statuses.drop_last(), ids);
        let sel = |st: IssueStatus| ids.contains(st.id);
        let nm = |st: IssueStatus| st.name@;
        let f = statuses.drop_last().filter(sel);
        if sel(statuses.last()) {
            assert(f.push(statuses.last()).map_values(nm) =~= f.map_values(nm).push(statuses.last().name@));
        }
    }
}

/// Every text of a list occurs in the join of the list.
proof fn lemma_join_contains(list: Seq<Seq<char>>, sep: Seq<char>, i: int)
    requires
        0 <= i < list.len(),
    ensures
        is_infix(list[i], join(list, sep)),
    decreases list.len(),
{
    let j = join(list, sep);
    if list.len() == 1 {
        assert(j.subrange(0, 0 + list[i].len() as int) =~= list[i]);
    } else if i == list.len() - 1 {
        let start = j.len() - list[i].len();
        assert(j.subrange(start, start + list[i].len()) =~= list[i]);
    } else {
        lemma_join_contains(list.drop_last(), sep, i);
        assert(list.drop_last()[i] == list[i]);
        let pre = join(list.drop_last(), sep);
        assert(is_infix(pre, j)) by {
            assert(j.subrange(0, 0 + pre.len() as int) =~= pre);
        }
        lemma_infix_trans(list[i], pre, j);
    }
}

/// A selected status's name is among the chosen names.
proof fn lemma_selected_name_chosen(statuses: Seq<IssueStatus>, ids: Seq<i64>, i: int)
    requires
        0 <= i < statuses.len(),
        ids.contains(statuses[i].id),
    ensures
        chosen_names(statuses, ids).contains(statuses[i].name@),
    decreases statuses.len(),
{
    let r = chosen_names(statuses.drop_last(), ids);
    if i < statuses.len() - 1 {
        assert(statuses.drop_last()[i] == statuses[i]);
        lemma_selected_name_chosen(statuses.drop_last(), ids, i);
        let k = choose|k: int| 0 <= k < r.len() && r[k] == statuses[i].name@;
        if ids.contains(statuses.last().id) {
            assert(chosen_names(statuses, ids)[k] == r[k]);
        }
    } else {
        assert(chosen_names(statuses, ids)[r.len() as int] == statuses[i].name@);
    }
}

/// When the loaded statuses are only partly selected, the status filter's
/// text names every selected status.
pub proof fn law_partial_filter_text_names_every_selected(statuses: Seq<IssueStatus>, ids: Seq<i64>, i: int)
    requires
        0 <= i < statuses.len(),
        ids.contains(statuses[i].id),
        exists|j: int| 0 <= j < statuses.len() && !ids.contains(#[trigger] statuses[j].id),
    ensures
        is_infix(statuses[i].name@, filter_text(ids, Some(statuses))),
{
    let names = chosen_names(statuses, ids);
    lemma_selected_name_chosen(statuses, ids, i);
    let k = choose|k: int| 0 <= k < names.len() && names[k] == statuses[i].name@;
    lemma_join_contains(names, ", "@, k);
    assert(!crate::status_filter::none_selected(statuses, ids)) by {
        assert(ids.contains(statuses[i].id));
    }
    let j = choose|j: int| 0 <= j < statuses.len() && !ids.contains(#[trigger] statuses[j].id);
    assert(!crate::status_filter::all_selected(statuses, ids)) by {
        assert(!ids.contains(statuses[j].id));
    }
}

/// A failed request ends every load of the space and marks its assignee
/// list as failed only when the space has no users: loaded users stay, and
/// so does their failure mark.
pub proof fn law_api_error_keeps_loaded_users(st: SpaceState)
    ensures
        after_api_error(st).users == st.users,
        st.users is Some ==> after_api_error(st).users_error == st.users_error,
        st.users is None ==> after_api_error(st).users_error,
        !after_api_error(st).loading_issues && !after_api_error(st).loading_projects
            && !after_api_error(st).loading_statuses,
        after_api_error(st).issues == st.issues && after_api_error(st).projects == st.projects,
{
}

/// What the status search finds: with a non-empty query, a status of the
/// current space is among the matches exactly when the lowercased query
/// occurs in its lowercased name; with an empty query every status is.
pub proof fn law_status_search_finds_name(s: AppState, k: int)
    requires
        0 <= k < statuses_of(s.current()).len(),
        statuses_of(s.current()).len() <= usize::MAX,
    ensures
        s.status_match_list().contains(k as usize) <==> (s.search_query@.len() == 0 || is_infix(
            folded(s.search_query@),
            folded(statuses_of(s.current())[k].name@),
        )),
{
    let statuses = statuses_of(s.current());
    let q = s.search_query@;
    let pred = |j: int| status_matches(statuses[j], q);
    lemma_match_list(statuses.len(), pred);
    let m = s.status_match_list();
    if m.contains(k as usize) {
        let j = choose|j: int| 0 <= j < m.len() && m[j] == k as usize;
        assert(pred(m[j] as int));
    }
}

/// What the assignee search finds: with a non-empty query, the "ALL" row
/// (row 0) matches exactly when the lowercased query occurs in "all", and
/// the row of user `k` (row `k + 1`) exactly when it occurs in the user's
/// lowercased name; with an empty query every row matches.
pub proof fn law_assignee_search_finds_name(s: AppState, k: int)
    requires
        0 <= k < users_of(s.current()).len(),
        users_of(s.current()).len() < usize::MAX,
    ensures
        s.user_match_list().contains(0usize) <==> (s.search_query@.len() == 0 || is_infix(
            folded(s.search_query@),
            "all"@,
        )),
        s.user_match_list().contains((k + 1) as usize) <==> (s.search_query@.len() == 0 || is_infix(
            folded(s.search_query@),
            folded(users_of(s.current())[k].name@),
        )),
{
    let users = users_of(s.current());
    let q = s.search_query@;
    let pred = |j: int| user_row_matches(users, j, q);
    lemma_match_list(users.len() + 1, pred);
    let m = s.user_match_list();
    if m.contains(0usize) {
        let j = choose|j: int| 0 <= j < m.len() && m[j] == 0usize;
        assert(pred(m[j] as int));
    }
    if pred(0) {
        assert(m.contains((0int) as usize));
    }
    if m.contains((k + 1) as usize) {
        let j = choose|j: int| 0 <= j < m.len() && m[j] == (k + 1) as usize;
        assert(pred(m[j] as int));
    }
}

} // verus!
