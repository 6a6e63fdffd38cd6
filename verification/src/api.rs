//! The Backlog API as the application speaks it: where each resource lives,
//! which query parameters a request carries, which HTTP statuses count as
//! failures, and how the users of several projects are merged.

use vstd::prelude::*;
use crate::models::User;
use crate::text::{push_signed_decimal, signed_decimal};

verus! {

/// The API root of a Backlog host: `https://<host>/api/v2`.
pub open spec fn base_url_text(host: Seq<char>) -> Seq<char> {
    "https://"@ + host + "/api/v2"@
}

/// The API root of a Backlog host.
pub fn base_url(host: &str) -> (res: String)
    ensures
        res@ == base_url_text(host@),
{
    String::from_str("https://").concat(host).concat("/api/v2")
}

/// The issue list resource.
pub fn issues_url(base: &str) -> (res: String)
    ensures
        res@ == base@ + "/issues"@,
{
    String::from_str(base).concat("/issues")
}

/// The resource of one issue, by id or key.
pub fn issue_url(base: &str, id_or_key: &str) -> (res: String)
    ensures
        res@ == base@ + "/issues/"@ + id_or_key@,
{
    String::from_str(base).concat("/issues/").concat(id_or_key)
}

/// The comments of one issue, by id or key.
pub fn comments_url(base: &str, id_or_key: &str) -> (res: String)
    ensures
        res@ == base@ + "/issues/"@ + id_or_key@ + "/comments"@,
{
    String::from_str(base).concat("/issues/").concat(id_or_key).concat("/comments")
}

/// The project list resource.
pub fn projects_url(base: &str) -> (res: String)
    ensures
        res@ == base@ + "/projects"@,
{
    String::from_str(base).concat("/projects")
}

/// The members of one project.
pub fn project_users_url(base: &str, project_id: i64) -> (res: String)
    ensures
        res@ == base@ + "/projects/"@ + signed_decimal(project_id as int) + "/users"@,
{
    let mut s = String::from_str(base).concat("/projects/");
    push_signed_decimal(&mut s, project_id);
    s.concat("/users")
}

/// The statuses of one project.
pub fn statuses_url(base: &str, project_id: i64) -> (res: String)
    ensures
        res@ == base@ + "/projects/"@ + signed_decimal(project_id as int) + "/statuses"@,
{
    let mut s = String::from_str(base).concat("/projects/");
    push_signed_decimal(&mut s, project_id);
    s.concat("/statuses")
}

/// The query parameters that authenticate a request.
pub fn auth_query(api_key: &str) -> (res: Vec<(String, String)>)
    ensures
        res@.len() == 1,
        res@[0].0@ == "apiKey"@,
        res@[0].1@ == api_key@,
{
    let mut res: Vec<(String, String)> = Vec::new();
    res.push((String::from_str("apiKey"), String::from_str(api_key)));
    res
}

/// A list of query parameters seen as pairs of texts.
pub open spec fn params_view(p: Seq<(String, String)>) -> Seq<(Seq<char>, Seq<char>)> {
    p.map_values(|kv: (String, String)| (kv.0@, kv.1@))
}

/// One `statusId[]` parameter per status id, in order.
pub open spec fn status_params(ids: Seq<i64>) -> Seq<(Seq<char>, Seq<char>)>
    decreases ids.len(),
{
    if ids.len() == 0 {
        Seq::empty()
    } else {
        status_params(ids.drop_last()).push(("statusId[]"@, signed_decimal(ids.last() as int)))
    }
}

/// The query of an issue list request: the API key, a count of 100, the
/// project and assignee when given, then one `statusId[]` per status id.
pub open spec fn issues_query_spec(
    api_key: Seq<char>,
    project_id: Option<i64>,
    assignee_id: Option<i64>,
    status_ids: Seq<i64>,
) -> Seq<(Seq<char>, Seq<char>)> {
    let base = seq![("apiKey"@, api_key), ("count"@, "100"@)];
    let with_project = match project_id {
        Some(id) => base.push(("projectId[]"@, signed_decimal(id as int))),
        None => base,
    };
    let with_assignee = match assignee_id {
        Some(id) => with_project.push(("assigneeId[]"@, signed_decimal(id as int))),
        None => with_project,
    };
    with_assignee + status_params(status_ids)
}

fn id_text(id: i64) -> (res: String)
    ensures
        res@ == signed_decimal(id as int),
{
    let mut s = String::new();
    push_signed_decimal(&mut s, id);
    assert(s@ =~= signed_decimal(id as int));
    s
}

/// The query parameters of an issue list request.
pub fn issues_query(
    api_key: &str,
    project_id: Option<i64>,
    assignee_id: Option<i64>,
    status_ids: &[i64],
) -> (res: Vec<(String, String)>)
    ensures
        params_view(res@) == issues_query_spec(api_key@, project_id, assignee_id, status_ids@),
{
    let mut res: Vec<(String, String)> = Vec::new();
    res.push((String::from_str("apiKey"), String::from_str(api_key)));
    res.push((String::from_str("count"), String::from_str("100")));
    if let Some(id) = project_id {
        res.push((String::from_str("projectId[]"), id_text(id)));
    }
    if let Some(id) = assignee_id {
        res.push((String::from_str("assigneeId[]"), id_text(id)));
    }
    let ghost head = params_view(res@);
    assert(head =~= match assignee_id {
        Some(id) => match project_id {
            Some(pid) => seq![("apiKey"@, api_key@), ("count"@, "100"@)].push(
                ("projectId[]"@, signed_decimal(pid as int)),
            ),
            None => seq![("apiKey"@, api_key@), ("count"@, "100"@)],
        }.push(("assigneeId[]"@, signed_decimal(id as int))),
        None => match project_id {
            Some(pid) => seq![("apiKey"@, api_key@), ("count"@, "100"@)].push(
                ("projectId[]"@, signed_decimal(pid as int)),
            ),
            None => seq![("apiKey"@, api_key@), ("count"@, "100"@)],
        },
    });
    let mut i: usize = 0;
    while i < status_ids.len()
        invariant
            i <= status_ids@.len(),
            params_view(res@) == head + status_params(status_ids@.take(i as int)),
        decreases status_ids.len() - i,
    {
        let ghost before = res@;
        res.push((String::from_str("statusId[]"), id_text(status_ids[i])));
        proof {
            let t = status_ids@.take(i + 1);
            assert(t.drop_last() =~= status_ids@.take(i as int));
            assert(params_view(res@) =~= params_view(before).push(
                ("statusId[]"@, signed_decimal(status_ids@[i as int] as int)),
            ));
            assert(head + status_params(t) =~= (head + status_params(status_ids@.take(i as int))).push(
                ("statusId[]"@, signed_decimal(status_ids@[i as int] as int)),
            ));
        }
        i += 1;
    }
    assert(status_ids@.take(status_ids@.len() as int) =~= status_ids@);
    res
}

/// Why a response is not accepted.
#[derive(Clone, Copy, PartialEq, Eq, Structural, Debug)]
pub enum ResponseError {
    /// Status 401: the API key was refused.
    Unauthorized,
    /// Any other client or server error status (400 to 599).
    ErrorStatus,
}

/// How a response with HTTP status `code` is judged: 401 is
/// `Unauthorized`; any other status from 400 to 599 is `ErrorStatus`; the
/// others are accepted.
pub fn check_status(code: u16) -> (res: Result<(), ResponseError>)
    ensures
        code == 401 ==> res == Err::<(), ResponseError>(ResponseError::Unauthorized),
        code != 401 && 400 <= code < 600 ==> res == Err::<(), ResponseError>(ResponseError::ErrorStatus),
        !(400 <= code < 600) ==> res is Ok,
{
    if code == 401 {
        Err(ResponseError::Unauthorized)
    } else if 400 <= code && code < 600 {
        Err(ResponseError::ErrorStatus)
    } else {
        Ok(())
    }
}

/// The message of a refused response.
pub fn response_error_message(e: ResponseError) -> (res: String)
    ensures
        e == ResponseError::Unauthorized ==> res@ == "401 Unauthorized - check your API key"@,
        e == ResponseError::ErrorStatus ==> res@ == "Backlog API returned an error"@,
{
    match e {
        ResponseError::Unauthorized => String::from_str("401 Unauthorized - check your API key"),
        ResponseError::ErrorStatus => String::from_str("Backlog API returned an error"),
    }
}

/// Some user of the list has id `id`.
pub open spec fn has_user_id(users: Seq<User>, id: i64) -> bool {
    exists|i: int| 0 <= i < users.len() && #[trigger] users[i].id == id
}

/// `all` extended with the users of `new`, in order, skipping every user
/// whose id is already present.
pub open spec fn merged_users(all: Seq<User>, new: Seq<User>) -> Seq<User>
    decreases new.len(),
{
    if new.len() == 0 {
        all
    } else {
        let r = merged_users(all, new.drop_last());
        if has_user_id(r, new.last().id) {
            r
        } else {
            r.push(new.last())
        }
    }
}

/// No two users of the list share an id.
pub open spec fn unique_ids(users: Seq<User>) -> bool {
    forall|i: int, j: int| 0 <= i < j < users.len() ==> users[i].id != users[j].id
}

/// Adds the users of one project to the users collected so far, each user
/// id at most once.
pub fn add_new_users(all: &mut Vec<User>, users: Vec<User>)
    ensures
        final(all)@ == merged_users(old(all)@, users@),
{
    let mut i: usize = 0;
    while i < users.len()
        invariant
            i <= users@.len(),
            all@ == merged_users(old(all)@, users@.take(i as int)),
        decreases users.len() - i,
    {
        let id = users[i].id;
        let mut found = false;
        let mut j: usize = 0;
        while j < all.len()
            invariant
                j <= all@.len(),
                found == (exists|k: int| 0 <= k < j && #[trigger] all@[k].id == id),
            decreases all.len() - j,
        {
            if all[j].id == id {
                found = true;
            }
            j += 1;
        }
        proof {
            let t = users@.take(i + 1);
            assert(t.drop_last() =~= users@.take(i as int));
            assert(t.last() == users@[i as int]);
        }
        if !found {
            all.push(users[i].clone());
        }
        i += 1;
    }
    assert(users@.take(users@.len() as int) =~= users@);
}

/// Merging keeps user ids unique.
pub proof fn lemma_merged_unique(all: Seq<User>, new: Seq<User>)
    requires
        unique_ids(all),
    ensures
        unique_ids(merged_users(all, new)),
        forall|id: i64| has_user_id(merged_users(all, new), id) <==> (has_user_id(all, id) || has_user_id(new, id)),
    decreases new.len(),
{
    if new.len() > 0 {
        let rest = new.drop_last();
        lemma_merged_unique(all, rest);
        let r = merged_users(all, rest);
        let m = merged_users(all, new);
        if !has_user_id(r, new.last().id) {
            assert forall|i: int, j: int| 0 <= i < j < m.len() implies m[i].id != m[j].id by {
                if j == r.len() {
                    assert(r[i].id == m[i].id);
                }
            }
        }
        assert forall|id: i64| has_user_id(m, id) <==> (has_user_id(all, id) || has_user_id(new, id)) by {
            if has_user_id(new, id) {
                let k = choose|k: int| 0 <= k < new.len() && #[trigger] new[k].id == id;
                if k < new.len() - 1 {
                    assert(rest[k].id == id);
                    assert(has_user_id(rest, id));
                    assert(has_user_id(r, id));
                    let q = choose|q: int| 0 <= q < r.len() && #[trigger] r[q].id == id;
                    assert(m[q].id == id);
                } else if has_user_id(r, id) {
                    let q = choose|q: int| 0 <= q < r.len() && #[trigger] r[q].id == id;
                    assert(m[q].id == id);
                } else {
                    assert(m[r.len() as int].id == id);
                }
            }
            if has_user_id(all, id) {
                assert(has_user_id(r, id));
                let q = choose|q: int| 0 <= q < r.len() && #[trigger] r[q].id == id;
                assert(m[q].id == id);
            }
            if has_user_id(m, id) {
                let q = choose|q: int| 0 <= q < m.len() && #[trigger] m[q].id == id;
                if q < r.len() {
                    assert(r[q].id == id);
                    if has_user_id(rest, id) {
                        let k = choose|k: int| 0 <= k < rest.len() && #[trigger] rest[k].id == id;
                        assert(new[k].id == id);
                    }
                } else {
                    assert(new[new.len() - 1].id == id);
                }
            }
        }
    }
}

} // verus!
