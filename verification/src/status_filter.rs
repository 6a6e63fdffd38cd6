//! The status filter: which statuses are shown by default, how a status is
//! toggled in the pending selection, and the text that sums up a filter.

use vstd::prelude::*;
use crate::models::IssueStatus;

verus! {

/// The first position of `x` in `s`, or `s.len()` when absent.
pub open spec fn first_pos(s: Seq<i64>, x: i64) -> int
    decreases s.len(),
{
    if s.len() == 0 {
        0
    } else if s[0] == x {
        0
    } else {
        1 + first_pos(s.drop_first(), x)
    }
}

/// `first_pos` is the least position holding `x`, and the length exactly
/// when `x` is absent.
pub proof fn lemma_first_pos(s: Seq<i64>, x: i64)
    ensures
        0 <= first_pos(s, x) <= s.len(),
        first_pos(s, x) < s.len() ==> s[first_pos(s, x)] == x,
        forall|j: int| 0 <= j < first_pos(s, x) ==> #[trigger] s[j] != x,
        s.contains(x) <==> first_pos(s, x) < s.len(),
    decreases s.len(),
{
    if s.len() > 0 && s[0] != x {
        let rest = s.drop_first();
        lemma_first_pos(rest, x);
        assert forall|j: int| 0 <= j < first_pos(s, x) implies #[trigger] s[j] != x by {
            if j > 0 {
                assert(s[j] == rest[j - 1]);
            }
        }
        if s.contains(x) {
            let k = choose|k: int| 0 <= k < s.len() && s[k] == x;
            assert(rest[k - 1] == x);
        }
        if first_pos(s, x) < s.len() {
            assert(s[first_pos(rest, x) + 1] == rest[first_pos(rest, x)]);
        }
    }
}

/// The pending selection after toggling `id`: its first occurrence is
/// removed when present, else it is appended.
pub open spec fn toggled(s: Seq<i64>, id: i64) -> Seq<i64> {
    if s.contains(id) {
        s.remove(first_pos(s, id))
    } else {
        s.push(id)
    }
}

/// Toggles a status id in the pending selection: removes it when present,
/// appends it when absent.
pub fn toggle_status(pending: &mut Vec<i64>, id: i64)
    ensures
        final(pending)@ == toggled(old(pending)@, id),
{
    proof {
        lemma_first_pos(pending@, id);
    }
    let mut i: usize = 0;
    while i < pending.len()
        invariant
            i <= pending@.len(),
            pending@ == old(pending)@,
            forall|j: int| 0 <= j < i ==> #[trigger] pending@[j] != id,
        decreases pending.len() - i,
    {
        if pending[i] == id {
            proof {
                lemma_first_pos(pending@, id);
                assert(pending@.contains(id));
                if (i as int) < first_pos(pending@, id) {
                    assert(pending@[i as int] != id);
                }
                if first_pos(pending@, id) < i {
                    assert(pending@[first_pos(pending@, id)] == id);
                }
                assert(first_pos(pending@, id) == i);
            }
            pending.remove(i);
            return;
        }
        i += 1;
    }
    proof {
        assert(!pending@.contains(id)) by {
            if pending@.contains(id) {
                let k = choose|k: int| 0 <= k < pending@.len() && pending@[k] == id;
                assert(pending@[k] != id);
            }
        }
    }
    pending.push(id);
}

/// Toggling flips whether `id` is selected when it occurs at most once, and
/// leaves every other id's membership as it was.
pub proof fn lemma_toggle_membership(s: Seq<i64>, id: i64)
    requires
        s.no_duplicates(),
    ensures
        toggled(s, id).contains(id) == !s.contains(id),
        forall|x: i64| x != id ==> (toggled(s, id).contains(x) <==> s.contains(x)),
        toggled(s, id).no_duplicates(),
{
    lemma_first_pos(s, id);
    let t = toggled(s, id);
    if s.contains(id) {
        let p = first_pos(s, id);
        assert forall|x: i64| x != id implies (t.contains(x) <==> s.contains(x)) by {
            if s.contains(x) {
                let k = choose|k: int| 0 <= k < s.len() && s[k] == x;
                if k < p {
                    assert(t[k] == x);
                } else {
                    assert(k != p);
                    assert(t[k - 1] == x);
                }
            }
            if t.contains(x) {
                let k = choose|k: int| 0 <= k < t.len() && t[k] == x;
                if k < p {
                    assert(s[k] == x);
                } else {
                    assert(s[k + 1] == x);
                }
            }
        }
        assert(!t.contains(id)) by {
            if t.contains(id) {
                let k = choose|k: int| 0 <= k < t.len() && t[k] == id;
                if k < p {
                    assert(s[k] == id);
                } else {
                    assert(s[k + 1] == id);
                }
            }
        }
        assert forall|a: int, b: int| 0 <= a < t.len() && 0 <= b < t.len() && a != b implies t[a]
            != t[b] by {
            let sa = if a < p { a } else { a + 1 };
            let sb = if b < p { b } else { b + 1 };
            assert(t[a] == s[sa]);
            assert(t[b] == s[sb]);
        }
    } else {
        assert(t[s.len() as int] == id);
        assert forall|x: i64| x != id implies (t.contains(x) <==> s.contains(x)) by {
            if s.contains(x) {
                let k = choose|k: int| 0 <= k < s.len() && s[k] == x;
                assert(t[k] == x);
            }
            if t.contains(x) {
                let k = choose|k: int| 0 <= k < t.len() && t[k] == x;
                assert(k < s.len());
                assert(s[k] == x);
            }
        }
        assert forall|a: int, b: int| 0 <= a < t.len() && 0 <= b < t.len() && a != b implies t[a]
            != t[b] by {
            if a == s.len() {
                assert(s.contains(t[b]));
            } else if b == s.len() {
                assert(s.contains(t[a]));
            }
        }
    }
}

/// Toggling an absent id twice gives back the selection unchanged.
pub proof fn lemma_toggle_twice_absent(s: Seq<i64>, id: i64)
    requires
        !s.contains(id),
    ensures
        toggled(toggled(s, id), id) == s,
{
    let t = s.push(id);
    assert(t.contains(id)) by {
        assert(t[s.len() as int] == id);
    }
    lemma_first_pos(t, id);
    assert(first_pos(t, id) == s.len()) by {
        if first_pos(t, id) < s.len() {
            assert(s[first_pos(t, id)] == id);
        }
    }
    assert(t.remove(s.len() as int) =~= s);
}

/// A status is shown by default unless it is named "完了" or "Closed".
pub open spec fn open_by_default(status: IssueStatus) -> bool {
    status.name@ != "完了"@ && status.name@ != "Closed"@
}

/// The ids of the statuses shown by default, in list order.
pub open spec fn default_ids(statuses: Seq<IssueStatus>) -> Seq<i64>
    decreases statuses.len(),
{
    if statuses.len() == 0 {
        Seq::empty()
    } else {
        let r = default_ids(statuses.drop_last());
        if open_by_default(statuses.last()) {
            r.push(statuses.last().id)
        } else {
            r
        }
    }
}

/// The ids of the statuses shown by default: every status but those named
/// "完了" or "Closed", in list order.
pub fn default_status_ids(statuses: &Vec<IssueStatus>) -> (res: Vec<i64>)
    ensures
        res@ == default_ids(statuses@),
{
    let done = String::from_str("完了");
    let closed = String::from_str("Closed");
    let mut res: Vec<i64> = Vec::new();
    let mut i: usize = 0;
    while i < statuses.len()
        invariant
            i <= statuses@.len(),
            done@ == "完了"@,
            closed@ == "Closed"@,
            res@ == default_ids(statuses@.take(i as int)),
        decreases statuses.len() - i,
    {
        let s = &statuses[i];
        let ghost before = res@;
        if s.name != done && s.name != closed {
            res.push(s.id);
        }
        proof {
            let t = statuses@.take(i + 1);
            assert(t.drop_last() =~= statuses@.take(i as int));
            assert(t.last() == statuses@[i as int]);
        }
        i += 1;
    }
    assert(statuses@.take(statuses@.len() as int) =~= statuses@);
    res
}

/// The names of the statuses whose id is in `ids`, in status order.
pub open spec fn chosen_names(statuses: Seq<IssueStatus>, ids: Seq<i64>) -> Seq<Seq<char>>
    decreases statuses.len(),
{
    if statuses.len() == 0 {
        Seq::empty()
    } else {
        let r = chosen_names(statuses.drop_last(), ids);
        if ids.contains(statuses.last().id) {
            r.push(statuses.last().name@)
        } else {
            r
        }
    }
}

/// The texts of `list` joined with `sep` between consecutive ones.
pub open spec fn join(list: Seq<Seq<char>>, sep: Seq<char>) -> Seq<char>
    decreases list.len(),
{
    if list.len() == 0 {
        Seq::empty()
    } else if list.len() == 1 {
        list[0]
    } else {
        join(list.drop_last(), sep) + sep + list.last()
    }
}

/// Every status's id is in `ids`.
pub open spec fn all_selected(statuses: Seq<IssueStatus>, ids: Seq<i64>) -> bool {
    forall|i: int| 0 <= i < statuses.len() ==> ids.contains(#[trigger] statuses[i].id)
}

/// No status's id is in `ids`.
pub open spec fn none_selected(statuses: Seq<IssueStatus>, ids: Seq<i64>) -> bool {
    forall|i: int| 0 <= i < statuses.len() ==> !ids.contains(#[trigger] statuses[i].id)
}

/// The text summing up a status filter: "読み込み中..." while statuses are
/// not loaded; "ALL" when every status is selected (so also when the
/// project has none); "(なし)" when none is; else the selected statuses'
/// names, in status order, separated by ", ".
pub open spec fn filter_text(ids: Seq<i64>, statuses: Option<Seq<IssueStatus>>) -> Seq<char> {
    match statuses {
        None => "読み込み中..."@,
        Some(s) => if all_selected(s, ids) {
            "ALL"@
        } else if none_selected(s, ids) {
            "(なし)"@
        } else {
            join(chosen_names(s, ids), ", "@)
        },
    }
}

fn slice_contains(ids: &[i64], x: i64) -> (res: bool)
    ensures
        res == ids@.contains(x),
{
    let mut i: usize = 0;
    while i < ids.len()
        invariant
            i <= ids@.len(),
            forall|j: int| 0 <= j < i ==> ids@[j] != x,
        decreases ids.len() - i,
    {
        if ids[i] == x {
            assert(ids@[i as int] == x);
            return true;
        }
        i += 1;
    }
    false
}

/// The text summing up a status filter (see `filter_text`).
pub fn status_filter_text(filter_ids: &[i64], statuses: &Option<Vec<IssueStatus>>) -> (res: String)
    ensures
        res@ == filter_text(
            filter_ids@,
            match statuses {
                Some(v) => Some(v@),
                None => None,
            },
        ),
{
    let statuses = match statuses {
        Some(s) => s,
        None => {
            return String::from_str("読み込み中...");
        },
    };
    let mut res = String::new();
    let mut none_yet = true;
    let mut all = true;
    let mut i: usize = 0;
    while i < statuses.len()
        invariant
            i <= statuses@.len(),
            none_yet == (chosen_names(statuses@.take(i as int), filter_ids@).len() == 0),
            none_yet == (forall|j: int| 0 <= j < i ==> !filter_ids@.contains(#[trigger] statuses@[j].id)),
            all == (forall|j: int| 0 <= j < i ==> filter_ids@.contains(#[trigger] statuses@[j].id)),
            res@ == join(chosen_names(statuses@.take(i as int), filter_ids@), ", "@),
        decreases statuses.len() - i,
    {
        let ghost names = chosen_names(statuses@.take(i as int), filter_ids@);
        proof {
            let t = statuses@.take(i + 1);
            assert(t.drop_last() =~= statuses@.take(i as int));
            assert(t.last() == statuses@[i as int]);
        }
        if slice_contains(filter_ids, statuses[i].id) {
            assert(filter_ids@.contains(statuses@[i as int].id));
            if !none_yet {
                res.append(", ");
            }
            res.append(statuses[i].name.as_str());
            none_yet = false;
            proof {
                let n2 = names.push(statuses@[i as int].name@);
                assert(n2.drop_last() =~= names);
                if names.len() == 0 {
                    assert(join(n2, ", "@) == n2[0]);
                }
            }
        } else {
            all = false;
        }
        i += 1;
    }
    assert(statuses@.take(statuses@.len() as int) =~= statuses@);
    if all {
        return String::from_str("ALL");
    }
    if none_yet {
        return String::from_str("(なし)");
    }
    res
}

} // verus!
