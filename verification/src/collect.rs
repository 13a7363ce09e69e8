//! Accumulation steps for the paginated list operations: set-like
//! collections of names and ids (each element kept once) and list-like
//! collections of grants (pages concatenated in order).

use vstd::prelude::*;
use crate::text::str_eq;
use crate::model::{RepoTeam, RepoUser};

verus! {

/// A name set after offering one more name: unchanged when the name is
/// already present, extended at the end otherwise.
pub open spec fn added_name(acc: Seq<Seq<char>>, x: Seq<char>) -> Seq<Seq<char>> {
    if acc.contains(x) {
        acc
    } else {
        acc.push(x)
    }
}

/// A name set after offering a page of names, in order.
pub open spec fn added_names(acc: Seq<Seq<char>>, page: Seq<Seq<char>>) -> Seq<Seq<char>>
    decreases page.len(),
{
    if page.len() == 0 {
        acc
    } else {
        added_name(added_names(acc, page.drop_last()), page.last())
    }
}

/// Whether `x` is already among the collected names.
pub fn contains_name(acc: &Vec<String>, x: &str) -> (r: bool)
    ensures
        r == acc.deep_view().contains(x@),
{
    let ghost dv: Seq<Seq<char>> = acc.deep_view();
    let n = acc.len();
    let mut i: usize = 0;
    while i < n
        invariant
            0 <= i <= n,
            n == acc@.len(),
            dv == acc.deep_view(),
            dv.len() == acc@.len(),
            forall|j: int| 0 <= j < acc@.len() ==> dv[j] == acc@[j]@,
            forall|j: int| 0 <= j < i ==> dv[j] != x@,
        decreases n - i,
    {
        if str_eq(acc[i].as_str(), x) {
            proof {
                assert(dv[i as int] == x@);
            }
            return true;
        }
        i += 1;
    }
    proof {
        if dv.contains(x@) {
            let j = choose|j: int| 0 <= j < dv.len() && dv[j] == x@;
            assert(false);
        }
    }
    false
}

/// Collects a page of names into a set-like accumulator: each name is kept
/// once, first occurrence first.
pub fn accumulate_names(acc: &mut Vec<String>, page: &Vec<String>)
    ensures
        final(acc).deep_view() == added_names(old(acc).deep_view(), page.deep_view()),
{
    let ghost pv: Seq<Seq<char>> = page.deep_view();
    let n = page.len();
    let mut i: usize = 0;
    while i < n
        invariant
            0 <= i <= n,
            n == page@.len(),
            pv == page.deep_view(),
            pv.len() == page@.len(),
            forall|j: int| 0 <= j < page@.len() ==> pv[j] == page@[j]@,
            acc.deep_view() == added_names(old(acc).deep_view(), pv.take(i as int)),
        decreases n - i,
    {
        proof {
            assert(pv.take(i + 1).drop_last() =~= pv.take(i as int));
            assert(pv.take(i + 1).last() == pv[i as int]);
        }
        let ghost before: Seq<Seq<char>> = acc.deep_view();
        if !contains_name(acc, page[i].as_str()) {
            let item: String = page[i].clone();
            acc.push(item);
            proof {
                assert forall|j: int| 0 <= j < acc@.len() implies acc.deep_view()[j] == added_name(
                    before,
                    pv[i as int],
                )[j] by {
                    assert(acc.deep_view()[j] == acc@[j]@);
                }
                assert(acc.deep_view() =~= added_name(before, pv[i as int]));
            }
        }
        i += 1;
    }
    proof {
        assert(pv.take(n as int) =~= pv);
    }
}

/// An id set after offering one more id.
pub open spec fn added_id(acc: Seq<usize>, x: usize) -> Seq<usize> {
    if acc.contains(x) {
        acc
    } else {
        acc.push(x)
    }
}

/// An id set after offering a page of ids, in order.
pub open spec fn added_ids(acc: Seq<usize>, page: Seq<usize>) -> Seq<usize>
    decreases page.len(),
{
    if page.len() == 0 {
        acc
    } else {
        added_id(added_ids(acc, page.drop_last()), page.last())
    }
}

/// Whether `x` is already among the collected ids.
pub fn contains_id(acc: &Vec<usize>, x: usize) -> (r: bool)
    ensures
        r == acc@.contains(x),
{
    let n = acc.len();
    let mut i: usize = 0;
    while i < n
        invariant
            0 <= i <= n,
            n == acc@.len(),
            forall|j: int| 0 <= j < i ==> acc@[j] != x,
        decreases n - i,
    {
        if acc[i] == x {
            return true;
        }
        i += 1;
    }
    proof {
        if acc@.contains(x) {
            let j = choose|j: int| 0 <= j < acc@.len() && acc@[j] == x;
            assert(false);
        }
    }
    false
}

/// Collects a page of owner ids into a set-like accumulator.
pub fn accumulate_ids(acc: &mut Vec<usize>, page: &Vec<usize>)
    ensures
        final(acc)@ == added_ids(old(acc)@, page@),
{
    let n = page.len();
    let mut i: usize = 0;
    while i < n
        invariant
            0 <= i <= n,
            n == page@.len(),
            acc@ == added_ids(old(acc)@, page@.take(i as int)),
        decreases n - i,
    {
        proof {
            assert(page@.take(i + 1).drop_last() =~= page@.take(i as int));
            assert(page@.take(i + 1).last() == page@[i as int]);
        }
        if !contains_id(acc, page[i]) {
            acc.push(page[i]);
        }
        i += 1;
    }
    proof {
        assert(page@.take(n as int) =~= page@);
    }
}

/// Appends a page of team grants to the accumulated list, in order.
pub fn accumulate_repo_teams(acc: &mut Vec<RepoTeam>, page: &mut Vec<RepoTeam>)
    ensures
        final(acc)@ == old(acc)@ + old(page)@,
{
    acc.append(page);
}

/// Appends a page of collaborator grants to the accumulated list, in order.
pub fn accumulate_repo_users(acc: &mut Vec<RepoUser>, page: &mut Vec<RepoUser>)
    ensures
        final(acc)@ == old(acc)@ + old(page)@,
{
    acc.append(page);
}

} // verus!
