//! The repositories in the orders in which they are shown: the most
//! starred first, or the most recently pushed first.
//!
//! Both orders are stable: repositories that the order does not tell apart
//! stay in the order in which the state holds them.

use crate::github::models::{GithubRepo, GithubState, RepoView};
use crate::time::earlier;
use vstd::prelude::*;

verus! {

/// Whether `a` has more stars than `b`.
pub open spec fn more_stars(a: RepoView, b: RepoView) -> bool {
    a.stargazers_count > b.stargazers_count
}

/// Whether the last push to `a` came after the last push to `b`. A
/// repository that was never pushed to counts as the oldest.
pub open spec fn pushed_later(a: RepoView, b: RepoView) -> bool {
    match (a.pushed_at, b.pushed_at) {
        (Some(x), Some(y)) => earlier(y, x),
        (Some(_), None) => true,
        _ => false,
    }
}

/// The list `ranked` with `r` put in its place: before the repositories
/// at the end that it comes ahead of, and behind all others.
pub open spec fn inserted(
    ranked: Seq<RepoView>,
    r: RepoView,
    ahead: spec_fn(RepoView, RepoView) -> bool,
) -> Seq<RepoView>
    decreases ranked.len(),
{
    if ranked.len() == 0 {
        seq![r]
    } else if ahead(r, ranked.last()) {
        inserted(ranked.drop_last(), r, ahead).push(ranked.last())
    } else {
        ranked.push(r)
    }
}

/// The repositories put in order one after the other, so that none comes
/// behind one that it is ahead of, and those that the order does not tell
/// apart keep their places among themselves.
pub open spec fn ranked(repos: Seq<RepoView>, ahead: spec_fn(RepoView, RepoView) -> bool) -> Seq<
    RepoView,
>
    decreases repos.len(),
{
    if repos.len() == 0 {
        Seq::empty()
    } else {
        inserted(ranked(repos.drop_last(), ahead), repos.last(), ahead)
    }
}

/// The repositories that are no forks, in their order.
pub open spec fn non_forks(repos: Seq<RepoView>) -> Seq<RepoView>
    decreases repos.len(),
{
    if repos.len() == 0 {
        Seq::empty()
    } else if repos.last().fork {
        non_forks(repos.drop_last())
    } else {
        non_forks(repos.drop_last()).push(repos.last())
    }
}

/// The first `n` of `repos`, or all of them where there are fewer.
pub open spec fn first_n(repos: Seq<RepoView>, n: usize) -> Seq<RepoView> {
    if n >= repos.len() {
        repos
    } else {
        repos.take(n as int)
    }
}

/// The `n` repositories with the most stars among those that are no
/// forks, the most starred first.
pub open spec fn top_by_stars(repos: Seq<RepoView>, n: usize) -> Seq<RepoView> {
    first_n(ranked(non_forks(repos), |a: RepoView, b: RepoView| more_stars(a, b)), n)
}

/// The `n` repositories that were pushed to last, the latest first.
pub open spec fn latest_pushed(repos: Seq<RepoView>, n: usize) -> Seq<RepoView> {
    first_n(ranked(repos, |a: RepoView, b: RepoView| pushed_later(a, b)), n)
}

/// What a list of borrowed repositories stands for.
pub open spec fn views(repos: Seq<&GithubRepo>) -> Seq<RepoView> {
    repos.map_values(|r: &GithubRepo| r@)
}

/// Where `r` is put: at the place `at`, where it is ahead of every
/// repository from there on and not ahead of the one before.
proof fn lemma_inserted_at(
    list: Seq<RepoView>,
    r: RepoView,
    ahead: spec_fn(RepoView, RepoView) -> bool,
    at: int,
)
    requires
        0 <= at <= list.len(),
        forall|j: int| at <= j < list.len() ==> ahead(r, #[trigger] list[j]),
        at > 0 ==> !ahead(r, list[at - 1]),
    ensures
        inserted(list, r, ahead) == list.take(at).push(r) + list.skip(at),
    decreases list.len(),
{
    if list.len() == at {
        if at == 0 {
            assert(list.take(at).push(r) + list.skip(at) =~= seq![r]);
        } else {
            assert(list.take(at).push(r) + list.skip(at) =~= list.push(r));
        }
    } else {
        let shorter = list.drop_last();
        assert(ahead(r, list[list.len() - 1]));
        assert forall|j: int| at <= j < shorter.len() implies ahead(r, #[trigger] shorter[j]) by {
            assert(shorter[j] == list[j]);
        }
        lemma_inserted_at(shorter, r, ahead, at);
        assert((shorter.take(at).push(r) + shorter.skip(at)).push(list.last()) =~= list.take(
            at,
        ).push(r) + list.skip(at));
    }
}

/// Whether being ahead is an order that may leave repositories untold
/// apart: no two are each ahead of the other, and what is ahead of one
/// repository is ahead of any other, or that other is ahead of the one.
pub open spec fn is_ranking(ahead: spec_fn(RepoView, RepoView) -> bool) -> bool {
    &&& forall|a: RepoView, b: RepoView| #[trigger] ahead(a, b) ==> !ahead(b, a)
    &&& forall|a: RepoView, b: RepoView, c: RepoView|
        #![trigger ahead(a, b), ahead(a, c)]
        #![trigger ahead(a, b), ahead(c, b)]
        ahead(a, b) ==> ahead(a, c) || ahead(c, b)
}

/// Whether no repository of the list stands behind one that it is ahead
/// of.
pub open spec fn in_order(list: Seq<RepoView>, ahead: spec_fn(RepoView, RepoView) -> bool) -> bool {
    forall|i: int, j: int| 0 <= i < j < list.len() ==> !ahead(#[trigger] list[j], #[trigger] list[i])
}

/// Having more stars, and having been pushed to later, are such orders.
pub proof fn lemma_rankings()
    ensures
        is_ranking(|a: RepoView, b: RepoView| more_stars(a, b)),
        is_ranking(|a: RepoView, b: RepoView| pushed_later(a, b)),
{
}

/// The ranked list holds every repository as often as the list that was
/// ranked, and is in order.
pub proof fn lemma_ranked_is_ordered(repos: Seq<RepoView>, ahead: spec_fn(RepoView, RepoView) -> bool)
    requires
        is_ranking(ahead),
    ensures
        ranked(repos, ahead).to_multiset() == repos.to_multiset(),
        ranked(repos, ahead).len() == repos.len(),
        in_order(ranked(repos, ahead), ahead),
    decreases repos.len(),
{
    broadcast use vstd::seq_lib::group_to_multiset_ensures;

    if repos.len() == 0 {
        assert(repos =~= Seq::empty());
    } else {
        let before = ranked(repos.drop_last(), ahead);
        let r = repos.last();
        lemma_ranked_is_ordered(repos.drop_last(), ahead);
        lemma_inserted_keeps_order(before, r, ahead);
        assert(repos.drop_last().push(r) =~= repos);
        assert(before.push(r).to_multiset() =~= before.to_multiset().insert(r));
        assert(repos.to_multiset() =~= repos.drop_last().to_multiset().insert(r));
    }
}

/// Putting a repository in its place adds it once and keeps the order.
proof fn lemma_inserted_keeps_order(
    list: Seq<RepoView>,
    r: RepoView,
    ahead: spec_fn(RepoView, RepoView) -> bool,
)
    requires
        is_ranking(ahead),
        in_order(list, ahead),
    ensures
        inserted(list, r, ahead).to_multiset() == list.push(r).to_multiset(),
        inserted(list, r, ahead).len() == list.len() + 1,
        in_order(inserted(list, r, ahead), ahead),
        forall|i: int|
            0 <= i < list.len() + 1 ==> (#[trigger] inserted(list, r, ahead)[i] == r || exists|
                k: int,
            |
                0 <= k < list.len() && list[k] == inserted(list, r, ahead)[i]),
    decreases list.len(),
{
    broadcast use vstd::seq_lib::group_to_multiset_ensures;

    let out = inserted(list, r, ahead);
    if list.len() == 0 {
    } else if ahead(r, list.last()) {
        let shorter = list.drop_last();
        let last = list.last();
        assert forall|i: int, j: int| 0 <= i < j < shorter.len() implies !ahead(
            #[trigger] shorter[j],
            #[trigger] shorter[i],
        ) by {
            assert(shorter[j] == list[j] && shorter[i] == list[i]);
        }
        lemma_inserted_keeps_order(shorter, r, ahead);
        let inner = inserted(shorter, r, ahead);
        assert(out == inner.push(last));
        assert(shorter.push(last) =~= list);
        assert(out.to_multiset() == list.push(r).to_multiset()) by {
            assert(out.to_multiset() =~= inner.to_multiset().insert(last));
            assert(list.push(r).to_multiset() =~= list.to_multiset().insert(r));
            assert(list.to_multiset() =~= shorter.to_multiset().insert(last));
            assert(inner.to_multiset() =~= shorter.to_multiset().insert(r));
        }
        assert forall|i: int, j: int| 0 <= i < j < out.len() implies !ahead(
            #[trigger] out[j],
            #[trigger] out[i],
        ) by {
            if j < list.len() {
                assert(out[j] == inner[j] && out[i] == inner[i]);
            } else {
                assert(out[j] == last);
                assert(out[i] == inner[i]);
                if inner[i] != r {
                    let k = choose|k: int| 0 <= k < shorter.len() && shorter[k] == inner[i];
                    assert(list[k] == inner[i]);
                    assert(!ahead(list[list.len() - 1], list[k]));
                }
            }
        }
        assert forall|i: int| 0 <= i < list.len() + 1 implies (#[trigger] out[i] == r || exists|
            k: int,
        |
            0 <= k < list.len() && list[k] == out[i]) by {
            if i < list.len() {
                assert(out[i] == inner[i]);
                if inner[i] != r {
                    let k = choose|k: int| 0 <= k < shorter.len() && shorter[k] == inner[i];
                    assert(list[k] == out[i]);
                }
            } else {
                assert(list[list.len() - 1] == out[i]);
            }
        }
    } else {
        assert(out == list.push(r));
        assert forall|i: int, j: int| 0 <= i < j < out.len() implies !ahead(
            #[trigger] out[j],
            #[trigger] out[i],
        ) by {
            if j < list.len() {
                assert(out[j] == list[j] && out[i] == list[i]);
            } else {
                assert(out[j] == r && out[i] == list[i]);
                if ahead(r, list[i]) {
                    assert(ahead(r, list.last()) || ahead(list.last(), list[i]));
                    if i < list.len() - 1 {
                        assert(!ahead(list[list.len() - 1], list[i]));
                    }
                }
            }
        }
        assert forall|i: int| 0 <= i < list.len() + 1 implies (#[trigger] out[i] == r || exists|
            k: int,
        |
            0 <= k < list.len() && list[k] == out[i]) by {
            if i < list.len() {
                assert(list[i] == out[i]);
            }
        }
    }
}

/// Whether the last push to `a` came after the last push to `b`.
fn was_pushed_later(a: &GithubRepo, b: &GithubRepo) -> (r: bool)
    ensures
        r == pushed_later(a@, b@),
{
    match (&a.pushed_at, &b.pushed_at) {
        (Some(x), Some(y)) => y.is_before(x),
        (Some(_), None) => true,
        _ => false,
    }
}

/// Puts `r` in its place in a list ranked by stars.
fn place_by_stars<'a>(list: &mut Vec<&'a GithubRepo>, r: &'a GithubRepo)
    ensures
        views(final(list)@) == inserted(
            views(old(list)@),
            r@,
            |a: RepoView, b: RepoView| more_stars(a, b),
        ),
{
    let ghost before = views(list@);
    let ghost ahead = |a: RepoView, b: RepoView| more_stars(a, b);
    let mut at: usize = list.len();
    while at > 0 && r.stargazers_count > list[at - 1].stargazers_count
        invariant
            at <= list.len(),
            before == views(list@),
            forall|j: int| at <= j < before.len() ==> more_stars(r@, #[trigger] before[j]),
        decreases at,
    {
        at -= 1;
    }
    proof {
        assert forall|j: int| at <= j < before.len() implies ahead(r@, #[trigger] before[j]) by {
            assert(more_stars(r@, before[j]));
        }
        lemma_inserted_at(before, r@, ahead, at as int);
    }
    list.insert(at, r);
    assert(views(list@) =~= before.take(at as int).push(r@) + before.skip(at as int));
}

/// Puts `r` in its place in a list ranked by the time of the last push.
fn place_by_push<'a>(list: &mut Vec<&'a GithubRepo>, r: &'a GithubRepo)
    ensures
        views(final(list)@) == inserted(
            views(old(list)@),
            r@,
            |a: RepoView, b: RepoView| pushed_later(a, b),
        ),
{
    let ghost before = views(list@);
    let ghost ahead = |a: RepoView, b: RepoView| pushed_later(a, b);
    let mut at: usize = list.len();
    while at > 0 && was_pushed_later(r, list[at - 1])
        invariant
            at <= list.len(),
            before == views(list@),
            forall|j: int| at <= j < before.len() ==> pushed_later(r@, #[trigger] before[j]),
        decreases at,
    {
        at -= 1;
    }
    proof {
        assert forall|j: int| at <= j < before.len() implies ahead(r@, #[trigger] before[j]) by {
            assert(pushed_later(r@, before[j]));
        }
        lemma_inserted_at(before, r@, ahead, at as int);
    }
    list.insert(at, r);
    assert(views(list@) =~= before.take(at as int).push(r@) + before.skip(at as int));
}

impl GithubState {
    /// The `n` repositories with the most stars among those that are no
    /// forks, the most starred first; all of them where there are fewer.
    pub fn top_repos_by_stars(&self, n: usize) -> (r: Vec<&GithubRepo>)
        ensures
            views(r@) == top_by_stars(self@.repos, n),
    {
        let ghost all = self.repos.deep_view();
        let ghost ahead = |a: RepoView, b: RepoView| more_stars(a, b);
        let mut list: Vec<&GithubRepo> = Vec::new();
        let mut i: usize = 0;
        assert(views(list@) =~= ranked(non_forks(all.take(0)), ahead));
        while i < self.repos.len()
            invariant
                i <= self.repos.len(),
                all == self.repos.deep_view(),
                ahead == |a: RepoView, b: RepoView| more_stars(a, b),
                views(list@) == ranked(non_forks(all.take(i as int)), ahead),
            decreases self.repos.len() - i,
        {
            proof {
                let next = all.take(i + 1);
                assert(next.drop_last() =~= all.take(i as int));
                assert(next.last() == self.repos[i as int]@);
                if !next.last().fork {
                    assert(non_forks(next).drop_last() =~= non_forks(all.take(i as int)));
                }
            }
            if !self.repos[i].fork {
                place_by_stars(&mut list, &self.repos[i]);
            }
            i += 1;
        }
        assert(all.take(i as int) =~= all);
        if n < list.len() {
            list.truncate(n);
            assert(views(list@) =~= ranked(non_forks(all), ahead).take(n as int));
        }
        list
    }

    /// The `n` repositories that were pushed to last, the latest first;
    /// all of them where there are fewer.
    pub fn recently_updated_repos(&self, n: usize) -> (r: Vec<&GithubRepo>)
        ensures
            views(r@) == latest_pushed(self@.repos, n),
    {
        let ghost all = self.repos.deep_view();
        let ghost ahead = |a: RepoView, b: RepoView| pushed_later(a, b);
        let mut list: Vec<&GithubRepo> = Vec::new();
        let mut i: usize = 0;
        assert(views(list@) =~= ranked(all.take(0), ahead));
        while i < self.repos.len()
            invariant
                i <= self.repos.len(),
                all == self.repos.deep_view(),
                ahead == |a: RepoView, b: RepoView| pushed_later(a, b),
                views(list@) == ranked(all.take(i as int), ahead),
            decreases self.repos.len() - i,
        {
            proof {
                let next = all.take(i + 1);
                assert(next.drop_last() =~= all.take(i as int));
                assert(next.last() == self.repos[i as int]@);
            }
            place_by_push(&mut list, &self.repos[i]);
            i += 1;
        }
        assert(all.take(i as int) =~= all);
        if n < list.len() {
            list.truncate(n);
            assert(views(list@) =~= ranked(all, ahead).take(n as int));
        }
        list
    }
}

} // verus!
