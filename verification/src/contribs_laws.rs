//! Laws of the collected contributions: what gathering over all reply pages
//! gives, and what stays when the period or the list of repositories is
//! widened.

use vstd::prelude::*;
use crate::contribs::{
    grouped, is_wanted, lemma_grouped_names, lemma_next_cursor_source, lemma_pairs_are_wanted,
    lemma_pairs_for_append, names_of, next_cursor, node_result, nodes_result, offers_next_page,
    pairs_for, repos_result, time_le, ContribView, RepoContribs, RepositoryContributions, UtcTime,
};

verus! {

/// `a` is a subsequence of `b`: `b` with some of its items left out.
pub open spec fn is_subseq(a: Seq<ContribView>, b: Seq<ContribView>) -> bool
    decreases b.len(),
{
    if b.len() == 0 {
        a.len() == 0
    } else if a.len() > 0 && a.last() == b.last() {
        is_subseq(a.drop_last(), b.drop_last())
    } else {
        is_subseq(a, b.drop_last())
    }
}

proof fn lemma_subseq_push(a: Seq<ContribView>, b: Seq<ContribView>, c: ContribView)
    requires
        is_subseq(a, b),
    ensures
        is_subseq(a, b.push(c)),
    decreases b.len(), 1int,
{
    assert(b.push(c).drop_last() =~= b);
    if a.len() > 0 && a.last() == c {
        lemma_subseq_drop(a, b);
    }
}

proof fn lemma_subseq_drop(a: Seq<ContribView>, b: Seq<ContribView>)
    requires
        is_subseq(a, b),
        a.len() > 0,
    ensures
        is_subseq(a.drop_last(), b),
    decreases b.len(), 0int,
{
    let a1 = a.drop_last();
    if b.len() > 0 {
        if a.last() == b.last() {
            if a1.len() > 0 && a1.last() == b.last() {
                lemma_subseq_drop(a1, b.drop_last());
            }
        } else {
            lemma_subseq_drop(a, b.drop_last());
            lemma_subseq_push(a1, b.drop_last(), b.last());
            assert(b.drop_last().push(b.last()) =~= b);
        }
    }
}

proof fn lemma_subseq_refl(a: Seq<ContribView>)
    ensures
        is_subseq(a, a),
    decreases a.len(),
{
    if a.len() > 0 {
        lemma_subseq_refl(a.drop_last());
    }
}

proof fn lemma_subseq_append_right(a: Seq<ContribView>, b: Seq<ContribView>, z: Seq<ContribView>)
    requires
        is_subseq(a, b),
    ensures
        is_subseq(a, b + z),
    decreases z.len(),
{
    if z.len() == 0 {
        assert(b + z =~= b);
    } else {
        lemma_subseq_append_right(a, b, z.drop_last());
        lemma_subseq_push(a, b + z.drop_last(), z.last());
        assert((b + z.drop_last()).push(z.last()) =~= b + z);
    }
}

proof fn lemma_subseq_concat(
    x1: Seq<ContribView>,
    x2: Seq<ContribView>,
    y1: Seq<ContribView>,
    y2: Seq<ContribView>,
)
    requires
        is_subseq(x1, x2),
        is_subseq(y1, y2),
    ensures
        is_subseq(x1 + y1, x2 + y2),
    decreases y2.len(),
{
    if y2.len() == 0 {
        assert(x1 + y1 =~= x1);
        assert(x2 + y2 =~= x2);
    } else {
        let b = x2 + y2;
        assert(b.drop_last() =~= x2 + y2.drop_last());
        assert(b.last() == y2.last());
        if y1.len() > 0 && y1.last() == y2.last() {
            lemma_subseq_concat(x1, x2, y1.drop_last(), y2.drop_last());
            assert((x1 + y1).drop_last() =~= x1 + y1.drop_last());
            assert((x1 + y1).last() == y1.last());
        } else {
            lemma_subseq_concat(x1, x2, y1, y2.drop_last());
            lemma_subseq_push(x1 + y1, x2 + y2.drop_last(), y2.last());
            assert((x2 + y2.drop_last()).push(y2.last()) =~= b);
        }
    }
}

proof fn lemma_nodes_widen(
    nodes: Seq<Option<crate::contribs::PullRequest>>,
    f1: UtcTime,
    t1: UtcTime,
    f2: UtcTime,
    t2: UtcTime,
)
    requires
        time_le(f2, f1),
        time_le(t1, t2),
        nodes_result(nodes, f1, t1) is Ok,
        nodes_result(nodes, f2, t2) is Ok,
    ensures
        is_subseq(nodes_result(nodes, f1, t1)->Ok_0, nodes_result(nodes, f2, t2)->Ok_0),
    decreases nodes.len(),
{
    if nodes.len() > 0 {
        let n1 = nodes.drop_last();
        lemma_nodes_widen(n1, f1, t1, f2, t2);
        let l1 = nodes_result(n1, f1, t1)->Ok_0;
        let l2 = nodes_result(n1, f2, t2)->Ok_0;
        match (node_result(nodes.last(), f1, t1), node_result(nodes.last(), f2, t2)) {
            (Ok(Some(c1)), Ok(Some(c2))) => {
                assert(c1 == c2);
                assert(l1.push(c1).drop_last() =~= l1);
                assert(l2.push(c2).drop_last() =~= l2);
            },
            (Ok(None), Ok(Some(c2))) => {
                lemma_subseq_push(l1, l2, c2);
            },
            _ => {},
        }
    } else {
        lemma_subseq_refl(Seq::empty());
    }
}

/// Widening the period and the list of repositories never drops a
/// contribution: where both collections succeed, the pull requests kept for
/// any repository under the narrower choice are a subsequence of those kept
/// under the wider one.
pub proof fn lemma_widening_keeps_contributions(
    user: Seq<RepositoryContributions>,
    repos1: Seq<String>,
    repos2: Seq<String>,
    f1: UtcTime,
    t1: UtcTime,
    f2: UtcTime,
    t2: UtcTime,
    r: Seq<char>,
)
    requires
        forall|name: Seq<char>| is_wanted(repos1, name) ==> #[trigger] is_wanted(repos2, name),
        time_le(f2, f1),
        time_le(t1, t2),
        repos_result(user, repos1, f1, t1) is Ok,
        repos_result(user, repos2, f2, t2) is Ok,
    ensures
        is_subseq(
            pairs_for(repos_result(user, repos1, f1, t1)->Ok_0, r),
            pairs_for(repos_result(user, repos2, f2, t2)->Ok_0, r),
        ),
    decreases user.len(),
{
    if user.len() == 0 {
        lemma_subseq_refl(Seq::empty());
    } else {
        let u1 = user.drop_last();
        let rc = user.last();
        let name = rc.repository_name@;
        lemma_widening_keeps_contributions(u1, repos1, repos2, f1, t1, f2, t2, r);
        let p1 = repos_result(u1, repos1, f1, t1)->Ok_0;
        let p2 = repos_result(u1, repos2, f2, t2)->Ok_0;
        let empty = Seq::<ContribView>::empty();
        if is_wanted(repos2, name) {
            let nodes = rc.nodes->Some_0;
            let cs2 = nodes_result(nodes@, f2, t2)->Ok_0;
            lemma_pairs_for_append(p2, cs2, name, r);
            let y2 = if r == name {
                cs2
            } else {
                empty
            };
            if is_wanted(repos1, name) {
                let cs1 = nodes_result(nodes@, f1, t1)->Ok_0;
                lemma_pairs_for_append(p1, cs1, name, r);
                if r == name {
                    lemma_nodes_widen(nodes@, f1, t1, f2, t2);
                    lemma_subseq_concat(pairs_for(p1, r), pairs_for(p2, r), cs1, cs2);
                } else {
                    lemma_subseq_refl(empty);
                    lemma_subseq_concat(pairs_for(p1, r), pairs_for(p2, r), empty, empty);
                }
            } else {
                lemma_subseq_append_right(pairs_for(p1, r), pairs_for(p2, r), y2);
            }
        }
    }
}

/// The pull requests of `repo` over all `pages`, page after page.
pub open spec fn pages_lookup(pages: Seq<RepoContribs>, repo: Seq<char>) -> Seq<ContribView>
    decreases pages.len(),
{
    if pages.len() == 0 {
        Seq::empty()
    } else {
        pages_lookup(pages.drop_last(), repo) + pages.last().lookup(repo)
    }
}

/// Gathering over all reply pages: where `totals[0]` holds what the first
/// page gave and each `totals[j]` is `totals[j - 1]` with page `j` merged
/// into it (as `merge_repo_contribs` states), the pull requests kept at the
/// end for each repository are those of every page, page after page.
pub proof fn lemma_pages_concatenate(
    totals: Seq<RepoContribs>,
    pages: Seq<RepoContribs>,
    repo: Seq<char>,
)
    requires
        pages.len() > 0,
        totals.len() == pages.len(),
        forall|x: Seq<char>| #[trigger] totals[0].lookup(x) == pages[0].lookup(x),
        forall|j: int, x: Seq<char>|
            0 < j < pages.len() ==> #[trigger] totals[j].lookup(x) == totals[j - 1].lookup(x)
                + pages[j].lookup(x),
    ensures
        totals.last().lookup(repo) == pages_lookup(pages, repo),
    decreases pages.len(),
{
    let n = pages.len() - 1;
    if n == 0 {
        let p = pages.drop_last();
        assert(p =~= Seq::<RepoContribs>::empty());
        assert(pages_lookup(p, repo) + pages[0].lookup(repo) =~= pages[0].lookup(repo));
        assert(totals[0].lookup(repo) == pages[0].lookup(repo));
    } else {
        let t1 = totals.drop_last();
        let p1 = pages.drop_last();
        assert forall|x: Seq<char>| #[trigger] t1[0].lookup(x) == p1[0].lookup(x) by {
            assert(totals[0].lookup(x) == pages[0].lookup(x));
        }
        assert forall|j: int, x: Seq<char>| 0 < j < p1.len() implies #[trigger] t1[j].lookup(x)
            == t1[j - 1].lookup(x) + p1[j].lookup(x) by {
            assert(totals[j].lookup(x) == totals[j - 1].lookup(x) + pages[j].lookup(x));
        }
        lemma_pages_concatenate(t1, p1, repo);
        assert(totals[n].lookup(repo) == totals[n - 1].lookup(repo) + pages[n].lookup(repo));
    }
}

/// Only configured repositories are reported: every pull request collected
/// from a reply, and every repository kept, belongs to a repository whose
/// name is exactly one of `wanted` (a name that merely starts like one does
/// not count).
pub proof fn lemma_only_configured_repositories(
    user: Seq<RepositoryContributions>,
    wanted: Seq<String>,
    from: UtcTime,
    to: UtcTime,
)
    requires
        repos_result(user, wanted, from, to) is Ok,
    ensures
        forall|i: int|
            0 <= i < repos_result(user, wanted, from, to)->Ok_0.len() ==> names_of(wanted).contains(
                (#[trigger] repos_result(user, wanted, from, to)->Ok_0[i]).0,
            ),
        forall|i: int|
            0 <= i < grouped(repos_result(user, wanted, from, to)->Ok_0).len() ==> names_of(
                wanted,
            ).contains((#[trigger] grouped(repos_result(user, wanted, from, to)->Ok_0)[i]).0),
{
    let pairs = repos_result(user, wanted, from, to)->Ok_0;
    lemma_pairs_are_wanted(user, wanted, from, to);
    lemma_grouped_names(pairs);
    let g = grouped(pairs);
    let pn = pairs.map_values(|p: (Seq<char>, ContribView)| p.0);
    assert forall|i: int| 0 <= i < g.len() implies names_of(wanted).contains((#[trigger] g[i]).0) by {
        assert(pn.contains(g[i].0));
        let k = choose|k: int| 0 <= k < pn.len() && pn[k] == g[i].0;
        assert(pairs[k].0 == g[i].0);
    }
}

/// Paging follows configured repositories only: the cursor of the next page
/// is that of the first repository of the reply whose name is exactly one of
/// `wanted` and that has a next page with a cursor; where no such repository
/// is in the reply, there is no next page to fetch.
pub proof fn lemma_cursor_from_configured_repository(
    user: Seq<RepositoryContributions>,
    wanted: Seq<String>,
)
    ensures
        next_cursor(user, wanted) matches Some(c) ==> exists|k: int|
            #![trigger user[k]]
            0 <= k < user.len() && offers_next_page(user, wanted, k)
                && user[k].page_info.end_cursor->Some_0@ == c && forall|k2: int|
                0 <= k2 < k ==> !offers_next_page(user, wanted, k2),
        next_cursor(user, wanted) is None <==> forall|k: int|
            0 <= k < user.len() ==> !offers_next_page(user, wanted, k),
{
    lemma_next_cursor_source(user, wanted);
}

} // verus!
