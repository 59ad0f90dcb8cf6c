use vstd::prelude::*;
use crate::text::{find_char_from, first_char_from, str_eq, to_chars};

verus! {

/// A moment in UTC: whole seconds since 1970-01-01T00:00:00Z and the
/// nanoseconds within that second (up to two seconds' worth for a leap second).
#[derive(Clone, Copy)]
pub struct UtcTime {
    pub secs: i64,
    pub nanos: u32,
}

/// `a` is not later than `b`.
pub open spec fn time_le(a: UtcTime, b: UtcTime) -> bool {
    a.secs < b.secs || (a.secs == b.secs && a.nanos <= b.nanos)
}

/// Whether `a` is not later than `b`.
pub fn time_leq(a: &UtcTime, b: &UtcTime) -> (res: bool)
    ensures
        res == time_le(*a, *b),
{
    a.secs < b.secs || (a.secs == b.secs && a.nanos <= b.nanos)
}

/// What `DateTime::<Utc>::from_str` makes of a text, as seconds and
/// nanoseconds: it accepts RFC 3339 and a relaxed form of it.
pub uninterp spec fn rfc3339_instant(text: Seq<char>) -> Option<(i64, u32)>;

/// The text that formatting with "%Y-%m-%d" gives for the moment with these
/// seconds and nanoseconds, or `None` where `DateTime::<Utc>::from_timestamp`
/// refuses them.
pub uninterp spec fn utc_date_text(secs: i64, nanos: u32) -> Option<Seq<char>>;

/// Calls `<DateTime<Utc> as FromStr>::from_str` and reads the moment back
/// with `timestamp` and `timestamp_subsec_nanos`. Claims that the result is the
/// named parse of the text, and that a moment read back from a parsed date
/// is one that `from_timestamp` accepts again (chrono keeps every value it
/// builds within the range that `from_timestamp` checks).
#[verifier::external_body]
pub(crate) fn parse_utc(text: &str) -> (res: Option<(i64, u32)>)
    ensures
        res == rfc3339_instant(text@),
        res matches Some(t) ==> utc_date_text(t.0, t.1) is Some,
{
    <chrono::DateTime<chrono::Utc> as std::str::FromStr>::from_str(text).ok().map(
        |d| (d.timestamp(), d.timestamp_subsec_nanos()),
    )
}

/// Calls `DateTime::<Utc>::from_timestamp` and formats the moment with
/// "%Y-%m-%d"; claims only that the result is the named text.
#[verifier::external_body]
pub(crate) fn format_utc_date(secs: i64, nanos: u32) -> (res: Option<String>)
    ensures
        match res {
            Some(t) => utc_date_text(secs, nanos) == Some(t@),
            None => utc_date_text(secs, nanos) is None,
        },
{
    chrono::DateTime::<chrono::Utc>::from_timestamp(secs, nanos).map(
        |d| d.format("%Y-%m-%d").to_string(),
    )
}

/// A merged pull request.
pub struct Contrib {
    pub merge_date: UtcTime,
    pub id: i64,
    pub title: String,
}

/// A merged pull request as a value.
pub struct ContribView {
    pub merge_date: UtcTime,
    pub id: i64,
    pub title: Seq<char>,
}

impl View for Contrib {
    type V = ContribView;

    open spec fn view(&self) -> ContribView {
        ContribView { merge_date: self.merge_date, id: self.id, title: self.title@ }
    }
}

/// The merged pull requests of `entries` filed under `repo`, in order.
pub open spec fn contribs_of(entries: Seq<(Seq<char>, Seq<ContribView>)>, repo: Seq<char>) -> Seq<
    ContribView,
>
    decreases entries.len(),
{
    if entries.len() == 0 {
        Seq::empty()
    } else {
        contribs_of(entries.drop_last(), repo) + if entries.last().0 == repo {
            entries.last().1
        } else {
            Seq::empty()
        }
    }
}

/// The pull requests of `pairs` (repository, pull request) that belong to `repo`, in order.
pub open spec fn pairs_for(pairs: Seq<(Seq<char>, ContribView)>, repo: Seq<char>) -> Seq<
    ContribView,
>
    decreases pairs.len(),
{
    if pairs.len() == 0 {
        Seq::empty()
    } else {
        pairs_for(pairs.drop_last(), repo) + if pairs.last().0 == repo {
            seq![pairs.last().1]
        } else {
            Seq::empty()
        }
    }
}

/// No repository is named twice.
pub open spec fn unique_names(entries: Seq<(Seq<char>, Seq<ContribView>)>) -> bool {
    forall|i: int, j: int| 0 <= i < j < entries.len() ==> entries[i].0 != entries[j].0
}

/// Every repository kept has at least one pull request.
pub open spec fn nonempty_lists(entries: Seq<(Seq<char>, Seq<ContribView>)>) -> bool {
    forall|i: int| 0 <= i < entries.len() ==> (#[trigger] entries[i]).1.len() > 0
}

/// The entries after filing `extra` under `repo`: nothing changes when
/// `extra` is empty; a repository already kept gets `extra` after its pull
/// requests; a new repository is appended with `extra`.
pub open spec fn add_entry(
    entries: Seq<(Seq<char>, Seq<ContribView>)>,
    repo: Seq<char>,
    extra: Seq<ContribView>,
) -> Seq<(Seq<char>, Seq<ContribView>)> {
    if extra.len() == 0 {
        entries
    } else if exists|i: int| 0 <= i < entries.len() && entries[i].0 == repo {
        let i = choose|i: int| 0 <= i < entries.len() && entries[i].0 == repo;
        entries.update(i, (repo, entries[i].1 + extra))
    } else {
        entries.push((repo, extra))
    }
}

/// The entries after filing each of `more`, in order.
pub open spec fn add_entries(
    entries: Seq<(Seq<char>, Seq<ContribView>)>,
    more: Seq<(Seq<char>, Seq<ContribView>)>,
) -> Seq<(Seq<char>, Seq<ContribView>)>
    decreases more.len(),
{
    if more.len() == 0 {
        entries
    } else {
        add_entry(add_entries(entries, more.drop_last()), more.last().0, more.last().1)
    }
}

/// The (repository, pull request) pairs grouped by repository: repositories
/// in the order in which they first appear, each with its pull requests in
/// order.
pub open spec fn grouped(pairs: Seq<(Seq<char>, ContribView)>) -> Seq<(Seq<char>, Seq<ContribView>)>
    decreases pairs.len(),
{
    if pairs.len() == 0 {
        Seq::empty()
    } else {
        add_entry(grouped(pairs.drop_last()), pairs.last().0, seq![pairs.last().1])
    }
}

proof fn lemma_add_entry_at(
    entries: Seq<(Seq<char>, Seq<ContribView>)>,
    repo: Seq<char>,
    extra: Seq<ContribView>,
    i: int,
)
    requires
        unique_names(entries),
        0 <= i < entries.len(),
        entries[i].0 == repo,
        extra.len() > 0,
    ensures
        add_entry(entries, repo, extra) == entries.update(i, (repo, entries[i].1 + extra)),
{
    assert(exists|k: int| 0 <= k < entries.len() && entries[k].0 == repo);
    let j = choose|k: int| 0 <= k < entries.len() && entries[k].0 == repo;
    if j < i {
        assert(entries[j].0 != entries[i].0);
    } else if i < j {
        assert(entries[i].0 != entries[j].0);
    }
}

proof fn lemma_add_entry_absent(
    entries: Seq<(Seq<char>, Seq<ContribView>)>,
    repo: Seq<char>,
    extra: Seq<ContribView>,
)
    requires
        forall|k: int| 0 <= k < entries.len() ==> entries[k].0 != repo,
        extra.len() > 0,
    ensures
        add_entry(entries, repo, extra) == entries.push((repo, extra)),
{
}

proof fn lemma_add_entry_keeps(
    entries: Seq<(Seq<char>, Seq<ContribView>)>,
    repo: Seq<char>,
    extra: Seq<ContribView>,
)
    requires
        unique_names(entries),
        nonempty_lists(entries),
    ensures
        unique_names(add_entry(entries, repo, extra)),
        nonempty_lists(add_entry(entries, repo, extra)),
{
    if extra.len() > 0 {
        if exists|i: int| 0 <= i < entries.len() && entries[i].0 == repo {
            let i = choose|i: int| 0 <= i < entries.len() && entries[i].0 == repo;
            lemma_add_entry_at(entries, repo, extra, i);
            let u = entries.update(i, (repo, entries[i].1 + extra));
            assert forall|a: int, b: int| 0 <= a < b < u.len() implies u[a].0 != u[b].0 by {
                assert(entries[a].0 != entries[b].0);
            }
            assert forall|a: int| 0 <= a < u.len() implies (#[trigger] u[a]).1.len() > 0 by {
                assert(entries[a].1.len() > 0);
            }
        } else {
            let u = entries.push((repo, extra));
            assert forall|a: int, b: int| 0 <= a < b < u.len() implies u[a].0 != u[b].0 by {
                if b < entries.len() {
                    assert(entries[a].0 != entries[b].0);
                }
            }
            assert forall|a: int| 0 <= a < u.len() implies (#[trigger] u[a]).1.len() > 0 by {
                if a < entries.len() {
                    assert(entries[a].1.len() > 0);
                }
            }
        }
    }
}

proof fn lemma_add_entry_twice(
    entries: Seq<(Seq<char>, Seq<ContribView>)>,
    repo: Seq<char>,
    a: Seq<ContribView>,
    b: Seq<ContribView>,
)
    requires
        unique_names(entries),
        b.len() > 0,
    ensures
        add_entry(add_entry(entries, repo, a), repo, b) == add_entry(entries, repo, a + b),
{
    if a.len() == 0 {
        assert(a + b =~= b);
    } else if exists|i: int| 0 <= i < entries.len() && entries[i].0 == repo {
        let i = choose|i: int| 0 <= i < entries.len() && entries[i].0 == repo;
        lemma_add_entry_at(entries, repo, a, i);
        lemma_add_entry_at(entries, repo, a + b, i);
        let u = entries.update(i, (repo, entries[i].1 + a));
        assert(unique_names(u)) by {
            assert forall|x: int, y: int| 0 <= x < y < u.len() implies u[x].0 != u[y].0 by {
                assert(entries[x].0 != entries[y].0);
            }
        }
        lemma_add_entry_at(u, repo, b, i);
        assert(entries[i].1 + a + b =~= entries[i].1 + (a + b));
        assert(u.update(i, (repo, u[i].1 + b)) =~= entries.update(i, (repo, entries[i].1 + (a + b))));
    } else {
        let u = entries.push((repo, a));
        assert(unique_names(u)) by {
            assert forall|x: int, y: int| 0 <= x < y < u.len() implies u[x].0 != u[y].0 by {
                if y < entries.len() {
                    assert(entries[x].0 != entries[y].0);
                }
            }
        }
        lemma_add_entry_at(u, repo, b, entries.len() as int);
        assert(u.update(entries.len() as int, (repo, a + b)) =~= entries.push((repo, a + b)));
    }
}

proof fn lemma_grouped_block(
    pairs: Seq<(Seq<char>, ContribView)>,
    name: Seq<char>,
    cs: Seq<ContribView>,
)
    requires
        unique_names(grouped(pairs)),
        nonempty_lists(grouped(pairs)),
    ensures
        grouped(pairs + cs.map_values(|c: ContribView| (name, c))) == add_entry(grouped(pairs), name, cs),
    decreases cs.len(),
{
    let m = cs.map_values(|c: ContribView| (name, c));
    if cs.len() == 0 {
        assert(pairs + m =~= pairs);
    } else {
        let cs1 = cs.drop_last();
        let m1 = cs1.map_values(|c: ContribView| (name, c));
        lemma_grouped_block(pairs, name, cs1);
        assert((pairs + m).drop_last() =~= pairs + m1);
        assert((pairs + m).last() == (name, cs.last()));
        lemma_add_entry_twice(grouped(pairs), name, cs1, seq![cs.last()]);
        assert(cs1 + seq![cs.last()] =~= cs);
    }
}

/// Merged pull requests grouped by repository: each repository once, and
/// only with at least one pull request.
pub struct RepoContribs {
    names: Vec<String>,
    lists: Vec<Vec<Contrib>>,
}

impl RepoContribs {
    /// The repositories with their pull requests, in the order kept.
    pub closed spec fn entries(&self) -> Seq<(Seq<char>, Seq<ContribView>)> {
        Seq::new(
            self.names@.len(),
            |i: int| (self.names@[i]@, self.lists@[i]@.map_values(|c: Contrib| c@)),
        )
    }

    /// Each repository appears once, with at least one pull request.
    pub closed spec fn wf(&self) -> bool {
        &&& self.names@.len() == self.lists@.len()
        &&& forall|i: int, j: int|
            0 <= i < j < self.names@.len() ==> self.names@[i]@ != self.names@[j]@
        &&& forall|i: int| 0 <= i < self.lists@.len() ==> (#[trigger] self.lists@[i])@.len() > 0
    }

    /// A well-formed collection names each repository once and keeps only
    /// repositories that have pull requests.
    pub proof fn lemma_wf_entries(&self)
        requires
            self.wf(),
        ensures
            unique_names(self.entries()),
            nonempty_lists(self.entries()),
    {
        let e = self.entries();
        assert forall|i: int| 0 <= i < e.len() implies (#[trigger] e[i]).1.len() > 0 by {
            assert(self.lists@[i]@.len() > 0);
        }
    }

    /// The pull requests kept for `repo`.
    pub open spec fn lookup(&self, repo: Seq<char>) -> Seq<ContribView> {
        contribs_of(self.entries(), repo)
    }

    /// No repository and no pull request.
    pub fn new() -> (res: Self)
        ensures
            res.wf(),
            res.entries() == Seq::<(Seq<char>, Seq<ContribView>)>::empty(),
    {
        let res = RepoContribs { names: Vec::new(), lists: Vec::new() };
        assert(res.entries() =~= Seq::<(Seq<char>, Seq<ContribView>)>::empty());
        res
    }

    /// The number of repositories.
    pub fn len(&self) -> (n: usize)
        requires
            self.wf(),
        ensures
            n == self.entries().len(),
    {
        self.names.len()
    }

    /// The name of the `i`-th repository.
    pub fn repo_at(&self, i: usize) -> (r: &str)
        requires
            self.wf(),
            i < self.entries().len(),
        ensures
            r@ == self.entries()[i as int].0,
    {
        self.names[i].as_str()
    }

    /// The pull requests of the `i`-th repository.
    pub fn contribs_at(&self, i: usize) -> (l: &Vec<Contrib>)
        requires
            self.wf(),
            i < self.entries().len(),
        ensures
            l@.map_values(|c: Contrib| c@) == self.entries()[i as int].1,
    {
        &self.lists[i]
    }

    fn position(&self, repo: &str) -> (res: Option<usize>)
        requires
            self.wf(),
        ensures
            match res {
                Some(i) => i < self.names@.len() && self.names@[i as int]@ == repo@,
                None => forall|j: int| 0 <= j < self.names@.len() ==> self.names@[j]@ != repo@,
            },
    {
        let mut i: usize = 0;
        while i < self.names.len()
            invariant
                forall|j: int| 0 <= j < i ==> self.names@[j]@ != repo@,
            decreases self.names@.len() - i,
        {
            if str_eq(self.names[i].as_str(), repo) {
                return Some(i);
            }
            i = i + 1;
        }
        None
    }

    /// Files the pull requests `extra` under `repo`, after those already kept;
    /// a repository is added only with pull requests.
    pub fn add(&mut self, repo: &str, extra: Vec<Contrib>)
        requires
            old(self).wf(),
        ensures
            final(self).wf(),
            final(self).entries() == add_entry(
                old(self).entries(),
                repo@,
                extra@.map_values(|c: Contrib| c@),
            ),
            forall|r: Seq<char>|
                #[trigger] final(self).lookup(r) == old(self).lookup(r) + if r == repo@ {
                    extra@.map_values(|c: Contrib| c@)
                } else {
                    Seq::empty()
                },
    {
        let ghost old_entries = self.entries();
        let ghost ev = extra@.map_values(|c: Contrib| c@);
        proof {
            self.lemma_wf_entries();
        }
        if extra.len() == 0 {
            proof {
                assert(ev =~= Seq::<ContribView>::empty());
                assert forall|r: Seq<char>| #[trigger]
                    self.lookup(r) == contribs_of(old_entries, r) + if r == repo@ {
                        ev
                    } else {
                        Seq::empty()
                    } by {
                    assert(contribs_of(old_entries, r) + Seq::<ContribView>::empty() =~= contribs_of(
                        old_entries,
                        r,
                    ));
                }
            }
            return;
        }
        match self.position(repo) {
            Some(i) => {
                let mut extra = extra;
                let mut list = Vec::new();
                std::mem::swap(&mut list, &mut self.lists[i]);
                let ghost old_list = list@;
                list.append(&mut extra);
                self.lists[i] = list;
                proof {
                    assert(self.lists@[i as int]@.map_values(|c: Contrib| c@) =~= old_list.map_values(
                        |c: Contrib| c@,
                    ) + ev);
                    assert(self.entries() =~= old_entries.update(
                        i as int,
                        (old_entries[i as int].0, old_entries[i as int].1 + ev),
                    ));
                    lemma_add_entry_at(old_entries, repo@, ev, i as int);
                    assert forall|r: Seq<char>| #[trigger]
                        self.lookup(r) == contribs_of(old_entries, r) + if r == repo@ {
                            ev
                        } else {
                            Seq::empty()
                        } by {
                        lemma_contribs_of_extend(old_entries, i as int, ev, r);
                    }
                }
            },
            None => {
                self.names.push(String::from_str(repo));
                self.lists.push(extra);
                proof {
                    assert(self.entries() =~= old_entries.push((repo@, ev)));
                    lemma_add_entry_absent(old_entries, repo@, ev);
                    assert forall|r: Seq<char>| #[trigger]
                        self.lookup(r) == contribs_of(old_entries, r) + if r == repo@ {
                            ev
                        } else {
                            Seq::empty()
                        } by {
                        assert(old_entries.push((repo@, ev)).drop_last() =~= old_entries);
                    }
                }
            },
        }
    }
}

proof fn lemma_contribs_of_extend(
    entries: Seq<(Seq<char>, Seq<ContribView>)>,
    i: int,
    extra: Seq<ContribView>,
    r: Seq<char>,
)
    requires
        0 <= i < entries.len(),
        forall|j: int| i < j < entries.len() ==> entries[j].0 != entries[i].0,
    ensures
        contribs_of(entries.update(i, (entries[i].0, entries[i].1 + extra)), r) == contribs_of(
            entries,
            r,
        ) + if r == entries[i].0 {
            extra
        } else {
            Seq::empty()
        },
    decreases entries.len(),
{
    let u = entries.update(i, (entries[i].0, entries[i].1 + extra));
    if i == entries.len() - 1 {
        assert(u.drop_last() =~= entries.drop_last());
    } else {
        assert(u.drop_last() =~= entries.drop_last().update(
            i,
            (entries[i].0, entries[i].1 + extra),
        ));
        lemma_contribs_of_extend(entries.drop_last(), i, extra, r);
        assert(entries.last().0 != entries[i].0);
    }
}

/// Adds the pull requests of `next` to `contribs`, repository by repository
/// in the order of `next`, after those already kept.
pub fn merge_repo_contribs(contribs: &mut RepoContribs, next: RepoContribs)
    requires
        old(contribs).wf(),
        next.wf(),
    ensures
        final(contribs).wf(),
        final(contribs).entries() == add_entries(old(contribs).entries(), next.entries()),
        forall|r: Seq<char>| #[trigger]
            final(contribs).lookup(r) == old(contribs).lookup(r) + next.lookup(r),
{
    let ghost next_entries = next.entries();
    let ghost start = *contribs;
    let RepoContribs { names, lists } = next;
    let mut lists = lists;
    let mut i: usize = 0;
    assert(next_entries.take(0) =~= Seq::<(Seq<char>, Seq<ContribView>)>::empty());
    assert forall|r: Seq<char>| #[trigger]
        contribs.lookup(r) == start.lookup(r) + contribs_of(next_entries.take(0), r) by {
        assert(start.lookup(r) + Seq::<ContribView>::empty() =~= start.lookup(r));
    }
    while i < names.len()
        invariant
            names@.len() == lists@.len(),
            names@.len() == next_entries.len(),
            i <= names@.len(),
            forall|j: int|
                i <= j < names@.len() ==> next_entries[j] == (#[trigger] names@[j]@, lists@[j]@.map_values(
                    |c: Contrib| c@,
                )),
            contribs.wf(),
            contribs.entries() == add_entries(start.entries(), next_entries.take(i as int)),
            forall|r: Seq<char>| #[trigger]
                contribs.lookup(r) == start.lookup(r) + contribs_of(next_entries.take(i as int), r),
        decreases names@.len() - i,
    {
        let ghost before = *contribs;
        let ghost e = next_entries[i as int];
        assert(e == (names@[i as int]@, lists@[i as int]@.map_values(|c: Contrib| c@)));
        let mut list: Vec<Contrib> = Vec::new();
        std::mem::swap(&mut list, &mut lists[i]);
        contribs.add(names[i].as_str(), list);
        proof {
            assert(next_entries.take(i + 1).drop_last() =~= next_entries.take(i as int));
            assert(next_entries.take(i + 1).last() == e);
            assert forall|r: Seq<char>| #[trigger]
                contribs.lookup(r) == start.lookup(r) + contribs_of(next_entries.take(i + 1), r) by {
                let x: Seq<ContribView> = if r == e.0 {
                    e.1
                } else {
                    Seq::empty()
                };
                assert(before.lookup(r) == start.lookup(r) + contribs_of(next_entries.take(i as int), r));
                assert(start.lookup(r) + contribs_of(next_entries.take(i as int), r) + x
                    =~= start.lookup(r) + (contribs_of(next_entries.take(i as int), r) + x));
            }
        }
        i = i + 1;
    }
    assert(next_entries.take(names@.len() as int) =~= next_entries);
}


/// The state of a pull request as GitHub reports it.
pub enum PullRequestState {
    Closed,
    Merged,
    Open,
    Other(String),
}

/// A pull request of a contributions reply.
pub struct PullRequest {
    pub state: PullRequestState,
    pub merged_at: Option<String>,
    pub number: i64,
    pub title: String,
}

/// The paging information of a repository's contributions.
pub struct PageInfo {
    pub has_next_page: bool,
    pub end_cursor: Option<String>,
}

/// The pull-request contributions of a user to one repository.
pub struct RepositoryContributions {
    pub repository_name: String,
    pub page_info: PageInfo,
    pub nodes: Option<Vec<Option<PullRequest>>>,
}

/// A reply to the contributions query: the user's contributions by
/// repository, where the user was found.
pub struct ResponseData {
    pub user: Option<Vec<RepositoryContributions>>,
}

/// What makes a contributions reply unusable.
#[derive(PartialEq, Eq, Structural, Debug, Clone, Copy)]
pub enum ContribError {
    /// The reply names no user.
    MissingUser,
    /// A repository of interest comes without its list of contributions.
    MissingNodes,
    /// A contribution of a repository of interest is empty.
    EmptyContribution,
    /// A merged pull request has no merge date.
    MissingMergeDate,
    /// A merge date is not a valid date.
    InvalidMergeDate,
}

/// The pull request `node` contributes, when it was merged between `from`
/// and `to` inclusive.
pub open spec fn node_result(node: Option<PullRequest>, from: UtcTime, to: UtcTime) -> Result<
    Option<ContribView>,
    ContribError,
> {
    match node {
        None => Err(ContribError::EmptyContribution),
        Some(pr) => match pr.state {
            PullRequestState::Merged => match pr.merged_at {
                None => Err(ContribError::MissingMergeDate),
                Some(text) => match rfc3339_instant(text@) {
                    None => Err(ContribError::InvalidMergeDate),
                    Some(t) => {
                        let when = UtcTime { secs: t.0, nanos: t.1 };
                        if time_le(from, when) && time_le(when, to) {
                            Ok(Some(ContribView { merge_date: when, id: pr.number, title: pr.title@ }))
                        } else {
                            Ok(None)
                        }
                    },
                },
            },
            _ => Ok(None),
        },
    }
}

/// The pull requests that the nodes contribute, in order; the first unusable
/// node decides the error.
pub open spec fn nodes_result(nodes: Seq<Option<PullRequest>>, from: UtcTime, to: UtcTime) -> Result<
    Seq<ContribView>,
    ContribError,
>
    decreases nodes.len(),
{
    if nodes.len() == 0 {
        Ok(Seq::empty())
    } else {
        match nodes_result(nodes.drop_last(), from, to) {
            Err(e) => Err(e),
            Ok(l) => match node_result(nodes.last(), from, to) {
                Err(e) => Err(e),
                Ok(None) => Ok(l),
                Ok(Some(c)) => Ok(l.push(c)),
            },
        }
    }
}

/// `name` is one of `wanted`.
pub open spec fn is_wanted(wanted: Seq<String>, name: Seq<char>) -> bool {
    exists|j: int| 0 <= j < wanted.len() && wanted[j]@ == name
}

/// The (repository, pull request) pairs that the repositories of interest
/// contribute, in order; the first unusable repository decides the error.
pub open spec fn repos_result(
    repos: Seq<RepositoryContributions>,
    wanted: Seq<String>,
    from: UtcTime,
    to: UtcTime,
) -> Result<Seq<(Seq<char>, ContribView)>, ContribError>
    decreases repos.len(),
{
    if repos.len() == 0 {
        Ok(Seq::empty())
    } else {
        match repos_result(repos.drop_last(), wanted, from, to) {
            Err(e) => Err(e),
            Ok(l) => {
                let r = repos.last();
                if !is_wanted(wanted, r.repository_name@) {
                    Ok(l)
                } else {
                    match r.nodes {
                        None => Err(ContribError::MissingNodes),
                        Some(nodes) => match nodes_result(nodes@, from, to) {
                            Err(e) => Err(e),
                            Ok(cs) => Ok(
                                l + cs.map_values(|c: ContribView| (r.repository_name@, c)),
                            ),
                        },
                    }
                }
            },
        }
    }
}

/// The cursor of the next page: that of the first repository of interest
/// that has a next page and names a cursor.
pub open spec fn next_cursor(repos: Seq<RepositoryContributions>, wanted: Seq<String>) -> Option<
    Seq<char>,
>
    decreases repos.len(),
{
    if repos.len() == 0 {
        None
    } else {
        match next_cursor(repos.drop_last(), wanted) {
            Some(c) => Some(c),
            None => {
                let r = repos.last();
                if is_wanted(wanted, r.repository_name@) && r.page_info.has_next_page {
                    match r.page_info.end_cursor {
                        Some(c) => Some(c@),
                        None => None,
                    }
                } else {
                    None
                }
            },
        }
    }
}

fn wanted_contains(wanted: &Vec<String>, name: &str) -> (res: bool)
    ensures
        res == is_wanted(wanted@, name@),
{
    let mut j: usize = 0;
    while j < wanted.len()
        invariant
            forall|i: int| 0 <= i < j ==> wanted@[i]@ != name@,
        decreases wanted@.len() - j,
    {
        if str_eq(wanted[j].as_str(), name) {
            return true;
        }
        j = j + 1;
    }
    false
}

fn node_contrib(node: &Option<PullRequest>, from: &UtcTime, to: &UtcTime) -> (res: Result<
    Option<Contrib>,
    ContribError,
>)
    ensures
        match res {
            Ok(Some(c)) => node_result(*node, *from, *to) == Ok::<Option<ContribView>, ContribError>(
                Some(c@),
            ),
            Ok(None) => node_result(*node, *from, *to) == Ok::<Option<ContribView>, ContribError>(
                None,
            ),
            Err(e) => node_result(*node, *from, *to) == Err::<Option<ContribView>, ContribError>(e),
        },
{
    match node {
        None => Err(ContribError::EmptyContribution),
        Some(pr) => match &pr.state {
            PullRequestState::Merged => match &pr.merged_at {
                None => Err(ContribError::MissingMergeDate),
                Some(text) => match parse_utc(text.as_str()) {
                    None => Err(ContribError::InvalidMergeDate),
                    Some(t) => {
                        let when = UtcTime { secs: t.0, nanos: t.1 };
                        if time_leq(from, &when) && time_leq(&when, to) {
                            Ok(
                                Some(
                                    Contrib {
                                        merge_date: when,
                                        id: pr.number,
                                        title: pr.title.clone(),
                                    },
                                ),
                            )
                        } else {
                            Ok(None)
                        }
                    },
                },
            },
            _ => Ok(None),
        },
    }
}

/// Collects the merged pull requests of the repositories in `repos` that
/// were merged between `from` and `to`, and the cursor of the reply's next
/// page.
#[verifier::loop_isolation(false)]
pub fn get_repo_contribs(
    response_data: &ResponseData,
    repos: &Vec<String>,
    from_time: &UtcTime,
    to_time: &UtcTime,
) -> (res: Result<(Option<String>, RepoContribs), ContribError>)
    ensures
        match response_data.user {
            None => res == Err::<(Option<String>, RepoContribs), ContribError>(
                ContribError::MissingUser,
            ),
            Some(user) => match repos_result(user@, repos@, *from_time, *to_time) {
                Err(e) => res == Err::<(Option<String>, RepoContribs), ContribError>(e),
                Ok(pairs) => match res {
                    Ok((cursor, contribs)) => {
                        &&& contribs.wf()
                        &&& contribs.entries() == grouped(pairs)
                        &&& forall|i: int|
                            0 <= i < contribs.entries().len() ==> names_of(repos@).contains(
                                (#[trigger] contribs.entries()[i]).0,
                            )
                        &&& match cursor {
                            Some(c) => exists|k: int|
                                #![trigger user@[k]]
                                0 <= k < user@.len() && offers_next_page(user@, repos@, k)
                                    && user@[k].page_info.end_cursor->Some_0@ == c@ && forall|k2: int|
                                    0 <= k2 < k ==> !offers_next_page(user@, repos@, k2),
                            None => forall|k: int|
                                0 <= k < user@.len() ==> !offers_next_page(user@, repos@, k),
                        }
                        &&& forall|r: Seq<char>| #[trigger]
                            contribs.lookup(r) == pairs_for(pairs, r)
                        &&& match cursor {
                            Some(c) => next_cursor(user@, repos@) == Some(c@),
                            None => next_cursor(user@, repos@) is None,
                        }
                    },
                    Err(_) => false,
                },
            },
        },
{
    let user = match &response_data.user {
        Some(user) => user,
        None => {
            return Err(ContribError::MissingUser);
        },
    };
    let mut end_cursor: Option<String> = None;
    let mut repo_contribs = RepoContribs::new();
    let mut i: usize = 0;
    while i < user.len()
        invariant
            i <= user@.len(),
            repo_contribs.wf(),
            repos_result(user@.take(i as int), repos@, *from_time, *to_time) is Ok,
            repo_contribs.entries() == grouped(
                repos_result(user@.take(i as int), repos@, *from_time, *to_time)->Ok_0,
            ),
            forall|r: Seq<char>| #[trigger]
                repo_contribs.lookup(r) == pairs_for(
                    repos_result(user@.take(i as int), repos@, *from_time, *to_time)->Ok_0,
                    r,
                ),
            match end_cursor {
                Some(c) => next_cursor(user@.take(i as int), repos@) == Some(c@),
                None => next_cursor(user@.take(i as int), repos@) is None,
            },
        decreases user@.len() - i,
    {
        let ghost prefix = user@.take(i as int);
        let ghost pairs = repos_result(prefix, repos@, *from_time, *to_time)->Ok_0;
        let repo = &user[i];
        assert(user@.take(i + 1).drop_last() =~= prefix);
        assert(user@.take(i + 1).last() == *repo);
        if wanted_contains(repos, repo.repository_name.as_str()) {
            if end_cursor.is_none() {
                if repo.page_info.has_next_page {
                    end_cursor = match &repo.page_info.end_cursor {
                        Some(c) => Some(c.clone()),
                        None => None,
                    };
                }
            }
            let nodes = match &repo.nodes {
                Some(nodes) => nodes,
                None => {
                    proof {
                        lemma_repos_result_error_persists(user@, repos@, *from_time, *to_time, i + 1);
                    }
                    return Err(ContribError::MissingNodes);
                },
            };
            let mut found: Vec<Contrib> = Vec::new();
            let mut k: usize = 0;
            while k < nodes.len()
                invariant
                    k <= nodes@.len(),
                    nodes_result(nodes@.take(k as int), *from_time, *to_time) is Ok,
                    found@.map_values(|c: Contrib| c@) == nodes_result(
                        nodes@.take(k as int),
                        *from_time,
                        *to_time,
                    )->Ok_0,
                decreases nodes@.len() - k,
            {
                assert(nodes@.take(k + 1).drop_last() =~= nodes@.take(k as int));
                assert(nodes@.take(k + 1).last() == nodes@[k as int]);
                match node_contrib(&nodes[k], from_time, to_time) {
                    Err(e) => {
                        proof {
                            lemma_nodes_result_error_persists(nodes@, *from_time, *to_time, k + 1);
                            assert(nodes@.take(nodes@.len() as int) =~= nodes@);
                            lemma_repos_result_error_persists(
                                user@,
                                repos@,
                                *from_time,
                                *to_time,
                                i + 1,
                            );
                        }
                        return Err(e);
                    },
                    Ok(None) => {},
                    Ok(Some(c)) => {
                        found.push(c);
                        assert(found@.map_values(|c: Contrib| c@) =~= nodes_result(
                            nodes@.take(k as int),
                            *from_time,
                            *to_time,
                        )->Ok_0.push(c@));
                    },
                }
                k = k + 1;
            }
            assert(nodes@.take(nodes@.len() as int) =~= nodes@);
            let ghost cs = found@.map_values(|c: Contrib| c@);
            let ghost name = repo.repository_name@;
            let ghost before = repo_contribs;
            proof {
                before.lemma_wf_entries();
                lemma_grouped_block(pairs, name, cs);
            }
            if found.len() > 0 {
                repo_contribs.add(repo.repository_name.as_str(), found);
            }
            proof {
                assert forall|r: Seq<char>| #[trigger]
                    repo_contribs.lookup(r) == pairs_for(
                        pairs + cs.map_values(|c: ContribView| (name, c)),
                        r,
                    ) by {
                    lemma_pairs_for_append(pairs, cs, name, r);
                    if cs.len() == 0 {
                        assert(before.lookup(r) + Seq::<ContribView>::empty() =~= before.lookup(r));
                    }
                }
            }
        } else {
            assert(repos_result(user@.take(i + 1), repos@, *from_time, *to_time) == repos_result(
                prefix,
                repos@,
                *from_time,
                *to_time,
            ));
        }
        i = i + 1;
    }
    assert(user@.take(user@.len() as int) =~= user@);
    proof {
        let pairs = repos_result(user@, repos@, *from_time, *to_time)->Ok_0;
        lemma_next_cursor_source(user@, repos@);
        lemma_pairs_are_wanted(user@, repos@, *from_time, *to_time);
        lemma_grouped_names(pairs);
        let g = grouped(pairs);
        let pn = pairs.map_values(|p: (Seq<char>, ContribView)| p.0);
        assert forall|i: int| 0 <= i < g.len() implies names_of(repos@).contains(
            (#[trigger] g[i]).0,
        ) by {
            assert(pn.contains(g[i].0));
            let k = choose|k: int| 0 <= k < pn.len() && pn[k] == g[i].0;
            assert(pairs[k].0 == g[i].0);
        }
    }
    Ok((end_cursor, repo_contribs))
}

pub(crate) proof fn lemma_pairs_for_append(
    pairs: Seq<(Seq<char>, ContribView)>,
    cs: Seq<ContribView>,
    name: Seq<char>,
    r: Seq<char>,
)
    ensures
        pairs_for(pairs + cs.map_values(|c: ContribView| (name, c)), r) == pairs_for(pairs, r) + if r
            == name {
            cs
        } else {
            Seq::empty()
        },
    decreases cs.len(),
{
    let m = cs.map_values(|c: ContribView| (name, c));
    if cs.len() == 0 {
        assert(pairs + m =~= pairs);
        assert(pairs_for(pairs, r) + Seq::<ContribView>::empty() =~= pairs_for(pairs, r));
    } else {
        let m2 = cs.drop_last().map_values(|c: ContribView| (name, c));
        assert((pairs + m).drop_last() =~= pairs + m2);
        assert((pairs + m).last() == (name, cs.last()));
        lemma_pairs_for_append(pairs, cs.drop_last(), name, r);
        if r == name {
            assert(cs.drop_last().push(cs.last()) =~= cs);
            assert((pairs_for(pairs, r) + cs.drop_last()) + seq![cs.last()] =~= pairs_for(pairs, r) + cs);
        } else {
            assert(pairs_for(pairs, r) + Seq::<ContribView>::empty() =~= pairs_for(pairs, r));
        }
    }
}

proof fn lemma_nodes_result_error_persists(
    nodes: Seq<Option<PullRequest>>,
    from: UtcTime,
    to: UtcTime,
    k: int,
)
    requires
        0 <= k <= nodes.len(),
        nodes_result(nodes.take(k), from, to) is Err,
    ensures
        nodes_result(nodes, from, to) == nodes_result(nodes.take(k), from, to),
    decreases nodes.len() - k,
{
    if k < nodes.len() {
        assert(nodes.take(k + 1).drop_last() =~= nodes.take(k));
        lemma_nodes_result_error_persists(nodes, from, to, k + 1);
    } else {
        assert(nodes.take(k) =~= nodes);
    }
}

proof fn lemma_repos_result_error_persists(
    repos: Seq<RepositoryContributions>,
    wanted: Seq<String>,
    from: UtcTime,
    to: UtcTime,
    k: int,
)
    requires
        0 <= k <= repos.len(),
        repos_result(repos.take(k), wanted, from, to) is Err,
    ensures
        repos_result(repos, wanted, from, to) == repos_result(repos.take(k), wanted, from, to),
    decreases repos.len() - k,
{
    if k < repos.len() {
        assert(repos.take(k + 1).drop_last() =~= repos.take(k));
        lemma_repos_result_error_persists(repos, wanted, from, to, k + 1);
    } else {
        assert(repos.take(k) =~= repos);
    }
}

/// The owner and the name of a repository written "owner/name": the text
/// before the first '/', and the text from there to the next '/' or the end.
pub open spec fn repo_name_parts(repo_name: Seq<char>) -> Option<(Seq<char>, Seq<char>)> {
    match first_char_from(repo_name, '/', 0) {
        None => None,
        Some(p) => match first_char_from(repo_name, '/', p + 1) {
            Some(q) => Some((repo_name.subrange(0, p), repo_name.subrange(p + 1, q))),
            None => Some((repo_name.subrange(0, p), repo_name.subrange(p + 1, repo_name.len() as int))),
        },
    }
}

/// Splits a repository written "owner/name" into its owner and its name.
pub fn parse_repo_name(repo_name: &str) -> (res: Result<(&str, &str), &str>)
    ensures
        match repo_name_parts(repo_name@) {
            Some(parts) => res matches Ok(r) && r.0@ == parts.0 && r.1@ == parts.1,
            None => res matches Err(msg) && msg@
                == "wrong format for the repository name param (we expect something like facebook/graphql)"@,
        },
{
    let v = to_chars(repo_name);
    match find_char_from(&v, '/', 0) {
        None => Err("wrong format for the repository name param (we expect something like facebook/graphql)"),
        Some(p) => {
            let n = v.len();
            assert(p < n);
            let end = match find_char_from(&v, '/', p + 1) {
                Some(q) => q,
                None => v.len(),
            };
            Ok((repo_name.substring_char(0, p), repo_name.substring_char(p + 1, end)))
        },
    }
}

/// Whether the command line `args` (the program's name first) asks for the
/// proxy: no argument means no proxy, "use-intel-proxy" means the proxy, and
/// anything else is refused.
pub fn behind_proxy(args: &Vec<String>) -> (res: Result<bool, String>)
    requires
        args@.len() >= 1,
    ensures
        args@.len() == 1 ==> res == Ok::<bool, String>(false),
        args@.len() > 1 && args@[1]@ == "use-intel-proxy"@ ==> res == Ok::<bool, String>(true),
        args@.len() > 1 && args@[1]@ != "use-intel-proxy"@ ==> (res matches Err(msg) && msg@
            == "Incorrect proxy argument. If you are behind Intel proxy, use use-intel-proxy."@),
{
    if args.len() == 1 {
        Ok(false)
    } else if str_eq(args[1].as_str(), "use-intel-proxy") {
        Ok(true)
    } else {
        Err(String::from_str("Incorrect proxy argument. If you are behind Intel proxy, use use-intel-proxy."))
    }
}

/// The names of `wanted`.
pub open spec fn names_of(wanted: Seq<String>) -> Seq<Seq<char>> {
    wanted.map_values(|w: String| w@)
}

/// Every pair that the repositories of interest contribute names a
/// repository that is one of `wanted`, by exact name.
pub(crate) proof fn lemma_pairs_are_wanted(
    repos: Seq<RepositoryContributions>,
    wanted: Seq<String>,
    from: UtcTime,
    to: UtcTime,
)
    requires
        repos_result(repos, wanted, from, to) is Ok,
    ensures
        forall|i: int|
            0 <= i < repos_result(repos, wanted, from, to)->Ok_0.len() ==> names_of(wanted).contains(
                (#[trigger] repos_result(repos, wanted, from, to)->Ok_0[i]).0,
            ),
    decreases repos.len(),
{
    if repos.len() > 0 {
        lemma_pairs_are_wanted(repos.drop_last(), wanted, from, to);
        let l = repos_result(repos.drop_last(), wanted, from, to)->Ok_0;
        let r = repos.last();
        let all = repos_result(repos, wanted, from, to)->Ok_0;
        assert forall|i: int| 0 <= i < all.len() implies names_of(wanted).contains(
            (#[trigger] all[i]).0,
        ) by {
            if is_wanted(wanted, r.repository_name@) {
                let cs = nodes_result(r.nodes->Some_0@, from, to)->Ok_0;
                let m = cs.map_values(|c: ContribView| (r.repository_name@, c));
                assert(all == l + m);
                if i < l.len() {
                    assert(all[i] == l[i]);
                } else {
                    assert(all[i] == m[i - l.len()]);
                    let j = choose|j: int| 0 <= j < wanted.len() && wanted[j]@ == r.repository_name@;
                    assert(names_of(wanted)[j] == r.repository_name@);
                }
            } else {
                assert(all == l);
                assert(all[i] == l[i]);
            }
        }
    }
}

proof fn lemma_grouped_wf(pairs: Seq<(Seq<char>, ContribView)>)
    ensures
        unique_names(grouped(pairs)),
        nonempty_lists(grouped(pairs)),
    decreases pairs.len(),
{
    if pairs.len() > 0 {
        lemma_grouped_wf(pairs.drop_last());
        lemma_add_entry_keeps(grouped(pairs.drop_last()), pairs.last().0, seq![pairs.last().1]);
    }
}

/// The repositories kept by `grouped` are among those that the pairs name.
pub(crate) proof fn lemma_grouped_names(pairs: Seq<(Seq<char>, ContribView)>)
    ensures
        forall|i: int|
            0 <= i < grouped(pairs).len() ==> pairs.map_values(
                |p: (Seq<char>, ContribView)| p.0,
            ).contains((#[trigger] grouped(pairs)[i]).0),
    decreases pairs.len(),
{
    if pairs.len() > 0 {
        let p1 = pairs.drop_last();
        lemma_grouped_names(p1);
        lemma_grouped_wf(p1);
        let g1 = grouped(p1);
        let n = pairs.last().0;
        let g = grouped(pairs);
        let pn = pairs.map_values(|p: (Seq<char>, ContribView)| p.0);
        let pn1 = p1.map_values(|p: (Seq<char>, ContribView)| p.0);
        assert forall|i: int| 0 <= i < g.len() implies pn.contains((#[trigger] g[i]).0) by {
            let last = pairs.len() - 1;
            assert(pn[last] == n);
            if exists|m: int| 0 <= m < g1.len() && g1[m].0 == n {
                let m = choose|m: int| 0 <= m < g1.len() && g1[m].0 == n;
                lemma_add_entry_at(g1, n, seq![pairs.last().1], m);
                assert(g[i].0 == g1[i].0);
                assert(pn1.contains(g1[i].0));
                let k = choose|k: int| 0 <= k < pn1.len() && pn1[k] == g1[i].0;
                assert(pn[k] == pn1[k]);
            } else {
                if i < g1.len() {
                    assert(g[i] == g1[i]);
                    assert(pn1.contains(g1[i].0));
                    let k = choose|k: int| 0 <= k < pn1.len() && pn1[k] == g1[i].0;
                    assert(pn[k] == pn1[k]);
                }
            }
        }
    }
}

proof fn lemma_is_wanted_names(wanted: Seq<String>, name: Seq<char>)
    ensures
        is_wanted(wanted, name) <==> names_of(wanted).contains(name),
{
    if is_wanted(wanted, name) {
        let j = choose|j: int| 0 <= j < wanted.len() && wanted[j]@ == name;
        assert(names_of(wanted)[j] == name);
    }
    if names_of(wanted).contains(name) {
        let j = choose|j: int| 0 <= j < names_of(wanted).len() && names_of(wanted)[j] == name;
        assert(wanted[j]@ == name);
    }
}

/// `repos[k]` is a repository of interest with a next page and a cursor.
pub open spec fn offers_next_page(repos: Seq<RepositoryContributions>, wanted: Seq<String>, k: int) -> bool {
    &&& names_of(wanted).contains(repos[k].repository_name@)
    &&& repos[k].page_info.has_next_page
    &&& repos[k].page_info.end_cursor is Some
}

/// The cursor of the next page comes from the first repository of interest
/// (by exact name) that has a next page and names a cursor; where none has,
/// there is no cursor.
pub(crate) proof fn lemma_next_cursor_source(repos: Seq<RepositoryContributions>, wanted: Seq<String>)
    ensures
        next_cursor(repos, wanted) matches Some(c) ==> exists|k: int|
            #![trigger repos[k]]
            0 <= k < repos.len() && offers_next_page(repos, wanted, k)
                && repos[k].page_info.end_cursor->Some_0@ == c && forall|k2: int|
                0 <= k2 < k ==> !offers_next_page(repos, wanted, k2),
        next_cursor(repos, wanted) is None ==> forall|k: int|
            0 <= k < repos.len() ==> !offers_next_page(repos, wanted, k),
    decreases repos.len(),
{
    if repos.len() > 0 {
        let r1 = repos.drop_last();
        lemma_next_cursor_source(r1, wanted);
        let last = repos.len() - 1;
        assert(repos[last] == repos.last());
        lemma_is_wanted_names(wanted, repos.last().repository_name@);
        assert forall|k: int| 0 <= k < r1.len() implies #[trigger] repos[k] == r1[k] by {}
        assert forall|k: int| 0 <= k < r1.len() implies offers_next_page(repos, wanted, k)
            == offers_next_page(r1, wanted, k) by {
            assert(repos[k] == r1[k]);
        }
        match next_cursor(r1, wanted) {
            Some(c) => {
                let k = choose|k: int|
                    #![trigger r1[k]]
                    0 <= k < r1.len() && offers_next_page(r1, wanted, k)
                        && r1[k].page_info.end_cursor->Some_0@ == c && forall|k2: int|
                        0 <= k2 < k ==> !offers_next_page(r1, wanted, k2);
                assert(repos[k] == r1[k]);
                assert forall|k2: int| 0 <= k2 < k implies !offers_next_page(repos, wanted, k2) by {
                    assert(offers_next_page(repos, wanted, k2) == offers_next_page(r1, wanted, k2));
                }
            },
            None => {
                match next_cursor(repos, wanted) {
                    Some(c) => {
                        assert(repos[last].page_info.end_cursor->Some_0@ == c);
                        assert(offers_next_page(repos, wanted, last));
                    },
                    None => {
                        assert forall|k: int| 0 <= k < repos.len() implies !offers_next_page(
                            repos,
                            wanted,
                            k,
                        ) by {
                            if k < last {
                                assert(offers_next_page(repos, wanted, k) == offers_next_page(r1, wanted, k));
                            }
                        }
                    },
                }
            },
        }
    }
}

} // verus!
