use corporate_assistant::contribs::{
    behind_proxy, get_repo_contribs, merge_repo_contribs, parse_repo_name, Contrib,
    ContribError, PageInfo, PullRequest, PullRequestState, RepoContribs, RepositoryContributions,
    ResponseData, UtcTime,
};

fn pr(state: PullRequestState, merged_at: Option<&str>, number: i64, title: &str) -> Option<PullRequest> {
    Some(PullRequest {
        state,
        merged_at: merged_at.map(|s| s.to_string()),
        number,
        title: title.to_string(),
    })
}

fn repo(name: &str, next: bool, cursor: Option<&str>, nodes: Option<Vec<Option<PullRequest>>>) -> RepositoryContributions {
    RepositoryContributions {
        repository_name: name.to_string(),
        page_info: PageInfo { has_next_page: next, end_cursor: cursor.map(|c| c.to_string()) },
        nodes,
    }
}

fn at(secs: i64) -> UtcTime {
    UtcTime { secs, nanos: 0 }
}

fn summary(c: &RepoContribs) -> Vec<(String, Vec<i64>)> {
    (0..c.len())
        .map(|i| (c.repo_at(i).to_string(), c.contribs_at(i).iter().map(|x| x.id).collect()))
        .collect()
}

#[test]
fn merge_dates_are_read_as_rfc3339() {
    let response = ResponseData {
        user: Some(vec![repo("A", false, None, Some(vec![
            pr(PullRequestState::Merged, Some("2021-02-03T05:05:06.5+01:00"), 1, "offset"),
            pr(PullRequestState::Merged, Some("1970-01-01T00:00:00Z"), 2, "epoch"),
        ]))]),
    };
    let repos = vec!["A".to_string()];
    let exact = UtcTime { secs: 1612325106, nanos: 500_000_000 };
    let (_, contribs) = get_repo_contribs(&response, &repos, &exact, &exact).unwrap();
    assert_eq!(summary(&contribs), vec![("A".to_string(), vec![1])]);
    let d = contribs.contribs_at(0)[0].merge_date;
    assert_eq!((d.secs, d.nanos), (1612325106, 500_000_000));
    let later = UtcTime { secs: 1612325106, nanos: 500_000_001 };
    let (_, contribs) = get_repo_contribs(&response, &repos, &later, &at(1640908800)).unwrap();
    assert!(summary(&contribs).is_empty());
    let (_, contribs) = get_repo_contribs(&response, &repos, &at(0), &at(0)).unwrap();
    assert_eq!(summary(&contribs), vec![("A".to_string(), vec![2])]);
}

#[test]
fn merged_pull_requests_in_the_period_are_kept() {
    let response = ResponseData {
        user: Some(vec![
            repo("Paddle", true, Some("abc"), Some(vec![
                pr(PullRequestState::Merged, Some("2021-02-10T10:00:00Z"), 11, "fix a"),
                pr(PullRequestState::Open, None, 12, "open one"),
                pr(PullRequestState::Merged, Some("2020-12-31T23:59:59Z"), 13, "too early"),
                pr(PullRequestState::Merged, Some("2021-02-28T00:00:00Z"), 14, "at the end"),
            ])),
            repo("Other", true, Some("zzz"), None),
            repo("oneDNN", false, None, Some(vec![
                pr(PullRequestState::Closed, None, 21, "closed"),
                pr(PullRequestState::Merged, Some("2021-02-01T00:00:00Z"), 22, "at the start"),
            ])),
        ]),
    };
    let repos = vec!["Paddle".to_string(), "oneDNN".to_string()];
    let (cursor, contribs) =
        get_repo_contribs(&response, &repos, &at(1612137600), &at(1614470400)).unwrap();
    assert_eq!(cursor, Some("abc".to_string()));
    assert_eq!(
        summary(&contribs),
        vec![("Paddle".to_string(), vec![11, 14]), ("oneDNN".to_string(), vec![22])]
    );
    assert_eq!(contribs.contribs_at(0)[0].title, "fix a");
}

#[test]
fn cursor_comes_from_the_first_repository_with_a_next_page() {
    let response = ResponseData {
        user: Some(vec![
            repo("A", true, None, Some(vec![])),
            repo("B", false, Some("b"), Some(vec![])),
            repo("C", true, Some("c"), Some(vec![])),
            repo("D", true, Some("d"), Some(vec![])),
        ]),
    };
    let repos = vec!["A".to_string(), "B".to_string(), "C".to_string(), "D".to_string()];
    let (cursor, contribs) = get_repo_contribs(&response, &repos, &at(1609459200), &at(1640908800)).unwrap();
    assert_eq!(cursor, Some("c".to_string()));
    assert_eq!(contribs.len(), 0);
}

#[test]
fn unusable_replies_are_refused() {
    let from = at(1609459200);
    let to = at(1640908800);
    let repos = vec!["A".to_string()];
    assert_eq!(get_repo_contribs(&ResponseData { user: None }, &repos, &from, &to).err(), Some(ContribError::MissingUser));
    let r = ResponseData { user: Some(vec![repo("A", false, None, None)]) };
    assert_eq!(get_repo_contribs(&r, &repos, &from, &to).err(), Some(ContribError::MissingNodes));
    let r = ResponseData { user: Some(vec![repo("A", false, None, Some(vec![None]))]) };
    assert_eq!(get_repo_contribs(&r, &repos, &from, &to).err(), Some(ContribError::EmptyContribution));
    let r = ResponseData { user: Some(vec![repo("A", false, None, Some(vec![pr(PullRequestState::Merged, None, 1, "t")]))]) };
    assert_eq!(get_repo_contribs(&r, &repos, &from, &to).err(), Some(ContribError::MissingMergeDate));
    let r = ResponseData { user: Some(vec![repo("A", false, None, Some(vec![pr(PullRequestState::Merged, Some("soon"), 1, "t")]))]) };
    assert_eq!(get_repo_contribs(&r, &repos, &from, &to).err(), Some(ContribError::InvalidMergeDate));
    // repositories of no interest are not looked at
    let r = ResponseData { user: Some(vec![repo("B", false, None, None)]) };
    assert!(get_repo_contribs(&r, &repos, &from, &to).is_ok());
}

fn contrib(id: i64) -> Contrib {
    Contrib { merge_date: UtcTime { secs: id, nanos: 0 }, id, title: format!("pr {}", id) }
}

#[test]
fn merging_appends_by_repository() {
    let mut acc = RepoContribs::new();
    acc.add("A", vec![contrib(1)]);
    acc.add("B", vec![contrib(2)]);
    let mut next = RepoContribs::new();
    next.add("B", vec![contrib(3), contrib(4)]);
    next.add("C", vec![contrib(5)]);
    merge_repo_contribs(&mut acc, next);
    assert_eq!(
        summary(&acc),
        vec![("A".to_string(), vec![1]), ("B".to_string(), vec![2, 3, 4]), ("C".to_string(), vec![5])]
    );
    let mut empty = RepoContribs::new();
    merge_repo_contribs(&mut empty, RepoContribs::new());
    assert_eq!(empty.len(), 0);
}

#[test]
fn only_repositories_with_pull_requests_are_kept() {
    let mut acc = RepoContribs::new();
    acc.add("A", vec![]);
    assert_eq!(acc.len(), 0);
    acc.add("A", vec![contrib(1)]);
    acc.add("A", vec![]);
    acc.add("B", vec![contrib(2)]);
    assert_eq!(summary(&acc), vec![("A".to_string(), vec![1]), ("B".to_string(), vec![2])]);
    let mut next = RepoContribs::new();
    next.add("D", vec![contrib(6)]);
    next.add("C", vec![contrib(5)]);
    merge_repo_contribs(&mut acc, next);
    assert_eq!(
        summary(&acc),
        vec![
            ("A".to_string(), vec![1]),
            ("B".to_string(), vec![2]),
            ("D".to_string(), vec![6]),
            ("C".to_string(), vec![5])
        ]
    );
}

#[test]
fn widening_the_period_or_the_repositories_drops_nothing() {
    let response = ResponseData {
        user: Some(vec![
            repo("A", false, None, Some(vec![
                pr(PullRequestState::Merged, Some("2021-02-10T10:00:00Z"), 1, "a1"),
                pr(PullRequestState::Merged, Some("2021-03-10T10:00:00Z"), 2, "a2"),
            ])),
            repo("B", false, None, Some(vec![
                pr(PullRequestState::Merged, Some("2021-02-11T10:00:00Z"), 3, "b1"),
            ])),
        ]),
    };
    let narrow = vec!["A".to_string()];
    let wide = vec!["A".to_string(), "B".to_string()];
    let (_, small) = get_repo_contribs(&response, &narrow, &at(1612137600), &at(1614470400)).unwrap();
    let (_, large) = get_repo_contribs(&response, &wide, &at(1609459200), &at(1640908800)).unwrap();
    assert_eq!(summary(&small), vec![("A".to_string(), vec![1])]);
    assert_eq!(summary(&large), vec![("A".to_string(), vec![1, 2]), ("B".to_string(), vec![3])]);
}

#[test]
fn gathering_pages_concatenates_per_repository() {
    let page = |items: &[(&str, &[i64])]| {
        let mut c = RepoContribs::new();
        for (r, ids) in items {
            c.add(r, ids.iter().map(|&i| contrib(i)).collect());
        }
        c
    };
    let mut total = page(&[("A", &[1, 2]), ("B", &[3])]);
    merge_repo_contribs(&mut total, page(&[("C", &[4]), ("A", &[5])]));
    merge_repo_contribs(&mut total, page(&[("B", &[6]), ("A", &[7])]));
    assert_eq!(
        summary(&total),
        vec![
            ("A".to_string(), vec![1, 2, 5, 7]),
            ("B".to_string(), vec![3, 6]),
            ("C".to_string(), vec![4])
        ]
    );
}

#[test]
fn repository_names_are_split() {
    assert_eq!(parse_repo_name("facebook/graphql"), Ok(("facebook", "graphql")));
    assert_eq!(parse_repo_name("a/b/c"), Ok(("a", "b")));
    assert_eq!(parse_repo_name("/x"), Ok(("", "x")));
    assert_eq!(parse_repo_name("owner/"), Ok(("owner", "")));
    assert_eq!(
        parse_repo_name("graphql"),
        Err("wrong format for the repository name param (we expect something like facebook/graphql)")
    );
}

#[test]
fn proxy_argument() {
    assert_eq!(behind_proxy(&vec!["crawler".to_string()]), Ok(false));
    assert_eq!(behind_proxy(&vec!["crawler".to_string(), "use-intel-proxy".to_string()]), Ok(true));
    assert_eq!(
        behind_proxy(&vec!["crawler".to_string(), "--proxy".to_string()]),
        Err("Incorrect proxy argument. If you are behind Intel proxy, use use-intel-proxy.".to_string())
    );
}
