use vstd::prelude::*;
use crate::config::{clone_opt_strings, same_opt_strings, EmailConfig};
use crate::contribs::{format_utc_date, utc_date_text, ContribView, Contrib, RepoContribs, UtcTime};
use crate::text::{decimal, i64_to_string};

verus! {

/// The English name of month `m` (1 for January), as chrono's `Month::name`
/// gives it.
pub open spec fn month_name_spec(m: u32) -> Option<Seq<char>> {
    if m == 1 {
        Some("January"@)
    } else if m == 2 {
        Some("February"@)
    } else if m == 3 {
        Some("March"@)
    } else if m == 4 {
        Some("April"@)
    } else if m == 5 {
        Some("May"@)
    } else if m == 6 {
        Some("June"@)
    } else if m == 7 {
        Some("July"@)
    } else if m == 8 {
        Some("August"@)
    } else if m == 9 {
        Some("September"@)
    } else if m == 10 {
        Some("October"@)
    } else if m == 11 {
        Some("November"@)
    } else if m == 12 {
        Some("December"@)
    } else {
        None
    }
}

/// Calls `<chrono::Month as num_traits::FromPrimitive>::from_u32` and
/// `Month::name`. Claims what chrono's source shows: 1 to 12 are January to
/// December by their English names, any other number is no month.
#[verifier::external_body]
fn month_name(m: u32) -> (res: Option<String>)
    ensures
        match res {
            Some(n) => month_name_spec(m) == Some(n@),
            None => month_name_spec(m) is None,
        },
{
    <chrono::Month as num_traits::FromPrimitive>::from_u32(m).map(|x| x.name().to_string())
}

/// The report line of one pull request.
pub open spec fn contrib_line(c: ContribView) -> Option<Seq<char>> {
    match utc_date_text(c.merge_date.secs, c.merge_date.nanos) {
        None => None,
        Some(d) => Some("\t - "@ + d + ": "@ + decimal(c.id as int) + ", "@ + c.title + "\n"@),
    }
}

/// The report lines of a repository's pull requests, in order.
pub open spec fn contrib_lines(cs: Seq<ContribView>) -> Option<Seq<char>>
    decreases cs.len(),
{
    if cs.len() == 0 {
        Some(Seq::empty())
    } else {
        match (contrib_lines(cs.drop_last()), contrib_line(cs.last())) {
            (Some(a), Some(b)) => Some(a + b),
            _ => None,
        }
    }
}

/// The text of a status report: each repository as a bullet, followed by
/// its pull requests; `None` where a merge date cannot be written.
pub open spec fn report_text(entries: Seq<(Seq<char>, Seq<ContribView>)>) -> Option<Seq<char>>
    decreases entries.len(),
{
    if entries.len() == 0 {
        Some(Seq::empty())
    } else {
        match (report_text(entries.drop_last()), contrib_lines(entries.last().1)) {
            (Some(a), Some(b)) => Some(a + "* "@ + entries.last().0 + "\n"@ + b),
            _ => None,
        }
    }
}

/// The lines of two lists of pull requests, one after the other, are the
/// lines of the first followed by those of the second; a list with a date
/// that cannot be written spoils the whole.
pub proof fn lemma_contrib_lines_concat(a: Seq<ContribView>, b: Seq<ContribView>)
    ensures
        match (contrib_lines(a), contrib_lines(b)) {
            (Some(x), Some(y)) => contrib_lines(a + b) == Some(x + y),
            _ => contrib_lines(a + b) is None,
        },
    decreases b.len(),
{
    if b.len() == 0 {
        assert(a + b =~= a);
        if let Some(x) = contrib_lines(a) {
            assert(x + Seq::<char>::empty() =~= x);
        }
    } else {
        assert((a + b).drop_last() =~= a + b.drop_last());
        assert((a + b).last() == b.last());
        lemma_contrib_lines_concat(a, b.drop_last());
        match (contrib_lines(a), contrib_lines(b.drop_last()), contrib_line(b.last())) {
            (Some(x), Some(y), Some(z)) => {
                assert(x + y + z =~= x + (y + z));
            },
            _ => {},
        }
    }
}

/// The report of two lists of repositories, one after the other, is the
/// report of the first followed by that of the second: every repository is
/// reported, in order, as its bullet and its lines; a date that cannot be
/// written spoils the whole.
pub proof fn lemma_report_concat(
    a: Seq<(Seq<char>, Seq<ContribView>)>,
    b: Seq<(Seq<char>, Seq<ContribView>)>,
)
    ensures
        match (report_text(a), report_text(b)) {
            (Some(x), Some(y)) => report_text(a + b) == Some(x + y),
            _ => report_text(a + b) is None,
        },
    decreases b.len(),
{
    if b.len() == 0 {
        assert(a + b =~= a);
        if let Some(x) = report_text(a) {
            assert(x + Seq::<char>::empty() =~= x);
        }
    } else {
        assert((a + b).drop_last() =~= a + b.drop_last());
        assert((a + b).last() == b.last());
        lemma_report_concat(a, b.drop_last());
        let e = b.last();
        match (report_text(a), report_text(b.drop_last()), contrib_lines(e.1)) {
            (Some(x), Some(y), Some(z)) => {
                assert(x + y + "* "@ + e.0 + "\n"@ + z =~= x + (y + "* "@ + e.0 + "\n"@ + z));
            },
            _ => {},
        }
    }
}

/// The report of one repository: its bullet, then the line of each of its
/// pull requests.
pub proof fn lemma_report_single(repo: Seq<char>, cs: Seq<ContribView>)
    ensures
        report_text(seq![(repo, cs)]) == match contrib_lines(cs) {
            Some(l) => Some("* "@ + repo + "\n"@ + l),
            None => None::<Seq<char>>,
        },
{
    let e = seq![(repo, cs)];
    assert(e.drop_last() =~= Seq::<(Seq<char>, Seq<ContribView>)>::empty());
    assert(e.len() == 1 && e.last() == (repo, cs));
    assert(report_text(e.drop_last()) == Some(Seq::<char>::empty()));
    if let Some(l) = contrib_lines(cs) {
        assert(Seq::<char>::empty() + "* "@ + repo + "\n"@ + l =~= "* "@ + repo + "\n"@ + l);
    }
}

/// The lines of a single pull request are its line.
pub proof fn lemma_contrib_lines_single(c: ContribView)
    ensures
        contrib_lines(seq![c]) == contrib_line(c),
{
    let e = seq![c];
    assert(e.drop_last() =~= Seq::<ContribView>::empty());
    assert(e.len() == 1 && e.last() == c);
    assert(contrib_lines(e.drop_last()) == Some(Seq::<char>::empty()));
    if let Some(l) = contrib_line(c) {
        assert(Seq::<char>::empty() + l =~= l);
    }
}

/// The kind of report for a time frame in weeks.
pub open spec fn report_kind(time_frame: u8) -> Option<Seq<char>> {
    if time_frame == 1 {
        Some("weekly"@)
    } else if time_frame == 4 {
        Some("monthly"@)
    } else {
        None
    }
}

/// The status-report action: gathers the merged pull requests of the last
/// weeks and mails them as a report.
pub struct MSR {
    pub proxies: Option<Vec<String>>,
    pub project_config_file: String,
    pub time_frame: u8,
    pub server: String,
    pub port: u16,
    pub from: String,
    pub to: String,
}

impl MSR {
    pub fn new(
        proxies: &Option<Vec<String>>,
        project_config_file: &str,
        time_frame: u8,
        email_config: &EmailConfig,
    ) -> (res: Self)
        ensures
            same_opt_strings(res.proxies, *proxies),
            res.project_config_file@ == project_config_file@,
            res.time_frame == time_frame,
            res.server@ == email_config.server@,
            res.port == email_config.port,
            res.from@ == email_config.from@,
            res.to@ == email_config.to@,
    {
        MSR {
            proxies: clone_opt_strings(proxies),
            project_config_file: String::from_str(project_config_file),
            time_frame: time_frame,
            server: email_config.server.clone(),
            port: email_config.port,
            from: email_config.from.clone(),
            to: email_config.to.clone(),
        }
    }

    /// What is announced when the report is started; `None` for a time
    /// frame other than one or four weeks.
    pub fn feedback(&self) -> (res: Option<String>)
        ensures
            match report_kind(self.time_frame) {
                Some(k) => res matches Some(f) && f@ == "Composing "@ + k + " status report"@,
                None => res is None,
            },
    {
        let kind = if self.time_frame == 1 {
            "weekly"
        } else if self.time_frame == 4 {
            "monthly"
        } else {
            return None;
        };
        let mut f = String::from_str("Composing ");
        f.append(kind);
        f.append(" status report");
        Some(f)
    }

    /// The period that the report covers when it is made at `now`: from
    /// `time_frame` weeks before `now` up to `now`; `None` where that start
    /// lies before the earliest second that an `i64` counts.
    pub fn report_period(&self, now: UtcTime) -> (res: Option<(UtcTime, UtcTime)>)
        ensures
            now.secs - self.time_frame * 604800 >= i64::MIN ==> res == Some(
                (UtcTime { secs: (now.secs - self.time_frame * 604800) as i64, nanos: now.nanos }, now),
            ),
            now.secs - self.time_frame * 604800 < i64::MIN ==> res is None,
    {
        let span: i64 = self.time_frame as i64 * 604800;
        if now.secs < i64::MIN + span {
            None
        } else {
            Some((UtcTime { secs: now.secs - span, nanos: now.nanos }, now))
        }
    }

    /// The subject line of the report mailed in month `month` of `year`.
    pub fn subject_line(month: u32, year: i32) -> (res: String)
        requires
            1 <= month <= 12,
        ensures
            res@ == "Draft of MSR "@ + month_name_spec(month)->Some_0 + " "@ + decimal(year as int),
    {
        let name = match month_name(month) {
            Some(n) => n,
            None => {
                return String::new();
            },
        };
        let mut s = String::from_str("Draft of MSR ");
        s.append(name.as_str());
        s.append(" ");
        let y = i64_to_string(year as i64);
        s.append(y.as_str());
        s
    }

    fn contrib_lines_of(list: &Vec<Contrib>) -> (res: Option<String>)
        ensures
            match res {
                Some(t) => contrib_lines(list@.map_values(|c: Contrib| c@)) == Some(t@),
                None => contrib_lines(list@.map_values(|c: Contrib| c@)) is None,
            },
    {
        let ghost cs = list@.map_values(|c: Contrib| c@);
        let mut text = String::new();
        let mut i: usize = 0;
        while i < list.len()
            invariant
                i <= list@.len(),
                cs == list@.map_values(|c: Contrib| c@),
                contrib_lines(cs.take(i as int)) == Some(text@),
            decreases list@.len() - i,
        {
            let c = &list[i];
            assert(cs.take(i + 1).drop_last() =~= cs.take(i as int));
            assert(cs.take(i + 1).last() == c@);
            let date = match format_utc_date(c.merge_date.secs, c.merge_date.nanos) {
                Some(d) => d,
                None => {
                    proof {
                        lemma_lines_none_persists(cs, i + 1);
                    }
                    return None;
                },
            };
            text.append("\t - ");
            text.append(date.as_str());
            text.append(": ");
            let id = i64_to_string(c.id);
            text.append(id.as_str());
            text.append(", ");
            text.append(c.title.as_str());
            text.append("\n");
            i = i + 1;
        }
        assert(cs.take(list@.len() as int) =~= cs);
        Some(text)
    }

    /// The text of the status report for `repo_contribs`; `None` where a
    /// merge date cannot be written.
    pub fn compose_contrib_text(repo_contribs: &RepoContribs) -> (res: Option<String>)
        requires
            repo_contribs.wf(),
        ensures
            match res {
                Some(t) => report_text(repo_contribs.entries()) == Some(t@),
                None => report_text(repo_contribs.entries()) is None,
            },
    {
        let ghost entries = repo_contribs.entries();
        let mut text = String::new();
        let n = repo_contribs.len();
        let mut i: usize = 0;
        while i < n
            invariant
                repo_contribs.wf(),
                n == entries.len(),
                entries == repo_contribs.entries(),
                i <= n,
                report_text(entries.take(i as int)) == Some(text@),
            decreases n - i,
        {
            assert(entries.take(i + 1).drop_last() =~= entries.take(i as int));
            assert(entries.take(i + 1).last() == entries[i as int]);
            let lines = match MSR::contrib_lines_of(repo_contribs.contribs_at(i)) {
                Some(l) => l,
                None => {
                    proof {
                        lemma_report_none_persists(entries, i + 1);
                    }
                    return None;
                },
            };
            text.append("* ");
            text.append(repo_contribs.repo_at(i));
            text.append("\n");
            text.append(lines.as_str());
            i = i + 1;
        }
        assert(entries.take(n as int) =~= entries);
        Some(text)
    }
}

proof fn lemma_lines_none_persists(cs: Seq<ContribView>, k: int)
    requires
        0 <= k <= cs.len(),
        contrib_lines(cs.take(k)) is None,
    ensures
        contrib_lines(cs) is None,
    decreases cs.len() - k,
{
    if k < cs.len() {
        assert(cs.take(k + 1).drop_last() =~= cs.take(k));
        lemma_lines_none_persists(cs, k + 1);
    } else {
        assert(cs.take(k) =~= cs);
    }
}

proof fn lemma_report_none_persists(entries: Seq<(Seq<char>, Seq<ContribView>)>, k: int)
    requires
        0 <= k <= entries.len(),
        report_text(entries.take(k)) is None,
    ensures
        report_text(entries) is None,
    decreases entries.len() - k,
{
    if k < entries.len() {
        assert(entries.take(k + 1).drop_last() =~= entries.take(k));
        lemma_report_none_persists(entries, k + 1);
    } else {
        assert(entries.take(k) =~= entries);
    }
}

} // verus!
