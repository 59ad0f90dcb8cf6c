use corporate_assistant::config::EmailConfig;
use corporate_assistant::contribs::{Contrib, RepoContribs, UtcTime};
use corporate_assistant::msr::MSR;

fn email() -> EmailConfig {
    EmailConfig {
        server: "smtp.example.com".to_string(),
        port: 587,
        from: "me@example.com".to_string(),
        to: "boss@example.com".to_string(),
    }
}

#[test]
fn new_keeps_the_settings() {
    let proxies = Some(vec!["http://proxy:911".to_string()]);
    let m = MSR::new(&proxies, "paddle.toml", 4, &email());
    assert_eq!(m.proxies, proxies);
    assert_eq!(m.project_config_file, "paddle.toml");
    assert_eq!(m.time_frame, 4);
    assert_eq!(m.server, "smtp.example.com");
    assert_eq!(m.port, 587);
    assert_eq!(m.from, "me@example.com");
    assert_eq!(m.to, "boss@example.com");
}

#[test]
fn feedback_names_the_report() {
    assert_eq!(MSR::new(&None, "p", 1, &email()).feedback(), Some("Composing weekly status report".to_string()));
    assert_eq!(MSR::new(&None, "p", 4, &email()).feedback(), Some("Composing monthly status report".to_string()));
    assert_eq!(MSR::new(&None, "p", 2, &email()).feedback(), None);
}

#[test]
fn subject_line_names_month_and_year() {
    assert_eq!(MSR::subject_line(1, 2021), "Draft of MSR January 2021");
    assert_eq!(MSR::subject_line(9, 2024), "Draft of MSR September 2024");
    assert_eq!(MSR::subject_line(12, -5), "Draft of MSR December -5");
}

#[test]
fn report_text_lists_repositories_and_pull_requests() {
    let mut contribs = RepoContribs::new();
    contribs.add(
        "Paddle",
        vec![
            Contrib { merge_date: UtcTime { secs: 1612325106, nanos: 0 }, id: 31000, title: "Fix the bug".to_string() },
            Contrib { merge_date: UtcTime { secs: 0, nanos: 0 }, id: -1, title: "Epoch".to_string() },
        ],
    );
    contribs.add("oneDNN", vec![]);
    assert_eq!(
        MSR::compose_contrib_text(&contribs),
        Some("* Paddle\n\t - 2021-02-03: 31000, Fix the bug\n\t - 1970-01-01: -1, Epoch\n".to_string())
    );
    assert_eq!(MSR::compose_contrib_text(&RepoContribs::new()), Some(String::new()));
}

#[test]
fn report_text_refuses_unwritable_dates() {
    let mut contribs = RepoContribs::new();
    contribs.add("R", vec![Contrib { merge_date: UtcTime { secs: i64::MAX, nanos: 0 }, id: 1, title: "t".to_string() }]);
    assert_eq!(MSR::compose_contrib_text(&contribs), None);
}

#[test]
fn report_period_reaches_back_by_the_time_frame() {
    let now = UtcTime { secs: 1612325106, nanos: 7 };
    let (from, to) = MSR::new(&None, "p", 4, &email()).report_period(now).unwrap();
    assert_eq!((from.secs, from.nanos), (1612325106 - 4 * 604800, 7));
    assert_eq!((to.secs, to.nanos), (1612325106, 7));
    let (from, _) = MSR::new(&None, "p", 1, &email()).report_period(now).unwrap();
    assert_eq!(from.secs, 1612325106 - 604800);
    let early = UtcTime { secs: i64::MIN + 10, nanos: 0 };
    assert!(MSR::new(&None, "p", 1, &email()).report_period(early).is_none());
    let (from, _) = MSR::new(&None, "p", 0, &email()).report_period(early).unwrap();
    assert_eq!(from.secs, i64::MIN + 10);
}

#[test]
fn report_numbers_in_decimal() {
    let mut contribs = RepoContribs::new();
    contribs.add(
        "R",
        vec![
            Contrib { merge_date: UtcTime { secs: 0, nanos: 0 }, id: i64::MIN, title: "min".to_string() },
            Contrib { merge_date: UtcTime { secs: 0, nanos: 0 }, id: i64::MAX, title: "max".to_string() },
        ],
    );
    assert_eq!(
        MSR::compose_contrib_text(&contribs),
        Some("* R\n\t - 1970-01-01: -9223372036854775808, min\n\t - 1970-01-01: 9223372036854775807, max\n".to_string())
    );
    assert_eq!(MSR::subject_line(2, i32::MIN), "Draft of MSR February -2147483648");
}
