use corporate_assistant::cli::{
    parse_cmdline, parse_date, parse_i32, parse_long_option, parse_mailer_cmdline, parse_u16,
    parse_u32, CmdlineError, DateError,
};

fn strings(args: &[&str]) -> Vec<String> {
    args.iter().map(|a| a.to_string()).collect()
}

#[test]
fn parse_u32_agrees_with_std() {
    for s in ["0", "7", "+12", "4294967295", "4294967296", "", "+", "-1", "1a", " 1", "007"] {
        assert_eq!(parse_u32(s), s.parse::<u32>().ok(), "input {:?}", s);
    }
}

#[test]
fn parse_u16_agrees_with_std() {
    for s in ["0", "25", "587", "65535", "65536", "+465", "port", "", "99999999999"] {
        assert_eq!(parse_u16(s), s.parse::<u16>().ok(), "input {:?}", s);
    }
}

#[test]
fn parse_i32_agrees_with_std() {
    for s in [
        "0", "2021", "-5", "+5", "-", "+", "", "2147483647", "2147483648", "-2147483648",
        "-2147483649", "--1", "12x",
    ] {
        assert_eq!(parse_i32(s), s.parse::<i32>().ok(), "input {:?}", s);
    }
}

#[test]
fn parse_date_is_midnight_utc() {
    let t = parse_date("1.1.1970").unwrap().unwrap();
    assert_eq!((t.secs, t.nanos), (0, 0));
    let t = parse_date("15.3.2021").unwrap().unwrap();
    assert_eq!((t.secs, t.nanos), (1615766400, 0));
    let t = parse_date("31.12.1969").unwrap().unwrap();
    assert_eq!(t.secs, -86400);
}

#[test]
fn parse_date_other_shapes_are_no_date() {
    assert!(parse_date("2021-03-15").unwrap().is_none());
    assert!(parse_date("15.3").unwrap().is_none());
    assert!(parse_date("1.2.3.4").unwrap().is_none());
}

#[test]
fn parse_date_errors() {
    assert_eq!(parse_date("x.3.2021").err(), Some(DateError::BadNumber));
    assert_eq!(parse_date("1.3.y").err(), Some(DateError::BadNumber));
    assert_eq!(parse_date("30.2.2021").err(), Some(DateError::InvalidDate));
    assert_eq!(parse_date("1.13.2021").err(), Some(DateError::InvalidDate));
}

#[test]
fn long_option_split() {
    assert_eq!(parse_long_option("plain"), None);
    assert_eq!(parse_long_option("-x"), None);
    assert_eq!(
        parse_long_option("--from=1.2.2021"),
        Some(("from".to_string(), Some("1.2.2021".to_string())))
    );
    assert_eq!(parse_long_option("--behind-proxy"), Some(("behind-proxy".to_string(), None)));
    assert_eq!(parse_long_option("----a=b=c"), Some(("a".to_string(), Some("b".to_string()))));
    assert_eq!(parse_long_option("--"), Some(("".to_string(), None)));
    assert_eq!(parse_long_option("--k="), Some(("k".to_string(), Some("".to_string()))));
}

#[test]
fn crawler_command_line() {
    let args = strings(&[
        "crawler",
        "--from=1.1.2021",
        "--to=1.2.2021",
        "--config-file=repos.toml",
        "--behind-proxy",
        "--unknown=1",
    ]);
    let a = parse_cmdline(&args).unwrap();
    assert_eq!(a.from_date.secs, 1609459200);
    assert_eq!(a.to_date.secs, 1612137600);
    assert_eq!(a.config_file, "repos.toml");
    assert!(a.behind_proxy);

    let args = strings(&["--config-file=c", "--from=1.1.2021", "--to=2.1.2021"]);
    assert!(!parse_cmdline(&args).unwrap().behind_proxy);
}

#[test]
fn crawler_later_option_wins() {
    let args = strings(&["--from=1.1.2021", "--from=3.1.2021", "--to=4.1.2021", "--config-file=c"]);
    assert_eq!(parse_cmdline(&args).unwrap().from_date.secs, 1609632000);
}

#[test]
fn crawler_command_line_errors() {
    let e = |a: &[&str]| parse_cmdline(&strings(a)).err();
    assert_eq!(e(&["--to=1.1.2021", "--config-file=c"]), Some(CmdlineError::NoStartingDate));
    assert_eq!(e(&["--from=1.1.2021", "--config-file=c"]), Some(CmdlineError::NoEndingDate));
    assert_eq!(e(&["--from=1.1.2021", "--to=1.1.2021"]), Some(CmdlineError::NoConfigFile));
    assert_eq!(e(&["--from"]), Some(CmdlineError::MissingValue));
    assert_eq!(e(&["--config-file"]), Some(CmdlineError::MissingValue));
    assert_eq!(
        e(&["--from=a.b.c", "--to"]),
        Some(CmdlineError::BadDate(DateError::BadNumber))
    );
    assert_eq!(
        e(&["--to=31.4.2021"]),
        Some(CmdlineError::BadDate(DateError::InvalidDate))
    );
    assert_eq!(e(&["--from=2021"]), Some(CmdlineError::NoStartingDate));
}

#[test]
fn mailer_command_line() {
    let args = strings(&[
        "mailer",
        "--from=a@example.com",
        "--to=b@example.com",
        "--server=smtp.example.com",
        "--port=587",
        "--login=me",
        "--password=secret",
    ]);
    let a = parse_mailer_cmdline(&args).unwrap();
    assert_eq!(a.from.as_deref(), Some("a@example.com"));
    assert_eq!(a.to.as_deref(), Some("b@example.com"));
    assert_eq!(a.server.as_deref(), Some("smtp.example.com"));
    assert_eq!(a.port, Some(587));
    assert_eq!(a.login.as_deref(), Some("me"));
    assert_eq!(a.password.as_deref(), Some("secret"));

    let a = parse_mailer_cmdline(&strings(&["mailer"])).unwrap();
    assert!(a.from.is_none() && a.port.is_none() && a.password.is_none());
}

#[test]
fn mailer_command_line_errors() {
    let e = |a: &[&str]| parse_mailer_cmdline(&strings(a)).err();
    assert_eq!(e(&["--port=smtp"]), Some(CmdlineError::BadPort));
    assert_eq!(e(&["--port=70000"]), Some(CmdlineError::BadPort));
    assert_eq!(e(&["--server"]), Some(CmdlineError::MissingValue));
    assert_eq!(e(&["--port", "--server"]), Some(CmdlineError::MissingValue));
}

fn days_from_civil(y: i64, m: i64, d: i64) -> i64 {
    let yy = if m <= 2 { y - 1 } else { y };
    let era = yy.div_euclid(400);
    let yoe = yy - era * 400;
    let mp = (m + 9).rem_euclid(12);
    let doy = (153 * mp + 2) / 5 + d - 1;
    let doe = yoe * 365 + yoe / 4 - yoe / 100 + doy;
    era * 146097 + doe - 719468
}

#[test]
fn dates_count_gregorian_days() {
    for (d, m, y) in [
        (1, 1, 1970),
        (29, 2, 2000),
        (28, 2, 1900),
        (1, 3, 1900),
        (29, 2, 2024),
        (31, 12, 1969),
        (1, 1, 0),
        (29, 2, 0),
        (15, 6, -44),
        (29, 2, -4),
        (1, 1, -262143),
        (31, 12, 262142),
    ] {
        let t = parse_date(&format!("{}.{}.{}", d, m, y)).unwrap().unwrap();
        assert_eq!(t.secs, days_from_civil(y, m, d) * 86400, "date {}.{}.{}", d, m, y);
        assert_eq!(t.nanos, 0);
    }
}

#[test]
fn dates_outside_the_calendar_are_refused() {
    for s in ["29.2.1900", "29.2.2023", "31.4.2021", "0.1.2021", "1.0.2021", "32.1.2021", "1.1.262143", "1.1.-262144"] {
        assert_eq!(parse_date(s).err(), Some(DateError::InvalidDate), "date {}", s);
    }
}
