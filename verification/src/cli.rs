//! Reading the command lines of the contributions report and of the mailer.

use vstd::prelude::*;
use crate::contribs::UtcTime;
use crate::text::{split_char, split_parts, str_eq, to_chars};

verus! {

/// The value of the ASCII digits of `s`, most significant first.
pub open spec fn digits_value(s: Seq<char>) -> int
    decreases s.len(),
{
    if s.len() == 0 {
        0
    } else {
        digits_value(s.drop_last()) * 10 + (s.last() as int - '0' as int)
    }
}

/// Every character of `s` is an ASCII digit.
pub open spec fn all_digits(s: Seq<char>) -> bool {
    forall|i: int| 0 <= i < s.len() ==> '0' <= #[trigger] s[i] && s[i] <= '9'
}

/// What `str::parse` gives for an unsigned integer no greater than `max`: an
/// optional '+', then one or more ASCII digits whose value fits.
pub open spec fn parse_unsigned_spec(s: Seq<char>, max: int) -> Option<int> {
    let body = if s.len() > 0 && s[0] == '+' {
        s.skip(1)
    } else {
        s
    };
    if body.len() > 0 && all_digits(body) && digits_value(body) <= max {
        Some(digits_value(body))
    } else {
        None
    }
}

/// What `str::parse::<i32>` gives: an optional '+' or '-', then one or more
/// ASCII digits whose signed value fits.
pub open spec fn parse_i32_spec(s: Seq<char>) -> Option<int> {
    if s.len() > 0 && s[0] == '-' {
        let body = s.skip(1);
        if body.len() > 0 && all_digits(body) && digits_value(body) <= 0x8000_0000 {
            Some(-digits_value(body))
        } else {
            None
        }
    } else {
        parse_unsigned_spec(s, 0x7fff_ffff)
    }
}

proof fn lemma_digits_value_nonneg(s: Seq<char>)
    requires
        all_digits(s),
    ensures
        digits_value(s) >= 0,
    decreases s.len(),
{
    if s.len() > 0 {
        assert(all_digits(s.drop_last())) by {
            assert forall|i: int| 0 <= i < s.drop_last().len() implies '0' <= #[trigger] s.drop_last()[i]
                && s.drop_last()[i] <= '9' by {
                assert(s.drop_last()[i] == s[i]);
            }
        }
        lemma_digits_value_nonneg(s.drop_last());
        assert('0' <= s[s.len() - 1]);
    }
}

proof fn lemma_digits_value_grows(s: Seq<char>, k: int)
    requires
        all_digits(s),
        0 <= k <= s.len(),
    ensures
        digits_value(s.take(k)) <= digits_value(s),
    decreases s.len() - k,
{
    if k < s.len() {
        lemma_digits_value_grows(s, k + 1);
        assert(s.take(k + 1).drop_last() =~= s.take(k));
        assert(all_digits(s.take(k))) by {
            assert forall|i: int| 0 <= i < s.take(k).len() implies '0' <= #[trigger] s.take(k)[i]
                && s.take(k)[i] <= '9' by {
                assert(s.take(k)[i] == s[i]);
            }
        }
        lemma_digits_value_nonneg(s.take(k));
        assert(s[k] >= '0');
    } else {
        assert(s.take(k) =~= s);
    }
}

/// The value of the digits of `s` from `start` on, where they are all
/// digits and the value is at most `max`.
fn digits_from(s: &Vec<char>, start: usize, max: u64) -> (res: Option<u64>)
    requires
        max < 0x1_0000_0000,
        start <= s@.len(),
    ensures
        match res {
            Some(v) => s@.skip(start as int).len() > 0 && all_digits(s@.skip(start as int))
                && digits_value(s@.skip(start as int)) == v && v <= max,
            None => !(s@.skip(start as int).len() > 0 && all_digits(s@.skip(start as int))
                && digits_value(s@.skip(start as int)) <= max),
        },
{
    let ghost body = s@.skip(start as int);
    if start == s.len() {
        return None;
    }
    let mut v: u64 = 0;
    let mut i = start;
    assert(body.take(0) =~= Seq::<char>::empty());
    while i < s.len()
        invariant
            start <= i <= s@.len(),
            body == s@.skip(start as int),
            v <= max,
            max < 0x1_0000_0000,
            all_digits(body.take(i - start)),
            digits_value(body.take(i - start)) == v,
        decreases s@.len() - i,
    {
        let c = s[i];
        let ghost k = i - start;
        assert(body[k] == c);
        if c < '0' || c > '9' {
            assert(!all_digits(body)) by {
                assert(!('0' <= body[k] && body[k] <= '9'));
            }
            return None;
        }
        assert(body.take(k + 1).drop_last() =~= body.take(k));
        assert(body.take(k + 1).last() == c);
        let d = (c as u32 - '0' as u32) as u64;
        if d > max || v > (max - d) / 10 {
            proof {
                assert(all_digits(body.take(k + 1))) by {
                    assert forall|j: int| 0 <= j < body.take(k + 1).len() implies '0'
                        <= #[trigger] body.take(k + 1)[j] && body.take(k + 1)[j] <= '9' by {
                        if j < k {
                            assert(body.take(k + 1)[j] == body.take(k)[j]);
                        }
                    }
                }
                assert(digits_value(body.take(k + 1)) == v * 10 + d);
                if d <= max {
                    assert(v * 10 + d > max) by (nonlinear_arith)
                        requires
                            v > (max - d) / 10,
                            d <= max,
                    ;
                }
                if all_digits(body) {
                    lemma_digits_value_grows(body, k + 1);
                }
            }
            return None;
        }
        assert(v * 10 + d <= max) by (nonlinear_arith)
            requires
                v <= (max - d) / 10,
                d <= max,
        ;
        v = v * 10 + d;
        i = i + 1;
        proof {
            assert(all_digits(body.take(k + 1))) by {
                assert forall|j: int| 0 <= j < body.take(k + 1).len() implies '0'
                    <= #[trigger] body.take(k + 1)[j] && body.take(k + 1)[j] <= '9' by {
                    if j < k {
                        assert(body.take(k + 1)[j] == body.take(k)[j]);
                    }
                }
            }
        }
    }
    assert(body.take(body.len() as int) =~= body);
    Some(v)
}

/// Parses an unsigned decimal number of at most `max`, as `str::parse` does
/// for an unsigned integer type whose largest value is `max`.
fn parse_unsigned(s: &str, max: u64) -> (res: Option<u64>)
    requires
        max < 0x1_0000_0000,
    ensures
        match parse_unsigned_spec(s@, max as int) {
            Some(v) => res == Some(v as u64) && 0 <= v <= max,
            None => res is None,
        },
{
    let v = to_chars(s);
    let start: usize = if v.len() > 0 && v[0] == '+' {
        1
    } else {
        0
    };
    assert(start == 0 ==> s@.skip(0) =~= s@);
    digits_from(&v, start, max)
}

/// Parses a `u32` as `str::parse::<u32>` does.
pub fn parse_u32(s: &str) -> (res: Option<u32>)
    ensures
        match parse_unsigned_spec(s@, u32::MAX as int) {
            Some(v) => res == Some(v as u32),
            None => res is None,
        },
{
    match parse_unsigned(s, 0xffff_ffff) {
        Some(v) => Some(v as u32),
        None => None,
    }
}

/// Parses a `u16` as `str::parse::<u16>` does.
pub fn parse_u16(s: &str) -> (res: Option<u16>)
    ensures
        match parse_unsigned_spec(s@, u16::MAX as int) {
            Some(v) => res == Some(v as u16),
            None => res is None,
        },
{
    match parse_unsigned(s, 0xffff) {
        Some(v) => Some(v as u16),
        None => None,
    }
}

/// Parses an `i32` as `str::parse::<i32>` does.
pub fn parse_i32(s: &str) -> (res: Option<i32>)
    ensures
        match parse_i32_spec(s@) {
            Some(v) => res == Some(v as i32),
            None => res is None,
        },
{
    let v = to_chars(s);
    if v.len() > 0 && v[0] == '-' {
        match digits_from(&v, 1, 0x8000_0000) {
            Some(x) => {
                let r: i64 = 0 - (x as i64);
                Some(r as i32)
            },
            None => None,
        }
    } else {
        match parse_unsigned(s, 0x7fff_ffff) {
            Some(x) => Some(x as i32),
            None => None,
        }
    }
}

/// Whether `y` is a leap year of the proleptic Gregorian calendar (year 0
/// being 1 BC).
pub open spec fn is_leap_year(y: int) -> bool {
    y % 4 == 0 && (y % 100 != 0 || y % 400 == 0)
}

/// The number of days of month `m` of year `y`.
pub open spec fn days_in_month(y: int, m: int) -> int {
    if m == 2 {
        if is_leap_year(y) {
            29
        } else {
            28
        }
    } else if m == 4 || m == 6 || m == 9 || m == 11 {
        30
    } else {
        31
    }
}

/// The number of days from 1970-01-01 to the date `y`-`m`-`d` of the
/// proleptic Gregorian calendar (negative before it).
pub open spec fn days_from_civil(y: int, m: int, d: int) -> int {
    let yy = if m <= 2 {
        y - 1
    } else {
        y
    };
    let era = yy / 400;
    let yoe = yy - era * 400;
    let mp = (m + 9) % 12;
    let doy = (153 * mp + 2) / 5 + d - 1;
    let doe = yoe * 365 + yoe / 4 - yoe / 100 + doy;
    era * 146097 + doe - 719468
}

/// The number of seconds from 1970-01-01T00:00:00Z to midnight UTC of the
/// given day; `None` where there is no such day or the year lies outside
/// the years that chrono's `NaiveDate` holds (-262143 to 262142).
pub open spec fn midnight_utc(year: i32, month: u32, day: u32) -> Option<i64> {
    if -262143 <= year <= 262142 && 1 <= month <= 12 && 1 <= day <= days_in_month(
        year as int,
        month as int,
    ) {
        Some((days_from_civil(year as int, month as int, day as int) * 86400) as i64)
    } else {
        None
    }
}

/// Calls `NaiveDate::from_ymd_opt`, then `and_time` with midnight, `and_utc`
/// and `timestamp`; claims that chrono counts the days of the proleptic
/// Gregorian calendar, refusing invalid dates and years outside its range.
#[verifier::external_body]
fn midnight_timestamp(year: i32, month: u32, day: u32) -> (res: Option<i64>)
    ensures
        res == midnight_utc(year, month, day),
{
    chrono::NaiveDate::from_ymd_opt(year, month, day).map(
        |d| d.and_time(chrono::NaiveTime::MIN).and_utc().timestamp(),
    )
}

/// What makes a date on the command line unusable.
#[derive(PartialEq, Eq, Structural, Debug, Clone, Copy)]
pub enum DateError {
    /// A part of the date is not a number.
    BadNumber,
    /// The numbers are no date of the calendar.
    InvalidDate,
}

/// The moment that a date written "day.month.year" stands for: midnight UTC
/// of that day. A text of another number of parts is no date.
pub open spec fn date_spec(s: Seq<char>) -> Result<Option<UtcTime>, DateError> {
    let parts = split_parts(s, '.');
    if parts.len() != 3 {
        Ok(None)
    } else {
        match (
            parse_unsigned_spec(parts[0], u32::MAX as int),
            parse_unsigned_spec(parts[1], u32::MAX as int),
            parse_i32_spec(parts[2]),
        ) {
            (Some(d), Some(m), Some(y)) => match midnight_utc(y as i32, m as u32, d as u32) {
                Some(t) => Ok(Some(UtcTime { secs: t, nanos: 0 })),
                None => Err(DateError::InvalidDate),
            },
            _ => Err(DateError::BadNumber),
        }
    }
}

/// Reads a date written "day.month.year".
pub fn parse_date(s: &str) -> (res: Result<Option<UtcTime>, DateError>)
    ensures
        res == date_spec(s@),
{
    let values = split_char(s, '.');
    if values.len() != 3 {
        return Ok(None);
    }
    let d = match parse_u32(values[0].as_str()) {
        Some(d) => d,
        None => {
            return Err(DateError::BadNumber);
        },
    };
    let m = match parse_u32(values[1].as_str()) {
        Some(m) => m,
        None => {
            return Err(DateError::BadNumber);
        },
    };
    let y = match parse_i32(values[2].as_str()) {
        Some(y) => y,
        None => {
            return Err(DateError::BadNumber);
        },
    };
    match midnight_timestamp(y, m, d) {
        Some(t) => Ok(Some(UtcTime { secs: t, nanos: 0 })),
        None => Err(DateError::InvalidDate),
    }
}

/// `s` without the repetitions of "--" at its start, as
/// `str::trim_start_matches("--")` gives it.
pub open spec fn strip_dashes(s: Seq<char>) -> Seq<char>
    decreases s.len(),
{
    if s.len() >= 2 && s[0] == '-' && s[1] == '-' {
        strip_dashes(s.skip(2))
    } else {
        s
    }
}

proof fn lemma_split_parts_nonempty(s: Seq<char>, c: char)
    ensures
        split_parts(s, c).len() >= 1,
{
    crate::text::lemma_first_char_from_bounds(s, c, 0);
}

/// The key of an argument "--key=value" and its value, where it has one: the
/// dashes are stripped, the key runs to the first '=', the value from there
/// to the next '='. An argument without leading "--" is no option.
pub open spec fn long_option(arg: Seq<char>) -> Option<(Seq<char>, Option<Seq<char>>)> {
    if arg.len() >= 2 && arg[0] == '-' && arg[1] == '-' {
        let parts = split_parts(strip_dashes(arg), '=');
        Some(
            (
                parts[0],
                if parts.len() > 1 {
                    Some(parts[1])
                } else {
                    None
                },
            ),
        )
    } else {
        None
    }
}

/// Splits an argument "--key=value" into its key and its value.
pub fn parse_long_option(arg: &str) -> (res: Option<(String, Option<String>)>)
    ensures
        match long_option(arg@) {
            None => res is None,
            Some((k, v)) => res matches Some((rk, rv)) && rk@ == k && match v {
                Some(x) => rv matches Some(y) && y@ == x,
                None => rv is None,
            },
        },
{
    let v = to_chars(arg);
    let n = v.len();
    if n < 2 || v[0] != '-' || v[1] != '-' {
        return None;
    }
    let mut i: usize = 0;
    assert(arg@.skip(0) =~= arg@);
    while n - i >= 2 && v[i] == '-' && v[i + 1] == '-'
        invariant
            v@ == arg@,
            n == arg@.len(),
            i <= n,
            strip_dashes(arg@) == strip_dashes(arg@.skip(i as int)),
        decreases n - i,
    {
        assert(arg@.skip(i as int).skip(2) =~= arg@.skip(i + 2));
        i = i + 2;
    }
    assert(arg@.skip(i as int) =~= arg@.subrange(i as int, n as int));
    let stripped = arg.substring_char(i, n);
    let parts = split_char(stripped, '=');
    proof {
        lemma_split_parts_nonempty(stripped@, '=');
    }
    let key = parts[0].clone();
    let value = if parts.len() > 1 {
        Some(parts[1].clone())
    } else {
        None
    };
    Some((key, value))
}

/// What makes a command line unusable.
#[derive(PartialEq, Eq, Structural, Debug, Clone, Copy)]
pub enum CmdlineError {
    /// An option that needs a value has none.
    MissingValue,
    /// A date is unusable.
    BadDate(DateError),
    /// The port is not a number.
    BadPort,
    /// No starting date was given.
    NoStartingDate,
    /// No ending date was given.
    NoEndingDate,
    /// No configuration file was given.
    NoConfigFile,
}

/// The options of the contributions report read so far.
pub struct CrawlerState {
    pub config_file: Option<Seq<char>>,
    pub behind_proxy: bool,
    pub from_date: Option<UtcTime>,
    pub to_date: Option<UtcTime>,
}

/// The effect of one argument of the contributions report.
pub open spec fn crawler_step(st: CrawlerState, arg: Seq<char>) -> Result<CrawlerState, CmdlineError> {
    match long_option(arg) {
        None => Ok(st),
        Some((key, value)) => if key == "config-file"@ {
            match value {
                None => Err(CmdlineError::MissingValue),
                Some(v) => Ok(
                    CrawlerState {
                        config_file: Some(v),
                        behind_proxy: st.behind_proxy,
                        from_date: st.from_date,
                        to_date: st.to_date,
                    },
                ),
            }
        } else if key == "behind-proxy"@ {
            Ok(
                CrawlerState {
                    config_file: st.config_file,
                    behind_proxy: true,
                    from_date: st.from_date,
                    to_date: st.to_date,
                },
            )
        } else if key == "from"@ || key == "to"@ {
            match value {
                None => Err(CmdlineError::MissingValue),
                Some(v) => match date_spec(v) {
                    Err(e) => Err(CmdlineError::BadDate(e)),
                    Ok(d) => if key == "from"@ {
                        Ok(
                            CrawlerState {
                                config_file: st.config_file,
                                behind_proxy: st.behind_proxy,
                                from_date: d,
                                to_date: st.to_date,
                            },
                        )
                    } else {
                        Ok(
                            CrawlerState {
                                config_file: st.config_file,
                                behind_proxy: st.behind_proxy,
                                from_date: st.from_date,
                                to_date: d,
                            },
                        )
                    },
                },
            }
        } else {
            Ok(st)
        },
    }
}

/// The options of the contributions report after the arguments `args`; the
/// first unusable argument decides the error.
pub open spec fn crawler_fold(args: Seq<Seq<char>>) -> Result<CrawlerState, CmdlineError>
    decreases args.len(),
{
    if args.len() == 0 {
        Ok(CrawlerState { config_file: None, behind_proxy: false, from_date: None, to_date: None })
    } else {
        match crawler_fold(args.drop_last()) {
            Err(e) => Err(e),
            Ok(st) => crawler_step(st, args.last()),
        }
    }
}

/// The options of the contributions report: the period, the configuration
/// file and whether a proxy is used.
pub struct CrawlerArgs {
    pub from_date: UtcTime,
    pub to_date: UtcTime,
    pub config_file: String,
    pub behind_proxy: bool,
}

/// The views of the strings of a list.
pub open spec fn views(args: Seq<String>) -> Seq<Seq<char>> {
    args.map_values(|a: String| a@)
}

fn is_key(key: &String, name: &str) -> (res: bool)
    ensures
        res == (key@ == name@),
{
    str_eq(key.as_str(), name)
}

/// Reads the command line of the contributions report.
pub fn parse_cmdline(args: &Vec<String>) -> (res: Result<CrawlerArgs, CmdlineError>)
    ensures
        match crawler_fold(views(args@)) {
            Err(e) => res matches Err(r) && r == e,
            Ok(st) => match (st.from_date, st.to_date, st.config_file) {
                (None, _, _) => res matches Err(r) && r == CmdlineError::NoStartingDate,
                (Some(_), None, _) => res matches Err(r) && r == CmdlineError::NoEndingDate,
                (Some(_), Some(_), None) => res matches Err(r) && r == CmdlineError::NoConfigFile,
                (Some(f), Some(t), Some(c)) => res matches Ok(a) && a.from_date == f && a.to_date == t
                    && a.config_file@ == c && a.behind_proxy == st.behind_proxy,
            },
        },
{
    let ghost vs = views(args@);
    let mut config_file: Option<String> = None;
    let mut behind_proxy = false;
    let mut from_date: Option<UtcTime> = None;
    let mut to_date: Option<UtcTime> = None;
    let mut i: usize = 0;
    while i < args.len()
        invariant
            i <= args@.len(),
            vs == views(args@),
            crawler_fold(vs.take(i as int)) matches Ok(st) && st.behind_proxy == behind_proxy
                && st.from_date == from_date && st.to_date == to_date && match (
                st.config_file,
                config_file,
            ) {
                (Some(a), Some(b)) => a == b@,
                (None, None) => true,
                _ => false,
            },
        decreases args@.len() - i,
    {
        let ghost before = vs.take(i as int);
        assert(vs.take(i + 1).drop_last() =~= before);
        assert(vs.take(i + 1).last() == args@[i as int]@);
        match parse_long_option(args[i].as_str()) {
            None => {},
            Some((key, value)) => {
                if is_key(&key, "config-file") {
                    match value {
                        None => {
                            proof {
                                reveal_strlit("config-file");
                                lemma_crawler_error_persists(vs, i + 1);
                            }
                            return Err(CmdlineError::MissingValue);
                        },
                        Some(v) => {
                            config_file = Some(v);
                        },
                    }
                } else if is_key(&key, "behind-proxy") {
                    behind_proxy = true;
                } else if is_key(&key, "from") || is_key(&key, "to") {
                    let v = match value {
                        None => {
                            proof {
                                lemma_crawler_error_persists(vs, i + 1);
                            }
                            return Err(CmdlineError::MissingValue);
                        },
                        Some(v) => v,
                    };
                    let d = match parse_date(v.as_str()) {
                        Err(e) => {
                            proof {
                                lemma_crawler_error_persists(vs, i + 1);
                            }
                            return Err(CmdlineError::BadDate(e));
                        },
                        Ok(d) => d,
                    };
                    if is_key(&key, "from") {
                        from_date = d;
                    } else {
                        to_date = d;
                    }
                }
            },
        }
        i = i + 1;
    }
    assert(vs.take(args@.len() as int) =~= vs);
    let f = match from_date {
        None => {
            return Err(CmdlineError::NoStartingDate);
        },
        Some(f) => f,
    };
    let t = match to_date {
        None => {
            return Err(CmdlineError::NoEndingDate);
        },
        Some(t) => t,
    };
    match config_file {
        None => Err(CmdlineError::NoConfigFile),
        Some(c) => Ok(CrawlerArgs { from_date: f, to_date: t, config_file: c, behind_proxy }),
    }
}

proof fn lemma_crawler_error_persists(args: Seq<Seq<char>>, k: int)
    requires
        0 <= k <= args.len(),
        crawler_fold(args.take(k)) is Err,
    ensures
        crawler_fold(args) == crawler_fold(args.take(k)),
    decreases args.len() - k,
{
    if k < args.len() {
        assert(args.take(k + 1).drop_last() =~= args.take(k));
        lemma_crawler_error_persists(args, k + 1);
    } else {
        assert(args.take(k) =~= args);
    }
}

/// The options of the mailer read so far.
pub struct MailerState {
    pub from: Option<Seq<char>>,
    pub to: Option<Seq<char>>,
    pub server: Option<Seq<char>>,
    pub port: Option<u16>,
    pub login: Option<Seq<char>>,
    pub password: Option<Seq<char>>,
}

/// The effect of one argument of the mailer.
pub open spec fn mailer_step(st: MailerState, arg: Seq<char>) -> Result<MailerState, CmdlineError> {
    match long_option(arg) {
        None => Ok(st),
        Some((key, value)) => if key == "from"@ || key == "to"@ || key == "server"@ || key
            == "port"@ || key == "login"@ || key == "password"@ {
            match value {
                None => Err(CmdlineError::MissingValue),
                Some(v) => if key == "port"@ {
                    match parse_unsigned_spec(v, u16::MAX as int) {
                        None => Err(CmdlineError::BadPort),
                        Some(p) => Ok(MailerState { port: Some(p as u16), ..st }),
                    }
                } else if key == "from"@ {
                    Ok(MailerState { from: Some(v), ..st })
                } else if key == "to"@ {
                    Ok(MailerState { to: Some(v), ..st })
                } else if key == "server"@ {
                    Ok(MailerState { server: Some(v), ..st })
                } else if key == "login"@ {
                    Ok(MailerState { login: Some(v), ..st })
                } else {
                    Ok(MailerState { password: Some(v), ..st })
                },
            }
        } else {
            Ok(st)
        },
    }
}

/// The options of the mailer after the arguments `args`; the first
/// unusable argument decides the error.
pub open spec fn mailer_fold(args: Seq<Seq<char>>) -> Result<MailerState, CmdlineError>
    decreases args.len(),
{
    if args.len() == 0 {
        Ok(
            MailerState {
                from: None,
                to: None,
                server: None,
                port: None,
                login: None,
                password: None,
            },
        )
    } else {
        match mailer_fold(args.drop_last()) {
            Err(e) => Err(e),
            Ok(st) => mailer_step(st, args.last()),
        }
    }
}

/// The options of the mailer: addresses, server, port and account.
pub struct MailerArgs {
    pub from: Option<String>,
    pub to: Option<String>,
    pub server: Option<String>,
    pub port: Option<u16>,
    pub login: Option<String>,
    pub password: Option<String>,
}

/// An optional string holds the optional text.
pub open spec fn opt_view(a: Option<String>, b: Option<Seq<char>>) -> bool {
    match (a, b) {
        (Some(x), Some(y)) => x@ == y,
        (None, None) => true,
        _ => false,
    }
}

/// The parsed options hold the options read.
pub open spec fn mailer_args_match(a: MailerArgs, st: MailerState) -> bool {
    &&& opt_view(a.from, st.from)
    &&& opt_view(a.to, st.to)
    &&& opt_view(a.server, st.server)
    &&& a.port == st.port
    &&& opt_view(a.login, st.login)
    &&& opt_view(a.password, st.password)
}

proof fn lemma_mailer_error_persists(args: Seq<Seq<char>>, k: int)
    requires
        0 <= k <= args.len(),
        mailer_fold(args.take(k)) is Err,
    ensures
        mailer_fold(args) == mailer_fold(args.take(k)),
    decreases args.len() - k,
{
    if k < args.len() {
        assert(args.take(k + 1).drop_last() =~= args.take(k));
        lemma_mailer_error_persists(args, k + 1);
    } else {
        assert(args.take(k) =~= args);
    }
}

/// Reads the command line of the mailer.
pub fn parse_mailer_cmdline(args: &Vec<String>) -> (res: Result<MailerArgs, CmdlineError>)
    ensures
        match mailer_fold(views(args@)) {
            Err(e) => res matches Err(r) && r == e,
            Ok(st) => res matches Ok(a) && mailer_args_match(a, st),
        },
{
    let ghost vs = views(args@);
    let mut out = MailerArgs { from: None, to: None, server: None, port: None, login: None, password: None };
    let mut i: usize = 0;
    while i < args.len()
        invariant
            i <= args@.len(),
            vs == views(args@),
            mailer_fold(vs.take(i as int)) matches Ok(st) && mailer_args_match(out, st),
        decreases args@.len() - i,
    {
        assert(vs.take(i + 1).drop_last() =~= vs.take(i as int));
        assert(vs.take(i + 1).last() == args@[i as int]@);
        match parse_long_option(args[i].as_str()) {
            None => {},
            Some((key, value)) => {
                if is_key(&key, "from") || is_key(&key, "to") || is_key(&key, "server") || is_key(
                    &key,
                    "port",
                ) || is_key(&key, "login") || is_key(&key, "password") {
                    let v = match value {
                        None => {
                            proof {
                                lemma_mailer_error_persists(vs, i + 1);
                            }
                            return Err(CmdlineError::MissingValue);
                        },
                        Some(v) => v,
                    };
                    if is_key(&key, "port") {
                        match parse_u16(v.as_str()) {
                            None => {
                                proof {
                                    lemma_mailer_error_persists(vs, i + 1);
                                }
                                return Err(CmdlineError::BadPort);
                            },
                            Some(p) => {
                                out.port = Some(p);
                            },
                        }
                    } else if is_key(&key, "from") {
                        out.from = Some(v);
                    } else if is_key(&key, "to") {
                        out.to = Some(v);
                    } else if is_key(&key, "server") {
                        out.server = Some(v);
                    } else if is_key(&key, "login") {
                        out.login = Some(v);
                    } else {
                        out.password = Some(v);
                    }
                }
            },
        }
        i = i + 1;
    }
    assert(vs.take(args@.len() as int) =~= vs);
    Ok(out)
}

} // verus!
