use vstd::prelude::*;
use crate::text::{
    find_first, find_from, first_char_from, first_occurrence, is_white_space, is_whitespace_char, to_chars,
    utf8_width,
};

verus! {

/// The length of the run of White_Space characters at the start of `s`.
pub open spec fn white_space_run(s: Seq<char>) -> nat
    decreases s.len(),
{
    if s.len() > 0 && is_white_space(s[0]) {
        1 + white_space_run(s.skip(1))
    } else {
        0
    }
}

pub proof fn lemma_white_space_run_bounds(s: Seq<char>)
    ensures
        white_space_run(s) <= s.len(),
        s.len() > 0 && is_white_space(s[0]) ==> white_space_run(s) >= 1,
    decreases s.len(),
{
    if s.len() > 0 && is_white_space(s[0]) {
        lemma_white_space_run_bounds(s.skip(1));
    }
}

/// `s` with every maximal run of White_Space characters replaced by a single
/// comma: what replacing all matches of the expression `\s+` by "," gives.
pub open spec fn collapse_white_space(s: Seq<char>) -> Seq<char>
    decreases s.len(),
{
    if s.len() == 0 {
        s
    } else if is_white_space(s[0]) {
        proof {
            lemma_white_space_run_bounds(s);
        }
        seq![','] + collapse_white_space(s.skip(white_space_run(s) as int))
    } else {
        seq![s[0]] + collapse_white_space(s.skip(1))
    }
}

/// Calls `regex::Regex::replace_all` with the expression `\s+` and the
/// replacement ",". Claims that the result is `s` with each maximal run of
/// White_Space characters (the class `\s` of the regex crate) turned into one
/// comma; the expression is fixed and always compiles.
#[verifier::external_body]
fn replace_white_space_runs(s: &str) -> (res: String)
    ensures
        res@ == collapse_white_space(s@),
{
    regex::Regex::new(r"\s+").unwrap().replace_all(s, ",").into_owned()
}

/// What `str::to_lowercase` gives for a string: the Unicode lowercase mapping
/// of each character, with the final-sigma rule.
pub uninterp spec fn lowercase(s: Seq<char>) -> Seq<char>;

/// Calls `str::to_lowercase`; claims only that the result is the named
/// lowercase form of the argument.
#[verifier::external_body]
fn to_lowercase(s: &str) -> (res: String)
    ensures
        res@ == lowercase(s@),
{
    s.to_lowercase()
}

/// The number of ASCII digits in `s` from index `i` on, up to the first other character.
pub open spec fn digit_run(s: Seq<char>, i: int) -> nat
    decreases s.len() - i,
{
    if 0 <= i < s.len() && '0' <= s[i] && s[i] <= '9' {
        1 + digit_run(s, i + 1)
    } else {
        0
    }
}

/// The expression `[0-9]+\s[m][i][n]` matches `s` from index `i`: a run of
/// digits, a White_Space character, then "min".
pub open spec fn minutes_at(s: Seq<char>, i: int) -> bool {
    let r = digit_run(s, i);
    &&& 0 <= i
    &&& r >= 1
    &&& i + r + 4 <= s.len()
    &&& is_white_space(s[i + r])
    &&& s[i + r + 1] == 'm'
    &&& s[i + r + 2] == 'i'
    &&& s[i + r + 3] == 'n'
}

/// The leftmost match of `[0-9]+\s[m][i][n]` in `s` at or after index `i`.
pub open spec fn minutes_from(s: Seq<char>, i: int) -> Option<Seq<char>>
    decreases s.len() - i,
{
    if i < 0 || i >= s.len() {
        None
    } else if minutes_at(s, i) {
        Some(s.subrange(i, i + digit_run(s, i) + 4))
    } else {
        minutes_from(s, i + 1)
    }
}

/// Calls `regex::Regex::find` with the expression `[0-9]+\s[m][i][n]`.
/// Claims that the result is the text of the leftmost match: since a shorter
/// run of digits is followed by a digit, a match from index `i` takes the
/// whole run of digits there, a White_Space character and "min".
#[verifier::external_body]
fn find_departure_minutes(text: &str) -> (res: Option<String>)
    ensures
        match res {
            Some(m) => minutes_from(text@, 0) == Some(m@),
            None => minutes_from(text@, 0) is None,
        },
{
    regex::Regex::new(r"[0-9]+\s[m][i][n]").unwrap().find(text).map(|m| m.as_str().to_string())
}

/// The number of characters from index `start` that make up exactly `nbytes`
/// bytes of UTF-8; `None` where the text ends first or a character straddles
/// the limit.
pub open spec fn chars_in_bytes(s: Seq<char>, start: int, nbytes: int) -> Option<int>
    decreases nbytes,
{
    if nbytes <= 0 {
        Some(0)
    } else if start < 0 || start >= s.len() || utf8_width(s[start]) > nbytes {
        None
    } else {
        match chars_in_bytes(s, start + 1, nbytes - utf8_width(s[start])) {
            Some(k) => Some(k + 1),
            None => None,
        }
    }
}

/// The keywords under which the timetable page lists a station: its name with
/// each run of White_Space turned into a comma, in lowercase.
pub open spec fn station_keywords(station: Seq<char>) -> Seq<char> {
    lowercase(collapse_white_space(station))
}

/// The text that precedes the identifier of the station listed under
/// `keywords` on the timetable page.
pub open spec fn keywords_pattern(keywords: Seq<char>) -> Seq<char> {
    "data-keywords=\""@ + keywords + "\" value="@
}

/// The identifier of the station listed under `keywords` on the page
/// `body`: after the first occurrence of the keywords' pattern, one
/// single-byte character is skipped and the identifier runs up to the next
/// '"'.
pub open spec fn keywords_id(body: Seq<char>, keywords: Seq<char>) -> Option<Seq<char>> {
    let pattern = keywords_pattern(keywords);
    match first_occurrence(body, pattern) {
        None => None,
        Some(p) => {
            let start = p + pattern.len();
            if start < body.len() && utf8_width(body[start]) == 1 {
                match first_char_from(body, '"', start + 1) {
                    Some(q) => Some(body.subrange(start + 1, q)),
                    None => None,
                }
            } else {
                None
            }
        },
    }
}

/// The identifier of `station` on the page `body`: that of its keywords.
pub open spec fn station_id(body: Seq<char>, station: Seq<char>) -> Option<Seq<char>> {
    keywords_id(body, station_keywords(station))
}

/// The announcement for `station` read from the timetable page `body`: the
/// first "N min" within the 100 bytes that start at the first "Najbl".
pub open spec fn departure_message(body: Seq<char>, station: Seq<char>) -> Option<Seq<char>> {
    match first_occurrence(body, "Najbl"@) {
        None => None,
        Some(p) => match chars_in_bytes(body, p, 100) {
            None => None,
            Some(k) => match minutes_from(body.subrange(p, p + k), 0) {
                None => None,
                Some(m) => Some(
                    "Next train from station "@ + station + " departs in "@ + m + "utes"@,
                ),
            },
        },
    }
}

/// The next-train action: asks the local railway's timetable page when the
/// next train between two stations leaves.
pub struct SKM {
    pub skm_url: String,
    pub proxy: Option<Vec<String>>,
    pub from: String,
    pub to: String,
}

fn utf8_width_of(c: char) -> (w: usize)
    ensures
        w == utf8_width(c),
{
    let v = c as u32;
    if v < 0x80 {
        1
    } else if v < 0x800 {
        2
    } else if v < 0x10000 {
        3
    } else {
        4
    }
}

/// The identifier of the station listed under `keywords` (already
/// lowercased, White_Space runs turned into commas) on the timetable page
/// `body`, or `None` where the page does not list it.
pub fn find_station_id(body: &str, keywords: &str) -> (res: Option<String>)
    ensures
        match res {
            Some(id) => keywords_id(body@, keywords@) == Some(id@),
            None => keywords_id(body@, keywords@) is None,
        },
{
    let mut pattern = String::from_str("data-keywords=\"");
    pattern.append(keywords);
    pattern.append("\" value=");
    assert(pattern@ == keywords_pattern(keywords@));
    let bv = to_chars(body);
    let pv = to_chars(pattern.as_str());
    match find_first(&bv, &pv) {
        None => None,
        Some(p) => {
            if pv.len() >= bv.len() - p {
                return None;
            }
            let start = p + pv.len();
            if utf8_width_of(bv[start]) != 1 {
                return None;
            }
            let mut q = start + 1;
            while q < bv.len()
                invariant
                    start + 1 <= q <= bv@.len(),
                    bv@ == body@,
                    first_occurrence(body@, keywords_pattern(keywords@)) == Some(p as int),
                    start == p + keywords_pattern(keywords@).len(),
                    start < body@.len(),
                    utf8_width(body@[start as int]) == 1,
                    first_char_from(body@, '"', start + 1) == first_char_from(body@, '"', q as int),
                decreases bv@.len() - q,
            {
                if bv[q] == '"' {
                    assert(first_char_from(body@, '"', q as int) == Some(q as int));
                    return Some(String::from_str(body.substring_char(start + 1, q)));
                }
                q = q + 1;
            }
            None
        },
    }
}

impl SKM {
    pub fn new(skm_url: String, proxy: Option<Vec<String>>, from: String, to: String) -> (res: Self)
        ensures
            res.skm_url == skm_url,
            res.proxy == proxy,
            res.from == from,
            res.to == to,
    {
        SKM { skm_url: skm_url, proxy: proxy, from: from, to: to }
    }

    /// The identifier of `station` on the timetable page `body`, or `None`
    /// where the page does not list it.
    pub fn get_station_id(&self, body: &str, station: &str) -> (res: Option<String>)
        ensures
            match res {
                Some(id) => station_id(body@, station@) == Some(id@),
                None => station_id(body@, station@) is None,
            },
    {
        let keywords = to_lowercase(replace_white_space_runs(station).as_str());
        find_station_id(body, keywords.as_str())
    }

    /// The announcement of the next departure from `station` read from the
    /// timetable page `body`, or `None` where the page holds none.
    pub fn get_message(&self, body: &str, station: &str) -> (res: Option<String>)
        ensures
            match res {
                Some(m) => departure_message(body@, station@) == Some(m@),
                None => departure_message(body@, station@) is None,
            },
    {
        let bv = to_chars(body);
        let marker = to_chars("Najbl");
        match find_first(&bv, &marker) {
            None => None,
            Some(p) => {
                let mut k: usize = 0;
                let mut used: usize = 0;
                while used < 100
                    invariant
                        bv@ == body@,
                        first_occurrence(body@, "Najbl"@) == Some(p as int),
                        used <= 100,
                        p + k <= bv@.len(),
                        chars_in_bytes(body@, p as int, 100) == match chars_in_bytes(
                            body@,
                            p + k,
                            100 - used,
                        ) {
                            Some(j) => Some(j + k),
                            None => None,
                        },
                    decreases 100 - used,
                {
                    if p + k >= bv.len() {
                        assert(chars_in_bytes(body@, p + k, 100 - used) is None);
                        return None;
                    }
                    let w = utf8_width_of(bv[p + k]);
                    if w > 100 - used {
                        assert(chars_in_bytes(body@, p + k, 100 - used) is None);
                        return None;
                    }
                    used = used + w;
                    k = k + 1;
                }
                let window = body.substring_char(p, p + k);
                match find_departure_minutes(window) {
                    None => None,
                    Some(m) => {
                        let mut msg = String::from_str("Next train from station ");
                        msg.append(station);
                        msg.append(" departs in ");
                        msg.append(m.as_str());
                        msg.append("utes");
                        Some(msg)
                    },
                }
            },
        }
    }

    /// The timetable query for a journey between two station identifiers at
    /// the given date, hour and minute.
    pub fn timetable_request(
        &self,
        from_id: &str,
        to_id: &str,
        date: &str,
        hour: &str,
        minutes: &str,
    ) -> (res: String)
        ensures
            res@ == self.skm_url@ + "/rozklad/?from="@ + from_id@ + "&to="@ + to_id@ + "&date="@
                + date@ + "&hour="@ + hour@ + "%3A"@ + minutes@,
    {
        let mut r = self.skm_url.clone();
        r.append("/rozklad/?from=");
        r.append(from_id);
        r.append("&to=");
        r.append(to_id);
        r.append("&date=");
        r.append(date);
        r.append("&hour=");
        r.append(hour);
        r.append("%3A");
        r.append(minutes);
        r
    }
}

} // verus!
