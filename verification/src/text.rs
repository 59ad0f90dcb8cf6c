use vstd::prelude::*;

verus! {

/// `pat` occurs in `s` starting at character index `i`.
pub open spec fn occurs_at(s: Seq<char>, pat: Seq<char>, i: int) -> bool {
    &&& 0 <= i
    &&& i + pat.len() <= s.len()
    &&& s.subrange(i, i + pat.len()) == pat
}

/// `i` is the index of the leftmost occurrence of `pat` in `s`.
pub open spec fn is_first_occurrence(s: Seq<char>, pat: Seq<char>, i: int) -> bool {
    &&& occurs_at(s, pat, i)
    &&& forall|j: int| 0 <= j < i ==> !occurs_at(s, pat, j)
}

/// Every non-overlapping occurrence of a non-empty `pat` in `s`, scanned from
/// the left, replaced by `rep`.
pub open spec fn replace_all(s: Seq<char>, pat: Seq<char>, rep: Seq<char>) -> Seq<char>
    decreases s.len(),
{
    if s.len() == 0 {
        Seq::empty()
    } else if 0 < pat.len() && occurs_at(s, pat, 0) {
        rep + replace_all(s.skip(pat.len() as int), pat, rep)
    } else {
        seq![s[0]] + replace_all(s.skip(1), pat, rep)
    }
}

/// The characters of a string slice, one per element.
pub fn to_chars(s: &str) -> (v: Vec<char>)
    ensures
        v@ == s@,
{
    let mut v: Vec<char> = Vec::new();
    for c in it: s.chars()
        invariant
            v@ == it.seq().take(it.index() as int),
            it.seq() == s@,
    {
        v.push(c);
    }
    v
}

/// Whether `pat` occurs in `s` at index `i`.
pub fn matches_at(s: &Vec<char>, pat: &Vec<char>, i: usize) -> (res: bool)
    ensures
        res == occurs_at(s@, pat@, i as int),
{
    if i > s.len() || pat.len() > s.len() - i {
        return false;
    }
    let mut k: usize = 0;
    while k < pat.len()
        invariant
            i + pat@.len() <= s@.len(),
            s@.len() <= usize::MAX,
            k <= pat@.len(),
            forall|j: int| 0 <= j < k ==> s@[i + j] == pat@[j],
        decreases pat@.len() - k,
    {
        if s[i + k] != pat[k] {
            assert(s@.subrange(i as int, i + pat@.len())[k as int] != pat@[k as int]);
            return false;
        }
        k = k + 1;
    }
    assert(s@.subrange(i as int, i + pat@.len()) =~= pat@);
    true
}

/// Whether two character sequences are equal.
pub fn chars_eq(a: &Vec<char>, b: &Vec<char>) -> (res: bool)
    ensures
        res == (a@ == b@),
{
    if a.len() != b.len() {
        return false;
    }
    let res = matches_at(a, b, 0);
    assert(a@.subrange(0, a@.len() as int) =~= a@);
    res
}

/// Whether two string slices hold the same characters.
pub fn str_eq(a: &str, b: &str) -> (res: bool)
    ensures
        res == (a@ == b@),
{
    let av = to_chars(a);
    let bv = to_chars(b);
    chars_eq(&av, &bv)
}

/// Index of the leftmost occurrence of `pat` in `s` at or after `from`.
pub fn find_from(s: &Vec<char>, pat: &Vec<char>, from: usize) -> (res: Option<usize>)
    ensures
        match res {
            Some(i) => from <= i && occurs_at(s@, pat@, i as int) && forall|j: int|
                from <= j < i ==> !occurs_at(s@, pat@, j),
            None => forall|j: int| from <= j ==> !occurs_at(s@, pat@, j),
        },
{
    let mut i = from;
    while i < s.len()
        invariant
            from <= i,
            forall|j: int| from <= j < i ==> !occurs_at(s@, pat@, j),
        decreases s@.len() - i,
    {
        if matches_at(s, pat, i) {
            return Some(i);
        }
        i = i + 1;
    }
    if i == s.len() && matches_at(s, pat, i) {
        return Some(i);
    }
    None
}

/// Index of the leftmost occurrence of `pat` in `s`.
pub fn find(s: &Vec<char>, pat: &Vec<char>) -> (res: Option<usize>)
    ensures
        match res {
            Some(i) => is_first_occurrence(s@, pat@, i as int),
            None => forall|j: int| !occurs_at(s@, pat@, j),
        },
{
    find_from(s, pat, 0)
}

pub proof fn lemma_replace_step(s: Seq<char>, pat: Seq<char>, rep: Seq<char>, i: int)
    requires
        0 <= i < s.len(),
        pat.len() > 0,
    ensures
        occurs_at(s, pat, i) ==> replace_all(s.skip(i), pat, rep) == rep + replace_all(
            s.skip(i + pat.len()),
            pat,
            rep,
        ),
        !occurs_at(s, pat, i) ==> replace_all(s.skip(i), pat, rep) == seq![s[i]] + replace_all(
            s.skip(i + 1),
            pat,
            rep,
        ),
{
    let t = s.skip(i);
    assert(t.skip(1) =~= s.skip(i + 1));
    if occurs_at(s, pat, i) {
        assert(t.skip(pat.len() as int) =~= s.skip(i + pat.len()));
        assert(t.subrange(0, pat.len() as int) =~= s.subrange(i, i + pat.len()));
    } else if occurs_at(t, pat, 0) {
        assert(t.subrange(0, pat.len() as int) =~= s.subrange(i, i + pat.len()));
    }
}

/// `s` with every non-overlapping occurrence of the non-empty `pat`, scanned
/// from the left, replaced by `rep`.
pub fn replace(s: &str, pat: &str, rep: &str) -> (res: String)
    requires
        pat@.len() > 0,
    ensures
        res@ == replace_all(s@, pat@, rep@),
{
    let sv = to_chars(s);
    let pv = to_chars(pat);
    let n = sv.len();
    let mut out = String::new();
    let mut last: usize = 0;
    let mut i: usize = 0;
    assert(s@.skip(0) =~= s@);
    while i < n
        invariant
            sv@ == s@,
            pv@ == pat@,
            pat@.len() > 0,
            n == s@.len(),
            last <= i <= n,
            out@ + s@.subrange(last as int, i as int) + replace_all(s@.skip(i as int), pat@, rep@)
                == replace_all(s@, pat@, rep@),
        decreases n - i,
    {
        proof {
            lemma_replace_step(s@, pat@, rep@, i as int);
        }
        if matches_at(&sv, &pv, i) {
            let piece = s.substring_char(last, i);
            out.append(piece);
            out.append(rep);
            assert(s@.subrange(i as int, (i + pv.len()) as int) == pat@);
            i = i + pv.len();
            last = i;
            assert(s@.subrange(last as int, i as int) =~= Seq::<char>::empty());
        } else {
            assert(s@.subrange(last as int, i + 1) =~= s@.subrange(last as int, i as int).push(
                s@[i as int],
            ));
            i = i + 1;
        }
    }
    let piece = s.substring_char(last, n);
    out.append(piece);
    assert(s@.skip(n as int) =~= Seq::<char>::empty());
    assert(replace_all(Seq::<char>::empty(), pat@, rep@) =~= Seq::<char>::empty());
    out
}


/// The index of the leftmost occurrence of `pat` in `s`, if there is one.
pub open spec fn first_occurrence(s: Seq<char>, pat: Seq<char>) -> Option<int> {
    if exists|i: int| occurs_at(s, pat, i) {
        Some(choose|i: int| is_first_occurrence(s, pat, i))
    } else {
        None
    }
}

proof fn lemma_first_occurrence_exists(s: Seq<char>, pat: Seq<char>, k: int)
    requires
        occurs_at(s, pat, k),
    ensures
        exists|i: int| is_first_occurrence(s, pat, i),
    decreases k,
{
    if exists|j: int| 0 <= j < k && occurs_at(s, pat, j) {
        let j = choose|j: int| 0 <= j < k && occurs_at(s, pat, j);
        lemma_first_occurrence_exists(s, pat, j);
    } else {
        assert(is_first_occurrence(s, pat, k));
    }
}

/// A leftmost occurrence is the value of `first_occurrence`.
pub proof fn lemma_first_occurrence(s: Seq<char>, pat: Seq<char>, i: int)
    requires
        is_first_occurrence(s, pat, i),
    ensures
        first_occurrence(s, pat) == Some(i),
{
    let j = choose|j: int| is_first_occurrence(s, pat, j);
    assert(is_first_occurrence(s, pat, j));
    if j < i {
        assert(!occurs_at(s, pat, j));
    }
    if i < j {
        assert(!occurs_at(s, pat, i));
    }
}

/// Index of the leftmost occurrence of `pat` in `s`, as `first_occurrence` states it.
pub fn find_first(s: &Vec<char>, pat: &Vec<char>) -> (res: Option<usize>)
    ensures
        match res {
            Some(i) => first_occurrence(s@, pat@) == Some(i as int) && is_first_occurrence(
                s@,
                pat@,
                i as int,
            ),
            None => first_occurrence(s@, pat@) is None,
        },
{
    let r = find(s, pat);
    proof {
        match r {
            Some(i) => lemma_first_occurrence(s@, pat@, i as int),
            None => {},
        }
    }
    r
}

/// The characters of White_Space in the Unicode character database: what
/// `char::is_whitespace` accepts and what the regular-expression class `\s`
/// matches.
pub open spec fn is_white_space(c: char) -> bool {
    ||| ('\t' <= c && c <= '\r')
    ||| c == ' '
    ||| c == '\u{85}'
    ||| c == '\u{a0}'
    ||| c == '\u{1680}'
    ||| ('\u{2000}' <= c && c <= '\u{200a}')
    ||| c == '\u{2028}'
    ||| c == '\u{2029}'
    ||| c == '\u{202f}'
    ||| c == '\u{205f}'
    ||| c == '\u{3000}'
}

/// Whether `c` is a White_Space character.
pub fn is_whitespace_char(c: char) -> (res: bool)
    ensures
        res == is_white_space(c),
{
    ('\t' <= c && c <= '\r') || c == ' ' || c == '\u{85}' || c == '\u{a0}' || c == '\u{1680}'
        || ('\u{2000}' <= c && c <= '\u{200a}') || c == '\u{2028}' || c == '\u{2029}' || c
        == '\u{202f}' || c == '\u{205f}' || c == '\u{3000}'
}

/// The number of bytes that the UTF-8 encoding of `c` takes.
pub open spec fn utf8_width(c: char) -> int {
    if (c as u32) < 0x80 {
        1
    } else if (c as u32) < 0x800 {
        2
    } else if (c as u32) < 0x10000 {
        3
    } else {
        4
    }
}

/// `s` without the White_Space characters at its start.
pub open spec fn trim_start(s: Seq<char>) -> Seq<char>
    decreases s.len(),
{
    if s.len() > 0 && is_white_space(s[0]) {
        trim_start(s.skip(1))
    } else {
        s
    }
}

/// `s` without the White_Space characters at its end.
pub open spec fn trim_end(s: Seq<char>) -> Seq<char>
    decreases s.len(),
{
    if s.len() > 0 && is_white_space(s.last()) {
        trim_end(s.drop_last())
    } else {
        s
    }
}

/// `s` without the White_Space characters at its start and its end, as
/// `str::trim` gives it.
pub open spec fn trimmed(s: Seq<char>) -> Seq<char> {
    trim_end(trim_start(s))
}

/// `s` without the White_Space characters at its start and its end.
pub fn trim(s: &str) -> (res: String)
    ensures
        res@ == trimmed(s@),
{
    let v = to_chars(s);
    let n = v.len();
    let mut i: usize = 0;
    assert(s@.skip(0) =~= s@);
    while i < n && is_whitespace_char(v[i])
        invariant
            v@ == s@,
            n == s@.len(),
            i <= n,
            trim_start(s@) == trim_start(s@.skip(i as int)),
        decreases n - i,
    {
        assert(s@.skip(i as int).skip(1) =~= s@.skip(i + 1));
        i = i + 1;
    }
    let mut j: usize = n;
    assert(s@.skip(i as int) =~= s@.subrange(i as int, n as int));
    while j > i && is_whitespace_char(v[j - 1])
        invariant
            v@ == s@,
            n == s@.len(),
            i <= j <= n,
            trim_start(s@) == s@.subrange(i as int, n as int),
            trim_end(s@.subrange(i as int, n as int)) == trim_end(s@.subrange(i as int, j as int)),
        decreases j,
    {
        assert(s@.subrange(i as int, j as int).drop_last() =~= s@.subrange(i as int, j - 1));
        j = j - 1;
    }
    assert(s@.subrange(i as int, j as int).len() == 0 ==> trim_end(s@.subrange(i as int, j as int))
        == s@.subrange(i as int, j as int));
    String::from_str(s.substring_char(i, j))
}

/// The decimal digits of a natural number, most significant first.
pub open spec fn nat_digits(n: nat) -> Seq<char>
    decreases n,
{
    if n < 10 {
        seq![((n + 48) as u32) as char]
    } else {
        nat_digits(n / 10).push((((n % 10) + 48) as u32) as char)
    }
}

/// The decimal form of an integer, with a leading '-' where it is negative:
/// what `to_string` gives for a signed integer.
pub open spec fn decimal(n: int) -> Seq<char> {
    if n < 0 {
        seq!['-'] + nat_digits((-n) as nat)
    } else {
        nat_digits(n as nat)
    }
}

fn digit_text(d: u64) -> (res: &'static str)
    requires
        d < 10,
    ensures
        res@ == seq![((d + 48) as u32) as char],
{
    if d == 0 {
        proof {
            reveal_strlit("0");
        }
        "0"
    } else if d == 1 {
        proof {
            reveal_strlit("1");
        }
        "1"
    } else if d == 2 {
        proof {
            reveal_strlit("2");
        }
        "2"
    } else if d == 3 {
        proof {
            reveal_strlit("3");
        }
        "3"
    } else if d == 4 {
        proof {
            reveal_strlit("4");
        }
        "4"
    } else if d == 5 {
        proof {
            reveal_strlit("5");
        }
        "5"
    } else if d == 6 {
        proof {
            reveal_strlit("6");
        }
        "6"
    } else if d == 7 {
        proof {
            reveal_strlit("7");
        }
        "7"
    } else if d == 8 {
        proof {
            reveal_strlit("8");
        }
        "8"
    } else {
        proof {
            reveal_strlit("9");
        }
        "9"
    }
}

/// The decimal digits of `n`, as `u64::to_string` writes them.
pub(crate) fn nat_text(n: u64) -> (res: String)
    ensures
        res@ == nat_digits(n as nat),
    decreases n,
{
    if n < 10 {
        String::from_str(digit_text(n))
    } else {
        let mut s = nat_text(n / 10);
        s.append(digit_text(n % 10));
        s
    }
}

/// The decimal form of `n`, as `i64::to_string` writes it.
pub(crate) fn i64_to_string(n: i64) -> (res: String)
    ensures
        res@ == decimal(n as int),
{
    if n < 0 {
        let m: u64 = (0 - (n as i128)) as u64;
        let mut s = String::from_str("-");
        s.append(nat_text(m).as_str());
        proof {
            reveal_strlit("-");
        }
        s
    } else {
        nat_text(n as u64)
    }
}

/// The index of the first `c` in `s` at or after `i`.
pub open spec fn first_char_from(s: Seq<char>, c: char, i: int) -> Option<int>
    decreases s.len() - i,
{
    if i < 0 || i >= s.len() {
        None
    } else if s[i] == c {
        Some(i)
    } else {
        first_char_from(s, c, i + 1)
    }
}

/// The index of the first `c` in `s` at or after `from`, as `first_char_from` gives it.
pub fn find_char_from(s: &Vec<char>, c: char, from: usize) -> (res: Option<usize>)
    ensures
        match res {
            Some(q) => first_char_from(s@, c, from as int) == Some(q as int) && from <= q < s@.len()
                && s@[q as int] == c,
            None => first_char_from(s@, c, from as int) is None,
        },
{
    let mut q = from;
    while q < s.len()
        invariant
            from <= q,
            first_char_from(s@, c, from as int) == first_char_from(s@, c, q as int),
        decreases s@.len() - q,
    {
        if s[q] == c {
            return Some(q);
        }
        q = q + 1;
    }
    None
}

/// `first_char_from` finds an index within the text, holding `c`.
pub proof fn lemma_first_char_from_bounds(s: Seq<char>, c: char, i: int)
    ensures
        first_char_from(s, c, i) matches Some(q) ==> i <= q < s.len() && s[q] == c,
    decreases s.len() - i,
{
    if 0 <= i < s.len() && s[i] != c {
        lemma_first_char_from_bounds(s, c, i + 1);
    }
}

/// Searching a suffix is searching the whole text further on.
pub proof fn lemma_first_char_from_skip(s: Seq<char>, c: char, k: int, j: int)
    requires
        0 <= k <= s.len(),
        0 <= j,
    ensures
        first_char_from(s.skip(k), c, j) == match first_char_from(s, c, j + k) {
            Some(q) => Some(q - k),
            None => None,
        },
    decreases s.len() - k - j,
{
    if j < s.len() - k && s.skip(k)[j] != c {
        lemma_first_char_from_skip(s, c, k, j + 1);
    }
}

/// The pieces of `s` between the occurrences of `c`, as `str::split` gives them.
pub open spec fn split_parts(s: Seq<char>, c: char) -> Seq<Seq<char>>
    decreases s.len(),
{
    match first_char_from(s, c, 0) {
        None => seq![s],
        Some(p) => {
            proof {
                lemma_first_char_from_bounds(s, c, 0);
            }
            if 0 <= p < s.len() {
                seq![s.subrange(0, p)] + split_parts(s.skip(p + 1), c)
            } else {
                seq![s]
            }
        },
    }
}

/// The pieces of `s` between the occurrences of `c`.
pub fn split_char(s: &str, c: char) -> (res: Vec<String>)
    ensures
        res@.len() == split_parts(s@, c).len(),
        forall|i: int| 0 <= i < res@.len() ==> (#[trigger] res@[i])@ == split_parts(s@, c)[i],
{
    let v = to_chars(s);
    let n = v.len();
    let mut res: Vec<String> = Vec::new();
    let mut start: usize = 0;
    let ghost mut views: Seq<Seq<char>> = Seq::empty();
    assert(s@.skip(0) =~= s@);
    loop
        invariant
            v@ == s@,
            n == s@.len(),
            start <= s@.len(),
            res@.len() == views.len(),
            forall|i: int| 0 <= i < res@.len() ==> (#[trigger] res@[i])@ == views[i],
            views + split_parts(s@.skip(start as int), c) == split_parts(s@, c),
        decreases s@.len() - start,
    {
        let ghost rest = s@.skip(start as int);
        proof {
            lemma_first_char_from_skip(s@, c, start as int, 0);
            lemma_first_char_from_bounds(s@, c, start as int);
        }
        match find_char_from(&v, c, start) {
            None => {
                res.push(String::from_str(s.substring_char(start, v.len())));
                proof {
                    assert(rest =~= s@.subrange(start as int, s@.len() as int));
                    assert(split_parts(rest, c) == seq![rest]);
                    views = views.push(rest);
                    assert(views =~= split_parts(s@, c));
                }
                return res;
            },
            Some(q) => {
                res.push(String::from_str(s.substring_char(start, q)));
                proof {
                    let p = q - start;
                    assert(rest.subrange(0, p as int) =~= s@.subrange(start as int, q as int));
                    assert(rest.skip(p + 1) =~= s@.skip(q + 1));
                    let piece = s@.subrange(start as int, q as int);
                    assert(split_parts(rest, c) == seq![piece] + split_parts(s@.skip(q + 1), c));
                    assert(views + (seq![piece] + split_parts(s@.skip(q + 1), c)) =~= views.push(piece)
                        + split_parts(s@.skip(q + 1), c));
                    views = views.push(piece);
                }
                start = q + 1;
            },
        }
    }
}

} // verus!
