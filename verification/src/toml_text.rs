//! TOML basic strings: writing a text so that a TOML reader gives it back
//! unchanged.

use vstd::prelude::*;
use crate::recording::{hex_digit, hex_digit_text};
use crate::text::to_chars;

verus! {

/// `c` cannot stand as itself in a TOML basic string: the quote, the
/// backslash and the control characters.
pub open spec fn needs_escape(c: char) -> bool {
    c == '"' || c == '\\' || (c as int) < 0x20 || c as int == 0x7f
}

/// How `c` is written in a TOML basic string.
pub open spec fn escape_char(c: char) -> Seq<char> {
    if c == '"' {
        seq!['\\', '"']
    } else if c == '\\' {
        seq!['\\', '\\']
    } else if c == '\n' {
        seq!['\\', 'n']
    } else if c == '\t' {
        seq!['\\', 't']
    } else if c == '\r' {
        seq!['\\', 'r']
    } else if needs_escape(c) {
        seq!['\\', 'u', '0', '0', hex_digit((c as int) / 16), hex_digit((c as int) % 16)]
    } else {
        seq![c]
    }
}

/// `s` written as the body of a TOML basic string (between its quotes).
pub open spec fn escaped(s: Seq<char>) -> Seq<char>
    decreases s.len(),
{
    if s.len() == 0 {
        Seq::empty()
    } else {
        escaped(s.drop_last()) + escape_char(s.last())
    }
}

/// The value of the hexadecimal digit `c`; -1 where `c` is none.
pub open spec fn hex_value(c: char) -> int {
    if '0' <= c && c <= '9' {
        c as int - '0' as int
    } else if 'a' <= c && c <= 'f' {
        c as int - 'a' as int + 10
    } else if 'A' <= c && c <= 'F' {
        c as int - 'A' as int + 10
    } else {
        -1
    }
}

/// The value of the `n` hexadecimal digits of `t` from `i` on; -1 where one
/// of them is no digit.
pub open spec fn hex_number(t: Seq<char>, i: int, n: nat) -> int
    decreases n,
{
    if n == 0 {
        0
    } else {
        let high = hex_number(t, i, (n - 1) as nat);
        let d = hex_value(t[i + n - 1]);
        if high < 0 || d < 0 {
            -1
        } else {
            high * 16 + d
        }
    }
}

/// The character that the simple escape `\e` stands for.
pub open spec fn simple_escape(e: char) -> Option<char> {
    if e == 'b' {
        Some('\u{8}')
    } else if e == 't' {
        Some('\t')
    } else if e == 'n' {
        Some('\n')
    } else if e == 'f' {
        Some('\u{c}')
    } else if e == 'r' {
        Some('\r')
    } else if e == '"' {
        Some('"')
    } else if e == '\\' {
        Some('\\')
    } else {
        None
    }
}

/// The Unicode scalar value `v`, as a character.
pub open spec fn scalar(v: int) -> Option<char> {
    if 0 <= v < 0xD800 || 0xE000 <= v <= 0x10FFFF {
        Some(v as char)
    } else {
        None
    }
}

/// The text that the body `t` of a TOML basic string stands for, as the TOML
/// specification reads it: escapes `\b \t \n \f \r \" \\`, `\uXXXX` and
/// `\UXXXXXXXX`; no raw quote, no raw control character but the tab. `None`
/// where `t` is no valid body.
pub open spec fn basic_string_value(t: Seq<char>) -> Option<Seq<char>>
    decreases t.len(),
{
    if t.len() == 0 {
        Some(Seq::empty())
    } else if t[0] == '\\' {
        if t.len() < 2 {
            None
        } else {
            let (c, k): (Option<char>, int) = match simple_escape(t[1]) {
                Some(c) => (Some(c), 2),
                None => if t[1] == 'u' && t.len() >= 6 {
                    (scalar(hex_number(t.skip(2), 0, 4)), 6)
                } else if t[1] == 'U' && t.len() >= 10 {
                    (scalar(hex_number(t.skip(2), 0, 8)), 10)
                } else {
                    (None, 2)
                },
            };
            match c {
                None => None,
                Some(c) => match basic_string_value(t.skip(k)) {
                    Some(r) => Some(seq![c] + r),
                    None => None,
                },
            }
        }
    } else if t[0] == '"' || (needs_escape(t[0]) && t[0] != '\t') {
        None
    } else {
        match basic_string_value(t.skip(1)) {
            Some(r) => Some(seq![t[0]] + r),
            None => None,
        }
    }
}

proof fn lemma_hex_value_of_digit(d: int)
    requires
        0 <= d < 16,
    ensures
        hex_value(hex_digit(d)) == d,
{
}

proof fn lemma_escaped_front(s: Seq<char>)
    requires
        s.len() > 0,
    ensures
        escaped(s) == escape_char(s[0]) + escaped(s.skip(1)),
    decreases s.len(),
{
    if s.len() == 1 {
        assert(s.drop_last() =~= Seq::<char>::empty());
        assert(s.skip(1) =~= Seq::<char>::empty());
        assert(escape_char(s[0]) + Seq::<char>::empty() =~= escape_char(s[0]));
    } else {
        let d = s.drop_last();
        lemma_escaped_front(d);
        assert(s.skip(1).drop_last() =~= d.skip(1));
        assert(s.skip(1).last() == s.last());
        assert(d[0] == s[0]);
        assert(escape_char(s[0]) + escaped(d.skip(1)) + escape_char(s.last()) =~= escape_char(s[0])
            + (escaped(d.skip(1)) + escape_char(s.last())));
    }
}

proof fn lemma_escape_unit(c: char, r: Seq<char>)
    ensures
        basic_string_value(escape_char(c) + r) == match basic_string_value(r) {
            Some(x) => Some(seq![c] + x),
            None => None::<Seq<char>>,
        },
{
    let e = escape_char(c);
    let t = e + r;
    assert(t.skip(e.len() as int) =~= r);
    if needs_escape(c) && c != '"' && c != '\\' && c != '\n' && c != '\t' && c != '\r' {
        let v = c as int;
        lemma_hex_value_of_digit(v / 16);
        lemma_hex_value_of_digit(v % 16);
        let h = t.skip(2);
        assert(h[0] == '0' && h[1] == '0' && h[2] == hex_digit(v / 16) && h[3] == hex_digit(v % 16));
        reveal_with_fuel(hex_number, 5);
        assert(hex_number(h, 0, 4) == v);
        assert((v as char) == c);
    }
}

/// What `append_escaped` writes reads back as the text it was given: a
/// TOML reader takes `escaped(s)`, between quotes, for `s`.
pub proof fn lemma_escaped_reads_back(s: Seq<char>)
    ensures
        basic_string_value(escaped(s)) == Some(s),
    decreases s.len(),
{
    if s.len() > 0 {
        lemma_escaped_front(s);
        lemma_escaped_reads_back(s.skip(1));
        lemma_escape_unit(s[0], escaped(s.skip(1)));
        assert(seq![s[0]] + s.skip(1) =~= s);
    }
}

fn append_escape(text: &mut String, c: char)
    requires
        needs_escape(c),
    ensures
        final(text)@ == old(text)@ + escape_char(c),
{
    proof {
        reveal_strlit("\\\"");
        reveal_strlit("\\\\");
        reveal_strlit("\\n");
        reveal_strlit("\\t");
        reveal_strlit("\\r");
        reveal_strlit("\\u00");
    }
    if c == '"' {
        text.append("\\\"");
    } else if c == '\\' {
        text.append("\\\\");
    } else if c == '\n' {
        text.append("\\n");
    } else if c == '\t' {
        text.append("\\t");
    } else if c == '\r' {
        text.append("\\r");
    } else {
        let v = c as u32;
        assert(v as int == c as int);
        text.append("\\u00");
        text.append(hex_digit_text((v / 16) as u64));
        text.append(hex_digit_text((v % 16) as u64));
    }
    assert(text@ =~= old(text)@ + escape_char(c));
}

/// Appends `s` to `text` written as the body of a TOML basic string.
pub fn append_escaped(text: &mut String, s: &str)
    ensures
        final(text)@ == old(text)@ + escaped(s@),
{
    let v = to_chars(s);
    let n = v.len();
    let mut start: usize = 0;
    let mut i: usize = 0;
    assert(s@.take(0) =~= Seq::<char>::empty());
    assert(s@.subrange(0, 0) =~= Seq::<char>::empty());
    while i < n
        invariant
            v@ == s@,
            n == s@.len(),
            start <= i <= n,
            text@ + s@.subrange(start as int, i as int) == old(text)@ + escaped(s@.take(i as int)),
        decreases n - i,
    {
        let c = v[i];
        assert(s@.take(i + 1).drop_last() =~= s@.take(i as int));
        assert(s@.take(i + 1).last() == c);
        if c == '"' || c == '\\' || c < '\u{20}' || c == '\u{7f}' {
            let ghost before = text@;
            let ghost run_v = s@.subrange(start as int, i as int);
            let run = s.substring_char(start, i);
            text.append(run);
            append_escape(text, c);
            start = i + 1;
            assert(s@.subrange(start as int, i + 1) =~= Seq::<char>::empty());
            assert(text@ == before + run_v + escape_char(c));
            assert(before + run_v + escape_char(c) =~= (before + run_v) + escape_char(c));
            assert(text@ + s@.subrange(start as int, i + 1) =~= text@);
            assert(escaped(s@.take(i + 1)) == escaped(s@.take(i as int)) + escape_char(c));
            assert(old(text)@ + escaped(s@.take(i as int)) + escape_char(c) =~= old(text)@ + (escaped(
                s@.take(i as int),
            ) + escape_char(c)));
        } else {
            assert(escape_char(c) == seq![c]);
            assert(s@.subrange(start as int, i + 1) =~= s@.subrange(start as int, i as int).push(c));
            assert(text@ + s@.subrange(start as int, i as int).push(c) =~= (text@ + s@.subrange(
                start as int,
                i as int,
            )) + seq![c]);
            assert(escaped(s@.take(i + 1)) == escaped(s@.take(i as int)) + escape_char(c));
            assert(old(text)@ + escaped(s@.take(i as int)) + seq![c] =~= old(text)@ + (escaped(
                s@.take(i as int),
            ) + seq![c]));
        }
        i = i + 1;
    }
    let run = s.substring_char(start, n);
    text.append(run);
    assert(s@.take(n as int) =~= s@);
}

} // verus!
