//! Facts about the phrase mapping on the canonical commands, obtained by
//! evaluating the definitions of `nlu` on those concrete phrases.

use vstd::prelude::*;
use crate::nlu::{entries_to_map, mapping_entries, normalized, phrase_mapping, stripped};
use crate::text::{lemma_replace_step, occurs_at, replace_all};

verus! {

// Decision procedures over concrete phrases, and their agreement with the
// definitions of `nlu`.

pub(crate) open spec fn prefix_eq(s: Seq<char>, pat: Seq<char>, i: int, d: int) -> bool
    decreases pat.len() - d,
{
    if d < 0 || d >= pat.len() {
        true
    } else {
        i + d < s.len() && s[i + d] == pat[d] && prefix_eq(s, pat, i, d + 1)
    }
}

pub(crate) open spec fn rep_from(s: Seq<char>, pat: Seq<char>, rep: Seq<char>, i: int) -> Seq<char>
    decreases s.len() - i,
{
    if i < 0 || i >= s.len() || pat.len() == 0 {
        Seq::empty()
    } else if i + pat.len() <= s.len() && prefix_eq(s, pat, i, 0) {
        rep + rep_from(s, pat, rep, i + pat.len())
    } else {
        seq![s[i]] + rep_from(s, pat, rep, i + 1)
    }
}

proof fn lemma_prefix_eq(s: Seq<char>, pat: Seq<char>, i: int, d: int)
    requires
        0 <= d <= pat.len(),
        0 <= i,
        i + pat.len() <= s.len(),
    ensures
        prefix_eq(s, pat, i, d) <==> forall|e: int| d <= e < pat.len() ==> s[i + e] == pat[e],
    decreases pat.len() - d,
{
    if d < pat.len() {
        lemma_prefix_eq(s, pat, i, d + 1);
    }
}

proof fn lemma_occurs_dec(s: Seq<char>, pat: Seq<char>, i: int)
    requires
        0 <= i,
    ensures
        occurs_at(s, pat, i) <==> (i + pat.len() <= s.len() && prefix_eq(s, pat, i, 0)),
{
    if i + pat.len() <= s.len() {
        lemma_prefix_eq(s, pat, i, 0);
        if prefix_eq(s, pat, i, 0) {
            assert(s.subrange(i, i + pat.len()) =~= pat);
        }
        if occurs_at(s, pat, i) {
            assert forall|e: int| 0 <= e < pat.len() implies s[i + e] == pat[e] by {
                assert(s.subrange(i, i + pat.len())[e] == s[i + e]);
            }
        }
    }
}

proof fn lemma_rep_from(s: Seq<char>, pat: Seq<char>, rep: Seq<char>, i: int)
    requires
        pat.len() > 0,
        0 <= i <= s.len(),
    ensures
        rep_from(s, pat, rep, i) == replace_all(s.skip(i), pat, rep),
    decreases s.len() - i,
{
    if i == s.len() {
        assert(s.skip(i) =~= Seq::<char>::empty());
    } else {
        lemma_replace_step(s, pat, rep, i);
        lemma_occurs_dec(s, pat, i);
        if occurs_at(s, pat, i) {
            lemma_rep_from(s, pat, rep, i + pat.len());
        } else {
            lemma_rep_from(s, pat, rep, i + 1);
        }
    }
}

pub(crate) proof fn lemma_stripped_steps(
    s0: Seq<char>,
    s1: Seq<char>,
    s2: Seq<char>,
    s3: Seq<char>,
    s4: Seq<char>,
)
    requires
        rep_from(s0, seq!['i', ' ', 'w', 'a', 'n', 't', ' ', 't', 'o', ' '], Seq::empty(), 0)
            == s1,
        rep_from(s1, seq!['i', ' ', 'w', 'a', 'n', 't', ' '], Seq::empty(), 0) == s2,
        rep_from(s2, seq!['t', 'h', 'e', ' '], Seq::empty(), 0) == s3,
        rep_from(s3, seq!['m', 'y', ' '], Seq::empty(), 0) == s4,
    ensures
        stripped(s0) == s4,
{
    reveal_strlit("i want to ");
    reveal_strlit("i want ");
    reveal_strlit("the ");
    reveal_strlit("my ");
    assert("i want to "@ =~= seq!['i', ' ', 'w', 'a', 'n', 't', ' ', 't', 'o', ' ']);
    assert("i want "@ =~= seq!['i', ' ', 'w', 'a', 'n', 't', ' ']);
    assert("the "@ =~= seq!['t', 'h', 'e', ' ']);
    assert("my "@ =~= seq!['m', 'y', ' ']);
    lemma_rep_from(s0, "i want to "@, Seq::empty(), 0);
    lemma_rep_from(s1, "i want "@, Seq::empty(), 0);
    lemma_rep_from(s2, "the "@, Seq::empty(), 0);
    lemma_rep_from(s3, "my "@, Seq::empty(), 0);
    assert(s0.skip(0) =~= s0);
    assert(s1.skip(0) =~= s1);
    assert(s2.skip(0) =~= s2);
    assert(s3.skip(0) =~= s3);
}

pub(crate) open spec fn chars_match(a: Seq<char>, b: Seq<char>, i: int) -> bool
    decreases a.len() - i,
{
    if i < 0 || i >= a.len() {
        true
    } else {
        i < b.len() && a[i] == b[i] && chars_match(a, b, i + 1)
    }
}

proof fn lemma_chars_match(a: Seq<char>, b: Seq<char>, i: int)
    requires
        0 <= i <= a.len(),
        a.len() == b.len(),
    ensures
        chars_match(a, b, i) <==> forall|j: int| i <= j < a.len() ==> a[j] == b[j],
    decreases a.len() - i,
{
    if i < a.len() {
        lemma_chars_match(a, b, i + 1);
    }
}

pub(crate) open spec fn lookup_dec(entries: Seq<(Seq<char>, Seq<char>)>, x: Seq<char>) -> Option<Seq<char>>
    decreases entries.len(),
{
    if entries.len() == 0 {
        None
    } else if entries.last().0.len() == x.len() && chars_match(entries.last().0, x, 0) {
        Some(entries.last().1)
    } else {
        lookup_dec(entries.drop_last(), x)
    }
}

pub(crate) proof fn lemma_lookup_dec(entries: Seq<(Seq<char>, Seq<char>)>, x: Seq<char>)
    ensures
        lookup_dec(entries, x) == if entries_to_map(entries).contains_key(x) {
            Some(entries_to_map(entries)[x])
        } else {
            None
        },
    decreases entries.len(),
{
    if entries.len() > 0 {
        lemma_lookup_dec(entries.drop_last(), x);
        let k = entries.last().0;
        if k.len() == x.len() {
            lemma_chars_match(k, x, 0);
            if chars_match(k, x, 0) {
                assert(k =~= x);
            }
        }
    }
}

pub(crate) open spec fn has_occurrence(s: Seq<char>, pat: Seq<char>, i: int) -> bool
    decreases s.len() - i,
{
    if i < 0 || i >= s.len() {
        false
    } else {
        (i + pat.len() <= s.len() && prefix_eq(s, pat, i, 0)) || has_occurrence(s, pat, i + 1)
    }
}

pub(crate) proof fn lemma_no_occurrence(s: Seq<char>, pat: Seq<char>, i: int)
    requires
        pat.len() > 0,
        0 <= i <= s.len(),
        !has_occurrence(s, pat, i),
    ensures
        rep_from(s, pat, Seq::empty(), i) == s.skip(i),
    decreases s.len() - i,
{
    if i < s.len() {
        lemma_no_occurrence(s, pat, i + 1);
        assert(s.skip(i) =~= seq![s[i]] + s.skip(i + 1));
    } else {
        assert(s.skip(i) =~= Seq::<char>::empty());
    }
}

/// A phrase in which none of the filler words occurs is left as it is.
pub(crate) proof fn lemma_stripped_fixed(s: Seq<char>)
    requires
        !has_occurrence(s, seq!['i', ' ', 'w', 'a', 'n', 't', ' ', 't', 'o', ' '], 0),
        !has_occurrence(s, seq!['i', ' ', 'w', 'a', 'n', 't', ' '], 0),
        !has_occurrence(s, seq!['t', 'h', 'e', ' '], 0),
        !has_occurrence(s, seq!['m', 'y', ' '], 0),
    ensures
        stripped(s) == s,
{
    lemma_no_occurrence(s, seq!['i', ' ', 'w', 'a', 'n', 't', ' ', 't', 'o', ' '], 0);
    lemma_no_occurrence(s, seq!['i', ' ', 'w', 'a', 'n', 't', ' '], 0);
    lemma_no_occurrence(s, seq!['t', 'h', 'e', ' '], 0);
    lemma_no_occurrence(s, seq!['m', 'y', ' '], 0);
    assert(s.skip(0) =~= s);
    lemma_stripped_steps(s, s, s, s, s);
}

/// Every target of the phrase mapping is one of the canonical commands.
spec fn is_target(v: Seq<char>) -> bool {
    ||| v == "give recognition"@
    ||| v == "give me holidays"@
    ||| v == "open lunch menus"@
    ||| v == "when is the next train to work"@
    ||| v == "when is the next train home"@
    ||| v == "create custom action"@
    ||| v == "create monthly status report"@
    ||| v == "create weekly status report"@
    ||| v == "file na issue"@
}

spec fn all_targets(entries: Seq<(Seq<char>, Seq<char>)>) -> bool
    decreases entries.len(),
{
    entries.len() == 0 || (is_target(entries.last().1) && all_targets(entries.drop_last()))
}

proof fn lemma_map_values_are_targets(entries: Seq<(Seq<char>, Seq<char>)>, k: Seq<char>)
    requires
        all_targets(entries),
        entries_to_map(entries).contains_key(k),
    ensures
        is_target(entries_to_map(entries)[k]),
    decreases entries.len(),
{
    if entries.last().0 != k {
        lemma_map_values_are_targets(entries.drop_last(), k);
    }
}

proof fn lemma_mapping_targets()
    ensures
        all_targets(mapping_entries()),
{
    reveal_with_fuel(all_targets, 33);
}

#[verifier::rlimit(40)]
proof fn lemma_stripped_give_recognition()
    ensures
        stripped(seq!['g', 'i', 'v', 'e', ' ', 'r', 'e', 'c', 'o', 'g', 'n', 'i', 't', 'i', 'o', 'n']) == seq!['g', 'i', 'v', 'e', ' ', 'r', 'e', 'c', 'o', 'g', 'n', 'i', 't', 'i', 'o', 'n'],
{
    reveal_with_fuel(has_occurrence, 40);
    reveal_with_fuel(prefix_eq, 11);
    assert(!has_occurrence(seq!['g', 'i', 'v', 'e', ' ', 'r', 'e', 'c', 'o', 'g', 'n', 'i', 't', 'i', 'o', 'n'], seq!['i', ' ', 'w', 'a', 'n', 't', ' ', 't', 'o', ' '], 0));
    assert(!has_occurrence(seq!['g', 'i', 'v', 'e', ' ', 'r', 'e', 'c', 'o', 'g', 'n', 'i', 't', 'i', 'o', 'n'], seq!['i', ' ', 'w', 'a', 'n', 't', ' '], 0));
    assert(!has_occurrence(seq!['g', 'i', 'v', 'e', ' ', 'r', 'e', 'c', 'o', 'g', 'n', 'i', 't', 'i', 'o', 'n'], seq!['t', 'h', 'e', ' '], 0));
    assert(!has_occurrence(seq!['g', 'i', 'v', 'e', ' ', 'r', 'e', 'c', 'o', 'g', 'n', 'i', 't', 'i', 'o', 'n'], seq!['m', 'y', ' '], 0));
    lemma_stripped_fixed(seq!['g', 'i', 'v', 'e', ' ', 'r', 'e', 'c', 'o', 'g', 'n', 'i', 't', 'i', 'o', 'n']);
}

#[verifier::rlimit(40)]
proof fn lemma_stripped_give_me_holidays()
    ensures
        stripped(seq!['g', 'i', 'v', 'e', ' ', 'm', 'e', ' ', 'h', 'o', 'l', 'i', 'd', 'a', 'y', 's']) == seq!['g', 'i', 'v', 'e', ' ', 'm', 'e', ' ', 'h', 'o', 'l', 'i', 'd', 'a', 'y', 's'],
{
    reveal_with_fuel(has_occurrence, 40);
    reveal_with_fuel(prefix_eq, 11);
    assert(!has_occurrence(seq!['g', 'i', 'v', 'e', ' ', 'm', 'e', ' ', 'h', 'o', 'l', 'i', 'd', 'a', 'y', 's'], seq!['i', ' ', 'w', 'a', 'n', 't', ' ', 't', 'o', ' '], 0));
    assert(!has_occurrence(seq!['g', 'i', 'v', 'e', ' ', 'm', 'e', ' ', 'h', 'o', 'l', 'i', 'd', 'a', 'y', 's'], seq!['i', ' ', 'w', 'a', 'n', 't', ' '], 0));
    assert(!has_occurrence(seq!['g', 'i', 'v', 'e', ' ', 'm', 'e', ' ', 'h', 'o', 'l', 'i', 'd', 'a', 'y', 's'], seq!['t', 'h', 'e', ' '], 0));
    assert(!has_occurrence(seq!['g', 'i', 'v', 'e', ' ', 'm', 'e', ' ', 'h', 'o', 'l', 'i', 'd', 'a', 'y', 's'], seq!['m', 'y', ' '], 0));
    lemma_stripped_fixed(seq!['g', 'i', 'v', 'e', ' ', 'm', 'e', ' ', 'h', 'o', 'l', 'i', 'd', 'a', 'y', 's']);
}

#[verifier::rlimit(40)]
proof fn lemma_stripped_open_lunch_menus()
    ensures
        stripped(seq!['o', 'p', 'e', 'n', ' ', 'l', 'u', 'n', 'c', 'h', ' ', 'm', 'e', 'n', 'u', 's']) == seq!['o', 'p', 'e', 'n', ' ', 'l', 'u', 'n', 'c', 'h', ' ', 'm', 'e', 'n', 'u', 's'],
{
    reveal_with_fuel(has_occurrence, 40);
    reveal_with_fuel(prefix_eq, 11);
    assert(!has_occurrence(seq!['o', 'p', 'e', 'n', ' ', 'l', 'u', 'n', 'c', 'h', ' ', 'm', 'e', 'n', 'u', 's'], seq!['i', ' ', 'w', 'a', 'n', 't', ' ', 't', 'o', ' '], 0));
    assert(!has_occurrence(seq!['o', 'p', 'e', 'n', ' ', 'l', 'u', 'n', 'c', 'h', ' ', 'm', 'e', 'n', 'u', 's'], seq!['i', ' ', 'w', 'a', 'n', 't', ' '], 0));
    assert(!has_occurrence(seq!['o', 'p', 'e', 'n', ' ', 'l', 'u', 'n', 'c', 'h', ' ', 'm', 'e', 'n', 'u', 's'], seq!['t', 'h', 'e', ' '], 0));
    assert(!has_occurrence(seq!['o', 'p', 'e', 'n', ' ', 'l', 'u', 'n', 'c', 'h', ' ', 'm', 'e', 'n', 'u', 's'], seq!['m', 'y', ' '], 0));
    lemma_stripped_fixed(seq!['o', 'p', 'e', 'n', ' ', 'l', 'u', 'n', 'c', 'h', ' ', 'm', 'e', 'n', 'u', 's']);
}

#[verifier::rlimit(40)]
proof fn lemma_step_when_is_the_next_train_to_work_0()
    ensures
        rep_from(seq!['w', 'h', 'e', 'n', ' ', 'i', 's', ' ', 't', 'h', 'e', ' ', 'n', 'e', 'x', 't', ' ', 't', 'r', 'a', 'i', 'n', ' ', 't', 'o', ' ', 'w', 'o', 'r', 'k'], seq!['i', ' ', 'w', 'a', 'n', 't', ' ', 't', 'o', ' '], Seq::empty(), 0) == seq!['w', 'h', 'e', 'n', ' ', 'i', 's', ' ', 't', 'h', 'e', ' ', 'n', 'e', 'x', 't', ' ', 't', 'r', 'a', 'i', 'n', ' ', 't', 'o', ' ', 'w', 'o', 'r', 'k'],
{
    reveal_with_fuel(rep_from, 32);
    reveal_with_fuel(prefix_eq, 12);
    assert(rep_from(seq!['w', 'h', 'e', 'n', ' ', 'i', 's', ' ', 't', 'h', 'e', ' ', 'n', 'e', 'x', 't', ' ', 't', 'r', 'a', 'i', 'n', ' ', 't', 'o', ' ', 'w', 'o', 'r', 'k'], seq!['i', ' ', 'w', 'a', 'n', 't', ' ', 't', 'o', ' '], Seq::empty(), 0) =~= seq!['w', 'h', 'e', 'n', ' ', 'i', 's', ' ', 't', 'h', 'e', ' ', 'n', 'e', 'x', 't', ' ', 't', 'r', 'a', 'i', 'n', ' ', 't', 'o', ' ', 'w', 'o', 'r', 'k']);
}

#[verifier::rlimit(40)]
proof fn lemma_step_when_is_the_next_train_to_work_1()
    ensures
        rep_from(seq!['w', 'h', 'e', 'n', ' ', 'i', 's', ' ', 't', 'h', 'e', ' ', 'n', 'e', 'x', 't', ' ', 't', 'r', 'a', 'i', 'n', ' ', 't', 'o', ' ', 'w', 'o', 'r', 'k'], seq!['i', ' ', 'w', 'a', 'n', 't', ' '], Seq::empty(), 0) == seq!['w', 'h', 'e', 'n', ' ', 'i', 's', ' ', 't', 'h', 'e', ' ', 'n', 'e', 'x', 't', ' ', 't', 'r', 'a', 'i', 'n', ' ', 't', 'o', ' ', 'w', 'o', 'r', 'k'],
{
    reveal_with_fuel(rep_from, 32);
    reveal_with_fuel(prefix_eq, 12);
    assert(rep_from(seq!['w', 'h', 'e', 'n', ' ', 'i', 's', ' ', 't', 'h', 'e', ' ', 'n', 'e', 'x', 't', ' ', 't', 'r', 'a', 'i', 'n', ' ', 't', 'o', ' ', 'w', 'o', 'r', 'k'], seq!['i', ' ', 'w', 'a', 'n', 't', ' '], Seq::empty(), 0) =~= seq!['w', 'h', 'e', 'n', ' ', 'i', 's', ' ', 't', 'h', 'e', ' ', 'n', 'e', 'x', 't', ' ', 't', 'r', 'a', 'i', 'n', ' ', 't', 'o', ' ', 'w', 'o', 'r', 'k']);
}

#[verifier::rlimit(40)]
proof fn lemma_step_when_is_the_next_train_to_work_2()
    ensures
        rep_from(seq!['w', 'h', 'e', 'n', ' ', 'i', 's', ' ', 't', 'h', 'e', ' ', 'n', 'e', 'x', 't', ' ', 't', 'r', 'a', 'i', 'n', ' ', 't', 'o', ' ', 'w', 'o', 'r', 'k'], seq!['t', 'h', 'e', ' '], Seq::empty(), 0) == seq!['w', 'h', 'e', 'n', ' ', 'i', 's', ' ', 'n', 'e', 'x', 't', ' ', 't', 'r', 'a', 'i', 'n', ' ', 't', 'o', ' ', 'w', 'o', 'r', 'k'],
{
    reveal_with_fuel(rep_from, 32);
    reveal_with_fuel(prefix_eq, 12);
    assert(rep_from(seq!['w', 'h', 'e', 'n', ' ', 'i', 's', ' ', 't', 'h', 'e', ' ', 'n', 'e', 'x', 't', ' ', 't', 'r', 'a', 'i', 'n', ' ', 't', 'o', ' ', 'w', 'o', 'r', 'k'], seq!['t', 'h', 'e', ' '], Seq::empty(), 0) =~= seq!['w', 'h', 'e', 'n', ' ', 'i', 's', ' ', 'n', 'e', 'x', 't', ' ', 't', 'r', 'a', 'i', 'n', ' ', 't', 'o', ' ', 'w', 'o', 'r', 'k']);
}

#[verifier::rlimit(40)]
proof fn lemma_step_when_is_the_next_train_to_work_3()
    ensures
        rep_from(seq!['w', 'h', 'e', 'n', ' ', 'i', 's', ' ', 'n', 'e', 'x', 't', ' ', 't', 'r', 'a', 'i', 'n', ' ', 't', 'o', ' ', 'w', 'o', 'r', 'k'], seq!['m', 'y', ' '], Seq::empty(), 0) == seq!['w', 'h', 'e', 'n', ' ', 'i', 's', ' ', 'n', 'e', 'x', 't', ' ', 't', 'r', 'a', 'i', 'n', ' ', 't', 'o', ' ', 'w', 'o', 'r', 'k'],
{
    reveal_with_fuel(rep_from, 28);
    reveal_with_fuel(prefix_eq, 12);
    assert(rep_from(seq!['w', 'h', 'e', 'n', ' ', 'i', 's', ' ', 'n', 'e', 'x', 't', ' ', 't', 'r', 'a', 'i', 'n', ' ', 't', 'o', ' ', 'w', 'o', 'r', 'k'], seq!['m', 'y', ' '], Seq::empty(), 0) =~= seq!['w', 'h', 'e', 'n', ' ', 'i', 's', ' ', 'n', 'e', 'x', 't', ' ', 't', 'r', 'a', 'i', 'n', ' ', 't', 'o', ' ', 'w', 'o', 'r', 'k']);
}

proof fn lemma_stripped_when_is_the_next_train_to_work()
    ensures
        stripped(seq!['w', 'h', 'e', 'n', ' ', 'i', 's', ' ', 't', 'h', 'e', ' ', 'n', 'e', 'x', 't', ' ', 't', 'r', 'a', 'i', 'n', ' ', 't', 'o', ' ', 'w', 'o', 'r', 'k']) == seq!['w', 'h', 'e', 'n', ' ', 'i', 's', ' ', 'n', 'e', 'x', 't', ' ', 't', 'r', 'a', 'i', 'n', ' ', 't', 'o', ' ', 'w', 'o', 'r', 'k'],
{
    lemma_step_when_is_the_next_train_to_work_0();
    lemma_step_when_is_the_next_train_to_work_1();
    lemma_step_when_is_the_next_train_to_work_2();
    lemma_step_when_is_the_next_train_to_work_3();
    lemma_stripped_steps(seq!['w', 'h', 'e', 'n', ' ', 'i', 's', ' ', 't', 'h', 'e', ' ', 'n', 'e', 'x', 't', ' ', 't', 'r', 'a', 'i', 'n', ' ', 't', 'o', ' ', 'w', 'o', 'r', 'k'], seq!['w', 'h', 'e', 'n', ' ', 'i', 's', ' ', 't', 'h', 'e', ' ', 'n', 'e', 'x', 't', ' ', 't', 'r', 'a', 'i', 'n', ' ', 't', 'o', ' ', 'w', 'o', 'r', 'k'], seq!['w', 'h', 'e', 'n', ' ', 'i', 's', ' ', 't', 'h', 'e', ' ', 'n', 'e', 'x', 't', ' ', 't', 'r', 'a', 'i', 'n', ' ', 't', 'o', ' ', 'w', 'o', 'r', 'k'], seq!['w', 'h', 'e', 'n', ' ', 'i', 's', ' ', 'n', 'e', 'x', 't', ' ', 't', 'r', 'a', 'i', 'n', ' ', 't', 'o', ' ', 'w', 'o', 'r', 'k'], seq!['w', 'h', 'e', 'n', ' ', 'i', 's', ' ', 'n', 'e', 'x', 't', ' ', 't', 'r', 'a', 'i', 'n', ' ', 't', 'o', ' ', 'w', 'o', 'r', 'k']);
}

#[verifier::rlimit(40)]
proof fn lemma_step_when_is_the_next_train_home_0()
    ensures
        rep_from(seq!['w', 'h', 'e', 'n', ' ', 'i', 's', ' ', 't', 'h', 'e', ' ', 'n', 'e', 'x', 't', ' ', 't', 'r', 'a', 'i', 'n', ' ', 'h', 'o', 'm', 'e'], seq!['i', ' ', 'w', 'a', 'n', 't', ' ', 't', 'o', ' '], Seq::empty(), 0) == seq!['w', 'h', 'e', 'n', ' ', 'i', 's', ' ', 't', 'h', 'e', ' ', 'n', 'e', 'x', 't', ' ', 't', 'r', 'a', 'i', 'n', ' ', 'h', 'o', 'm', 'e'],
{
    reveal_with_fuel(rep_from, 29);
    reveal_with_fuel(prefix_eq, 12);
    assert(rep_from(seq!['w', 'h', 'e', 'n', ' ', 'i', 's', ' ', 't', 'h', 'e', ' ', 'n', 'e', 'x', 't', ' ', 't', 'r', 'a', 'i', 'n', ' ', 'h', 'o', 'm', 'e'], seq!['i', ' ', 'w', 'a', 'n', 't', ' ', 't', 'o', ' '], Seq::empty(), 0) =~= seq!['w', 'h', 'e', 'n', ' ', 'i', 's', ' ', 't', 'h', 'e', ' ', 'n', 'e', 'x', 't', ' ', 't', 'r', 'a', 'i', 'n', ' ', 'h', 'o', 'm', 'e']);
}

#[verifier::rlimit(40)]
proof fn lemma_step_when_is_the_next_train_home_1()
    ensures
        rep_from(seq!['w', 'h', 'e', 'n', ' ', 'i', 's', ' ', 't', 'h', 'e', ' ', 'n', 'e', 'x', 't', ' ', 't', 'r', 'a', 'i', 'n', ' ', 'h', 'o', 'm', 'e'], seq!['i', ' ', 'w', 'a', 'n', 't', ' '], Seq::empty(), 0) == seq!['w', 'h', 'e', 'n', ' ', 'i', 's', ' ', 't', 'h', 'e', ' ', 'n', 'e', 'x', 't', ' ', 't', 'r', 'a', 'i', 'n', ' ', 'h', 'o', 'm', 'e'],
{
    reveal_with_fuel(rep_from, 29);
    reveal_with_fuel(prefix_eq, 12);
    assert(rep_from(seq!['w', 'h', 'e', 'n', ' ', 'i', 's', ' ', 't', 'h', 'e', ' ', 'n', 'e', 'x', 't', ' ', 't', 'r', 'a', 'i', 'n', ' ', 'h', 'o', 'm', 'e'], seq!['i', ' ', 'w', 'a', 'n', 't', ' '], Seq::empty(), 0) =~= seq!['w', 'h', 'e', 'n', ' ', 'i', 's', ' ', 't', 'h', 'e', ' ', 'n', 'e', 'x', 't', ' ', 't', 'r', 'a', 'i', 'n', ' ', 'h', 'o', 'm', 'e']);
}

#[verifier::rlimit(40)]
proof fn lemma_step_when_is_the_next_train_home_2()
    ensures
        rep_from(seq!['w', 'h', 'e', 'n', ' ', 'i', 's', ' ', 't', 'h', 'e', ' ', 'n', 'e', 'x', 't', ' ', 't', 'r', 'a', 'i', 'n', ' ', 'h', 'o', 'm', 'e'], seq!['t', 'h', 'e', ' '], Seq::empty(), 0) == seq!['w', 'h', 'e', 'n', ' ', 'i', 's', ' ', 'n', 'e', 'x', 't', ' ', 't', 'r', 'a', 'i', 'n', ' ', 'h', 'o', 'm', 'e'],
{
    reveal_with_fuel(rep_from, 29);
    reveal_with_fuel(prefix_eq, 12);
    assert(rep_from(seq!['w', 'h', 'e', 'n', ' ', 'i', 's', ' ', 't', 'h', 'e', ' ', 'n', 'e', 'x', 't', ' ', 't', 'r', 'a', 'i', 'n', ' ', 'h', 'o', 'm', 'e'], seq!['t', 'h', 'e', ' '], Seq::empty(), 0) =~= seq!['w', 'h', 'e', 'n', ' ', 'i', 's', ' ', 'n', 'e', 'x', 't', ' ', 't', 'r', 'a', 'i', 'n', ' ', 'h', 'o', 'm', 'e']);
}

#[verifier::rlimit(40)]
proof fn lemma_step_when_is_the_next_train_home_3()
    ensures
        rep_from(seq!['w', 'h', 'e', 'n', ' ', 'i', 's', ' ', 'n', 'e', 'x', 't', ' ', 't', 'r', 'a', 'i', 'n', ' ', 'h', 'o', 'm', 'e'], seq!['m', 'y', ' '], Seq::empty(), 0) == seq!['w', 'h', 'e', 'n', ' ', 'i', 's', ' ', 'n', 'e', 'x', 't', ' ', 't', 'r', 'a', 'i', 'n', ' ', 'h', 'o', 'm', 'e'],
{
    reveal_with_fuel(rep_from, 25);
    reveal_with_fuel(prefix_eq, 12);
    assert(rep_from(seq!['w', 'h', 'e', 'n', ' ', 'i', 's', ' ', 'n', 'e', 'x', 't', ' ', 't', 'r', 'a', 'i', 'n', ' ', 'h', 'o', 'm', 'e'], seq!['m', 'y', ' '], Seq::empty(), 0) =~= seq!['w', 'h', 'e', 'n', ' ', 'i', 's', ' ', 'n', 'e', 'x', 't', ' ', 't', 'r', 'a', 'i', 'n', ' ', 'h', 'o', 'm', 'e']);
}

proof fn lemma_stripped_when_is_the_next_train_home()
    ensures
        stripped(seq!['w', 'h', 'e', 'n', ' ', 'i', 's', ' ', 't', 'h', 'e', ' ', 'n', 'e', 'x', 't', ' ', 't', 'r', 'a', 'i', 'n', ' ', 'h', 'o', 'm', 'e']) == seq!['w', 'h', 'e', 'n', ' ', 'i', 's', ' ', 'n', 'e', 'x', 't', ' ', 't', 'r', 'a', 'i', 'n', ' ', 'h', 'o', 'm', 'e'],
{
    lemma_step_when_is_the_next_train_home_0();
    lemma_step_when_is_the_next_train_home_1();
    lemma_step_when_is_the_next_train_home_2();
    lemma_step_when_is_the_next_train_home_3();
    lemma_stripped_steps(seq!['w', 'h', 'e', 'n', ' ', 'i', 's', ' ', 't', 'h', 'e', ' ', 'n', 'e', 'x', 't', ' ', 't', 'r', 'a', 'i', 'n', ' ', 'h', 'o', 'm', 'e'], seq!['w', 'h', 'e', 'n', ' ', 'i', 's', ' ', 't', 'h', 'e', ' ', 'n', 'e', 'x', 't', ' ', 't', 'r', 'a', 'i', 'n', ' ', 'h', 'o', 'm', 'e'], seq!['w', 'h', 'e', 'n', ' ', 'i', 's', ' ', 't', 'h', 'e', ' ', 'n', 'e', 'x', 't', ' ', 't', 'r', 'a', 'i', 'n', ' ', 'h', 'o', 'm', 'e'], seq!['w', 'h', 'e', 'n', ' ', 'i', 's', ' ', 'n', 'e', 'x', 't', ' ', 't', 'r', 'a', 'i', 'n', ' ', 'h', 'o', 'm', 'e'], seq!['w', 'h', 'e', 'n', ' ', 'i', 's', ' ', 'n', 'e', 'x', 't', ' ', 't', 'r', 'a', 'i', 'n', ' ', 'h', 'o', 'm', 'e']);
}

#[verifier::rlimit(40)]
proof fn lemma_stripped_create_custom_action()
    ensures
        stripped(seq!['c', 'r', 'e', 'a', 't', 'e', ' ', 'c', 'u', 's', 't', 'o', 'm', ' ', 'a', 'c', 't', 'i', 'o', 'n']) == seq!['c', 'r', 'e', 'a', 't', 'e', ' ', 'c', 'u', 's', 't', 'o', 'm', ' ', 'a', 'c', 't', 'i', 'o', 'n'],
{
    reveal_with_fuel(has_occurrence, 40);
    reveal_with_fuel(prefix_eq, 11);
    assert(!has_occurrence(seq!['c', 'r', 'e', 'a', 't', 'e', ' ', 'c', 'u', 's', 't', 'o', 'm', ' ', 'a', 'c', 't', 'i', 'o', 'n'], seq!['i', ' ', 'w', 'a', 'n', 't', ' ', 't', 'o', ' '], 0));
    assert(!has_occurrence(seq!['c', 'r', 'e', 'a', 't', 'e', ' ', 'c', 'u', 's', 't', 'o', 'm', ' ', 'a', 'c', 't', 'i', 'o', 'n'], seq!['i', ' ', 'w', 'a', 'n', 't', ' '], 0));
    assert(!has_occurrence(seq!['c', 'r', 'e', 'a', 't', 'e', ' ', 'c', 'u', 's', 't', 'o', 'm', ' ', 'a', 'c', 't', 'i', 'o', 'n'], seq!['t', 'h', 'e', ' '], 0));
    assert(!has_occurrence(seq!['c', 'r', 'e', 'a', 't', 'e', ' ', 'c', 'u', 's', 't', 'o', 'm', ' ', 'a', 'c', 't', 'i', 'o', 'n'], seq!['m', 'y', ' '], 0));
    lemma_stripped_fixed(seq!['c', 'r', 'e', 'a', 't', 'e', ' ', 'c', 'u', 's', 't', 'o', 'm', ' ', 'a', 'c', 't', 'i', 'o', 'n']);
}

#[verifier::rlimit(40)]
proof fn lemma_stripped_create_monthly_status_report()
    ensures
        stripped(seq!['c', 'r', 'e', 'a', 't', 'e', ' ', 'm', 'o', 'n', 't', 'h', 'l', 'y', ' ', 's', 't', 'a', 't', 'u', 's', ' ', 'r', 'e', 'p', 'o', 'r', 't']) == seq!['c', 'r', 'e', 'a', 't', 'e', ' ', 'm', 'o', 'n', 't', 'h', 'l', 'y', ' ', 's', 't', 'a', 't', 'u', 's', ' ', 'r', 'e', 'p', 'o', 'r', 't'],
{
    reveal_with_fuel(has_occurrence, 40);
    reveal_with_fuel(prefix_eq, 11);
    assert(!has_occurrence(seq!['c', 'r', 'e', 'a', 't', 'e', ' ', 'm', 'o', 'n', 't', 'h', 'l', 'y', ' ', 's', 't', 'a', 't', 'u', 's', ' ', 'r', 'e', 'p', 'o', 'r', 't'], seq!['i', ' ', 'w', 'a', 'n', 't', ' ', 't', 'o', ' '], 0));
    assert(!has_occurrence(seq!['c', 'r', 'e', 'a', 't', 'e', ' ', 'm', 'o', 'n', 't', 'h', 'l', 'y', ' ', 's', 't', 'a', 't', 'u', 's', ' ', 'r', 'e', 'p', 'o', 'r', 't'], seq!['i', ' ', 'w', 'a', 'n', 't', ' '], 0));
    assert(!has_occurrence(seq!['c', 'r', 'e', 'a', 't', 'e', ' ', 'm', 'o', 'n', 't', 'h', 'l', 'y', ' ', 's', 't', 'a', 't', 'u', 's', ' ', 'r', 'e', 'p', 'o', 'r', 't'], seq!['t', 'h', 'e', ' '], 0));
    assert(!has_occurrence(seq!['c', 'r', 'e', 'a', 't', 'e', ' ', 'm', 'o', 'n', 't', 'h', 'l', 'y', ' ', 's', 't', 'a', 't', 'u', 's', ' ', 'r', 'e', 'p', 'o', 'r', 't'], seq!['m', 'y', ' '], 0));
    lemma_stripped_fixed(seq!['c', 'r', 'e', 'a', 't', 'e', ' ', 'm', 'o', 'n', 't', 'h', 'l', 'y', ' ', 's', 't', 'a', 't', 'u', 's', ' ', 'r', 'e', 'p', 'o', 'r', 't']);
}

#[verifier::rlimit(40)]
proof fn lemma_stripped_create_weekly_status_report()
    ensures
        stripped(seq!['c', 'r', 'e', 'a', 't', 'e', ' ', 'w', 'e', 'e', 'k', 'l', 'y', ' ', 's', 't', 'a', 't', 'u', 's', ' ', 'r', 'e', 'p', 'o', 'r', 't']) == seq!['c', 'r', 'e', 'a', 't', 'e', ' ', 'w', 'e', 'e', 'k', 'l', 'y', ' ', 's', 't', 'a', 't', 'u', 's', ' ', 'r', 'e', 'p', 'o', 'r', 't'],
{
    reveal_with_fuel(has_occurrence, 40);
    reveal_with_fuel(prefix_eq, 11);
    assert(!has_occurrence(seq!['c', 'r', 'e', 'a', 't', 'e', ' ', 'w', 'e', 'e', 'k', 'l', 'y', ' ', 's', 't', 'a', 't', 'u', 's', ' ', 'r', 'e', 'p', 'o', 'r', 't'], seq!['i', ' ', 'w', 'a', 'n', 't', ' ', 't', 'o', ' '], 0));
    assert(!has_occurrence(seq!['c', 'r', 'e', 'a', 't', 'e', ' ', 'w', 'e', 'e', 'k', 'l', 'y', ' ', 's', 't', 'a', 't', 'u', 's', ' ', 'r', 'e', 'p', 'o', 'r', 't'], seq!['i', ' ', 'w', 'a', 'n', 't', ' '], 0));
    assert(!has_occurrence(seq!['c', 'r', 'e', 'a', 't', 'e', ' ', 'w', 'e', 'e', 'k', 'l', 'y', ' ', 's', 't', 'a', 't', 'u', 's', ' ', 'r', 'e', 'p', 'o', 'r', 't'], seq!['t', 'h', 'e', ' '], 0));
    assert(!has_occurrence(seq!['c', 'r', 'e', 'a', 't', 'e', ' ', 'w', 'e', 'e', 'k', 'l', 'y', ' ', 's', 't', 'a', 't', 'u', 's', ' ', 'r', 'e', 'p', 'o', 'r', 't'], seq!['m', 'y', ' '], 0));
    lemma_stripped_fixed(seq!['c', 'r', 'e', 'a', 't', 'e', ' ', 'w', 'e', 'e', 'k', 'l', 'y', ' ', 's', 't', 'a', 't', 'u', 's', ' ', 'r', 'e', 'p', 'o', 'r', 't']);
}

#[verifier::rlimit(40)]
proof fn lemma_stripped_file_na_issue()
    ensures
        stripped(seq!['f', 'i', 'l', 'e', ' ', 'n', 'a', ' ', 'i', 's', 's', 'u', 'e']) == seq!['f', 'i', 'l', 'e', ' ', 'n', 'a', ' ', 'i', 's', 's', 'u', 'e'],
{
    reveal_with_fuel(has_occurrence, 40);
    reveal_with_fuel(prefix_eq, 11);
    assert(!has_occurrence(seq!['f', 'i', 'l', 'e', ' ', 'n', 'a', ' ', 'i', 's', 's', 'u', 'e'], seq!['i', ' ', 'w', 'a', 'n', 't', ' ', 't', 'o', ' '], 0));
    assert(!has_occurrence(seq!['f', 'i', 'l', 'e', ' ', 'n', 'a', ' ', 'i', 's', 's', 'u', 'e'], seq!['i', ' ', 'w', 'a', 'n', 't', ' '], 0));
    assert(!has_occurrence(seq!['f', 'i', 'l', 'e', ' ', 'n', 'a', ' ', 'i', 's', 's', 'u', 'e'], seq!['t', 'h', 'e', ' '], 0));
    assert(!has_occurrence(seq!['f', 'i', 'l', 'e', ' ', 'n', 'a', ' ', 'i', 's', 's', 'u', 'e'], seq!['m', 'y', ' '], 0));
    lemma_stripped_fixed(seq!['f', 'i', 'l', 'e', ' ', 'n', 'a', ' ', 'i', 's', 's', 'u', 'e']);
}

#[verifier::rlimit(40)]
proof fn lemma_stripped_file_an_issue()
    ensures
        stripped(seq!['f', 'i', 'l', 'e', ' ', 'a', 'n', ' ', 'i', 's', 's', 'u', 'e']) == seq!['f', 'i', 'l', 'e', ' ', 'a', 'n', ' ', 'i', 's', 's', 'u', 'e'],
{
    reveal_with_fuel(has_occurrence, 40);
    reveal_with_fuel(prefix_eq, 11);
    assert(!has_occurrence(seq!['f', 'i', 'l', 'e', ' ', 'a', 'n', ' ', 'i', 's', 's', 'u', 'e'], seq!['i', ' ', 'w', 'a', 'n', 't', ' ', 't', 'o', ' '], 0));
    assert(!has_occurrence(seq!['f', 'i', 'l', 'e', ' ', 'a', 'n', ' ', 'i', 's', 's', 'u', 'e'], seq!['i', ' ', 'w', 'a', 'n', 't', ' '], 0));
    assert(!has_occurrence(seq!['f', 'i', 'l', 'e', ' ', 'a', 'n', ' ', 'i', 's', 's', 'u', 'e'], seq!['t', 'h', 'e', ' '], 0));
    assert(!has_occurrence(seq!['f', 'i', 'l', 'e', ' ', 'a', 'n', ' ', 'i', 's', 's', 'u', 'e'], seq!['m', 'y', ' '], 0));
    lemma_stripped_fixed(seq!['f', 'i', 'l', 'e', ' ', 'a', 'n', ' ', 'i', 's', 's', 'u', 'e']);
}

proof fn lemma_lookup_give_recognition()
    ensures
        lookup_dec(mapping_entries(), seq!['g', 'i', 'v', 'e', ' ', 'r', 'e', 'c', 'o', 'g', 'n', 'i', 't', 'i', 'o', 'n']) == None::<Seq<char>>,
{
    reveal_strlit("recognize");
    reveal_strlit("recognize colleague");
    reveal_strlit("recognize someone");
    reveal_strlit("holidays");
    reveal_strlit("book holidays");
    reveal_strlit("my holidays");
    reveal_strlit("request holidays");
    reveal_strlit("request vacations");
    reveal_strlit("open lunch menu");
    reveal_strlit("what should i eat");
    reveal_strlit("what should i have for lunch");
    reveal_strlit("when is train work");
    reveal_strlit("when is train to work");
    reveal_strlit("when is next train work");
    reveal_strlit("when is next train to work");
    reveal_strlit("when can i go to work");
    reveal_strlit("when does train to work departs");
    reveal_strlit("when is next train home");
    reveal_strlit("when is train home");
    reveal_strlit("when can i return home");
    reveal_strlit("when does train home departs");
    reveal_strlit("compose custom action");
    reveal_strlit("create my monthly status report");
    reveal_strlit("compose my monthly status report");
    reveal_strlit("compose monthly status report");
    reveal_strlit("create my weekly status report");
    reveal_strlit("compose my weekly status report");
    reveal_strlit("compose weekly status report");
    reveal_strlit("create an issue");
    reveal_strlit("submit an issue");
    reveal_strlit("add an issue");
    reveal_with_fuel(lookup_dec, 33);
    reveal_with_fuel(chars_match, 18);
}

proof fn lemma_lookup_give_me_holidays()
    ensures
        lookup_dec(mapping_entries(), seq!['g', 'i', 'v', 'e', ' ', 'm', 'e', ' ', 'h', 'o', 'l', 'i', 'd', 'a', 'y', 's']) == None::<Seq<char>>,
{
    reveal_strlit("recognize");
    reveal_strlit("recognize colleague");
    reveal_strlit("recognize someone");
    reveal_strlit("holidays");
    reveal_strlit("book holidays");
    reveal_strlit("my holidays");
    reveal_strlit("request holidays");
    reveal_strlit("request vacations");
    reveal_strlit("open lunch menu");
    reveal_strlit("what should i eat");
    reveal_strlit("what should i have for lunch");
    reveal_strlit("when is train work");
    reveal_strlit("when is train to work");
    reveal_strlit("when is next train work");
    reveal_strlit("when is next train to work");
    reveal_strlit("when can i go to work");
    reveal_strlit("when does train to work departs");
    reveal_strlit("when is next train home");
    reveal_strlit("when is train home");
    reveal_strlit("when can i return home");
    reveal_strlit("when does train home departs");
    reveal_strlit("compose custom action");
    reveal_strlit("create my monthly status report");
    reveal_strlit("compose my monthly status report");
    reveal_strlit("compose monthly status report");
    reveal_strlit("create my weekly status report");
    reveal_strlit("compose my weekly status report");
    reveal_strlit("compose weekly status report");
    reveal_strlit("create an issue");
    reveal_strlit("submit an issue");
    reveal_strlit("add an issue");
    reveal_with_fuel(lookup_dec, 33);
    reveal_with_fuel(chars_match, 18);
}

proof fn lemma_lookup_open_lunch_menus()
    ensures
        lookup_dec(mapping_entries(), seq!['o', 'p', 'e', 'n', ' ', 'l', 'u', 'n', 'c', 'h', ' ', 'm', 'e', 'n', 'u', 's']) == None::<Seq<char>>,
{
    reveal_strlit("recognize");
    reveal_strlit("recognize colleague");
    reveal_strlit("recognize someone");
    reveal_strlit("holidays");
    reveal_strlit("book holidays");
    reveal_strlit("my holidays");
    reveal_strlit("request holidays");
    reveal_strlit("request vacations");
    reveal_strlit("open lunch menu");
    reveal_strlit("what should i eat");
    reveal_strlit("what should i have for lunch");
    reveal_strlit("when is train work");
    reveal_strlit("when is train to work");
    reveal_strlit("when is next train work");
    reveal_strlit("when is next train to work");
    reveal_strlit("when can i go to work");
    reveal_strlit("when does train to work departs");
    reveal_strlit("when is next train home");
    reveal_strlit("when is train home");
    reveal_strlit("when can i return home");
    reveal_strlit("when does train home departs");
    reveal_strlit("compose custom action");
    reveal_strlit("create my monthly status report");
    reveal_strlit("compose my monthly status report");
    reveal_strlit("compose monthly status report");
    reveal_strlit("create my weekly status report");
    reveal_strlit("compose my weekly status report");
    reveal_strlit("compose weekly status report");
    reveal_strlit("create an issue");
    reveal_strlit("submit an issue");
    reveal_strlit("add an issue");
    reveal_with_fuel(lookup_dec, 33);
    reveal_with_fuel(chars_match, 18);
}

proof fn lemma_lookup_when_is_the_next_train_to_work()
    ensures
        lookup_dec(mapping_entries(), seq!['w', 'h', 'e', 'n', ' ', 'i', 's', ' ', 'n', 'e', 'x', 't', ' ', 't', 'r', 'a', 'i', 'n', ' ', 't', 'o', ' ', 'w', 'o', 'r', 'k']) == Some("when is the next train to work"@),
{
    reveal_strlit("recognize");
    reveal_strlit("recognize colleague");
    reveal_strlit("recognize someone");
    reveal_strlit("holidays");
    reveal_strlit("book holidays");
    reveal_strlit("my holidays");
    reveal_strlit("request holidays");
    reveal_strlit("request vacations");
    reveal_strlit("open lunch menu");
    reveal_strlit("what should i eat");
    reveal_strlit("what should i have for lunch");
    reveal_strlit("when is train work");
    reveal_strlit("when is train to work");
    reveal_strlit("when is next train work");
    reveal_strlit("when is next train to work");
    reveal_strlit("when can i go to work");
    reveal_strlit("when does train to work departs");
    reveal_strlit("when is next train home");
    reveal_strlit("when is train home");
    reveal_strlit("when can i return home");
    reveal_strlit("when does train home departs");
    reveal_strlit("compose custom action");
    reveal_strlit("create my monthly status report");
    reveal_strlit("compose my monthly status report");
    reveal_strlit("compose monthly status report");
    reveal_strlit("create my weekly status report");
    reveal_strlit("compose my weekly status report");
    reveal_strlit("compose weekly status report");
    reveal_strlit("create an issue");
    reveal_strlit("submit an issue");
    reveal_strlit("add an issue");
    reveal_with_fuel(lookup_dec, 33);
    reveal_with_fuel(chars_match, 28);
}

proof fn lemma_lookup_when_is_the_next_train_home()
    ensures
        lookup_dec(mapping_entries(), seq!['w', 'h', 'e', 'n', ' ', 'i', 's', ' ', 'n', 'e', 'x', 't', ' ', 't', 'r', 'a', 'i', 'n', ' ', 'h', 'o', 'm', 'e']) == Some("when is the next train home"@),
{
    reveal_strlit("recognize");
    reveal_strlit("recognize colleague");
    reveal_strlit("recognize someone");
    reveal_strlit("holidays");
    reveal_strlit("book holidays");
    reveal_strlit("my holidays");
    reveal_strlit("request holidays");
    reveal_strlit("request vacations");
    reveal_strlit("open lunch menu");
    reveal_strlit("what should i eat");
    reveal_strlit("what should i have for lunch");
    reveal_strlit("when is train work");
    reveal_strlit("when is train to work");
    reveal_strlit("when is next train work");
    reveal_strlit("when is next train to work");
    reveal_strlit("when can i go to work");
    reveal_strlit("when does train to work departs");
    reveal_strlit("when is next train home");
    reveal_strlit("when is train home");
    reveal_strlit("when can i return home");
    reveal_strlit("when does train home departs");
    reveal_strlit("compose custom action");
    reveal_strlit("create my monthly status report");
    reveal_strlit("compose my monthly status report");
    reveal_strlit("compose monthly status report");
    reveal_strlit("create my weekly status report");
    reveal_strlit("compose my weekly status report");
    reveal_strlit("compose weekly status report");
    reveal_strlit("create an issue");
    reveal_strlit("submit an issue");
    reveal_strlit("add an issue");
    reveal_with_fuel(lookup_dec, 33);
    reveal_with_fuel(chars_match, 25);
}

proof fn lemma_lookup_create_custom_action()
    ensures
        lookup_dec(mapping_entries(), seq!['c', 'r', 'e', 'a', 't', 'e', ' ', 'c', 'u', 's', 't', 'o', 'm', ' ', 'a', 'c', 't', 'i', 'o', 'n']) == None::<Seq<char>>,
{
    reveal_strlit("recognize");
    reveal_strlit("recognize colleague");
    reveal_strlit("recognize someone");
    reveal_strlit("holidays");
    reveal_strlit("book holidays");
    reveal_strlit("my holidays");
    reveal_strlit("request holidays");
    reveal_strlit("request vacations");
    reveal_strlit("open lunch menu");
    reveal_strlit("what should i eat");
    reveal_strlit("what should i have for lunch");
    reveal_strlit("when is train work");
    reveal_strlit("when is train to work");
    reveal_strlit("when is next train work");
    reveal_strlit("when is next train to work");
    reveal_strlit("when can i go to work");
    reveal_strlit("when does train to work departs");
    reveal_strlit("when is next train home");
    reveal_strlit("when is train home");
    reveal_strlit("when can i return home");
    reveal_strlit("when does train home departs");
    reveal_strlit("compose custom action");
    reveal_strlit("create my monthly status report");
    reveal_strlit("compose my monthly status report");
    reveal_strlit("compose monthly status report");
    reveal_strlit("create my weekly status report");
    reveal_strlit("compose my weekly status report");
    reveal_strlit("compose weekly status report");
    reveal_strlit("create an issue");
    reveal_strlit("submit an issue");
    reveal_strlit("add an issue");
    reveal_with_fuel(lookup_dec, 33);
    reveal_with_fuel(chars_match, 22);
}

proof fn lemma_lookup_create_monthly_status_report()
    ensures
        lookup_dec(mapping_entries(), seq!['c', 'r', 'e', 'a', 't', 'e', ' ', 'm', 'o', 'n', 't', 'h', 'l', 'y', ' ', 's', 't', 'a', 't', 'u', 's', ' ', 'r', 'e', 'p', 'o', 'r', 't']) == None::<Seq<char>>,
{
    reveal_strlit("recognize");
    reveal_strlit("recognize colleague");
    reveal_strlit("recognize someone");
    reveal_strlit("holidays");
    reveal_strlit("book holidays");
    reveal_strlit("my holidays");
    reveal_strlit("request holidays");
    reveal_strlit("request vacations");
    reveal_strlit("open lunch menu");
    reveal_strlit("what should i eat");
    reveal_strlit("what should i have for lunch");
    reveal_strlit("when is train work");
    reveal_strlit("when is train to work");
    reveal_strlit("when is next train work");
    reveal_strlit("when is next train to work");
    reveal_strlit("when can i go to work");
    reveal_strlit("when does train to work departs");
    reveal_strlit("when is next train home");
    reveal_strlit("when is train home");
    reveal_strlit("when can i return home");
    reveal_strlit("when does train home departs");
    reveal_strlit("compose custom action");
    reveal_strlit("create my monthly status report");
    reveal_strlit("compose my monthly status report");
    reveal_strlit("compose monthly status report");
    reveal_strlit("create my weekly status report");
    reveal_strlit("compose my weekly status report");
    reveal_strlit("compose weekly status report");
    reveal_strlit("create an issue");
    reveal_strlit("submit an issue");
    reveal_strlit("add an issue");
    reveal_with_fuel(lookup_dec, 33);
    reveal_with_fuel(chars_match, 30);
}

proof fn lemma_lookup_create_weekly_status_report()
    ensures
        lookup_dec(mapping_entries(), seq!['c', 'r', 'e', 'a', 't', 'e', ' ', 'w', 'e', 'e', 'k', 'l', 'y', ' ', 's', 't', 'a', 't', 'u', 's', ' ', 'r', 'e', 'p', 'o', 'r', 't']) == None::<Seq<char>>,
{
    reveal_strlit("recognize");
    reveal_strlit("recognize colleague");
    reveal_strlit("recognize someone");
    reveal_strlit("holidays");
    reveal_strlit("book holidays");
    reveal_strlit("my holidays");
    reveal_strlit("request holidays");
    reveal_strlit("request vacations");
    reveal_strlit("open lunch menu");
    reveal_strlit("what should i eat");
    reveal_strlit("what should i have for lunch");
    reveal_strlit("when is train work");
    reveal_strlit("when is train to work");
    reveal_strlit("when is next train work");
    reveal_strlit("when is next train to work");
    reveal_strlit("when can i go to work");
    reveal_strlit("when does train to work departs");
    reveal_strlit("when is next train home");
    reveal_strlit("when is train home");
    reveal_strlit("when can i return home");
    reveal_strlit("when does train home departs");
    reveal_strlit("compose custom action");
    reveal_strlit("create my monthly status report");
    reveal_strlit("compose my monthly status report");
    reveal_strlit("compose monthly status report");
    reveal_strlit("create my weekly status report");
    reveal_strlit("compose my weekly status report");
    reveal_strlit("compose weekly status report");
    reveal_strlit("create an issue");
    reveal_strlit("submit an issue");
    reveal_strlit("add an issue");
    reveal_with_fuel(lookup_dec, 33);
    reveal_with_fuel(chars_match, 29);
}

proof fn lemma_lookup_file_na_issue()
    ensures
        lookup_dec(mapping_entries(), seq!['f', 'i', 'l', 'e', ' ', 'n', 'a', ' ', 'i', 's', 's', 'u', 'e']) == None::<Seq<char>>,
{
    reveal_strlit("recognize");
    reveal_strlit("recognize colleague");
    reveal_strlit("recognize someone");
    reveal_strlit("holidays");
    reveal_strlit("book holidays");
    reveal_strlit("my holidays");
    reveal_strlit("request holidays");
    reveal_strlit("request vacations");
    reveal_strlit("open lunch menu");
    reveal_strlit("what should i eat");
    reveal_strlit("what should i have for lunch");
    reveal_strlit("when is train work");
    reveal_strlit("when is train to work");
    reveal_strlit("when is next train work");
    reveal_strlit("when is next train to work");
    reveal_strlit("when can i go to work");
    reveal_strlit("when does train to work departs");
    reveal_strlit("when is next train home");
    reveal_strlit("when is train home");
    reveal_strlit("when can i return home");
    reveal_strlit("when does train home departs");
    reveal_strlit("compose custom action");
    reveal_strlit("create my monthly status report");
    reveal_strlit("compose my monthly status report");
    reveal_strlit("compose monthly status report");
    reveal_strlit("create my weekly status report");
    reveal_strlit("compose my weekly status report");
    reveal_strlit("compose weekly status report");
    reveal_strlit("create an issue");
    reveal_strlit("submit an issue");
    reveal_strlit("add an issue");
    reveal_with_fuel(lookup_dec, 33);
    reveal_with_fuel(chars_match, 15);
}

proof fn lemma_lookup_file_an_issue()
    ensures
        lookup_dec(mapping_entries(), seq!['f', 'i', 'l', 'e', ' ', 'a', 'n', ' ', 'i', 's', 's', 'u', 'e']) == None::<Seq<char>>,
{
    reveal_strlit("recognize");
    reveal_strlit("recognize colleague");
    reveal_strlit("recognize someone");
    reveal_strlit("holidays");
    reveal_strlit("book holidays");
    reveal_strlit("my holidays");
    reveal_strlit("request holidays");
    reveal_strlit("request vacations");
    reveal_strlit("open lunch menu");
    reveal_strlit("what should i eat");
    reveal_strlit("what should i have for lunch");
    reveal_strlit("when is train work");
    reveal_strlit("when is train to work");
    reveal_strlit("when is next train work");
    reveal_strlit("when is next train to work");
    reveal_strlit("when can i go to work");
    reveal_strlit("when does train to work departs");
    reveal_strlit("when is next train home");
    reveal_strlit("when is train home");
    reveal_strlit("when can i return home");
    reveal_strlit("when does train home departs");
    reveal_strlit("compose custom action");
    reveal_strlit("create my monthly status report");
    reveal_strlit("compose my monthly status report");
    reveal_strlit("compose monthly status report");
    reveal_strlit("create my weekly status report");
    reveal_strlit("compose my weekly status report");
    reveal_strlit("compose weekly status report");
    reveal_strlit("create an issue");
    reveal_strlit("submit an issue");
    reveal_strlit("add an issue");
    reveal_with_fuel(lookup_dec, 33);
    reveal_with_fuel(chars_match, 15);
}

proof fn lemma_fixed_give_recognition()
    ensures
        normalized("give recognition"@) == "give recognition"@,
{
    reveal_strlit("give recognition");
    assert("give recognition"@ =~= seq!['g', 'i', 'v', 'e', ' ', 'r', 'e', 'c', 'o', 'g', 'n', 'i', 't', 'i', 'o', 'n']);
    lemma_stripped_give_recognition();
    lemma_lookup_give_recognition();
    lemma_lookup_dec(mapping_entries(), stripped("give recognition"@));
}

proof fn lemma_fixed_give_me_holidays()
    ensures
        normalized("give me holidays"@) == "give me holidays"@,
{
    reveal_strlit("give me holidays");
    assert("give me holidays"@ =~= seq!['g', 'i', 'v', 'e', ' ', 'm', 'e', ' ', 'h', 'o', 'l', 'i', 'd', 'a', 'y', 's']);
    lemma_stripped_give_me_holidays();
    lemma_lookup_give_me_holidays();
    lemma_lookup_dec(mapping_entries(), stripped("give me holidays"@));
}

proof fn lemma_fixed_open_lunch_menus()
    ensures
        normalized("open lunch menus"@) == "open lunch menus"@,
{
    reveal_strlit("open lunch menus");
    assert("open lunch menus"@ =~= seq!['o', 'p', 'e', 'n', ' ', 'l', 'u', 'n', 'c', 'h', ' ', 'm', 'e', 'n', 'u', 's']);
    lemma_stripped_open_lunch_menus();
    lemma_lookup_open_lunch_menus();
    lemma_lookup_dec(mapping_entries(), stripped("open lunch menus"@));
}

proof fn lemma_fixed_when_is_the_next_train_to_work()
    ensures
        normalized("when is the next train to work"@) == "when is the next train to work"@,
{
    reveal_strlit("when is the next train to work");
    assert("when is the next train to work"@ =~= seq!['w', 'h', 'e', 'n', ' ', 'i', 's', ' ', 't', 'h', 'e', ' ', 'n', 'e', 'x', 't', ' ', 't', 'r', 'a', 'i', 'n', ' ', 't', 'o', ' ', 'w', 'o', 'r', 'k']);
    lemma_stripped_when_is_the_next_train_to_work();
    lemma_lookup_when_is_the_next_train_to_work();
    lemma_lookup_dec(mapping_entries(), stripped("when is the next train to work"@));
}

proof fn lemma_fixed_when_is_the_next_train_home()
    ensures
        normalized("when is the next train home"@) == "when is the next train home"@,
{
    reveal_strlit("when is the next train home");
    assert("when is the next train home"@ =~= seq!['w', 'h', 'e', 'n', ' ', 'i', 's', ' ', 't', 'h', 'e', ' ', 'n', 'e', 'x', 't', ' ', 't', 'r', 'a', 'i', 'n', ' ', 'h', 'o', 'm', 'e']);
    lemma_stripped_when_is_the_next_train_home();
    lemma_lookup_when_is_the_next_train_home();
    lemma_lookup_dec(mapping_entries(), stripped("when is the next train home"@));
}

proof fn lemma_fixed_create_custom_action()
    ensures
        normalized("create custom action"@) == "create custom action"@,
{
    reveal_strlit("create custom action");
    assert("create custom action"@ =~= seq!['c', 'r', 'e', 'a', 't', 'e', ' ', 'c', 'u', 's', 't', 'o', 'm', ' ', 'a', 'c', 't', 'i', 'o', 'n']);
    lemma_stripped_create_custom_action();
    lemma_lookup_create_custom_action();
    lemma_lookup_dec(mapping_entries(), stripped("create custom action"@));
}

proof fn lemma_fixed_create_monthly_status_report()
    ensures
        normalized("create monthly status report"@) == "create monthly status report"@,
{
    reveal_strlit("create monthly status report");
    assert("create monthly status report"@ =~= seq!['c', 'r', 'e', 'a', 't', 'e', ' ', 'm', 'o', 'n', 't', 'h', 'l', 'y', ' ', 's', 't', 'a', 't', 'u', 's', ' ', 'r', 'e', 'p', 'o', 'r', 't']);
    lemma_stripped_create_monthly_status_report();
    lemma_lookup_create_monthly_status_report();
    lemma_lookup_dec(mapping_entries(), stripped("create monthly status report"@));
}

proof fn lemma_fixed_create_weekly_status_report()
    ensures
        normalized("create weekly status report"@) == "create weekly status report"@,
{
    reveal_strlit("create weekly status report");
    assert("create weekly status report"@ =~= seq!['c', 'r', 'e', 'a', 't', 'e', ' ', 'w', 'e', 'e', 'k', 'l', 'y', ' ', 's', 't', 'a', 't', 'u', 's', ' ', 'r', 'e', 'p', 'o', 'r', 't']);
    lemma_stripped_create_weekly_status_report();
    lemma_lookup_create_weekly_status_report();
    lemma_lookup_dec(mapping_entries(), stripped("create weekly status report"@));
}

proof fn lemma_fixed_file_na_issue()
    ensures
        normalized("file na issue"@) == "file na issue"@,
{
    reveal_strlit("file na issue");
    assert("file na issue"@ =~= seq!['f', 'i', 'l', 'e', ' ', 'n', 'a', ' ', 'i', 's', 's', 'u', 'e']);
    lemma_stripped_file_na_issue();
    lemma_lookup_file_na_issue();
    lemma_lookup_dec(mapping_entries(), stripped("file na issue"@));
}

proof fn lemma_fixed_file_an_issue()
    ensures
        normalized("file an issue"@) == "file an issue"@,
{
    reveal_strlit("file an issue");
    assert("file an issue"@ =~= seq!['f', 'i', 'l', 'e', ' ', 'a', 'n', ' ', 'i', 's', 's', 'u', 'e']);
    lemma_stripped_file_an_issue();
    lemma_lookup_file_an_issue();
    lemma_lookup_dec(mapping_entries(), stripped("file an issue"@));
}

/// The canonical commands, and the phrase under which the issue-filing
/// action is registered, are left as they are by normalisation.
pub proof fn lemma_command_phrases_are_fixed()
    ensures
        normalized("give recognition"@) == "give recognition"@,
        normalized("give me holidays"@) == "give me holidays"@,
        normalized("open lunch menus"@) == "open lunch menus"@,
        normalized("when is the next train to work"@) == "when is the next train to work"@,
        normalized("when is the next train home"@) == "when is the next train home"@,
        normalized("create custom action"@) == "create custom action"@,
        normalized("create monthly status report"@) == "create monthly status report"@,
        normalized("create weekly status report"@) == "create weekly status report"@,
        normalized("file na issue"@) == "file na issue"@,
        normalized("file an issue"@) == "file an issue"@,
{
    lemma_fixed_give_recognition();
    lemma_fixed_give_me_holidays();
    lemma_fixed_open_lunch_menus();
    lemma_fixed_when_is_the_next_train_to_work();
    lemma_fixed_when_is_the_next_train_home();
    lemma_fixed_create_custom_action();
    lemma_fixed_create_monthly_status_report();
    lemma_fixed_create_weekly_status_report();
    lemma_fixed_file_na_issue();
    lemma_fixed_file_an_issue();
}

/// A phrase that the mapping recognises normalises to a canonical command,
/// and normalising that command again changes nothing: registering an action
/// under the normalised command and looking up the normalised utterance meet.
pub proof fn lemma_normalize_idempotent_on_recognised(phrase: Seq<char>)
    requires
        phrase_mapping().contains_key(stripped(phrase)),
    ensures
        normalized(normalized(phrase)) == normalized(phrase),
{
    lemma_mapping_targets();
    lemma_map_values_are_targets(mapping_entries(), stripped(phrase));
    lemma_command_phrases_are_fixed();
}

} // verus!
