use vstd::prelude::*;
use crate::text::{replace, replace_all, str_eq};

verus! {

/// The phrase mappings, in the order in which they are entered: each pair is
/// an accepted (already stripped) phrase and the canonical command it stands for.
pub open spec fn mapping_entries() -> Seq<(Seq<char>, Seq<char>)> {
    seq![
        ("recognize"@, "give recognition"@),
        ("recognize colleague"@, "give recognition"@),
        ("recognize someone"@, "give recognition"@),
        ("holidays"@, "give me holidays"@),
        ("book holidays"@, "give me holidays"@),
        ("my holidays"@, "give me holidays"@),
        ("request holidays"@, "give me holidays"@),
        ("request vacations"@, "give me holidays"@),
        ("open lunch menu"@, "open lunch menus"@),
        ("what should i eat"@, "open lunch menus"@),
        ("what should i have for lunch"@, "open lunch menus"@),
        ("when is train work"@, "when is the next train to work"@),
        ("when is train to work"@, "when is the next train to work"@),
        ("when is next train work"@, "when is the next train to work"@),
        ("when is next train to work"@, "when is the next train to work"@),
        ("when can i go to work"@, "when is the next train to work"@),
        ("when does train to work departs"@, "when is the next train to work"@),
        ("when is next train home"@, "when is the next train home"@),
        ("when is train home"@, "when is the next train home"@),
        ("when can i return home"@, "when is the next train home"@),
        ("when does train home departs"@, "when is the next train home"@),
        ("compose custom action"@, "create custom action"@),
        ("create my monthly status report"@, "create monthly status report"@),
        ("compose my monthly status report"@, "create monthly status report"@),
        ("compose monthly status report"@, "create monthly status report"@),
        ("create my weekly status report"@, "create weekly status report"@),
        ("compose my weekly status report"@, "create weekly status report"@),
        ("compose weekly status report"@, "create weekly status report"@),
        ("create an issue"@, "file na issue"@),
        ("submit an issue"@, "file na issue"@),
        ("add an issue"@, "file na issue"@),
    ]
}

/// The map that entering `entries` one after the other produces: a later
/// entry for the same phrase replaces an earlier one.
pub open spec fn entries_to_map(entries: Seq<(Seq<char>, Seq<char>)>) -> Map<Seq<char>, Seq<char>>
    decreases entries.len(),
{
    if entries.len() == 0 {
        Map::empty()
    } else {
        entries_to_map(entries.drop_last()).insert(entries.last().0, entries.last().1)
    }
}

/// The phrase-to-command mapping.
pub open spec fn phrase_mapping() -> Map<Seq<char>, Seq<char>> {
    entries_to_map(mapping_entries())
}

/// The phrase with the filler words "i want to ", "i want ", "the " and
/// "my " removed, in that order.
pub open spec fn stripped(phrase: Seq<char>) -> Seq<char> {
    replace_all(
        replace_all(
            replace_all(replace_all(phrase, "i want to "@, Seq::empty()), "i want "@, Seq::empty()),
            "the "@,
            Seq::empty(),
        ),
        "my "@,
        Seq::empty(),
    )
}

/// The canonical form of a phrase: the command that its stripped form is
/// mapped to, or the stripped form itself where there is no mapping.
pub open spec fn normalized(phrase: Seq<char>) -> Seq<char> {
    let p = stripped(phrase);
    if phrase_mapping().contains_key(p) {
        phrase_mapping()[p]
    } else {
        p
    }
}

fn mapping_table() -> (t: Vec<(&'static str, &'static str)>)
    ensures
        t@.len() == mapping_entries().len(),
        forall|i: int|
            0 <= i < t@.len() ==> (#[trigger] t@[i]).0@ == mapping_entries()[i].0 && t@[i].1@
                == mapping_entries()[i].1,
{
    let t = vec![
        ("recognize", "give recognition"),
        ("recognize colleague", "give recognition"),
        ("recognize someone", "give recognition"),
        ("holidays", "give me holidays"),
        ("book holidays", "give me holidays"),
        ("my holidays", "give me holidays"),
        ("request holidays", "give me holidays"),
        ("request vacations", "give me holidays"),
        ("open lunch menu", "open lunch menus"),
        ("what should i eat", "open lunch menus"),
        ("what should i have for lunch", "open lunch menus"),
        ("when is train work", "when is the next train to work"),
        ("when is train to work", "when is the next train to work"),
        ("when is next train work", "when is the next train to work"),
        ("when is next train to work", "when is the next train to work"),
        ("when can i go to work", "when is the next train to work"),
        ("when does train to work departs", "when is the next train to work"),
        ("when is next train home", "when is the next train home"),
        ("when is train home", "when is the next train home"),
        ("when can i return home", "when is the next train home"),
        ("when does train home departs", "when is the next train home"),
        ("compose custom action", "create custom action"),
        ("create my monthly status report", "create monthly status report"),
        ("compose my monthly status report", "create monthly status report"),
        ("compose monthly status report", "create monthly status report"),
        ("create my weekly status report", "create weekly status report"),
        ("compose my weekly status report", "create weekly status report"),
        ("compose weekly status report", "create weekly status report"),
        ("create an issue", "file na issue"),
        ("submit an issue", "file na issue"),
        ("add an issue", "file na issue"),
    ];
    t
}

proof fn lemma_entries_map_last(entries: Seq<(Seq<char>, Seq<char>)>, key: Seq<char>, n: int)
    requires
        0 <= n <= entries.len(),
        forall|j: int| n <= j < entries.len() ==> entries[j].0 != key,
    ensures
        entries_to_map(entries).contains_key(key) == entries_to_map(entries.take(n)).contains_key(key),
        entries_to_map(entries)[key] == entries_to_map(entries.take(n))[key],
    decreases entries.len() - n,
{
    if n < entries.len() {
        lemma_entries_map_last(entries, key, n + 1);
        assert(entries.take(n + 1).drop_last() =~= entries.take(n));
    } else {
        assert(entries.take(n) =~= entries);
    }
}

/// Turns a recognised utterance into the canonical command it stands for:
/// strips filler words, then maps the result through the phrase mapping.
pub fn normalize_phrase(phrase: &str) -> (res: String)
    ensures
        res@ == normalized(phrase@),
{
    proof {
        reveal_strlit("i want to ");
        reveal_strlit("i want ");
        reveal_strlit("the ");
        reveal_strlit("my ");
        reveal_strlit("");
        assert(""@ =~= Seq::<char>::empty());
    }
    let p1 = replace(phrase, "i want to ", "");
    let p2 = replace(p1.as_str(), "i want ", "");
    let p3 = replace(p2.as_str(), "the ", "");
    let processed = replace(p3.as_str(), "my ", "");
    let table = mapping_table();
    let ghost entries = mapping_entries();
    assert(processed@ == stripped(phrase@));
    let mut n = table.len();
    while n > 0
        invariant
            processed@ == stripped(phrase@),
            n <= table@.len(),
            table@.len() == entries.len(),
            entries == mapping_entries(),
            forall|i: int|
                0 <= i < table@.len() ==> (#[trigger] table@[i]).0@ == entries[i].0 && table@[i].1@
                    == entries[i].1,
            forall|j: int| n <= j < entries.len() ==> entries[j].0 != processed@,
        decreases n,
    {
        let (key, target) = table[n - 1];
        if str_eq(key, processed.as_str()) {
            proof {
                lemma_entries_map_last(entries, processed@, n as int);
                assert(entries.take(n as int).last() == entries[n - 1]);
            }
            return String::from_str(target);
        }
        n = n - 1;
    }
    proof {
        lemma_entries_map_last(entries, processed@, 0);
        assert(entries.take(0) =~= Seq::<(Seq<char>, Seq<char>)>::empty());
    }
    processed
}

} // verus!
