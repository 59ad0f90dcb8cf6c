//! What normalisation makes of every phrase that the mapping accepts,
//! obtained by evaluating the definitions of `nlu` on those phrases.

use vstd::prelude::*;
use crate::nlu::{entries_to_map, mapping_entries, normalized, phrase_mapping, stripped};
use crate::text::{occurs_at, replace_all};
use crate::nlu_laws::{
    has_occurrence, lemma_no_occurrence, lemma_stripped_fixed, lemma_stripped_steps, prefix_eq,
    rep_from,
};

verus! {

#[verifier::rlimit(100)]
proof fn lemma_entry_texts()
    ensures
        mapping_entries().len() == 31,
        mapping_entries()[0] == ("recognize"@, "give recognition"@),
        mapping_entries()[1] == ("recognize colleague"@, "give recognition"@),
        mapping_entries()[2] == ("recognize someone"@, "give recognition"@),
        mapping_entries()[3] == ("holidays"@, "give me holidays"@),
        mapping_entries()[4] == ("book holidays"@, "give me holidays"@),
        mapping_entries()[5] == ("my holidays"@, "give me holidays"@),
        mapping_entries()[6] == ("request holidays"@, "give me holidays"@),
        mapping_entries()[7] == ("request vacations"@, "give me holidays"@),
        mapping_entries()[8] == ("open lunch menu"@, "open lunch menus"@),
        mapping_entries()[9] == ("what should i eat"@, "open lunch menus"@),
        mapping_entries()[10] == ("what should i have for lunch"@, "open lunch menus"@),
        mapping_entries()[11] == ("when is train work"@, "when is the next train to work"@),
        mapping_entries()[12] == ("when is train to work"@, "when is the next train to work"@),
        mapping_entries()[13] == ("when is next train work"@, "when is the next train to work"@),
        mapping_entries()[14] == ("when is next train to work"@, "when is the next train to work"@),
        mapping_entries()[15] == ("when can i go to work"@, "when is the next train to work"@),
        mapping_entries()[16] == ("when does train to work departs"@, "when is the next train to work"@),
        mapping_entries()[17] == ("when is next train home"@, "when is the next train home"@),
        mapping_entries()[18] == ("when is train home"@, "when is the next train home"@),
        mapping_entries()[19] == ("when can i return home"@, "when is the next train home"@),
        mapping_entries()[20] == ("when does train home departs"@, "when is the next train home"@),
        mapping_entries()[21] == ("compose custom action"@, "create custom action"@),
        mapping_entries()[22] == ("create my monthly status report"@, "create monthly status report"@),
        mapping_entries()[23] == ("compose my monthly status report"@, "create monthly status report"@),
        mapping_entries()[24] == ("compose monthly status report"@, "create monthly status report"@),
        mapping_entries()[25] == ("create my weekly status report"@, "create weekly status report"@),
        mapping_entries()[26] == ("compose my weekly status report"@, "create weekly status report"@),
        mapping_entries()[27] == ("compose weekly status report"@, "create weekly status report"@),
        mapping_entries()[28] == ("create an issue"@, "file na issue"@),
        mapping_entries()[29] == ("submit an issue"@, "file na issue"@),
        mapping_entries()[30] == ("add an issue"@, "file na issue"@),
{
    let e = mapping_entries();
}

proof fn lemma_map_at(entries: Seq<(Seq<char>, Seq<char>)>, i: int)
    requires
        0 <= i < entries.len(),
        forall|j: int| i < j < entries.len() ==> entries[j].0 != entries[i].0,
    ensures
        entries_to_map(entries).contains_key(entries[i].0),
        entries_to_map(entries)[entries[i].0] == entries[i].1,
    decreases entries.len(),
{
    if i < entries.len() - 1 {
        let d = entries.drop_last();
        assert forall|j: int| i < j < d.len() implies d[j].0 != d[i].0 by {
            assert(d[j] == entries[j]);
        }
        lemma_map_at(d, i);
        assert(entries.last().0 != entries[i].0);
    }
}

proof fn lemma_map_absent(entries: Seq<(Seq<char>, Seq<char>)>, x: Seq<char>)
    requires
        forall|j: int| 0 <= j < entries.len() ==> entries[j].0 != x,
    ensures
        !entries_to_map(entries).contains_key(x),
    decreases entries.len(),
{
    if entries.len() > 0 {
        let d = entries.drop_last();
        assert forall|j: int| 0 <= j < d.len() implies d[j].0 != x by {
            assert(d[j] == entries[j]);
        }
        lemma_map_absent(d, x);
    }
}

#[verifier::rlimit(40)]
proof fn lemma_stripped_recognize()
    ensures
        stripped("recognize"@) == "recognize"@,
{
    reveal_strlit("recognize");
    reveal_with_fuel(has_occurrence, 12);
    reveal_with_fuel(prefix_eq, 11);
    assert(!has_occurrence("recognize"@, seq!['i', ' ', 'w', 'a', 'n', 't', ' ', 't', 'o', ' '], 0));
    assert(!has_occurrence("recognize"@, seq!['i', ' ', 'w', 'a', 'n', 't', ' '], 0));
    assert(!has_occurrence("recognize"@, seq!['t', 'h', 'e', ' '], 0));
    assert(!has_occurrence("recognize"@, seq!['m', 'y', ' '], 0));
    lemma_stripped_fixed("recognize"@);
}

proof fn lemma_map_recognize()
    ensures
        phrase_mapping().contains_key("recognize"@),
        phrase_mapping()["recognize"@] == "give recognition"@,
{
    lemma_entry_texts();
    let e = mapping_entries();
    reveal_strlit("recognize");
    assert("recognize"@.len() == 9);
    assert forall|j: int| 0 < j < e.len() implies (#[trigger] e[j]).0 != e[0].0 by {
        if j == 1 {
            reveal_strlit("recognize colleague");
            assert(e[1].0 == "recognize colleague"@ && "recognize colleague"@.len() == 19);
            assert(e[j].0 != e[0].0);
        } else if j == 2 {
            reveal_strlit("recognize someone");
            assert(e[2].0 == "recognize someone"@ && "recognize someone"@.len() == 17);
            assert(e[j].0 != e[0].0);
        } else if j == 3 {
            reveal_strlit("holidays");
            assert(e[3].0 == "holidays"@ && "holidays"@.len() == 8);
            assert(e[j].0 != e[0].0);
        } else if j == 4 {
            reveal_strlit("book holidays");
            assert(e[4].0 == "book holidays"@ && "book holidays"@.len() == 13);
            assert(e[j].0 != e[0].0);
        } else if j == 5 {
            reveal_strlit("my holidays");
            assert(e[5].0 == "my holidays"@ && "my holidays"@.len() == 11);
            assert(e[j].0 != e[0].0);
        } else if j == 6 {
            reveal_strlit("request holidays");
            assert(e[6].0 == "request holidays"@ && "request holidays"@.len() == 16);
            assert(e[j].0 != e[0].0);
        } else if j == 7 {
            reveal_strlit("request vacations");
            assert(e[7].0 == "request vacations"@ && "request vacations"@.len() == 17);
            assert(e[j].0 != e[0].0);
        } else if j == 8 {
            reveal_strlit("open lunch menu");
            assert(e[8].0 == "open lunch menu"@ && "open lunch menu"@.len() == 15);
            assert(e[j].0 != e[0].0);
        } else if j == 9 {
            reveal_strlit("what should i eat");
            assert(e[9].0 == "what should i eat"@ && "what should i eat"@.len() == 17);
            assert(e[j].0 != e[0].0);
        } else if j == 10 {
            reveal_strlit("what should i have for lunch");
            assert(e[10].0 == "what should i have for lunch"@ && "what should i have for lunch"@.len() == 28);
            assert(e[j].0 != e[0].0);
        } else if j == 11 {
            reveal_strlit("when is train work");
            assert(e[11].0 == "when is train work"@ && "when is train work"@.len() == 18);
            assert(e[j].0 != e[0].0);
        } else if j == 12 {
            reveal_strlit("when is train to work");
            assert(e[12].0 == "when is train to work"@ && "when is train to work"@.len() == 21);
            assert(e[j].0 != e[0].0);
        } else if j == 13 {
            reveal_strlit("when is next train work");
            assert(e[13].0 == "when is next train work"@ && "when is next train work"@.len() == 23);
            assert(e[j].0 != e[0].0);
        } else if j == 14 {
            reveal_strlit("when is next train to work");
            assert(e[14].0 == "when is next train to work"@ && "when is next train to work"@.len() == 26);
            assert(e[j].0 != e[0].0);
        } else if j == 15 {
            reveal_strlit("when can i go to work");
            assert(e[15].0 == "when can i go to work"@ && "when can i go to work"@.len() == 21);
            assert(e[j].0 != e[0].0);
        } else if j == 16 {
            reveal_strlit("when does train to work departs");
            assert(e[16].0 == "when does train to work departs"@ && "when does train to work departs"@.len() == 31);
            assert(e[j].0 != e[0].0);
        } else if j == 17 {
            reveal_strlit("when is next train home");
            assert(e[17].0 == "when is next train home"@ && "when is next train home"@.len() == 23);
            assert(e[j].0 != e[0].0);
        } else if j == 18 {
            reveal_strlit("when is train home");
            assert(e[18].0 == "when is train home"@ && "when is train home"@.len() == 18);
            assert(e[j].0 != e[0].0);
        } else if j == 19 {
            reveal_strlit("when can i return home");
            assert(e[19].0 == "when can i return home"@ && "when can i return home"@.len() == 22);
            assert(e[j].0 != e[0].0);
        } else if j == 20 {
            reveal_strlit("when does train home departs");
            assert(e[20].0 == "when does train home departs"@ && "when does train home departs"@.len() == 28);
            assert(e[j].0 != e[0].0);
        } else if j == 21 {
            reveal_strlit("compose custom action");
            assert(e[21].0 == "compose custom action"@ && "compose custom action"@.len() == 21);
            assert(e[j].0 != e[0].0);
        } else if j == 22 {
            reveal_strlit("create my monthly status report");
            assert(e[22].0 == "create my monthly status report"@ && "create my monthly status report"@.len() == 31);
            assert(e[j].0 != e[0].0);
        } else if j == 23 {
            reveal_strlit("compose my monthly status report");
            assert(e[23].0 == "compose my monthly status report"@ && "compose my monthly status report"@.len() == 32);
            assert(e[j].0 != e[0].0);
        } else if j == 24 {
            reveal_strlit("compose monthly status report");
            assert(e[24].0 == "compose monthly status report"@ && "compose monthly status report"@.len() == 29);
            assert(e[j].0 != e[0].0);
        } else if j == 25 {
            reveal_strlit("create my weekly status report");
            assert(e[25].0 == "create my weekly status report"@ && "create my weekly status report"@.len() == 30);
            assert(e[j].0 != e[0].0);
        } else if j == 26 {
            reveal_strlit("compose my weekly status report");
            assert(e[26].0 == "compose my weekly status report"@ && "compose my weekly status report"@.len() == 31);
            assert(e[j].0 != e[0].0);
        } else if j == 27 {
            reveal_strlit("compose weekly status report");
            assert(e[27].0 == "compose weekly status report"@ && "compose weekly status report"@.len() == 28);
            assert(e[j].0 != e[0].0);
        } else if j == 28 {
            reveal_strlit("create an issue");
            assert(e[28].0 == "create an issue"@ && "create an issue"@.len() == 15);
            assert(e[j].0 != e[0].0);
        } else if j == 29 {
            reveal_strlit("submit an issue");
            assert(e[29].0 == "submit an issue"@ && "submit an issue"@.len() == 15);
            assert(e[j].0 != e[0].0);
        } else if j == 30 {
            reveal_strlit("add an issue");
            assert(e[30].0 == "add an issue"@ && "add an issue"@.len() == 12);
            assert(e[j].0 != e[0].0);
        }
    }
    lemma_map_at(e, 0);
}

proof fn lemma_normalized_recognize()
    ensures
        normalized("recognize"@) == "give recognition"@,
{
    lemma_stripped_recognize();
    lemma_map_recognize();
}

#[verifier::rlimit(40)]
proof fn lemma_stripped_recognize_colleague()
    ensures
        stripped("recognize colleague"@) == "recognize colleague"@,
{
    reveal_strlit("recognize colleague");
    reveal_with_fuel(has_occurrence, 22);
    reveal_with_fuel(prefix_eq, 11);
    assert(!has_occurrence("recognize colleague"@, seq!['i', ' ', 'w', 'a', 'n', 't', ' ', 't', 'o', ' '], 0));
    assert(!has_occurrence("recognize colleague"@, seq!['i', ' ', 'w', 'a', 'n', 't', ' '], 0));
    assert(!has_occurrence("recognize colleague"@, seq!['t', 'h', 'e', ' '], 0));
    assert(!has_occurrence("recognize colleague"@, seq!['m', 'y', ' '], 0));
    lemma_stripped_fixed("recognize colleague"@);
}

proof fn lemma_map_recognize_colleague()
    ensures
        phrase_mapping().contains_key("recognize colleague"@),
        phrase_mapping()["recognize colleague"@] == "give recognition"@,
{
    lemma_entry_texts();
    let e = mapping_entries();
    reveal_strlit("recognize colleague");
    assert("recognize colleague"@.len() == 19);
    assert forall|j: int| 1 < j < e.len() implies (#[trigger] e[j]).0 != e[1].0 by {
        if j == 2 {
            reveal_strlit("recognize someone");
            assert(e[2].0 == "recognize someone"@ && "recognize someone"@.len() == 17);
            assert(e[j].0 != e[1].0);
        } else if j == 3 {
            reveal_strlit("holidays");
            assert(e[3].0 == "holidays"@ && "holidays"@.len() == 8);
            assert(e[j].0 != e[1].0);
        } else if j == 4 {
            reveal_strlit("book holidays");
            assert(e[4].0 == "book holidays"@ && "book holidays"@.len() == 13);
            assert(e[j].0 != e[1].0);
        } else if j == 5 {
            reveal_strlit("my holidays");
            assert(e[5].0 == "my holidays"@ && "my holidays"@.len() == 11);
            assert(e[j].0 != e[1].0);
        } else if j == 6 {
            reveal_strlit("request holidays");
            assert(e[6].0 == "request holidays"@ && "request holidays"@.len() == 16);
            assert(e[j].0 != e[1].0);
        } else if j == 7 {
            reveal_strlit("request vacations");
            assert(e[7].0 == "request vacations"@ && "request vacations"@.len() == 17);
            assert(e[j].0 != e[1].0);
        } else if j == 8 {
            reveal_strlit("open lunch menu");
            assert(e[8].0 == "open lunch menu"@ && "open lunch menu"@.len() == 15);
            assert(e[j].0 != e[1].0);
        } else if j == 9 {
            reveal_strlit("what should i eat");
            assert(e[9].0 == "what should i eat"@ && "what should i eat"@.len() == 17);
            assert(e[j].0 != e[1].0);
        } else if j == 10 {
            reveal_strlit("what should i have for lunch");
            assert(e[10].0 == "what should i have for lunch"@ && "what should i have for lunch"@.len() == 28);
            assert(e[j].0 != e[1].0);
        } else if j == 11 {
            reveal_strlit("when is train work");
            assert(e[11].0 == "when is train work"@ && "when is train work"@.len() == 18);
            assert(e[j].0 != e[1].0);
        } else if j == 12 {
            reveal_strlit("when is train to work");
            assert(e[12].0 == "when is train to work"@ && "when is train to work"@.len() == 21);
            assert(e[j].0 != e[1].0);
        } else if j == 13 {
            reveal_strlit("when is next train work");
            assert(e[13].0 == "when is next train work"@ && "when is next train work"@.len() == 23);
            assert(e[j].0 != e[1].0);
        } else if j == 14 {
            reveal_strlit("when is next train to work");
            assert(e[14].0 == "when is next train to work"@ && "when is next train to work"@.len() == 26);
            assert(e[j].0 != e[1].0);
        } else if j == 15 {
            reveal_strlit("when can i go to work");
            assert(e[15].0 == "when can i go to work"@ && "when can i go to work"@.len() == 21);
            assert(e[j].0 != e[1].0);
        } else if j == 16 {
            reveal_strlit("when does train to work departs");
            assert(e[16].0 == "when does train to work departs"@ && "when does train to work departs"@.len() == 31);
            assert(e[j].0 != e[1].0);
        } else if j == 17 {
            reveal_strlit("when is next train home");
            assert(e[17].0 == "when is next train home"@ && "when is next train home"@.len() == 23);
            assert(e[j].0 != e[1].0);
        } else if j == 18 {
            reveal_strlit("when is train home");
            assert(e[18].0 == "when is train home"@ && "when is train home"@.len() == 18);
            assert(e[j].0 != e[1].0);
        } else if j == 19 {
            reveal_strlit("when can i return home");
            assert(e[19].0 == "when can i return home"@ && "when can i return home"@.len() == 22);
            assert(e[j].0 != e[1].0);
        } else if j == 20 {
            reveal_strlit("when does train home departs");
            assert(e[20].0 == "when does train home departs"@ && "when does train home departs"@.len() == 28);
            assert(e[j].0 != e[1].0);
        } else if j == 21 {
            reveal_strlit("compose custom action");
            assert(e[21].0 == "compose custom action"@ && "compose custom action"@.len() == 21);
            assert(e[j].0 != e[1].0);
        } else if j == 22 {
            reveal_strlit("create my monthly status report");
            assert(e[22].0 == "create my monthly status report"@ && "create my monthly status report"@.len() == 31);
            assert(e[j].0 != e[1].0);
        } else if j == 23 {
            reveal_strlit("compose my monthly status report");
            assert(e[23].0 == "compose my monthly status report"@ && "compose my monthly status report"@.len() == 32);
            assert(e[j].0 != e[1].0);
        } else if j == 24 {
            reveal_strlit("compose monthly status report");
            assert(e[24].0 == "compose monthly status report"@ && "compose monthly status report"@.len() == 29);
            assert(e[j].0 != e[1].0);
        } else if j == 25 {
            reveal_strlit("create my weekly status report");
            assert(e[25].0 == "create my weekly status report"@ && "create my weekly status report"@.len() == 30);
            assert(e[j].0 != e[1].0);
        } else if j == 26 {
            reveal_strlit("compose my weekly status report");
            assert(e[26].0 == "compose my weekly status report"@ && "compose my weekly status report"@.len() == 31);
            assert(e[j].0 != e[1].0);
        } else if j == 27 {
            reveal_strlit("compose weekly status report");
            assert(e[27].0 == "compose weekly status report"@ && "compose weekly status report"@.len() == 28);
            assert(e[j].0 != e[1].0);
        } else if j == 28 {
            reveal_strlit("create an issue");
            assert(e[28].0 == "create an issue"@ && "create an issue"@.len() == 15);
            assert(e[j].0 != e[1].0);
        } else if j == 29 {
            reveal_strlit("submit an issue");
            assert(e[29].0 == "submit an issue"@ && "submit an issue"@.len() == 15);
            assert(e[j].0 != e[1].0);
        } else if j == 30 {
            reveal_strlit("add an issue");
            assert(e[30].0 == "add an issue"@ && "add an issue"@.len() == 12);
            assert(e[j].0 != e[1].0);
        }
    }
    lemma_map_at(e, 1);
}

proof fn lemma_normalized_recognize_colleague()
    ensures
        normalized("recognize colleague"@) == "give recognition"@,
{
    lemma_stripped_recognize_colleague();
    lemma_map_recognize_colleague();
}

#[verifier::rlimit(40)]
proof fn lemma_stripped_recognize_someone()
    ensures
        stripped("recognize someone"@) == "recognize someone"@,
{
    reveal_strlit("recognize someone");
    reveal_with_fuel(has_occurrence, 20);
    reveal_with_fuel(prefix_eq, 11);
    assert(!has_occurrence("recognize someone"@, seq!['i', ' ', 'w', 'a', 'n', 't', ' ', 't', 'o', ' '], 0));
    assert(!has_occurrence("recognize someone"@, seq!['i', ' ', 'w', 'a', 'n', 't', ' '], 0));
    assert(!has_occurrence("recognize someone"@, seq!['t', 'h', 'e', ' '], 0));
    assert(!has_occurrence("recognize someone"@, seq!['m', 'y', ' '], 0));
    lemma_stripped_fixed("recognize someone"@);
}

proof fn lemma_map_recognize_someone()
    ensures
        phrase_mapping().contains_key("recognize someone"@),
        phrase_mapping()["recognize someone"@] == "give recognition"@,
{
    lemma_entry_texts();
    let e = mapping_entries();
    reveal_strlit("recognize someone");
    assert("recognize someone"@.len() == 17);
    assert forall|j: int| 2 < j < e.len() implies (#[trigger] e[j]).0 != e[2].0 by {
        if j == 3 {
            reveal_strlit("holidays");
            assert(e[3].0 == "holidays"@ && "holidays"@.len() == 8);
            assert(e[j].0 != e[2].0);
        } else if j == 4 {
            reveal_strlit("book holidays");
            assert(e[4].0 == "book holidays"@ && "book holidays"@.len() == 13);
            assert(e[j].0 != e[2].0);
        } else if j == 5 {
            reveal_strlit("my holidays");
            assert(e[5].0 == "my holidays"@ && "my holidays"@.len() == 11);
            assert(e[j].0 != e[2].0);
        } else if j == 6 {
            reveal_strlit("request holidays");
            assert(e[6].0 == "request holidays"@ && "request holidays"@.len() == 16);
            assert(e[j].0 != e[2].0);
        } else if j == 7 {
            reveal_strlit("request vacations");
            assert(e[7].0 == "request vacations"@ && "request vacations"@.len() == 17);
            assert("request vacations"@[2] != "recognize someone"@[2]);
            assert(e[j].0 != e[2].0);
        } else if j == 8 {
            reveal_strlit("open lunch menu");
            assert(e[8].0 == "open lunch menu"@ && "open lunch menu"@.len() == 15);
            assert(e[j].0 != e[2].0);
        } else if j == 9 {
            reveal_strlit("what should i eat");
            assert(e[9].0 == "what should i eat"@ && "what should i eat"@.len() == 17);
            assert("what should i eat"@[0] != "recognize someone"@[0]);
            assert(e[j].0 != e[2].0);
        } else if j == 10 {
            reveal_strlit("what should i have for lunch");
            assert(e[10].0 == "what should i have for lunch"@ && "what should i have for lunch"@.len() == 28);
            assert(e[j].0 != e[2].0);
        } else if j == 11 {
            reveal_strlit("when is train work");
            assert(e[11].0 == "when is train work"@ && "when is train work"@.len() == 18);
            assert(e[j].0 != e[2].0);
        } else if j == 12 {
            reveal_strlit("when is train to work");
            assert(e[12].0 == "when is train to work"@ && "when is train to work"@.len() == 21);
            assert(e[j].0 != e[2].0);
        } else if j == 13 {
            reveal_strlit("when is next train work");
            assert(e[13].0 == "when is next train work"@ && "when is next train work"@.len() == 23);
            assert(e[j].0 != e[2].0);
        } else if j == 14 {
            reveal_strlit("when is next train to work");
            assert(e[14].0 == "when is next train to work"@ && "when is next train to work"@.len() == 26);
            assert(e[j].0 != e[2].0);
        } else if j == 15 {
            reveal_strlit("when can i go to work");
            assert(e[15].0 == "when can i go to work"@ && "when can i go to work"@.len() == 21);
            assert(e[j].0 != e[2].0);
        } else if j == 16 {
            reveal_strlit("when does train to work departs");
            assert(e[16].0 == "when does train to work departs"@ && "when does train to work departs"@.len() == 31);
            assert(e[j].0 != e[2].0);
        } else if j == 17 {
            reveal_strlit("when is next train home");
            assert(e[17].0 == "when is next train home"@ && "when is next train home"@.len() == 23);
            assert(e[j].0 != e[2].0);
        } else if j == 18 {
            reveal_strlit("when is train home");
            assert(e[18].0 == "when is train home"@ && "when is train home"@.len() == 18);
            assert(e[j].0 != e[2].0);
        } else if j == 19 {
            reveal_strlit("when can i return home");
            assert(e[19].0 == "when can i return home"@ && "when can i return home"@.len() == 22);
            assert(e[j].0 != e[2].0);
        } else if j == 20 {
            reveal_strlit("when does train home departs");
            assert(e[20].0 == "when does train home departs"@ && "when does train home departs"@.len() == 28);
            assert(e[j].0 != e[2].0);
        } else if j == 21 {
            reveal_strlit("compose custom action");
            assert(e[21].0 == "compose custom action"@ && "compose custom action"@.len() == 21);
            assert(e[j].0 != e[2].0);
        } else if j == 22 {
            reveal_strlit("create my monthly status report");
            assert(e[22].0 == "create my monthly status report"@ && "create my monthly status report"@.len() == 31);
            assert(e[j].0 != e[2].0);
        } else if j == 23 {
            reveal_strlit("compose my monthly status report");
            assert(e[23].0 == "compose my monthly status report"@ && "compose my monthly status report"@.len() == 32);
            assert(e[j].0 != e[2].0);
        } else if j == 24 {
            reveal_strlit("compose monthly status report");
            assert(e[24].0 == "compose monthly status report"@ && "compose monthly status report"@.len() == 29);
            assert(e[j].0 != e[2].0);
        } else if j == 25 {
            reveal_strlit("create my weekly status report");
            assert(e[25].0 == "create my weekly status report"@ && "create my weekly status report"@.len() == 30);
            assert(e[j].0 != e[2].0);
        } else if j == 26 {
            reveal_strlit("compose my weekly status report");
            assert(e[26].0 == "compose my weekly status report"@ && "compose my weekly status report"@.len() == 31);
            assert(e[j].0 != e[2].0);
        } else if j == 27 {
            reveal_strlit("compose weekly status report");
            assert(e[27].0 == "compose weekly status report"@ && "compose weekly status report"@.len() == 28);
            assert(e[j].0 != e[2].0);
        } else if j == 28 {
            reveal_strlit("create an issue");
            assert(e[28].0 == "create an issue"@ && "create an issue"@.len() == 15);
            assert(e[j].0 != e[2].0);
        } else if j == 29 {
            reveal_strlit("submit an issue");
            assert(e[29].0 == "submit an issue"@ && "submit an issue"@.len() == 15);
            assert(e[j].0 != e[2].0);
        } else if j == 30 {
            reveal_strlit("add an issue");
            assert(e[30].0 == "add an issue"@ && "add an issue"@.len() == 12);
            assert(e[j].0 != e[2].0);
        }
    }
    lemma_map_at(e, 2);
}

proof fn lemma_normalized_recognize_someone()
    ensures
        normalized("recognize someone"@) == "give recognition"@,
{
    lemma_stripped_recognize_someone();
    lemma_map_recognize_someone();
}

#[verifier::rlimit(40)]
proof fn lemma_stripped_holidays()
    ensures
        stripped("holidays"@) == "holidays"@,
{
    reveal_strlit("holidays");
    reveal_with_fuel(has_occurrence, 11);
    reveal_with_fuel(prefix_eq, 11);
    assert(!has_occurrence("holidays"@, seq!['i', ' ', 'w', 'a', 'n', 't', ' ', 't', 'o', ' '], 0));
    assert(!has_occurrence("holidays"@, seq!['i', ' ', 'w', 'a', 'n', 't', ' '], 0));
    assert(!has_occurrence("holidays"@, seq!['t', 'h', 'e', ' '], 0));
    assert(!has_occurrence("holidays"@, seq!['m', 'y', ' '], 0));
    lemma_stripped_fixed("holidays"@);
}

proof fn lemma_map_holidays()
    ensures
        phrase_mapping().contains_key("holidays"@),
        phrase_mapping()["holidays"@] == "give me holidays"@,
{
    lemma_entry_texts();
    let e = mapping_entries();
    reveal_strlit("holidays");
    assert("holidays"@.len() == 8);
    assert forall|j: int| 3 < j < e.len() implies (#[trigger] e[j]).0 != e[3].0 by {
        if j == 4 {
            reveal_strlit("book holidays");
            assert(e[4].0 == "book holidays"@ && "book holidays"@.len() == 13);
            assert(e[j].0 != e[3].0);
        } else if j == 5 {
            reveal_strlit("my holidays");
            assert(e[5].0 == "my holidays"@ && "my holidays"@.len() == 11);
            assert(e[j].0 != e[3].0);
        } else if j == 6 {
            reveal_strlit("request holidays");
            assert(e[6].0 == "request holidays"@ && "request holidays"@.len() == 16);
            assert(e[j].0 != e[3].0);
        } else if j == 7 {
            reveal_strlit("request vacations");
            assert(e[7].0 == "request vacations"@ && "request vacations"@.len() == 17);
            assert(e[j].0 != e[3].0);
        } else if j == 8 {
            reveal_strlit("open lunch menu");
            assert(e[8].0 == "open lunch menu"@ && "open lunch menu"@.len() == 15);
            assert(e[j].0 != e[3].0);
        } else if j == 9 {
            reveal_strlit("what should i eat");
            assert(e[9].0 == "what should i eat"@ && "what should i eat"@.len() == 17);
            assert(e[j].0 != e[3].0);
        } else if j == 10 {
            reveal_strlit("what should i have for lunch");
            assert(e[10].0 == "what should i have for lunch"@ && "what should i have for lunch"@.len() == 28);
            assert(e[j].0 != e[3].0);
        } else if j == 11 {
            reveal_strlit("when is train work");
            assert(e[11].0 == "when is train work"@ && "when is train work"@.len() == 18);
            assert(e[j].0 != e[3].0);
        } else if j == 12 {
            reveal_strlit("when is train to work");
            assert(e[12].0 == "when is train to work"@ && "when is train to work"@.len() == 21);
            assert(e[j].0 != e[3].0);
        } else if j == 13 {
            reveal_strlit("when is next train work");
            assert(e[13].0 == "when is next train work"@ && "when is next train work"@.len() == 23);
            assert(e[j].0 != e[3].0);
        } else if j == 14 {
            reveal_strlit("when is next train to work");
            assert(e[14].0 == "when is next train to work"@ && "when is next train to work"@.len() == 26);
            assert(e[j].0 != e[3].0);
        } else if j == 15 {
            reveal_strlit("when can i go to work");
            assert(e[15].0 == "when can i go to work"@ && "when can i go to work"@.len() == 21);
            assert(e[j].0 != e[3].0);
        } else if j == 16 {
            reveal_strlit("when does train to work departs");
            assert(e[16].0 == "when does train to work departs"@ && "when does train to work departs"@.len() == 31);
            assert(e[j].0 != e[3].0);
        } else if j == 17 {
            reveal_strlit("when is next train home");
            assert(e[17].0 == "when is next train home"@ && "when is next train home"@.len() == 23);
            assert(e[j].0 != e[3].0);
        } else if j == 18 {
            reveal_strlit("when is train home");
            assert(e[18].0 == "when is train home"@ && "when is train home"@.len() == 18);
            assert(e[j].0 != e[3].0);
        } else if j == 19 {
            reveal_strlit("when can i return home");
            assert(e[19].0 == "when can i return home"@ && "when can i return home"@.len() == 22);
            assert(e[j].0 != e[3].0);
        } else if j == 20 {
            reveal_strlit("when does train home departs");
            assert(e[20].0 == "when does train home departs"@ && "when does train home departs"@.len() == 28);
            assert(e[j].0 != e[3].0);
        } else if j == 21 {
            reveal_strlit("compose custom action");
            assert(e[21].0 == "compose custom action"@ && "compose custom action"@.len() == 21);
            assert(e[j].0 != e[3].0);
        } else if j == 22 {
            reveal_strlit("create my monthly status report");
            assert(e[22].0 == "create my monthly status report"@ && "create my monthly status report"@.len() == 31);
            assert(e[j].0 != e[3].0);
        } else if j == 23 {
            reveal_strlit("compose my monthly status report");
            assert(e[23].0 == "compose my monthly status report"@ && "compose my monthly status report"@.len() == 32);
            assert(e[j].0 != e[3].0);
        } else if j == 24 {
            reveal_strlit("compose monthly status report");
            assert(e[24].0 == "compose monthly status report"@ && "compose monthly status report"@.len() == 29);
            assert(e[j].0 != e[3].0);
        } else if j == 25 {
            reveal_strlit("create my weekly status report");
            assert(e[25].0 == "create my weekly status report"@ && "create my weekly status report"@.len() == 30);
            assert(e[j].0 != e[3].0);
        } else if j == 26 {
            reveal_strlit("compose my weekly status report");
            assert(e[26].0 == "compose my weekly status report"@ && "compose my weekly status report"@.len() == 31);
            assert(e[j].0 != e[3].0);
        } else if j == 27 {
            reveal_strlit("compose weekly status report");
            assert(e[27].0 == "compose weekly status report"@ && "compose weekly status report"@.len() == 28);
            assert(e[j].0 != e[3].0);
        } else if j == 28 {
            reveal_strlit("create an issue");
            assert(e[28].0 == "create an issue"@ && "create an issue"@.len() == 15);
            assert(e[j].0 != e[3].0);
        } else if j == 29 {
            reveal_strlit("submit an issue");
            assert(e[29].0 == "submit an issue"@ && "submit an issue"@.len() == 15);
            assert(e[j].0 != e[3].0);
        } else if j == 30 {
            reveal_strlit("add an issue");
            assert(e[30].0 == "add an issue"@ && "add an issue"@.len() == 12);
            assert(e[j].0 != e[3].0);
        }
    }
    lemma_map_at(e, 3);
}

proof fn lemma_normalized_holidays()
    ensures
        normalized("holidays"@) == "give me holidays"@,
{
    lemma_stripped_holidays();
    lemma_map_holidays();
}

#[verifier::rlimit(40)]
proof fn lemma_stripped_book_holidays()
    ensures
        stripped("book holidays"@) == "book holidays"@,
{
    reveal_strlit("book holidays");
    reveal_with_fuel(has_occurrence, 16);
    reveal_with_fuel(prefix_eq, 11);
    assert(!has_occurrence("book holidays"@, seq!['i', ' ', 'w', 'a', 'n', 't', ' ', 't', 'o', ' '], 0));
    assert(!has_occurrence("book holidays"@, seq!['i', ' ', 'w', 'a', 'n', 't', ' '], 0));
    assert(!has_occurrence("book holidays"@, seq!['t', 'h', 'e', ' '], 0));
    assert(!has_occurrence("book holidays"@, seq!['m', 'y', ' '], 0));
    lemma_stripped_fixed("book holidays"@);
}

proof fn lemma_map_book_holidays()
    ensures
        phrase_mapping().contains_key("book holidays"@),
        phrase_mapping()["book holidays"@] == "give me holidays"@,
{
    lemma_entry_texts();
    let e = mapping_entries();
    reveal_strlit("book holidays");
    assert("book holidays"@.len() == 13);
    assert forall|j: int| 4 < j < e.len() implies (#[trigger] e[j]).0 != e[4].0 by {
        if j == 5 {
            reveal_strlit("my holidays");
            assert(e[5].0 == "my holidays"@ && "my holidays"@.len() == 11);
            assert(e[j].0 != e[4].0);
        } else if j == 6 {
            reveal_strlit("request holidays");
            assert(e[6].0 == "request holidays"@ && "request holidays"@.len() == 16);
            assert(e[j].0 != e[4].0);
        } else if j == 7 {
            reveal_strlit("request vacations");
            assert(e[7].0 == "request vacations"@ && "request vacations"@.len() == 17);
            assert(e[j].0 != e[4].0);
        } else if j == 8 {
            reveal_strlit("open lunch menu");
            assert(e[8].0 == "open lunch menu"@ && "open lunch menu"@.len() == 15);
            assert(e[j].0 != e[4].0);
        } else if j == 9 {
            reveal_strlit("what should i eat");
            assert(e[9].0 == "what should i eat"@ && "what should i eat"@.len() == 17);
            assert(e[j].0 != e[4].0);
        } else if j == 10 {
            reveal_strlit("what should i have for lunch");
            assert(e[10].0 == "what should i have for lunch"@ && "what should i have for lunch"@.len() == 28);
            assert(e[j].0 != e[4].0);
        } else if j == 11 {
            reveal_strlit("when is train work");
            assert(e[11].0 == "when is train work"@ && "when is train work"@.len() == 18);
            assert(e[j].0 != e[4].0);
        } else if j == 12 {
            reveal_strlit("when is train to work");
            assert(e[12].0 == "when is train to work"@ && "when is train to work"@.len() == 21);
            assert(e[j].0 != e[4].0);
        } else if j == 13 {
            reveal_strlit("when is next train work");
            assert(e[13].0 == "when is next train work"@ && "when is next train work"@.len() == 23);
            assert(e[j].0 != e[4].0);
        } else if j == 14 {
            reveal_strlit("when is next train to work");
            assert(e[14].0 == "when is next train to work"@ && "when is next train to work"@.len() == 26);
            assert(e[j].0 != e[4].0);
        } else if j == 15 {
            reveal_strlit("when can i go to work");
            assert(e[15].0 == "when can i go to work"@ && "when can i go to work"@.len() == 21);
            assert(e[j].0 != e[4].0);
        } else if j == 16 {
            reveal_strlit("when does train to work departs");
            assert(e[16].0 == "when does train to work departs"@ && "when does train to work departs"@.len() == 31);
            assert(e[j].0 != e[4].0);
        } else if j == 17 {
            reveal_strlit("when is next train home");
            assert(e[17].0 == "when is next train home"@ && "when is next train home"@.len() == 23);
            assert(e[j].0 != e[4].0);
        } else if j == 18 {
            reveal_strlit("when is train home");
            assert(e[18].0 == "when is train home"@ && "when is train home"@.len() == 18);
            assert(e[j].0 != e[4].0);
        } else if j == 19 {
            reveal_strlit("when can i return home");
            assert(e[19].0 == "when can i return home"@ && "when can i return home"@.len() == 22);
            assert(e[j].0 != e[4].0);
        } else if j == 20 {
            reveal_strlit("when does train home departs");
            assert(e[20].0 == "when does train home departs"@ && "when does train home departs"@.len() == 28);
            assert(e[j].0 != e[4].0);
        } else if j == 21 {
            reveal_strlit("compose custom action");
            assert(e[21].0 == "compose custom action"@ && "compose custom action"@.len() == 21);
            assert(e[j].0 != e[4].0);
        } else if j == 22 {
            reveal_strlit("create my monthly status report");
            assert(e[22].0 == "create my monthly status report"@ && "create my monthly status report"@.len() == 31);
            assert(e[j].0 != e[4].0);
        } else if j == 23 {
            reveal_strlit("compose my monthly status report");
            assert(e[23].0 == "compose my monthly status report"@ && "compose my monthly status report"@.len() == 32);
            assert(e[j].0 != e[4].0);
        } else if j == 24 {
            reveal_strlit("compose monthly status report");
            assert(e[24].0 == "compose monthly status report"@ && "compose monthly status report"@.len() == 29);
            assert(e[j].0 != e[4].0);
        } else if j == 25 {
            reveal_strlit("create my weekly status report");
            assert(e[25].0 == "create my weekly status report"@ && "create my weekly status report"@.len() == 30);
            assert(e[j].0 != e[4].0);
        } else if j == 26 {
            reveal_strlit("compose my weekly status report");
            assert(e[26].0 == "compose my weekly status report"@ && "compose my weekly status report"@.len() == 31);
            assert(e[j].0 != e[4].0);
        } else if j == 27 {
            reveal_strlit("compose weekly status report");
            assert(e[27].0 == "compose weekly status report"@ && "compose weekly status report"@.len() == 28);
            assert(e[j].0 != e[4].0);
        } else if j == 28 {
            reveal_strlit("create an issue");
            assert(e[28].0 == "create an issue"@ && "create an issue"@.len() == 15);
            assert(e[j].0 != e[4].0);
        } else if j == 29 {
            reveal_strlit("submit an issue");
            assert(e[29].0 == "submit an issue"@ && "submit an issue"@.len() == 15);
            assert(e[j].0 != e[4].0);
        } else if j == 30 {
            reveal_strlit("add an issue");
            assert(e[30].0 == "add an issue"@ && "add an issue"@.len() == 12);
            assert(e[j].0 != e[4].0);
        }
    }
    lemma_map_at(e, 4);
}

proof fn lemma_normalized_book_holidays()
    ensures
        normalized("book holidays"@) == "give me holidays"@,
{
    lemma_stripped_book_holidays();
    lemma_map_book_holidays();
}

#[verifier::rlimit(40)]
proof fn lemma_no_filler_my_holidays()
    ensures
        !has_occurrence("my holidays"@, seq!['i', ' ', 'w', 'a', 'n', 't', ' ', 't', 'o', ' '], 0),
        !has_occurrence("my holidays"@, seq!['i', ' ', 'w', 'a', 'n', 't', ' '], 0),
        !has_occurrence("my holidays"@, seq!['t', 'h', 'e', ' '], 0),
{
    reveal_strlit("my holidays");
    reveal_with_fuel(has_occurrence, 14);
    reveal_with_fuel(prefix_eq, 11);
    assert(!has_occurrence("my holidays"@, seq!['i', ' ', 'w', 'a', 'n', 't', ' ', 't', 'o', ' '], 0));
    assert(!has_occurrence("my holidays"@, seq!['i', ' ', 'w', 'a', 'n', 't', ' '], 0));
    assert(!has_occurrence("my holidays"@, seq!['t', 'h', 'e', ' '], 0));
}

#[verifier::rlimit(40)]
proof fn lemma_drop_my_my_holidays()
    ensures
        rep_from("my holidays"@, seq!['m', 'y', ' '], Seq::empty(), 0) == "holidays"@,
{
    reveal_strlit("my holidays");
    reveal_strlit("holidays");
    reveal_with_fuel(rep_from, 14);
    reveal_with_fuel(prefix_eq, 4);
    assert(rep_from("my holidays"@, seq!['m', 'y', ' '], Seq::empty(), 0) =~= "holidays"@);
}

proof fn lemma_stripped_my_holidays()
    ensures
        stripped("my holidays"@) == "holidays"@,
{
    lemma_no_filler_my_holidays();
    lemma_drop_my_my_holidays();
    lemma_no_occurrence("my holidays"@, seq!['i', ' ', 'w', 'a', 'n', 't', ' ', 't', 'o', ' '], 0);
    lemma_no_occurrence("my holidays"@, seq!['i', ' ', 'w', 'a', 'n', 't', ' '], 0);
    lemma_no_occurrence("my holidays"@, seq!['t', 'h', 'e', ' '], 0);
    assert("my holidays"@.skip(0) =~= "my holidays"@);
    lemma_stripped_steps("my holidays"@, "my holidays"@, "my holidays"@, "my holidays"@, "holidays"@);
}

proof fn lemma_map_my_holidays()
    ensures
        phrase_mapping().contains_key("holidays"@),
        phrase_mapping()["holidays"@] == "give me holidays"@,
{
    lemma_entry_texts();
    let e = mapping_entries();
    reveal_strlit("holidays");
    assert("holidays"@.len() == 8);
    assert forall|j: int| 3 < j < e.len() implies (#[trigger] e[j]).0 != e[3].0 by {
        if j == 4 {
            reveal_strlit("book holidays");
            assert(e[4].0 == "book holidays"@ && "book holidays"@.len() == 13);
            assert(e[j].0 != e[3].0);
        } else if j == 5 {
            reveal_strlit("my holidays");
            assert(e[5].0 == "my holidays"@ && "my holidays"@.len() == 11);
            assert(e[j].0 != e[3].0);
        } else if j == 6 {
            reveal_strlit("request holidays");
            assert(e[6].0 == "request holidays"@ && "request holidays"@.len() == 16);
            assert(e[j].0 != e[3].0);
        } else if j == 7 {
            reveal_strlit("request vacations");
            assert(e[7].0 == "request vacations"@ && "request vacations"@.len() == 17);
            assert(e[j].0 != e[3].0);
        } else if j == 8 {
            reveal_strlit("open lunch menu");
            assert(e[8].0 == "open lunch menu"@ && "open lunch menu"@.len() == 15);
            assert(e[j].0 != e[3].0);
        } else if j == 9 {
            reveal_strlit("what should i eat");
            assert(e[9].0 == "what should i eat"@ && "what should i eat"@.len() == 17);
            assert(e[j].0 != e[3].0);
        } else if j == 10 {
            reveal_strlit("what should i have for lunch");
            assert(e[10].0 == "what should i have for lunch"@ && "what should i have for lunch"@.len() == 28);
            assert(e[j].0 != e[3].0);
        } else if j == 11 {
            reveal_strlit("when is train work");
            assert(e[11].0 == "when is train work"@ && "when is train work"@.len() == 18);
            assert(e[j].0 != e[3].0);
        } else if j == 12 {
            reveal_strlit("when is train to work");
            assert(e[12].0 == "when is train to work"@ && "when is train to work"@.len() == 21);
            assert(e[j].0 != e[3].0);
        } else if j == 13 {
            reveal_strlit("when is next train work");
            assert(e[13].0 == "when is next train work"@ && "when is next train work"@.len() == 23);
            assert(e[j].0 != e[3].0);
        } else if j == 14 {
            reveal_strlit("when is next train to work");
            assert(e[14].0 == "when is next train to work"@ && "when is next train to work"@.len() == 26);
            assert(e[j].0 != e[3].0);
        } else if j == 15 {
            reveal_strlit("when can i go to work");
            assert(e[15].0 == "when can i go to work"@ && "when can i go to work"@.len() == 21);
            assert(e[j].0 != e[3].0);
        } else if j == 16 {
            reveal_strlit("when does train to work departs");
            assert(e[16].0 == "when does train to work departs"@ && "when does train to work departs"@.len() == 31);
            assert(e[j].0 != e[3].0);
        } else if j == 17 {
            reveal_strlit("when is next train home");
            assert(e[17].0 == "when is next train home"@ && "when is next train home"@.len() == 23);
            assert(e[j].0 != e[3].0);
        } else if j == 18 {
            reveal_strlit("when is train home");
            assert(e[18].0 == "when is train home"@ && "when is train home"@.len() == 18);
            assert(e[j].0 != e[3].0);
        } else if j == 19 {
            reveal_strlit("when can i return home");
            assert(e[19].0 == "when can i return home"@ && "when can i return home"@.len() == 22);
            assert(e[j].0 != e[3].0);
        } else if j == 20 {
            reveal_strlit("when does train home departs");
            assert(e[20].0 == "when does train home departs"@ && "when does train home departs"@.len() == 28);
            assert(e[j].0 != e[3].0);
        } else if j == 21 {
            reveal_strlit("compose custom action");
            assert(e[21].0 == "compose custom action"@ && "compose custom action"@.len() == 21);
            assert(e[j].0 != e[3].0);
        } else if j == 22 {
            reveal_strlit("create my monthly status report");
            assert(e[22].0 == "create my monthly status report"@ && "create my monthly status report"@.len() == 31);
            assert(e[j].0 != e[3].0);
        } else if j == 23 {
            reveal_strlit("compose my monthly status report");
            assert(e[23].0 == "compose my monthly status report"@ && "compose my monthly status report"@.len() == 32);
            assert(e[j].0 != e[3].0);
        } else if j == 24 {
            reveal_strlit("compose monthly status report");
            assert(e[24].0 == "compose monthly status report"@ && "compose monthly status report"@.len() == 29);
            assert(e[j].0 != e[3].0);
        } else if j == 25 {
            reveal_strlit("create my weekly status report");
            assert(e[25].0 == "create my weekly status report"@ && "create my weekly status report"@.len() == 30);
            assert(e[j].0 != e[3].0);
        } else if j == 26 {
            reveal_strlit("compose my weekly status report");
            assert(e[26].0 == "compose my weekly status report"@ && "compose my weekly status report"@.len() == 31);
            assert(e[j].0 != e[3].0);
        } else if j == 27 {
            reveal_strlit("compose weekly status report");
            assert(e[27].0 == "compose weekly status report"@ && "compose weekly status report"@.len() == 28);
            assert(e[j].0 != e[3].0);
        } else if j == 28 {
            reveal_strlit("create an issue");
            assert(e[28].0 == "create an issue"@ && "create an issue"@.len() == 15);
            assert(e[j].0 != e[3].0);
        } else if j == 29 {
            reveal_strlit("submit an issue");
            assert(e[29].0 == "submit an issue"@ && "submit an issue"@.len() == 15);
            assert(e[j].0 != e[3].0);
        } else if j == 30 {
            reveal_strlit("add an issue");
            assert(e[30].0 == "add an issue"@ && "add an issue"@.len() == 12);
            assert(e[j].0 != e[3].0);
        }
    }
    lemma_map_at(e, 3);
}

proof fn lemma_normalized_my_holidays()
    ensures
        normalized("my holidays"@) == "give me holidays"@,
{
    lemma_stripped_my_holidays();
    lemma_map_my_holidays();
}

#[verifier::rlimit(40)]
proof fn lemma_stripped_request_holidays()
    ensures
        stripped("request holidays"@) == "request holidays"@,
{
    reveal_strlit("request holidays");
    reveal_with_fuel(has_occurrence, 19);
    reveal_with_fuel(prefix_eq, 11);
    assert(!has_occurrence("request holidays"@, seq!['i', ' ', 'w', 'a', 'n', 't', ' ', 't', 'o', ' '], 0));
    assert(!has_occurrence("request holidays"@, seq!['i', ' ', 'w', 'a', 'n', 't', ' '], 0));
    assert(!has_occurrence("request holidays"@, seq!['t', 'h', 'e', ' '], 0));
    assert(!has_occurrence("request holidays"@, seq!['m', 'y', ' '], 0));
    lemma_stripped_fixed("request holidays"@);
}

proof fn lemma_map_request_holidays()
    ensures
        phrase_mapping().contains_key("request holidays"@),
        phrase_mapping()["request holidays"@] == "give me holidays"@,
{
    lemma_entry_texts();
    let e = mapping_entries();
    reveal_strlit("request holidays");
    assert("request holidays"@.len() == 16);
    assert forall|j: int| 6 < j < e.len() implies (#[trigger] e[j]).0 != e[6].0 by {
        if j == 7 {
            reveal_strlit("request vacations");
            assert(e[7].0 == "request vacations"@ && "request vacations"@.len() == 17);
            assert(e[j].0 != e[6].0);
        } else if j == 8 {
            reveal_strlit("open lunch menu");
            assert(e[8].0 == "open lunch menu"@ && "open lunch menu"@.len() == 15);
            assert(e[j].0 != e[6].0);
        } else if j == 9 {
            reveal_strlit("what should i eat");
            assert(e[9].0 == "what should i eat"@ && "what should i eat"@.len() == 17);
            assert(e[j].0 != e[6].0);
        } else if j == 10 {
            reveal_strlit("what should i have for lunch");
            assert(e[10].0 == "what should i have for lunch"@ && "what should i have for lunch"@.len() == 28);
            assert(e[j].0 != e[6].0);
        } else if j == 11 {
            reveal_strlit("when is train work");
            assert(e[11].0 == "when is train work"@ && "when is train work"@.len() == 18);
            assert(e[j].0 != e[6].0);
        } else if j == 12 {
            reveal_strlit("when is train to work");
            assert(e[12].0 == "when is train to work"@ && "when is train to work"@.len() == 21);
            assert(e[j].0 != e[6].0);
        } else if j == 13 {
            reveal_strlit("when is next train work");
            assert(e[13].0 == "when is next train work"@ && "when is next train work"@.len() == 23);
            assert(e[j].0 != e[6].0);
        } else if j == 14 {
            reveal_strlit("when is next train to work");
            assert(e[14].0 == "when is next train to work"@ && "when is next train to work"@.len() == 26);
            assert(e[j].0 != e[6].0);
        } else if j == 15 {
            reveal_strlit("when can i go to work");
            assert(e[15].0 == "when can i go to work"@ && "when can i go to work"@.len() == 21);
            assert(e[j].0 != e[6].0);
        } else if j == 16 {
            reveal_strlit("when does train to work departs");
            assert(e[16].0 == "when does train to work departs"@ && "when does train to work departs"@.len() == 31);
            assert(e[j].0 != e[6].0);
        } else if j == 17 {
            reveal_strlit("when is next train home");
            assert(e[17].0 == "when is next train home"@ && "when is next train home"@.len() == 23);
            assert(e[j].0 != e[6].0);
        } else if j == 18 {
            reveal_strlit("when is train home");
            assert(e[18].0 == "when is train home"@ && "when is train home"@.len() == 18);
            assert(e[j].0 != e[6].0);
        } else if j == 19 {
            reveal_strlit("when can i return home");
            assert(e[19].0 == "when can i return home"@ && "when can i return home"@.len() == 22);
            assert(e[j].0 != e[6].0);
        } else if j == 20 {
            reveal_strlit("when does train home departs");
            assert(e[20].0 == "when does train home departs"@ && "when does train home departs"@.len() == 28);
            assert(e[j].0 != e[6].0);
        } else if j == 21 {
            reveal_strlit("compose custom action");
            assert(e[21].0 == "compose custom action"@ && "compose custom action"@.len() == 21);
            assert(e[j].0 != e[6].0);
        } else if j == 22 {
            reveal_strlit("create my monthly status report");
            assert(e[22].0 == "create my monthly status report"@ && "create my monthly status report"@.len() == 31);
            assert(e[j].0 != e[6].0);
        } else if j == 23 {
            reveal_strlit("compose my monthly status report");
            assert(e[23].0 == "compose my monthly status report"@ && "compose my monthly status report"@.len() == 32);
            assert(e[j].0 != e[6].0);
        } else if j == 24 {
            reveal_strlit("compose monthly status report");
            assert(e[24].0 == "compose monthly status report"@ && "compose monthly status report"@.len() == 29);
            assert(e[j].0 != e[6].0);
        } else if j == 25 {
            reveal_strlit("create my weekly status report");
            assert(e[25].0 == "create my weekly status report"@ && "create my weekly status report"@.len() == 30);
            assert(e[j].0 != e[6].0);
        } else if j == 26 {
            reveal_strlit("compose my weekly status report");
            assert(e[26].0 == "compose my weekly status report"@ && "compose my weekly status report"@.len() == 31);
            assert(e[j].0 != e[6].0);
        } else if j == 27 {
            reveal_strlit("compose weekly status report");
            assert(e[27].0 == "compose weekly status report"@ && "compose weekly status report"@.len() == 28);
            assert(e[j].0 != e[6].0);
        } else if j == 28 {
            reveal_strlit("create an issue");
            assert(e[28].0 == "create an issue"@ && "create an issue"@.len() == 15);
            assert(e[j].0 != e[6].0);
        } else if j == 29 {
            reveal_strlit("submit an issue");
            assert(e[29].0 == "submit an issue"@ && "submit an issue"@.len() == 15);
            assert(e[j].0 != e[6].0);
        } else if j == 30 {
            reveal_strlit("add an issue");
            assert(e[30].0 == "add an issue"@ && "add an issue"@.len() == 12);
            assert(e[j].0 != e[6].0);
        }
    }
    lemma_map_at(e, 6);
}

proof fn lemma_normalized_request_holidays()
    ensures
        normalized("request holidays"@) == "give me holidays"@,
{
    lemma_stripped_request_holidays();
    lemma_map_request_holidays();
}

#[verifier::rlimit(40)]
proof fn lemma_stripped_request_vacations()
    ensures
        stripped("request vacations"@) == "request vacations"@,
{
    reveal_strlit("request vacations");
    reveal_with_fuel(has_occurrence, 20);
    reveal_with_fuel(prefix_eq, 11);
    assert(!has_occurrence("request vacations"@, seq!['i', ' ', 'w', 'a', 'n', 't', ' ', 't', 'o', ' '], 0));
    assert(!has_occurrence("request vacations"@, seq!['i', ' ', 'w', 'a', 'n', 't', ' '], 0));
    assert(!has_occurrence("request vacations"@, seq!['t', 'h', 'e', ' '], 0));
    assert(!has_occurrence("request vacations"@, seq!['m', 'y', ' '], 0));
    lemma_stripped_fixed("request vacations"@);
}

proof fn lemma_map_request_vacations()
    ensures
        phrase_mapping().contains_key("request vacations"@),
        phrase_mapping()["request vacations"@] == "give me holidays"@,
{
    lemma_entry_texts();
    let e = mapping_entries();
    reveal_strlit("request vacations");
    assert("request vacations"@.len() == 17);
    assert forall|j: int| 7 < j < e.len() implies (#[trigger] e[j]).0 != e[7].0 by {
        if j == 8 {
            reveal_strlit("open lunch menu");
            assert(e[8].0 == "open lunch menu"@ && "open lunch menu"@.len() == 15);
            assert(e[j].0 != e[7].0);
        } else if j == 9 {
            reveal_strlit("what should i eat");
            assert(e[9].0 == "what should i eat"@ && "what should i eat"@.len() == 17);
            assert("what should i eat"@[0] != "request vacations"@[0]);
            assert(e[j].0 != e[7].0);
        } else if j == 10 {
            reveal_strlit("what should i have for lunch");
            assert(e[10].0 == "what should i have for lunch"@ && "what should i have for lunch"@.len() == 28);
            assert(e[j].0 != e[7].0);
        } else if j == 11 {
            reveal_strlit("when is train work");
            assert(e[11].0 == "when is train work"@ && "when is train work"@.len() == 18);
            assert(e[j].0 != e[7].0);
        } else if j == 12 {
            reveal_strlit("when is train to work");
            assert(e[12].0 == "when is train to work"@ && "when is train to work"@.len() == 21);
            assert(e[j].0 != e[7].0);
        } else if j == 13 {
            reveal_strlit("when is next train work");
            assert(e[13].0 == "when is next train work"@ && "when is next train work"@.len() == 23);
            assert(e[j].0 != e[7].0);
        } else if j == 14 {
            reveal_strlit("when is next train to work");
            assert(e[14].0 == "when is next train to work"@ && "when is next train to work"@.len() == 26);
            assert(e[j].0 != e[7].0);
        } else if j == 15 {
            reveal_strlit("when can i go to work");
            assert(e[15].0 == "when can i go to work"@ && "when can i go to work"@.len() == 21);
            assert(e[j].0 != e[7].0);
        } else if j == 16 {
            reveal_strlit("when does train to work departs");
            assert(e[16].0 == "when does train to work departs"@ && "when does train to work departs"@.len() == 31);
            assert(e[j].0 != e[7].0);
        } else if j == 17 {
            reveal_strlit("when is next train home");
            assert(e[17].0 == "when is next train home"@ && "when is next train home"@.len() == 23);
            assert(e[j].0 != e[7].0);
        } else if j == 18 {
            reveal_strlit("when is train home");
            assert(e[18].0 == "when is train home"@ && "when is train home"@.len() == 18);
            assert(e[j].0 != e[7].0);
        } else if j == 19 {
            reveal_strlit("when can i return home");
            assert(e[19].0 == "when can i return home"@ && "when can i return home"@.len() == 22);
            assert(e[j].0 != e[7].0);
        } else if j == 20 {
            reveal_strlit("when does train home departs");
            assert(e[20].0 == "when does train home departs"@ && "when does train home departs"@.len() == 28);
            assert(e[j].0 != e[7].0);
        } else if j == 21 {
            reveal_strlit("compose custom action");
            assert(e[21].0 == "compose custom action"@ && "compose custom action"@.len() == 21);
            assert(e[j].0 != e[7].0);
        } else if j == 22 {
            reveal_strlit("create my monthly status report");
            assert(e[22].0 == "create my monthly status report"@ && "create my monthly status report"@.len() == 31);
            assert(e[j].0 != e[7].0);
        } else if j == 23 {
            reveal_strlit("compose my monthly status report");
            assert(e[23].0 == "compose my monthly status report"@ && "compose my monthly status report"@.len() == 32);
            assert(e[j].0 != e[7].0);
        } else if j == 24 {
            reveal_strlit("compose monthly status report");
            assert(e[24].0 == "compose monthly status report"@ && "compose monthly status report"@.len() == 29);
            assert(e[j].0 != e[7].0);
        } else if j == 25 {
            reveal_strlit("create my weekly status report");
            assert(e[25].0 == "create my weekly status report"@ && "create my weekly status report"@.len() == 30);
            assert(e[j].0 != e[7].0);
        } else if j == 26 {
            reveal_strlit("compose my weekly status report");
            assert(e[26].0 == "compose my weekly status report"@ && "compose my weekly status report"@.len() == 31);
            assert(e[j].0 != e[7].0);
        } else if j == 27 {
            reveal_strlit("compose weekly status report");
            assert(e[27].0 == "compose weekly status report"@ && "compose weekly status report"@.len() == 28);
            assert(e[j].0 != e[7].0);
        } else if j == 28 {
            reveal_strlit("create an issue");
            assert(e[28].0 == "create an issue"@ && "create an issue"@.len() == 15);
            assert(e[j].0 != e[7].0);
        } else if j == 29 {
            reveal_strlit("submit an issue");
            assert(e[29].0 == "submit an issue"@ && "submit an issue"@.len() == 15);
            assert(e[j].0 != e[7].0);
        } else if j == 30 {
            reveal_strlit("add an issue");
            assert(e[30].0 == "add an issue"@ && "add an issue"@.len() == 12);
            assert(e[j].0 != e[7].0);
        }
    }
    lemma_map_at(e, 7);
}

proof fn lemma_normalized_request_vacations()
    ensures
        normalized("request vacations"@) == "give me holidays"@,
{
    lemma_stripped_request_vacations();
    lemma_map_request_vacations();
}

#[verifier::rlimit(40)]
proof fn lemma_stripped_open_lunch_menu()
    ensures
        stripped("open lunch menu"@) == "open lunch menu"@,
{
    reveal_strlit("open lunch menu");
    reveal_with_fuel(has_occurrence, 18);
    reveal_with_fuel(prefix_eq, 11);
    assert(!has_occurrence("open lunch menu"@, seq!['i', ' ', 'w', 'a', 'n', 't', ' ', 't', 'o', ' '], 0));
    assert(!has_occurrence("open lunch menu"@, seq!['i', ' ', 'w', 'a', 'n', 't', ' '], 0));
    assert(!has_occurrence("open lunch menu"@, seq!['t', 'h', 'e', ' '], 0));
    assert(!has_occurrence("open lunch menu"@, seq!['m', 'y', ' '], 0));
    lemma_stripped_fixed("open lunch menu"@);
}

proof fn lemma_map_open_lunch_menu()
    ensures
        phrase_mapping().contains_key("open lunch menu"@),
        phrase_mapping()["open lunch menu"@] == "open lunch menus"@,
{
    lemma_entry_texts();
    let e = mapping_entries();
    reveal_strlit("open lunch menu");
    assert("open lunch menu"@.len() == 15);
    assert forall|j: int| 8 < j < e.len() implies (#[trigger] e[j]).0 != e[8].0 by {
        if j == 9 {
            reveal_strlit("what should i eat");
            assert(e[9].0 == "what should i eat"@ && "what should i eat"@.len() == 17);
            assert(e[j].0 != e[8].0);
        } else if j == 10 {
            reveal_strlit("what should i have for lunch");
            assert(e[10].0 == "what should i have for lunch"@ && "what should i have for lunch"@.len() == 28);
            assert(e[j].0 != e[8].0);
        } else if j == 11 {
            reveal_strlit("when is train work");
            assert(e[11].0 == "when is train work"@ && "when is train work"@.len() == 18);
            assert(e[j].0 != e[8].0);
        } else if j == 12 {
            reveal_strlit("when is train to work");
            assert(e[12].0 == "when is train to work"@ && "when is train to work"@.len() == 21);
            assert(e[j].0 != e[8].0);
        } else if j == 13 {
            reveal_strlit("when is next train work");
            assert(e[13].0 == "when is next train work"@ && "when is next train work"@.len() == 23);
            assert(e[j].0 != e[8].0);
        } else if j == 14 {
            reveal_strlit("when is next train to work");
            assert(e[14].0 == "when is next train to work"@ && "when is next train to work"@.len() == 26);
            assert(e[j].0 != e[8].0);
        } else if j == 15 {
            reveal_strlit("when can i go to work");
            assert(e[15].0 == "when can i go to work"@ && "when can i go to work"@.len() == 21);
            assert(e[j].0 != e[8].0);
        } else if j == 16 {
            reveal_strlit("when does train to work departs");
            assert(e[16].0 == "when does train to work departs"@ && "when does train to work departs"@.len() == 31);
            assert(e[j].0 != e[8].0);
        } else if j == 17 {
            reveal_strlit("when is next train home");
            assert(e[17].0 == "when is next train home"@ && "when is next train home"@.len() == 23);
            assert(e[j].0 != e[8].0);
        } else if j == 18 {
            reveal_strlit("when is train home");
            assert(e[18].0 == "when is train home"@ && "when is train home"@.len() == 18);
            assert(e[j].0 != e[8].0);
        } else if j == 19 {
            reveal_strlit("when can i return home");
            assert(e[19].0 == "when can i return home"@ && "when can i return home"@.len() == 22);
            assert(e[j].0 != e[8].0);
        } else if j == 20 {
            reveal_strlit("when does train home departs");
            assert(e[20].0 == "when does train home departs"@ && "when does train home departs"@.len() == 28);
            assert(e[j].0 != e[8].0);
        } else if j == 21 {
            reveal_strlit("compose custom action");
            assert(e[21].0 == "compose custom action"@ && "compose custom action"@.len() == 21);
            assert(e[j].0 != e[8].0);
        } else if j == 22 {
            reveal_strlit("create my monthly status report");
            assert(e[22].0 == "create my monthly status report"@ && "create my monthly status report"@.len() == 31);
            assert(e[j].0 != e[8].0);
        } else if j == 23 {
            reveal_strlit("compose my monthly status report");
            assert(e[23].0 == "compose my monthly status report"@ && "compose my monthly status report"@.len() == 32);
            assert(e[j].0 != e[8].0);
        } else if j == 24 {
            reveal_strlit("compose monthly status report");
            assert(e[24].0 == "compose monthly status report"@ && "compose monthly status report"@.len() == 29);
            assert(e[j].0 != e[8].0);
        } else if j == 25 {
            reveal_strlit("create my weekly status report");
            assert(e[25].0 == "create my weekly status report"@ && "create my weekly status report"@.len() == 30);
            assert(e[j].0 != e[8].0);
        } else if j == 26 {
            reveal_strlit("compose my weekly status report");
            assert(e[26].0 == "compose my weekly status report"@ && "compose my weekly status report"@.len() == 31);
            assert(e[j].0 != e[8].0);
        } else if j == 27 {
            reveal_strlit("compose weekly status report");
            assert(e[27].0 == "compose weekly status report"@ && "compose weekly status report"@.len() == 28);
            assert(e[j].0 != e[8].0);
        } else if j == 28 {
            reveal_strlit("create an issue");
            assert(e[28].0 == "create an issue"@ && "create an issue"@.len() == 15);
            assert("create an issue"@[0] != "open lunch menu"@[0]);
            assert(e[j].0 != e[8].0);
        } else if j == 29 {
            reveal_strlit("submit an issue");
            assert(e[29].0 == "submit an issue"@ && "submit an issue"@.len() == 15);
            assert("submit an issue"@[0] != "open lunch menu"@[0]);
            assert(e[j].0 != e[8].0);
        } else if j == 30 {
            reveal_strlit("add an issue");
            assert(e[30].0 == "add an issue"@ && "add an issue"@.len() == 12);
            assert(e[j].0 != e[8].0);
        }
    }
    lemma_map_at(e, 8);
}

proof fn lemma_normalized_open_lunch_menu()
    ensures
        normalized("open lunch menu"@) == "open lunch menus"@,
{
    lemma_stripped_open_lunch_menu();
    lemma_map_open_lunch_menu();
}

#[verifier::rlimit(40)]
proof fn lemma_stripped_what_should_i_eat()
    ensures
        stripped("what should i eat"@) == "what should i eat"@,
{
    reveal_strlit("what should i eat");
    reveal_with_fuel(has_occurrence, 20);
    reveal_with_fuel(prefix_eq, 11);
    assert(!has_occurrence("what should i eat"@, seq!['i', ' ', 'w', 'a', 'n', 't', ' ', 't', 'o', ' '], 0));
    assert(!has_occurrence("what should i eat"@, seq!['i', ' ', 'w', 'a', 'n', 't', ' '], 0));
    assert(!has_occurrence("what should i eat"@, seq!['t', 'h', 'e', ' '], 0));
    assert(!has_occurrence("what should i eat"@, seq!['m', 'y', ' '], 0));
    lemma_stripped_fixed("what should i eat"@);
}

proof fn lemma_map_what_should_i_eat()
    ensures
        phrase_mapping().contains_key("what should i eat"@),
        phrase_mapping()["what should i eat"@] == "open lunch menus"@,
{
    lemma_entry_texts();
    let e = mapping_entries();
    reveal_strlit("what should i eat");
    assert("what should i eat"@.len() == 17);
    assert forall|j: int| 9 < j < e.len() implies (#[trigger] e[j]).0 != e[9].0 by {
        if j == 10 {
            reveal_strlit("what should i have for lunch");
            assert(e[10].0 == "what should i have for lunch"@ && "what should i have for lunch"@.len() == 28);
            assert(e[j].0 != e[9].0);
        } else if j == 11 {
            reveal_strlit("when is train work");
            assert(e[11].0 == "when is train work"@ && "when is train work"@.len() == 18);
            assert(e[j].0 != e[9].0);
        } else if j == 12 {
            reveal_strlit("when is train to work");
            assert(e[12].0 == "when is train to work"@ && "when is train to work"@.len() == 21);
            assert(e[j].0 != e[9].0);
        } else if j == 13 {
            reveal_strlit("when is next train work");
            assert(e[13].0 == "when is next train work"@ && "when is next train work"@.len() == 23);
            assert(e[j].0 != e[9].0);
        } else if j == 14 {
            reveal_strlit("when is next train to work");
            assert(e[14].0 == "when is next train to work"@ && "when is next train to work"@.len() == 26);
            assert(e[j].0 != e[9].0);
        } else if j == 15 {
            reveal_strlit("when can i go to work");
            assert(e[15].0 == "when can i go to work"@ && "when can i go to work"@.len() == 21);
            assert(e[j].0 != e[9].0);
        } else if j == 16 {
            reveal_strlit("when does train to work departs");
            assert(e[16].0 == "when does train to work departs"@ && "when does train to work departs"@.len() == 31);
            assert(e[j].0 != e[9].0);
        } else if j == 17 {
            reveal_strlit("when is next train home");
            assert(e[17].0 == "when is next train home"@ && "when is next train home"@.len() == 23);
            assert(e[j].0 != e[9].0);
        } else if j == 18 {
            reveal_strlit("when is train home");
            assert(e[18].0 == "when is train home"@ && "when is train home"@.len() == 18);
            assert(e[j].0 != e[9].0);
        } else if j == 19 {
            reveal_strlit("when can i return home");
            assert(e[19].0 == "when can i return home"@ && "when can i return home"@.len() == 22);
            assert(e[j].0 != e[9].0);
        } else if j == 20 {
            reveal_strlit("when does train home departs");
            assert(e[20].0 == "when does train home departs"@ && "when does train home departs"@.len() == 28);
            assert(e[j].0 != e[9].0);
        } else if j == 21 {
            reveal_strlit("compose custom action");
            assert(e[21].0 == "compose custom action"@ && "compose custom action"@.len() == 21);
            assert(e[j].0 != e[9].0);
        } else if j == 22 {
            reveal_strlit("create my monthly status report");
            assert(e[22].0 == "create my monthly status report"@ && "create my monthly status report"@.len() == 31);
            assert(e[j].0 != e[9].0);
        } else if j == 23 {
            reveal_strlit("compose my monthly status report");
            assert(e[23].0 == "compose my monthly status report"@ && "compose my monthly status report"@.len() == 32);
            assert(e[j].0 != e[9].0);
        } else if j == 24 {
            reveal_strlit("compose monthly status report");
            assert(e[24].0 == "compose monthly status report"@ && "compose monthly status report"@.len() == 29);
            assert(e[j].0 != e[9].0);
        } else if j == 25 {
            reveal_strlit("create my weekly status report");
            assert(e[25].0 == "create my weekly status report"@ && "create my weekly status report"@.len() == 30);
            assert(e[j].0 != e[9].0);
        } else if j == 26 {
            reveal_strlit("compose my weekly status report");
            assert(e[26].0 == "compose my weekly status report"@ && "compose my weekly status report"@.len() == 31);
            assert(e[j].0 != e[9].0);
        } else if j == 27 {
            reveal_strlit("compose weekly status report");
            assert(e[27].0 == "compose weekly status report"@ && "compose weekly status report"@.len() == 28);
            assert(e[j].0 != e[9].0);
        } else if j == 28 {
            reveal_strlit("create an issue");
            assert(e[28].0 == "create an issue"@ && "create an issue"@.len() == 15);
            assert(e[j].0 != e[9].0);
        } else if j == 29 {
            reveal_strlit("submit an issue");
            assert(e[29].0 == "submit an issue"@ && "submit an issue"@.len() == 15);
            assert(e[j].0 != e[9].0);
        } else if j == 30 {
            reveal_strlit("add an issue");
            assert(e[30].0 == "add an issue"@ && "add an issue"@.len() == 12);
            assert(e[j].0 != e[9].0);
        }
    }
    lemma_map_at(e, 9);
}

proof fn lemma_normalized_what_should_i_eat()
    ensures
        normalized("what should i eat"@) == "open lunch menus"@,
{
    lemma_stripped_what_should_i_eat();
    lemma_map_what_should_i_eat();
}

#[verifier::rlimit(40)]
proof fn lemma_stripped_what_should_i_have_for_lunch()
    ensures
        stripped("what should i have for lunch"@) == "what should i have for lunch"@,
{
    reveal_strlit("what should i have for lunch");
    reveal_with_fuel(has_occurrence, 31);
    reveal_with_fuel(prefix_eq, 11);
    assert(!has_occurrence("what should i have for lunch"@, seq!['i', ' ', 'w', 'a', 'n', 't', ' ', 't', 'o', ' '], 0));
    assert(!has_occurrence("what should i have for lunch"@, seq!['i', ' ', 'w', 'a', 'n', 't', ' '], 0));
    assert(!has_occurrence("what should i have for lunch"@, seq!['t', 'h', 'e', ' '], 0));
    assert(!has_occurrence("what should i have for lunch"@, seq!['m', 'y', ' '], 0));
    lemma_stripped_fixed("what should i have for lunch"@);
}

proof fn lemma_map_what_should_i_have_for_lunch()
    ensures
        phrase_mapping().contains_key("what should i have for lunch"@),
        phrase_mapping()["what should i have for lunch"@] == "open lunch menus"@,
{
    lemma_entry_texts();
    let e = mapping_entries();
    reveal_strlit("what should i have for lunch");
    assert("what should i have for lunch"@.len() == 28);
    assert forall|j: int| 10 < j < e.len() implies (#[trigger] e[j]).0 != e[10].0 by {
        if j == 11 {
            reveal_strlit("when is train work");
            assert(e[11].0 == "when is train work"@ && "when is train work"@.len() == 18);
            assert(e[j].0 != e[10].0);
        } else if j == 12 {
            reveal_strlit("when is train to work");
            assert(e[12].0 == "when is train to work"@ && "when is train to work"@.len() == 21);
            assert(e[j].0 != e[10].0);
        } else if j == 13 {
            reveal_strlit("when is next train work");
            assert(e[13].0 == "when is next train work"@ && "when is next train work"@.len() == 23);
            assert(e[j].0 != e[10].0);
        } else if j == 14 {
            reveal_strlit("when is next train to work");
            assert(e[14].0 == "when is next train to work"@ && "when is next train to work"@.len() == 26);
            assert(e[j].0 != e[10].0);
        } else if j == 15 {
            reveal_strlit("when can i go to work");
            assert(e[15].0 == "when can i go to work"@ && "when can i go to work"@.len() == 21);
            assert(e[j].0 != e[10].0);
        } else if j == 16 {
            reveal_strlit("when does train to work departs");
            assert(e[16].0 == "when does train to work departs"@ && "when does train to work departs"@.len() == 31);
            assert(e[j].0 != e[10].0);
        } else if j == 17 {
            reveal_strlit("when is next train home");
            assert(e[17].0 == "when is next train home"@ && "when is next train home"@.len() == 23);
            assert(e[j].0 != e[10].0);
        } else if j == 18 {
            reveal_strlit("when is train home");
            assert(e[18].0 == "when is train home"@ && "when is train home"@.len() == 18);
            assert(e[j].0 != e[10].0);
        } else if j == 19 {
            reveal_strlit("when can i return home");
            assert(e[19].0 == "when can i return home"@ && "when can i return home"@.len() == 22);
            assert(e[j].0 != e[10].0);
        } else if j == 20 {
            reveal_strlit("when does train home departs");
            assert(e[20].0 == "when does train home departs"@ && "when does train home departs"@.len() == 28);
            assert("when does train home departs"@[2] != "what should i have for lunch"@[2]);
            assert(e[j].0 != e[10].0);
        } else if j == 21 {
            reveal_strlit("compose custom action");
            assert(e[21].0 == "compose custom action"@ && "compose custom action"@.len() == 21);
            assert(e[j].0 != e[10].0);
        } else if j == 22 {
            reveal_strlit("create my monthly status report");
            assert(e[22].0 == "create my monthly status report"@ && "create my monthly status report"@.len() == 31);
            assert(e[j].0 != e[10].0);
        } else if j == 23 {
            reveal_strlit("compose my monthly status report");
            assert(e[23].0 == "compose my monthly status report"@ && "compose my monthly status report"@.len() == 32);
            assert(e[j].0 != e[10].0);
        } else if j == 24 {
            reveal_strlit("compose monthly status report");
            assert(e[24].0 == "compose monthly status report"@ && "compose monthly status report"@.len() == 29);
            assert(e[j].0 != e[10].0);
        } else if j == 25 {
            reveal_strlit("create my weekly status report");
            assert(e[25].0 == "create my weekly status report"@ && "create my weekly status report"@.len() == 30);
            assert(e[j].0 != e[10].0);
        } else if j == 26 {
            reveal_strlit("compose my weekly status report");
            assert(e[26].0 == "compose my weekly status report"@ && "compose my weekly status report"@.len() == 31);
            assert(e[j].0 != e[10].0);
        } else if j == 27 {
            reveal_strlit("compose weekly status report");
            assert(e[27].0 == "compose weekly status report"@ && "compose weekly status report"@.len() == 28);
            assert("compose weekly status report"@[0] != "what should i have for lunch"@[0]);
            assert(e[j].0 != e[10].0);
        } else if j == 28 {
            reveal_strlit("create an issue");
            assert(e[28].0 == "create an issue"@ && "create an issue"@.len() == 15);
            assert(e[j].0 != e[10].0);
        } else if j == 29 {
            reveal_strlit("submit an issue");
            assert(e[29].0 == "submit an issue"@ && "submit an issue"@.len() == 15);
            assert(e[j].0 != e[10].0);
        } else if j == 30 {
            reveal_strlit("add an issue");
            assert(e[30].0 == "add an issue"@ && "add an issue"@.len() == 12);
            assert(e[j].0 != e[10].0);
        }
    }
    lemma_map_at(e, 10);
}

proof fn lemma_normalized_what_should_i_have_for_lunch()
    ensures
        normalized("what should i have for lunch"@) == "open lunch menus"@,
{
    lemma_stripped_what_should_i_have_for_lunch();
    lemma_map_what_should_i_have_for_lunch();
}

#[verifier::rlimit(40)]
proof fn lemma_stripped_when_is_train_work()
    ensures
        stripped("when is train work"@) == "when is train work"@,
{
    reveal_strlit("when is train work");
    reveal_with_fuel(has_occurrence, 21);
    reveal_with_fuel(prefix_eq, 11);
    assert(!has_occurrence("when is train work"@, seq!['i', ' ', 'w', 'a', 'n', 't', ' ', 't', 'o', ' '], 0));
    assert(!has_occurrence("when is train work"@, seq!['i', ' ', 'w', 'a', 'n', 't', ' '], 0));
    assert(!has_occurrence("when is train work"@, seq!['t', 'h', 'e', ' '], 0));
    assert(!has_occurrence("when is train work"@, seq!['m', 'y', ' '], 0));
    lemma_stripped_fixed("when is train work"@);
}

proof fn lemma_map_when_is_train_work()
    ensures
        phrase_mapping().contains_key("when is train work"@),
        phrase_mapping()["when is train work"@] == "when is the next train to work"@,
{
    lemma_entry_texts();
    let e = mapping_entries();
    reveal_strlit("when is train work");
    assert("when is train work"@.len() == 18);
    assert forall|j: int| 11 < j < e.len() implies (#[trigger] e[j]).0 != e[11].0 by {
        if j == 12 {
            reveal_strlit("when is train to work");
            assert(e[12].0 == "when is train to work"@ && "when is train to work"@.len() == 21);
            assert(e[j].0 != e[11].0);
        } else if j == 13 {
            reveal_strlit("when is next train work");
            assert(e[13].0 == "when is next train work"@ && "when is next train work"@.len() == 23);
            assert(e[j].0 != e[11].0);
        } else if j == 14 {
            reveal_strlit("when is next train to work");
            assert(e[14].0 == "when is next train to work"@ && "when is next train to work"@.len() == 26);
            assert(e[j].0 != e[11].0);
        } else if j == 15 {
            reveal_strlit("when can i go to work");
            assert(e[15].0 == "when can i go to work"@ && "when can i go to work"@.len() == 21);
            assert(e[j].0 != e[11].0);
        } else if j == 16 {
            reveal_strlit("when does train to work departs");
            assert(e[16].0 == "when does train to work departs"@ && "when does train to work departs"@.len() == 31);
            assert(e[j].0 != e[11].0);
        } else if j == 17 {
            reveal_strlit("when is next train home");
            assert(e[17].0 == "when is next train home"@ && "when is next train home"@.len() == 23);
            assert(e[j].0 != e[11].0);
        } else if j == 18 {
            reveal_strlit("when is train home");
            assert(e[18].0 == "when is train home"@ && "when is train home"@.len() == 18);
            assert("when is train home"@[14] != "when is train work"@[14]);
            assert(e[j].0 != e[11].0);
        } else if j == 19 {
            reveal_strlit("when can i return home");
            assert(e[19].0 == "when can i return home"@ && "when can i return home"@.len() == 22);
            assert(e[j].0 != e[11].0);
        } else if j == 20 {
            reveal_strlit("when does train home departs");
            assert(e[20].0 == "when does train home departs"@ && "when does train home departs"@.len() == 28);
            assert(e[j].0 != e[11].0);
        } else if j == 21 {
            reveal_strlit("compose custom action");
            assert(e[21].0 == "compose custom action"@ && "compose custom action"@.len() == 21);
            assert(e[j].0 != e[11].0);
        } else if j == 22 {
            reveal_strlit("create my monthly status report");
            assert(e[22].0 == "create my monthly status report"@ && "create my monthly status report"@.len() == 31);
            assert(e[j].0 != e[11].0);
        } else if j == 23 {
            reveal_strlit("compose my monthly status report");
            assert(e[23].0 == "compose my monthly status report"@ && "compose my monthly status report"@.len() == 32);
            assert(e[j].0 != e[11].0);
        } else if j == 24 {
            reveal_strlit("compose monthly status report");
            assert(e[24].0 == "compose monthly status report"@ && "compose monthly status report"@.len() == 29);
            assert(e[j].0 != e[11].0);
        } else if j == 25 {
            reveal_strlit("create my weekly status report");
            assert(e[25].0 == "create my weekly status report"@ && "create my weekly status report"@.len() == 30);
            assert(e[j].0 != e[11].0);
        } else if j == 26 {
            reveal_strlit("compose my weekly status report");
            assert(e[26].0 == "compose my weekly status report"@ && "compose my weekly status report"@.len() == 31);
            assert(e[j].0 != e[11].0);
        } else if j == 27 {
            reveal_strlit("compose weekly status report");
            assert(e[27].0 == "compose weekly status report"@ && "compose weekly status report"@.len() == 28);
            assert(e[j].0 != e[11].0);
        } else if j == 28 {
            reveal_strlit("create an issue");
            assert(e[28].0 == "create an issue"@ && "create an issue"@.len() == 15);
            assert(e[j].0 != e[11].0);
        } else if j == 29 {
            reveal_strlit("submit an issue");
            assert(e[29].0 == "submit an issue"@ && "submit an issue"@.len() == 15);
            assert(e[j].0 != e[11].0);
        } else if j == 30 {
            reveal_strlit("add an issue");
            assert(e[30].0 == "add an issue"@ && "add an issue"@.len() == 12);
            assert(e[j].0 != e[11].0);
        }
    }
    lemma_map_at(e, 11);
}

proof fn lemma_normalized_when_is_train_work()
    ensures
        normalized("when is train work"@) == "when is the next train to work"@,
{
    lemma_stripped_when_is_train_work();
    lemma_map_when_is_train_work();
}

#[verifier::rlimit(40)]
proof fn lemma_stripped_when_is_train_to_work()
    ensures
        stripped("when is train to work"@) == "when is train to work"@,
{
    reveal_strlit("when is train to work");
    reveal_with_fuel(has_occurrence, 24);
    reveal_with_fuel(prefix_eq, 11);
    assert(!has_occurrence("when is train to work"@, seq!['i', ' ', 'w', 'a', 'n', 't', ' ', 't', 'o', ' '], 0));
    assert(!has_occurrence("when is train to work"@, seq!['i', ' ', 'w', 'a', 'n', 't', ' '], 0));
    assert(!has_occurrence("when is train to work"@, seq!['t', 'h', 'e', ' '], 0));
    assert(!has_occurrence("when is train to work"@, seq!['m', 'y', ' '], 0));
    lemma_stripped_fixed("when is train to work"@);
}

proof fn lemma_map_when_is_train_to_work()
    ensures
        phrase_mapping().contains_key("when is train to work"@),
        phrase_mapping()["when is train to work"@] == "when is the next train to work"@,
{
    lemma_entry_texts();
    let e = mapping_entries();
    reveal_strlit("when is train to work");
    assert("when is train to work"@.len() == 21);
    assert forall|j: int| 12 < j < e.len() implies (#[trigger] e[j]).0 != e[12].0 by {
        if j == 13 {
            reveal_strlit("when is next train work");
            assert(e[13].0 == "when is next train work"@ && "when is next train work"@.len() == 23);
            assert(e[j].0 != e[12].0);
        } else if j == 14 {
            reveal_strlit("when is next train to work");
            assert(e[14].0 == "when is next train to work"@ && "when is next train to work"@.len() == 26);
            assert(e[j].0 != e[12].0);
        } else if j == 15 {
            reveal_strlit("when can i go to work");
            assert(e[15].0 == "when can i go to work"@ && "when can i go to work"@.len() == 21);
            assert("when can i go to work"@[5] != "when is train to work"@[5]);
            assert(e[j].0 != e[12].0);
        } else if j == 16 {
            reveal_strlit("when does train to work departs");
            assert(e[16].0 == "when does train to work departs"@ && "when does train to work departs"@.len() == 31);
            assert(e[j].0 != e[12].0);
        } else if j == 17 {
            reveal_strlit("when is next train home");
            assert(e[17].0 == "when is next train home"@ && "when is next train home"@.len() == 23);
            assert(e[j].0 != e[12].0);
        } else if j == 18 {
            reveal_strlit("when is train home");
            assert(e[18].0 == "when is train home"@ && "when is train home"@.len() == 18);
            assert(e[j].0 != e[12].0);
        } else if j == 19 {
            reveal_strlit("when can i return home");
            assert(e[19].0 == "when can i return home"@ && "when can i return home"@.len() == 22);
            assert(e[j].0 != e[12].0);
        } else if j == 20 {
            reveal_strlit("when does train home departs");
            assert(e[20].0 == "when does train home departs"@ && "when does train home departs"@.len() == 28);
            assert(e[j].0 != e[12].0);
        } else if j == 21 {
            reveal_strlit("compose custom action");
            assert(e[21].0 == "compose custom action"@ && "compose custom action"@.len() == 21);
            assert("compose custom action"@[0] != "when is train to work"@[0]);
            assert(e[j].0 != e[12].0);
        } else if j == 22 {
            reveal_strlit("create my monthly status report");
            assert(e[22].0 == "create my monthly status report"@ && "create my monthly status report"@.len() == 31);
            assert(e[j].0 != e[12].0);
        } else if j == 23 {
            reveal_strlit("compose my monthly status report");
            assert(e[23].0 == "compose my monthly status report"@ && "compose my monthly status report"@.len() == 32);
            assert(e[j].0 != e[12].0);
        } else if j == 24 {
            reveal_strlit("compose monthly status report");
            assert(e[24].0 == "compose monthly status report"@ && "compose monthly status report"@.len() == 29);
            assert(e[j].0 != e[12].0);
        } else if j == 25 {
            reveal_strlit("create my weekly status report");
            assert(e[25].0 == "create my weekly status report"@ && "create my weekly status report"@.len() == 30);
            assert(e[j].0 != e[12].0);
        } else if j == 26 {
            reveal_strlit("compose my weekly status report");
            assert(e[26].0 == "compose my weekly status report"@ && "compose my weekly status report"@.len() == 31);
            assert(e[j].0 != e[12].0);
        } else if j == 27 {
            reveal_strlit("compose weekly status report");
            assert(e[27].0 == "compose weekly status report"@ && "compose weekly status report"@.len() == 28);
            assert(e[j].0 != e[12].0);
        } else if j == 28 {
            reveal_strlit("create an issue");
            assert(e[28].0 == "create an issue"@ && "create an issue"@.len() == 15);
            assert(e[j].0 != e[12].0);
        } else if j == 29 {
            reveal_strlit("submit an issue");
            assert(e[29].0 == "submit an issue"@ && "submit an issue"@.len() == 15);
            assert(e[j].0 != e[12].0);
        } else if j == 30 {
            reveal_strlit("add an issue");
            assert(e[30].0 == "add an issue"@ && "add an issue"@.len() == 12);
            assert(e[j].0 != e[12].0);
        }
    }
    lemma_map_at(e, 12);
}

proof fn lemma_normalized_when_is_train_to_work()
    ensures
        normalized("when is train to work"@) == "when is the next train to work"@,
{
    lemma_stripped_when_is_train_to_work();
    lemma_map_when_is_train_to_work();
}

#[verifier::rlimit(40)]
proof fn lemma_stripped_when_is_next_train_work()
    ensures
        stripped("when is next train work"@) == "when is next train work"@,
{
    reveal_strlit("when is next train work");
    reveal_with_fuel(has_occurrence, 26);
    reveal_with_fuel(prefix_eq, 11);
    assert(!has_occurrence("when is next train work"@, seq!['i', ' ', 'w', 'a', 'n', 't', ' ', 't', 'o', ' '], 0));
    assert(!has_occurrence("when is next train work"@, seq!['i', ' ', 'w', 'a', 'n', 't', ' '], 0));
    assert(!has_occurrence("when is next train work"@, seq!['t', 'h', 'e', ' '], 0));
    assert(!has_occurrence("when is next train work"@, seq!['m', 'y', ' '], 0));
    lemma_stripped_fixed("when is next train work"@);
}

proof fn lemma_map_when_is_next_train_work()
    ensures
        phrase_mapping().contains_key("when is next train work"@),
        phrase_mapping()["when is next train work"@] == "when is the next train to work"@,
{
    lemma_entry_texts();
    let e = mapping_entries();
    reveal_strlit("when is next train work");
    assert("when is next train work"@.len() == 23);
    assert forall|j: int| 13 < j < e.len() implies (#[trigger] e[j]).0 != e[13].0 by {
        if j == 14 {
            reveal_strlit("when is next train to work");
            assert(e[14].0 == "when is next train to work"@ && "when is next train to work"@.len() == 26);
            assert(e[j].0 != e[13].0);
        } else if j == 15 {
            reveal_strlit("when can i go to work");
            assert(e[15].0 == "when can i go to work"@ && "when can i go to work"@.len() == 21);
            assert(e[j].0 != e[13].0);
        } else if j == 16 {
            reveal_strlit("when does train to work departs");
            assert(e[16].0 == "when does train to work departs"@ && "when does train to work departs"@.len() == 31);
            assert(e[j].0 != e[13].0);
        } else if j == 17 {
            reveal_strlit("when is next train home");
            assert(e[17].0 == "when is next train home"@ && "when is next train home"@.len() == 23);
            assert("when is next train home"@[19] != "when is next train work"@[19]);
            assert(e[j].0 != e[13].0);
        } else if j == 18 {
            reveal_strlit("when is train home");
            assert(e[18].0 == "when is train home"@ && "when is train home"@.len() == 18);
            assert(e[j].0 != e[13].0);
        } else if j == 19 {
            reveal_strlit("when can i return home");
            assert(e[19].0 == "when can i return home"@ && "when can i return home"@.len() == 22);
            assert(e[j].0 != e[13].0);
        } else if j == 20 {
            reveal_strlit("when does train home departs");
            assert(e[20].0 == "when does train home departs"@ && "when does train home departs"@.len() == 28);
            assert(e[j].0 != e[13].0);
        } else if j == 21 {
            reveal_strlit("compose custom action");
            assert(e[21].0 == "compose custom action"@ && "compose custom action"@.len() == 21);
            assert(e[j].0 != e[13].0);
        } else if j == 22 {
            reveal_strlit("create my monthly status report");
            assert(e[22].0 == "create my monthly status report"@ && "create my monthly status report"@.len() == 31);
            assert(e[j].0 != e[13].0);
        } else if j == 23 {
            reveal_strlit("compose my monthly status report");
            assert(e[23].0 == "compose my monthly status report"@ && "compose my monthly status report"@.len() == 32);
            assert(e[j].0 != e[13].0);
        } else if j == 24 {
            reveal_strlit("compose monthly status report");
            assert(e[24].0 == "compose monthly status report"@ && "compose monthly status report"@.len() == 29);
            assert(e[j].0 != e[13].0);
        } else if j == 25 {
            reveal_strlit("create my weekly status report");
            assert(e[25].0 == "create my weekly status report"@ && "create my weekly status report"@.len() == 30);
            assert(e[j].0 != e[13].0);
        } else if j == 26 {
            reveal_strlit("compose my weekly status report");
            assert(e[26].0 == "compose my weekly status report"@ && "compose my weekly status report"@.len() == 31);
            assert(e[j].0 != e[13].0);
        } else if j == 27 {
            reveal_strlit("compose weekly status report");
            assert(e[27].0 == "compose weekly status report"@ && "compose weekly status report"@.len() == 28);
            assert(e[j].0 != e[13].0);
        } else if j == 28 {
            reveal_strlit("create an issue");
            assert(e[28].0 == "create an issue"@ && "create an issue"@.len() == 15);
            assert(e[j].0 != e[13].0);
        } else if j == 29 {
            reveal_strlit("submit an issue");
            assert(e[29].0 == "submit an issue"@ && "submit an issue"@.len() == 15);
            assert(e[j].0 != e[13].0);
        } else if j == 30 {
            reveal_strlit("add an issue");
            assert(e[30].0 == "add an issue"@ && "add an issue"@.len() == 12);
            assert(e[j].0 != e[13].0);
        }
    }
    lemma_map_at(e, 13);
}

proof fn lemma_normalized_when_is_next_train_work()
    ensures
        normalized("when is next train work"@) == "when is the next train to work"@,
{
    lemma_stripped_when_is_next_train_work();
    lemma_map_when_is_next_train_work();
}

#[verifier::rlimit(40)]
proof fn lemma_stripped_when_is_next_train_to_work()
    ensures
        stripped("when is next train to work"@) == "when is next train to work"@,
{
    reveal_strlit("when is next train to work");
    reveal_with_fuel(has_occurrence, 29);
    reveal_with_fuel(prefix_eq, 11);
    assert(!has_occurrence("when is next train to work"@, seq!['i', ' ', 'w', 'a', 'n', 't', ' ', 't', 'o', ' '], 0));
    assert(!has_occurrence("when is next train to work"@, seq!['i', ' ', 'w', 'a', 'n', 't', ' '], 0));
    assert(!has_occurrence("when is next train to work"@, seq!['t', 'h', 'e', ' '], 0));
    assert(!has_occurrence("when is next train to work"@, seq!['m', 'y', ' '], 0));
    lemma_stripped_fixed("when is next train to work"@);
}

proof fn lemma_map_when_is_next_train_to_work()
    ensures
        phrase_mapping().contains_key("when is next train to work"@),
        phrase_mapping()["when is next train to work"@] == "when is the next train to work"@,
{
    lemma_entry_texts();
    let e = mapping_entries();
    reveal_strlit("when is next train to work");
    assert("when is next train to work"@.len() == 26);
    assert forall|j: int| 14 < j < e.len() implies (#[trigger] e[j]).0 != e[14].0 by {
        if j == 15 {
            reveal_strlit("when can i go to work");
            assert(e[15].0 == "when can i go to work"@ && "when can i go to work"@.len() == 21);
            assert(e[j].0 != e[14].0);
        } else if j == 16 {
            reveal_strlit("when does train to work departs");
            assert(e[16].0 == "when does train to work departs"@ && "when does train to work departs"@.len() == 31);
            assert(e[j].0 != e[14].0);
        } else if j == 17 {
            reveal_strlit("when is next train home");
            assert(e[17].0 == "when is next train home"@ && "when is next train home"@.len() == 23);
            assert(e[j].0 != e[14].0);
        } else if j == 18 {
            reveal_strlit("when is train home");
            assert(e[18].0 == "when is train home"@ && "when is train home"@.len() == 18);
            assert(e[j].0 != e[14].0);
        } else if j == 19 {
            reveal_strlit("when can i return home");
            assert(e[19].0 == "when can i return home"@ && "when can i return home"@.len() == 22);
            assert(e[j].0 != e[14].0);
        } else if j == 20 {
            reveal_strlit("when does train home departs");
            assert(e[20].0 == "when does train home departs"@ && "when does train home departs"@.len() == 28);
            assert(e[j].0 != e[14].0);
        } else if j == 21 {
            reveal_strlit("compose custom action");
            assert(e[21].0 == "compose custom action"@ && "compose custom action"@.len() == 21);
            assert(e[j].0 != e[14].0);
        } else if j == 22 {
            reveal_strlit("create my monthly status report");
            assert(e[22].0 == "create my monthly status report"@ && "create my monthly status report"@.len() == 31);
            assert(e[j].0 != e[14].0);
        } else if j == 23 {
            reveal_strlit("compose my monthly status report");
            assert(e[23].0 == "compose my monthly status report"@ && "compose my monthly status report"@.len() == 32);
            assert(e[j].0 != e[14].0);
        } else if j == 24 {
            reveal_strlit("compose monthly status report");
            assert(e[24].0 == "compose monthly status report"@ && "compose monthly status report"@.len() == 29);
            assert(e[j].0 != e[14].0);
        } else if j == 25 {
            reveal_strlit("create my weekly status report");
            assert(e[25].0 == "create my weekly status report"@ && "create my weekly status report"@.len() == 30);
            assert(e[j].0 != e[14].0);
        } else if j == 26 {
            reveal_strlit("compose my weekly status report");
            assert(e[26].0 == "compose my weekly status report"@ && "compose my weekly status report"@.len() == 31);
            assert(e[j].0 != e[14].0);
        } else if j == 27 {
            reveal_strlit("compose weekly status report");
            assert(e[27].0 == "compose weekly status report"@ && "compose weekly status report"@.len() == 28);
            assert(e[j].0 != e[14].0);
        } else if j == 28 {
            reveal_strlit("create an issue");
            assert(e[28].0 == "create an issue"@ && "create an issue"@.len() == 15);
            assert(e[j].0 != e[14].0);
        } else if j == 29 {
            reveal_strlit("submit an issue");
            assert(e[29].0 == "submit an issue"@ && "submit an issue"@.len() == 15);
            assert(e[j].0 != e[14].0);
        } else if j == 30 {
            reveal_strlit("add an issue");
            assert(e[30].0 == "add an issue"@ && "add an issue"@.len() == 12);
            assert(e[j].0 != e[14].0);
        }
    }
    lemma_map_at(e, 14);
}

proof fn lemma_normalized_when_is_next_train_to_work()
    ensures
        normalized("when is next train to work"@) == "when is the next train to work"@,
{
    lemma_stripped_when_is_next_train_to_work();
    lemma_map_when_is_next_train_to_work();
}

#[verifier::rlimit(40)]
proof fn lemma_stripped_when_can_i_go_to_work()
    ensures
        stripped("when can i go to work"@) == "when can i go to work"@,
{
    reveal_strlit("when can i go to work");
    reveal_with_fuel(has_occurrence, 24);
    reveal_with_fuel(prefix_eq, 11);
    assert(!has_occurrence("when can i go to work"@, seq!['i', ' ', 'w', 'a', 'n', 't', ' ', 't', 'o', ' '], 0));
    assert(!has_occurrence("when can i go to work"@, seq!['i', ' ', 'w', 'a', 'n', 't', ' '], 0));
    assert(!has_occurrence("when can i go to work"@, seq!['t', 'h', 'e', ' '], 0));
    assert(!has_occurrence("when can i go to work"@, seq!['m', 'y', ' '], 0));
    lemma_stripped_fixed("when can i go to work"@);
}

proof fn lemma_map_when_can_i_go_to_work()
    ensures
        phrase_mapping().contains_key("when can i go to work"@),
        phrase_mapping()["when can i go to work"@] == "when is the next train to work"@,
{
    lemma_entry_texts();
    let e = mapping_entries();
    reveal_strlit("when can i go to work");
    assert("when can i go to work"@.len() == 21);
    assert forall|j: int| 15 < j < e.len() implies (#[trigger] e[j]).0 != e[15].0 by {
        if j == 16 {
            reveal_strlit("when does train to work departs");
            assert(e[16].0 == "when does train to work departs"@ && "when does train to work departs"@.len() == 31);
            assert(e[j].0 != e[15].0);
        } else if j == 17 {
            reveal_strlit("when is next train home");
            assert(e[17].0 == "when is next train home"@ && "when is next train home"@.len() == 23);
            assert(e[j].0 != e[15].0);
        } else if j == 18 {
            reveal_strlit("when is train home");
            assert(e[18].0 == "when is train home"@ && "when is train home"@.len() == 18);
            assert(e[j].0 != e[15].0);
        } else if j == 19 {
            reveal_strlit("when can i return home");
            assert(e[19].0 == "when can i return home"@ && "when can i return home"@.len() == 22);
            assert(e[j].0 != e[15].0);
        } else if j == 20 {
            reveal_strlit("when does train home departs");
            assert(e[20].0 == "when does train home departs"@ && "when does train home departs"@.len() == 28);
            assert(e[j].0 != e[15].0);
        } else if j == 21 {
            reveal_strlit("compose custom action");
            assert(e[21].0 == "compose custom action"@ && "compose custom action"@.len() == 21);
            assert("compose custom action"@[0] != "when can i go to work"@[0]);
            assert(e[j].0 != e[15].0);
        } else if j == 22 {
            reveal_strlit("create my monthly status report");
            assert(e[22].0 == "create my monthly status report"@ && "create my monthly status report"@.len() == 31);
            assert(e[j].0 != e[15].0);
        } else if j == 23 {
            reveal_strlit("compose my monthly status report");
            assert(e[23].0 == "compose my monthly status report"@ && "compose my monthly status report"@.len() == 32);
            assert(e[j].0 != e[15].0);
        } else if j == 24 {
            reveal_strlit("compose monthly status report");
            assert(e[24].0 == "compose monthly status report"@ && "compose monthly status report"@.len() == 29);
            assert(e[j].0 != e[15].0);
        } else if j == 25 {
            reveal_strlit("create my weekly status report");
            assert(e[25].0 == "create my weekly status report"@ && "create my weekly status report"@.len() == 30);
            assert(e[j].0 != e[15].0);
        } else if j == 26 {
            reveal_strlit("compose my weekly status report");
            assert(e[26].0 == "compose my weekly status report"@ && "compose my weekly status report"@.len() == 31);
            assert(e[j].0 != e[15].0);
        } else if j == 27 {
            reveal_strlit("compose weekly status report");
            assert(e[27].0 == "compose weekly status report"@ && "compose weekly status report"@.len() == 28);
            assert(e[j].0 != e[15].0);
        } else if j == 28 {
            reveal_strlit("create an issue");
            assert(e[28].0 == "create an issue"@ && "create an issue"@.len() == 15);
            assert(e[j].0 != e[15].0);
        } else if j == 29 {
            reveal_strlit("submit an issue");
            assert(e[29].0 == "submit an issue"@ && "submit an issue"@.len() == 15);
            assert(e[j].0 != e[15].0);
        } else if j == 30 {
            reveal_strlit("add an issue");
            assert(e[30].0 == "add an issue"@ && "add an issue"@.len() == 12);
            assert(e[j].0 != e[15].0);
        }
    }
    lemma_map_at(e, 15);
}

proof fn lemma_normalized_when_can_i_go_to_work()
    ensures
        normalized("when can i go to work"@) == "when is the next train to work"@,
{
    lemma_stripped_when_can_i_go_to_work();
    lemma_map_when_can_i_go_to_work();
}

#[verifier::rlimit(40)]
proof fn lemma_stripped_when_does_train_to_work_departs()
    ensures
        stripped("when does train to work departs"@) == "when does train to work departs"@,
{
    reveal_strlit("when does train to work departs");
    reveal_with_fuel(has_occurrence, 34);
    reveal_with_fuel(prefix_eq, 11);
    assert(!has_occurrence("when does train to work departs"@, seq!['i', ' ', 'w', 'a', 'n', 't', ' ', 't', 'o', ' '], 0));
    assert(!has_occurrence("when does train to work departs"@, seq!['i', ' ', 'w', 'a', 'n', 't', ' '], 0));
    assert(!has_occurrence("when does train to work departs"@, seq!['t', 'h', 'e', ' '], 0));
    assert(!has_occurrence("when does train to work departs"@, seq!['m', 'y', ' '], 0));
    lemma_stripped_fixed("when does train to work departs"@);
}

proof fn lemma_map_when_does_train_to_work_departs()
    ensures
        phrase_mapping().contains_key("when does train to work departs"@),
        phrase_mapping()["when does train to work departs"@] == "when is the next train to work"@,
{
    lemma_entry_texts();
    let e = mapping_entries();
    reveal_strlit("when does train to work departs");
    assert("when does train to work departs"@.len() == 31);
    assert forall|j: int| 16 < j < e.len() implies (#[trigger] e[j]).0 != e[16].0 by {
        if j == 17 {
            reveal_strlit("when is next train home");
            assert(e[17].0 == "when is next train home"@ && "when is next train home"@.len() == 23);
            assert(e[j].0 != e[16].0);
        } else if j == 18 {
            reveal_strlit("when is train home");
            assert(e[18].0 == "when is train home"@ && "when is train home"@.len() == 18);
            assert(e[j].0 != e[16].0);
        } else if j == 19 {
            reveal_strlit("when can i return home");
            assert(e[19].0 == "when can i return home"@ && "when can i return home"@.len() == 22);
            assert(e[j].0 != e[16].0);
        } else if j == 20 {
            reveal_strlit("when does train home departs");
            assert(e[20].0 == "when does train home departs"@ && "when does train home departs"@.len() == 28);
            assert(e[j].0 != e[16].0);
        } else if j == 21 {
            reveal_strlit("compose custom action");
            assert(e[21].0 == "compose custom action"@ && "compose custom action"@.len() == 21);
            assert(e[j].0 != e[16].0);
        } else if j == 22 {
            reveal_strlit("create my monthly status report");
            assert(e[22].0 == "create my monthly status report"@ && "create my monthly status report"@.len() == 31);
            assert("create my monthly status report"@[0] != "when does train to work departs"@[0]);
            assert(e[j].0 != e[16].0);
        } else if j == 23 {
            reveal_strlit("compose my monthly status report");
            assert(e[23].0 == "compose my monthly status report"@ && "compose my monthly status report"@.len() == 32);
            assert(e[j].0 != e[16].0);
        } else if j == 24 {
            reveal_strlit("compose monthly status report");
            assert(e[24].0 == "compose monthly status report"@ && "compose monthly status report"@.len() == 29);
            assert(e[j].0 != e[16].0);
        } else if j == 25 {
            reveal_strlit("create my weekly status report");
            assert(e[25].0 == "create my weekly status report"@ && "create my weekly status report"@.len() == 30);
            assert(e[j].0 != e[16].0);
        } else if j == 26 {
            reveal_strlit("compose my weekly status report");
            assert(e[26].0 == "compose my weekly status report"@ && "compose my weekly status report"@.len() == 31);
            assert("compose my weekly status report"@[0] != "when does train to work departs"@[0]);
            assert(e[j].0 != e[16].0);
        } else if j == 27 {
            reveal_strlit("compose weekly status report");
            assert(e[27].0 == "compose weekly status report"@ && "compose weekly status report"@.len() == 28);
            assert(e[j].0 != e[16].0);
        } else if j == 28 {
            reveal_strlit("create an issue");
            assert(e[28].0 == "create an issue"@ && "create an issue"@.len() == 15);
            assert(e[j].0 != e[16].0);
        } else if j == 29 {
            reveal_strlit("submit an issue");
            assert(e[29].0 == "submit an issue"@ && "submit an issue"@.len() == 15);
            assert(e[j].0 != e[16].0);
        } else if j == 30 {
            reveal_strlit("add an issue");
            assert(e[30].0 == "add an issue"@ && "add an issue"@.len() == 12);
            assert(e[j].0 != e[16].0);
        }
    }
    lemma_map_at(e, 16);
}

proof fn lemma_normalized_when_does_train_to_work_departs()
    ensures
        normalized("when does train to work departs"@) == "when is the next train to work"@,
{
    lemma_stripped_when_does_train_to_work_departs();
    lemma_map_when_does_train_to_work_departs();
}

#[verifier::rlimit(40)]
proof fn lemma_stripped_when_is_next_train_home()
    ensures
        stripped("when is next train home"@) == "when is next train home"@,
{
    reveal_strlit("when is next train home");
    reveal_with_fuel(has_occurrence, 26);
    reveal_with_fuel(prefix_eq, 11);
    assert(!has_occurrence("when is next train home"@, seq!['i', ' ', 'w', 'a', 'n', 't', ' ', 't', 'o', ' '], 0));
    assert(!has_occurrence("when is next train home"@, seq!['i', ' ', 'w', 'a', 'n', 't', ' '], 0));
    assert(!has_occurrence("when is next train home"@, seq!['t', 'h', 'e', ' '], 0));
    assert(!has_occurrence("when is next train home"@, seq!['m', 'y', ' '], 0));
    lemma_stripped_fixed("when is next train home"@);
}

proof fn lemma_map_when_is_next_train_home()
    ensures
        phrase_mapping().contains_key("when is next train home"@),
        phrase_mapping()["when is next train home"@] == "when is the next train home"@,
{
    lemma_entry_texts();
    let e = mapping_entries();
    reveal_strlit("when is next train home");
    assert("when is next train home"@.len() == 23);
    assert forall|j: int| 17 < j < e.len() implies (#[trigger] e[j]).0 != e[17].0 by {
        if j == 18 {
            reveal_strlit("when is train home");
            assert(e[18].0 == "when is train home"@ && "when is train home"@.len() == 18);
            assert(e[j].0 != e[17].0);
        } else if j == 19 {
            reveal_strlit("when can i return home");
            assert(e[19].0 == "when can i return home"@ && "when can i return home"@.len() == 22);
            assert(e[j].0 != e[17].0);
        } else if j == 20 {
            reveal_strlit("when does train home departs");
            assert(e[20].0 == "when does train home departs"@ && "when does train home departs"@.len() == 28);
            assert(e[j].0 != e[17].0);
        } else if j == 21 {
            reveal_strlit("compose custom action");
            assert(e[21].0 == "compose custom action"@ && "compose custom action"@.len() == 21);
            assert(e[j].0 != e[17].0);
        } else if j == 22 {
            reveal_strlit("create my monthly status report");
            assert(e[22].0 == "create my monthly status report"@ && "create my monthly status report"@.len() == 31);
            assert(e[j].0 != e[17].0);
        } else if j == 23 {
            reveal_strlit("compose my monthly status report");
            assert(e[23].0 == "compose my monthly status report"@ && "compose my monthly status report"@.len() == 32);
            assert(e[j].0 != e[17].0);
        } else if j == 24 {
            reveal_strlit("compose monthly status report");
            assert(e[24].0 == "compose monthly status report"@ && "compose monthly status report"@.len() == 29);
            assert(e[j].0 != e[17].0);
        } else if j == 25 {
            reveal_strlit("create my weekly status report");
            assert(e[25].0 == "create my weekly status report"@ && "create my weekly status report"@.len() == 30);
            assert(e[j].0 != e[17].0);
        } else if j == 26 {
            reveal_strlit("compose my weekly status report");
            assert(e[26].0 == "compose my weekly status report"@ && "compose my weekly status report"@.len() == 31);
            assert(e[j].0 != e[17].0);
        } else if j == 27 {
            reveal_strlit("compose weekly status report");
            assert(e[27].0 == "compose weekly status report"@ && "compose weekly status report"@.len() == 28);
            assert(e[j].0 != e[17].0);
        } else if j == 28 {
            reveal_strlit("create an issue");
            assert(e[28].0 == "create an issue"@ && "create an issue"@.len() == 15);
            assert(e[j].0 != e[17].0);
        } else if j == 29 {
            reveal_strlit("submit an issue");
            assert(e[29].0 == "submit an issue"@ && "submit an issue"@.len() == 15);
            assert(e[j].0 != e[17].0);
        } else if j == 30 {
            reveal_strlit("add an issue");
            assert(e[30].0 == "add an issue"@ && "add an issue"@.len() == 12);
            assert(e[j].0 != e[17].0);
        }
    }
    lemma_map_at(e, 17);
}

proof fn lemma_normalized_when_is_next_train_home()
    ensures
        normalized("when is next train home"@) == "when is the next train home"@,
{
    lemma_stripped_when_is_next_train_home();
    lemma_map_when_is_next_train_home();
}

#[verifier::rlimit(40)]
proof fn lemma_stripped_when_is_train_home()
    ensures
        stripped("when is train home"@) == "when is train home"@,
{
    reveal_strlit("when is train home");
    reveal_with_fuel(has_occurrence, 21);
    reveal_with_fuel(prefix_eq, 11);
    assert(!has_occurrence("when is train home"@, seq!['i', ' ', 'w', 'a', 'n', 't', ' ', 't', 'o', ' '], 0));
    assert(!has_occurrence("when is train home"@, seq!['i', ' ', 'w', 'a', 'n', 't', ' '], 0));
    assert(!has_occurrence("when is train home"@, seq!['t', 'h', 'e', ' '], 0));
    assert(!has_occurrence("when is train home"@, seq!['m', 'y', ' '], 0));
    lemma_stripped_fixed("when is train home"@);
}

proof fn lemma_map_when_is_train_home()
    ensures
        phrase_mapping().contains_key("when is train home"@),
        phrase_mapping()["when is train home"@] == "when is the next train home"@,
{
    lemma_entry_texts();
    let e = mapping_entries();
    reveal_strlit("when is train home");
    assert("when is train home"@.len() == 18);
    assert forall|j: int| 18 < j < e.len() implies (#[trigger] e[j]).0 != e[18].0 by {
        if j == 19 {
            reveal_strlit("when can i return home");
            assert(e[19].0 == "when can i return home"@ && "when can i return home"@.len() == 22);
            assert(e[j].0 != e[18].0);
        } else if j == 20 {
            reveal_strlit("when does train home departs");
            assert(e[20].0 == "when does train home departs"@ && "when does train home departs"@.len() == 28);
            assert(e[j].0 != e[18].0);
        } else if j == 21 {
            reveal_strlit("compose custom action");
            assert(e[21].0 == "compose custom action"@ && "compose custom action"@.len() == 21);
            assert(e[j].0 != e[18].0);
        } else if j == 22 {
            reveal_strlit("create my monthly status report");
            assert(e[22].0 == "create my monthly status report"@ && "create my monthly status report"@.len() == 31);
            assert(e[j].0 != e[18].0);
        } else if j == 23 {
            reveal_strlit("compose my monthly status report");
            assert(e[23].0 == "compose my monthly status report"@ && "compose my monthly status report"@.len() == 32);
            assert(e[j].0 != e[18].0);
        } else if j == 24 {
            reveal_strlit("compose monthly status report");
            assert(e[24].0 == "compose monthly status report"@ && "compose monthly status report"@.len() == 29);
            assert(e[j].0 != e[18].0);
        } else if j == 25 {
            reveal_strlit("create my weekly status report");
            assert(e[25].0 == "create my weekly status report"@ && "create my weekly status report"@.len() == 30);
            assert(e[j].0 != e[18].0);
        } else if j == 26 {
            reveal_strlit("compose my weekly status report");
            assert(e[26].0 == "compose my weekly status report"@ && "compose my weekly status report"@.len() == 31);
            assert(e[j].0 != e[18].0);
        } else if j == 27 {
            reveal_strlit("compose weekly status report");
            assert(e[27].0 == "compose weekly status report"@ && "compose weekly status report"@.len() == 28);
            assert(e[j].0 != e[18].0);
        } else if j == 28 {
            reveal_strlit("create an issue");
            assert(e[28].0 == "create an issue"@ && "create an issue"@.len() == 15);
            assert(e[j].0 != e[18].0);
        } else if j == 29 {
            reveal_strlit("submit an issue");
            assert(e[29].0 == "submit an issue"@ && "submit an issue"@.len() == 15);
            assert(e[j].0 != e[18].0);
        } else if j == 30 {
            reveal_strlit("add an issue");
            assert(e[30].0 == "add an issue"@ && "add an issue"@.len() == 12);
            assert(e[j].0 != e[18].0);
        }
    }
    lemma_map_at(e, 18);
}

proof fn lemma_normalized_when_is_train_home()
    ensures
        normalized("when is train home"@) == "when is the next train home"@,
{
    lemma_stripped_when_is_train_home();
    lemma_map_when_is_train_home();
}

#[verifier::rlimit(40)]
proof fn lemma_stripped_when_can_i_return_home()
    ensures
        stripped("when can i return home"@) == "when can i return home"@,
{
    reveal_strlit("when can i return home");
    reveal_with_fuel(has_occurrence, 25);
    reveal_with_fuel(prefix_eq, 11);
    assert(!has_occurrence("when can i return home"@, seq!['i', ' ', 'w', 'a', 'n', 't', ' ', 't', 'o', ' '], 0));
    assert(!has_occurrence("when can i return home"@, seq!['i', ' ', 'w', 'a', 'n', 't', ' '], 0));
    assert(!has_occurrence("when can i return home"@, seq!['t', 'h', 'e', ' '], 0));
    assert(!has_occurrence("when can i return home"@, seq!['m', 'y', ' '], 0));
    lemma_stripped_fixed("when can i return home"@);
}

proof fn lemma_map_when_can_i_return_home()
    ensures
        phrase_mapping().contains_key("when can i return home"@),
        phrase_mapping()["when can i return home"@] == "when is the next train home"@,
{
    lemma_entry_texts();
    let e = mapping_entries();
    reveal_strlit("when can i return home");
    assert("when can i return home"@.len() == 22);
    assert forall|j: int| 19 < j < e.len() implies (#[trigger] e[j]).0 != e[19].0 by {
        if j == 20 {
            reveal_strlit("when does train home departs");
            assert(e[20].0 == "when does train home departs"@ && "when does train home departs"@.len() == 28);
            assert(e[j].0 != e[19].0);
        } else if j == 21 {
            reveal_strlit("compose custom action");
            assert(e[21].0 == "compose custom action"@ && "compose custom action"@.len() == 21);
            assert(e[j].0 != e[19].0);
        } else if j == 22 {
            reveal_strlit("create my monthly status report");
            assert(e[22].0 == "create my monthly status report"@ && "create my monthly status report"@.len() == 31);
            assert(e[j].0 != e[19].0);
        } else if j == 23 {
            reveal_strlit("compose my monthly status report");
            assert(e[23].0 == "compose my monthly status report"@ && "compose my monthly status report"@.len() == 32);
            assert(e[j].0 != e[19].0);
        } else if j == 24 {
            reveal_strlit("compose monthly status report");
            assert(e[24].0 == "compose monthly status report"@ && "compose monthly status report"@.len() == 29);
            assert(e[j].0 != e[19].0);
        } else if j == 25 {
            reveal_strlit("create my weekly status report");
            assert(e[25].0 == "create my weekly status report"@ && "create my weekly status report"@.len() == 30);
            assert(e[j].0 != e[19].0);
        } else if j == 26 {
            reveal_strlit("compose my weekly status report");
            assert(e[26].0 == "compose my weekly status report"@ && "compose my weekly status report"@.len() == 31);
            assert(e[j].0 != e[19].0);
        } else if j == 27 {
            reveal_strlit("compose weekly status report");
            assert(e[27].0 == "compose weekly status report"@ && "compose weekly status report"@.len() == 28);
            assert(e[j].0 != e[19].0);
        } else if j == 28 {
            reveal_strlit("create an issue");
            assert(e[28].0 == "create an issue"@ && "create an issue"@.len() == 15);
            assert(e[j].0 != e[19].0);
        } else if j == 29 {
            reveal_strlit("submit an issue");
            assert(e[29].0 == "submit an issue"@ && "submit an issue"@.len() == 15);
            assert(e[j].0 != e[19].0);
        } else if j == 30 {
            reveal_strlit("add an issue");
            assert(e[30].0 == "add an issue"@ && "add an issue"@.len() == 12);
            assert(e[j].0 != e[19].0);
        }
    }
    lemma_map_at(e, 19);
}

proof fn lemma_normalized_when_can_i_return_home()
    ensures
        normalized("when can i return home"@) == "when is the next train home"@,
{
    lemma_stripped_when_can_i_return_home();
    lemma_map_when_can_i_return_home();
}

#[verifier::rlimit(40)]
proof fn lemma_stripped_when_does_train_home_departs()
    ensures
        stripped("when does train home departs"@) == "when does train home departs"@,
{
    reveal_strlit("when does train home departs");
    reveal_with_fuel(has_occurrence, 31);
    reveal_with_fuel(prefix_eq, 11);
    assert(!has_occurrence("when does train home departs"@, seq!['i', ' ', 'w', 'a', 'n', 't', ' ', 't', 'o', ' '], 0));
    assert(!has_occurrence("when does train home departs"@, seq!['i', ' ', 'w', 'a', 'n', 't', ' '], 0));
    assert(!has_occurrence("when does train home departs"@, seq!['t', 'h', 'e', ' '], 0));
    assert(!has_occurrence("when does train home departs"@, seq!['m', 'y', ' '], 0));
    lemma_stripped_fixed("when does train home departs"@);
}

proof fn lemma_map_when_does_train_home_departs()
    ensures
        phrase_mapping().contains_key("when does train home departs"@),
        phrase_mapping()["when does train home departs"@] == "when is the next train home"@,
{
    lemma_entry_texts();
    let e = mapping_entries();
    reveal_strlit("when does train home departs");
    assert("when does train home departs"@.len() == 28);
    assert forall|j: int| 20 < j < e.len() implies (#[trigger] e[j]).0 != e[20].0 by {
        if j == 21 {
            reveal_strlit("compose custom action");
            assert(e[21].0 == "compose custom action"@ && "compose custom action"@.len() == 21);
            assert(e[j].0 != e[20].0);
        } else if j == 22 {
            reveal_strlit("create my monthly status report");
            assert(e[22].0 == "create my monthly status report"@ && "create my monthly status report"@.len() == 31);
            assert(e[j].0 != e[20].0);
        } else if j == 23 {
            reveal_strlit("compose my monthly status report");
            assert(e[23].0 == "compose my monthly status report"@ && "compose my monthly status report"@.len() == 32);
            assert(e[j].0 != e[20].0);
        } else if j == 24 {
            reveal_strlit("compose monthly status report");
            assert(e[24].0 == "compose monthly status report"@ && "compose monthly status report"@.len() == 29);
            assert(e[j].0 != e[20].0);
        } else if j == 25 {
            reveal_strlit("create my weekly status report");
            assert(e[25].0 == "create my weekly status report"@ && "create my weekly status report"@.len() == 30);
            assert(e[j].0 != e[20].0);
        } else if j == 26 {
            reveal_strlit("compose my weekly status report");
            assert(e[26].0 == "compose my weekly status report"@ && "compose my weekly status report"@.len() == 31);
            assert(e[j].0 != e[20].0);
        } else if j == 27 {
            reveal_strlit("compose weekly status report");
            assert(e[27].0 == "compose weekly status report"@ && "compose weekly status report"@.len() == 28);
            assert("compose weekly status report"@[0] != "when does train home departs"@[0]);
            assert(e[j].0 != e[20].0);
        } else if j == 28 {
            reveal_strlit("create an issue");
            assert(e[28].0 == "create an issue"@ && "create an issue"@.len() == 15);
            assert(e[j].0 != e[20].0);
        } else if j == 29 {
            reveal_strlit("submit an issue");
            assert(e[29].0 == "submit an issue"@ && "submit an issue"@.len() == 15);
            assert(e[j].0 != e[20].0);
        } else if j == 30 {
            reveal_strlit("add an issue");
            assert(e[30].0 == "add an issue"@ && "add an issue"@.len() == 12);
            assert(e[j].0 != e[20].0);
        }
    }
    lemma_map_at(e, 20);
}

proof fn lemma_normalized_when_does_train_home_departs()
    ensures
        normalized("when does train home departs"@) == "when is the next train home"@,
{
    lemma_stripped_when_does_train_home_departs();
    lemma_map_when_does_train_home_departs();
}

#[verifier::rlimit(40)]
proof fn lemma_stripped_compose_custom_action()
    ensures
        stripped("compose custom action"@) == "compose custom action"@,
{
    reveal_strlit("compose custom action");
    reveal_with_fuel(has_occurrence, 24);
    reveal_with_fuel(prefix_eq, 11);
    assert(!has_occurrence("compose custom action"@, seq!['i', ' ', 'w', 'a', 'n', 't', ' ', 't', 'o', ' '], 0));
    assert(!has_occurrence("compose custom action"@, seq!['i', ' ', 'w', 'a', 'n', 't', ' '], 0));
    assert(!has_occurrence("compose custom action"@, seq!['t', 'h', 'e', ' '], 0));
    assert(!has_occurrence("compose custom action"@, seq!['m', 'y', ' '], 0));
    lemma_stripped_fixed("compose custom action"@);
}

proof fn lemma_map_compose_custom_action()
    ensures
        phrase_mapping().contains_key("compose custom action"@),
        phrase_mapping()["compose custom action"@] == "create custom action"@,
{
    lemma_entry_texts();
    let e = mapping_entries();
    reveal_strlit("compose custom action");
    assert("compose custom action"@.len() == 21);
    assert forall|j: int| 21 < j < e.len() implies (#[trigger] e[j]).0 != e[21].0 by {
        if j == 22 {
            reveal_strlit("create my monthly status report");
            assert(e[22].0 == "create my monthly status report"@ && "create my monthly status report"@.len() == 31);
            assert(e[j].0 != e[21].0);
        } else if j == 23 {
            reveal_strlit("compose my monthly status report");
            assert(e[23].0 == "compose my monthly status report"@ && "compose my monthly status report"@.len() == 32);
            assert(e[j].0 != e[21].0);
        } else if j == 24 {
            reveal_strlit("compose monthly status report");
            assert(e[24].0 == "compose monthly status report"@ && "compose monthly status report"@.len() == 29);
            assert(e[j].0 != e[21].0);
        } else if j == 25 {
            reveal_strlit("create my weekly status report");
            assert(e[25].0 == "create my weekly status report"@ && "create my weekly status report"@.len() == 30);
            assert(e[j].0 != e[21].0);
        } else if j == 26 {
            reveal_strlit("compose my weekly status report");
            assert(e[26].0 == "compose my weekly status report"@ && "compose my weekly status report"@.len() == 31);
            assert(e[j].0 != e[21].0);
        } else if j == 27 {
            reveal_strlit("compose weekly status report");
            assert(e[27].0 == "compose weekly status report"@ && "compose weekly status report"@.len() == 28);
            assert(e[j].0 != e[21].0);
        } else if j == 28 {
            reveal_strlit("create an issue");
            assert(e[28].0 == "create an issue"@ && "create an issue"@.len() == 15);
            assert(e[j].0 != e[21].0);
        } else if j == 29 {
            reveal_strlit("submit an issue");
            assert(e[29].0 == "submit an issue"@ && "submit an issue"@.len() == 15);
            assert(e[j].0 != e[21].0);
        } else if j == 30 {
            reveal_strlit("add an issue");
            assert(e[30].0 == "add an issue"@ && "add an issue"@.len() == 12);
            assert(e[j].0 != e[21].0);
        }
    }
    lemma_map_at(e, 21);
}

proof fn lemma_normalized_compose_custom_action()
    ensures
        normalized("compose custom action"@) == "create custom action"@,
{
    lemma_stripped_compose_custom_action();
    lemma_map_compose_custom_action();
}

#[verifier::rlimit(40)]
proof fn lemma_no_filler_create_my_monthly_status_report()
    ensures
        !has_occurrence("create my monthly status report"@, seq!['i', ' ', 'w', 'a', 'n', 't', ' ', 't', 'o', ' '], 0),
        !has_occurrence("create my monthly status report"@, seq!['i', ' ', 'w', 'a', 'n', 't', ' '], 0),
        !has_occurrence("create my monthly status report"@, seq!['t', 'h', 'e', ' '], 0),
{
    reveal_strlit("create my monthly status report");
    reveal_with_fuel(has_occurrence, 34);
    reveal_with_fuel(prefix_eq, 11);
    assert(!has_occurrence("create my monthly status report"@, seq!['i', ' ', 'w', 'a', 'n', 't', ' ', 't', 'o', ' '], 0));
    assert(!has_occurrence("create my monthly status report"@, seq!['i', ' ', 'w', 'a', 'n', 't', ' '], 0));
    assert(!has_occurrence("create my monthly status report"@, seq!['t', 'h', 'e', ' '], 0));
}

#[verifier::rlimit(40)]
proof fn lemma_drop_my_create_my_monthly_status_report()
    ensures
        rep_from("create my monthly status report"@, seq!['m', 'y', ' '], Seq::empty(), 0) == "create monthly status report"@,
{
    reveal_strlit("create my monthly status report");
    reveal_strlit("create monthly status report");
    reveal_with_fuel(rep_from, 34);
    reveal_with_fuel(prefix_eq, 4);
    assert(rep_from("create my monthly status report"@, seq!['m', 'y', ' '], Seq::empty(), 0) =~= "create monthly status report"@);
}

proof fn lemma_stripped_create_my_monthly_status_report()
    ensures
        stripped("create my monthly status report"@) == "create monthly status report"@,
{
    lemma_no_filler_create_my_monthly_status_report();
    lemma_drop_my_create_my_monthly_status_report();
    lemma_no_occurrence("create my monthly status report"@, seq!['i', ' ', 'w', 'a', 'n', 't', ' ', 't', 'o', ' '], 0);
    lemma_no_occurrence("create my monthly status report"@, seq!['i', ' ', 'w', 'a', 'n', 't', ' '], 0);
    lemma_no_occurrence("create my monthly status report"@, seq!['t', 'h', 'e', ' '], 0);
    assert("create my monthly status report"@.skip(0) =~= "create my monthly status report"@);
    lemma_stripped_steps("create my monthly status report"@, "create my monthly status report"@, "create my monthly status report"@, "create my monthly status report"@, "create monthly status report"@);
}

proof fn lemma_map_create_my_monthly_status_report()
    ensures
        !phrase_mapping().contains_key("create monthly status report"@),
{
    lemma_entry_texts();
    let e = mapping_entries();
    reveal_strlit("create monthly status report");
    assert("create monthly status report"@.len() == 28);
    assert forall|j: int| 0 <= j < e.len() implies (#[trigger] e[j]).0 != "create monthly status report"@ by {
        if j == 0 {
            reveal_strlit("recognize");
            assert(e[0].0 == "recognize"@ && "recognize"@.len() == 9);
            assert(e[j].0 != "create monthly status report"@);
        } else if j == 1 {
            reveal_strlit("recognize colleague");
            assert(e[1].0 == "recognize colleague"@ && "recognize colleague"@.len() == 19);
            assert(e[j].0 != "create monthly status report"@);
        } else if j == 2 {
            reveal_strlit("recognize someone");
            assert(e[2].0 == "recognize someone"@ && "recognize someone"@.len() == 17);
            assert(e[j].0 != "create monthly status report"@);
        } else if j == 3 {
            reveal_strlit("holidays");
            assert(e[3].0 == "holidays"@ && "holidays"@.len() == 8);
            assert(e[j].0 != "create monthly status report"@);
        } else if j == 4 {
            reveal_strlit("book holidays");
            assert(e[4].0 == "book holidays"@ && "book holidays"@.len() == 13);
            assert(e[j].0 != "create monthly status report"@);
        } else if j == 5 {
            reveal_strlit("my holidays");
            assert(e[5].0 == "my holidays"@ && "my holidays"@.len() == 11);
            assert(e[j].0 != "create monthly status report"@);
        } else if j == 6 {
            reveal_strlit("request holidays");
            assert(e[6].0 == "request holidays"@ && "request holidays"@.len() == 16);
            assert(e[j].0 != "create monthly status report"@);
        } else if j == 7 {
            reveal_strlit("request vacations");
            assert(e[7].0 == "request vacations"@ && "request vacations"@.len() == 17);
            assert(e[j].0 != "create monthly status report"@);
        } else if j == 8 {
            reveal_strlit("open lunch menu");
            assert(e[8].0 == "open lunch menu"@ && "open lunch menu"@.len() == 15);
            assert(e[j].0 != "create monthly status report"@);
        } else if j == 9 {
            reveal_strlit("what should i eat");
            assert(e[9].0 == "what should i eat"@ && "what should i eat"@.len() == 17);
            assert(e[j].0 != "create monthly status report"@);
        } else if j == 10 {
            reveal_strlit("what should i have for lunch");
            assert(e[10].0 == "what should i have for lunch"@ && "what should i have for lunch"@.len() == 28);
            assert("what should i have for lunch"@[0] != "create monthly status report"@[0]);
            assert(e[j].0 != "create monthly status report"@);
        } else if j == 11 {
            reveal_strlit("when is train work");
            assert(e[11].0 == "when is train work"@ && "when is train work"@.len() == 18);
            assert(e[j].0 != "create monthly status report"@);
        } else if j == 12 {
            reveal_strlit("when is train to work");
            assert(e[12].0 == "when is train to work"@ && "when is train to work"@.len() == 21);
            assert(e[j].0 != "create monthly status report"@);
        } else if j == 13 {
            reveal_strlit("when is next train work");
            assert(e[13].0 == "when is next train work"@ && "when is next train work"@.len() == 23);
            assert(e[j].0 != "create monthly status report"@);
        } else if j == 14 {
            reveal_strlit("when is next train to work");
            assert(e[14].0 == "when is next train to work"@ && "when is next train to work"@.len() == 26);
            assert(e[j].0 != "create monthly status report"@);
        } else if j == 15 {
            reveal_strlit("when can i go to work");
            assert(e[15].0 == "when can i go to work"@ && "when can i go to work"@.len() == 21);
            assert(e[j].0 != "create monthly status report"@);
        } else if j == 16 {
            reveal_strlit("when does train to work departs");
            assert(e[16].0 == "when does train to work departs"@ && "when does train to work departs"@.len() == 31);
            assert(e[j].0 != "create monthly status report"@);
        } else if j == 17 {
            reveal_strlit("when is next train home");
            assert(e[17].0 == "when is next train home"@ && "when is next train home"@.len() == 23);
            assert(e[j].0 != "create monthly status report"@);
        } else if j == 18 {
            reveal_strlit("when is train home");
            assert(e[18].0 == "when is train home"@ && "when is train home"@.len() == 18);
            assert(e[j].0 != "create monthly status report"@);
        } else if j == 19 {
            reveal_strlit("when can i return home");
            assert(e[19].0 == "when can i return home"@ && "when can i return home"@.len() == 22);
            assert(e[j].0 != "create monthly status report"@);
        } else if j == 20 {
            reveal_strlit("when does train home departs");
            assert(e[20].0 == "when does train home departs"@ && "when does train home departs"@.len() == 28);
            assert("when does train home departs"@[0] != "create monthly status report"@[0]);
            assert(e[j].0 != "create monthly status report"@);
        } else if j == 21 {
            reveal_strlit("compose custom action");
            assert(e[21].0 == "compose custom action"@ && "compose custom action"@.len() == 21);
            assert(e[j].0 != "create monthly status report"@);
        } else if j == 22 {
            reveal_strlit("create my monthly status report");
            assert(e[22].0 == "create my monthly status report"@ && "create my monthly status report"@.len() == 31);
            assert(e[j].0 != "create monthly status report"@);
        } else if j == 23 {
            reveal_strlit("compose my monthly status report");
            assert(e[23].0 == "compose my monthly status report"@ && "compose my monthly status report"@.len() == 32);
            assert(e[j].0 != "create monthly status report"@);
        } else if j == 24 {
            reveal_strlit("compose monthly status report");
            assert(e[24].0 == "compose monthly status report"@ && "compose monthly status report"@.len() == 29);
            assert(e[j].0 != "create monthly status report"@);
        } else if j == 25 {
            reveal_strlit("create my weekly status report");
            assert(e[25].0 == "create my weekly status report"@ && "create my weekly status report"@.len() == 30);
            assert(e[j].0 != "create monthly status report"@);
        } else if j == 26 {
            reveal_strlit("compose my weekly status report");
            assert(e[26].0 == "compose my weekly status report"@ && "compose my weekly status report"@.len() == 31);
            assert(e[j].0 != "create monthly status report"@);
        } else if j == 27 {
            reveal_strlit("compose weekly status report");
            assert(e[27].0 == "compose weekly status report"@ && "compose weekly status report"@.len() == 28);
            assert("compose weekly status report"@[1] != "create monthly status report"@[1]);
            assert(e[j].0 != "create monthly status report"@);
        } else if j == 28 {
            reveal_strlit("create an issue");
            assert(e[28].0 == "create an issue"@ && "create an issue"@.len() == 15);
            assert(e[j].0 != "create monthly status report"@);
        } else if j == 29 {
            reveal_strlit("submit an issue");
            assert(e[29].0 == "submit an issue"@ && "submit an issue"@.len() == 15);
            assert(e[j].0 != "create monthly status report"@);
        } else if j == 30 {
            reveal_strlit("add an issue");
            assert(e[30].0 == "add an issue"@ && "add an issue"@.len() == 12);
            assert(e[j].0 != "create monthly status report"@);
        }
    }
    lemma_map_absent(e, "create monthly status report"@);
}

proof fn lemma_normalized_create_my_monthly_status_report()
    ensures
        normalized("create my monthly status report"@) == "create monthly status report"@,
{
    lemma_stripped_create_my_monthly_status_report();
    lemma_map_create_my_monthly_status_report();
}

#[verifier::rlimit(40)]
proof fn lemma_no_filler_compose_my_monthly_status_report()
    ensures
        !has_occurrence("compose my monthly status report"@, seq!['i', ' ', 'w', 'a', 'n', 't', ' ', 't', 'o', ' '], 0),
        !has_occurrence("compose my monthly status report"@, seq!['i', ' ', 'w', 'a', 'n', 't', ' '], 0),
        !has_occurrence("compose my monthly status report"@, seq!['t', 'h', 'e', ' '], 0),
{
    reveal_strlit("compose my monthly status report");
    reveal_with_fuel(has_occurrence, 35);
    reveal_with_fuel(prefix_eq, 11);
    assert(!has_occurrence("compose my monthly status report"@, seq!['i', ' ', 'w', 'a', 'n', 't', ' ', 't', 'o', ' '], 0));
    assert(!has_occurrence("compose my monthly status report"@, seq!['i', ' ', 'w', 'a', 'n', 't', ' '], 0));
    assert(!has_occurrence("compose my monthly status report"@, seq!['t', 'h', 'e', ' '], 0));
}

#[verifier::rlimit(40)]
proof fn lemma_drop_my_compose_my_monthly_status_report()
    ensures
        rep_from("compose my monthly status report"@, seq!['m', 'y', ' '], Seq::empty(), 0) == "compose monthly status report"@,
{
    reveal_strlit("compose my monthly status report");
    reveal_strlit("compose monthly status report");
    reveal_with_fuel(rep_from, 35);
    reveal_with_fuel(prefix_eq, 4);
    assert(rep_from("compose my monthly status report"@, seq!['m', 'y', ' '], Seq::empty(), 0) =~= "compose monthly status report"@);
}

proof fn lemma_stripped_compose_my_monthly_status_report()
    ensures
        stripped("compose my monthly status report"@) == "compose monthly status report"@,
{
    lemma_no_filler_compose_my_monthly_status_report();
    lemma_drop_my_compose_my_monthly_status_report();
    lemma_no_occurrence("compose my monthly status report"@, seq!['i', ' ', 'w', 'a', 'n', 't', ' ', 't', 'o', ' '], 0);
    lemma_no_occurrence("compose my monthly status report"@, seq!['i', ' ', 'w', 'a', 'n', 't', ' '], 0);
    lemma_no_occurrence("compose my monthly status report"@, seq!['t', 'h', 'e', ' '], 0);
    assert("compose my monthly status report"@.skip(0) =~= "compose my monthly status report"@);
    lemma_stripped_steps("compose my monthly status report"@, "compose my monthly status report"@, "compose my monthly status report"@, "compose my monthly status report"@, "compose monthly status report"@);
}

proof fn lemma_map_compose_my_monthly_status_report()
    ensures
        phrase_mapping().contains_key("compose monthly status report"@),
        phrase_mapping()["compose monthly status report"@] == "create monthly status report"@,
{
    lemma_entry_texts();
    let e = mapping_entries();
    reveal_strlit("compose monthly status report");
    assert("compose monthly status report"@.len() == 29);
    assert forall|j: int| 24 < j < e.len() implies (#[trigger] e[j]).0 != e[24].0 by {
        if j == 25 {
            reveal_strlit("create my weekly status report");
            assert(e[25].0 == "create my weekly status report"@ && "create my weekly status report"@.len() == 30);
            assert(e[j].0 != e[24].0);
        } else if j == 26 {
            reveal_strlit("compose my weekly status report");
            assert(e[26].0 == "compose my weekly status report"@ && "compose my weekly status report"@.len() == 31);
            assert(e[j].0 != e[24].0);
        } else if j == 27 {
            reveal_strlit("compose weekly status report");
            assert(e[27].0 == "compose weekly status report"@ && "compose weekly status report"@.len() == 28);
            assert(e[j].0 != e[24].0);
        } else if j == 28 {
            reveal_strlit("create an issue");
            assert(e[28].0 == "create an issue"@ && "create an issue"@.len() == 15);
            assert(e[j].0 != e[24].0);
        } else if j == 29 {
            reveal_strlit("submit an issue");
            assert(e[29].0 == "submit an issue"@ && "submit an issue"@.len() == 15);
            assert(e[j].0 != e[24].0);
        } else if j == 30 {
            reveal_strlit("add an issue");
            assert(e[30].0 == "add an issue"@ && "add an issue"@.len() == 12);
            assert(e[j].0 != e[24].0);
        }
    }
    lemma_map_at(e, 24);
}

proof fn lemma_normalized_compose_my_monthly_status_report()
    ensures
        normalized("compose my monthly status report"@) == "create monthly status report"@,
{
    lemma_stripped_compose_my_monthly_status_report();
    lemma_map_compose_my_monthly_status_report();
}

#[verifier::rlimit(40)]
proof fn lemma_stripped_compose_monthly_status_report()
    ensures
        stripped("compose monthly status report"@) == "compose monthly status report"@,
{
    reveal_strlit("compose monthly status report");
    reveal_with_fuel(has_occurrence, 32);
    reveal_with_fuel(prefix_eq, 11);
    assert(!has_occurrence("compose monthly status report"@, seq!['i', ' ', 'w', 'a', 'n', 't', ' ', 't', 'o', ' '], 0));
    assert(!has_occurrence("compose monthly status report"@, seq!['i', ' ', 'w', 'a', 'n', 't', ' '], 0));
    assert(!has_occurrence("compose monthly status report"@, seq!['t', 'h', 'e', ' '], 0));
    assert(!has_occurrence("compose monthly status report"@, seq!['m', 'y', ' '], 0));
    lemma_stripped_fixed("compose monthly status report"@);
}

proof fn lemma_map_compose_monthly_status_report()
    ensures
        phrase_mapping().contains_key("compose monthly status report"@),
        phrase_mapping()["compose monthly status report"@] == "create monthly status report"@,
{
    lemma_entry_texts();
    let e = mapping_entries();
    reveal_strlit("compose monthly status report");
    assert("compose monthly status report"@.len() == 29);
    assert forall|j: int| 24 < j < e.len() implies (#[trigger] e[j]).0 != e[24].0 by {
        if j == 25 {
            reveal_strlit("create my weekly status report");
            assert(e[25].0 == "create my weekly status report"@ && "create my weekly status report"@.len() == 30);
            assert(e[j].0 != e[24].0);
        } else if j == 26 {
            reveal_strlit("compose my weekly status report");
            assert(e[26].0 == "compose my weekly status report"@ && "compose my weekly status report"@.len() == 31);
            assert(e[j].0 != e[24].0);
        } else if j == 27 {
            reveal_strlit("compose weekly status report");
            assert(e[27].0 == "compose weekly status report"@ && "compose weekly status report"@.len() == 28);
            assert(e[j].0 != e[24].0);
        } else if j == 28 {
            reveal_strlit("create an issue");
            assert(e[28].0 == "create an issue"@ && "create an issue"@.len() == 15);
            assert(e[j].0 != e[24].0);
        } else if j == 29 {
            reveal_strlit("submit an issue");
            assert(e[29].0 == "submit an issue"@ && "submit an issue"@.len() == 15);
            assert(e[j].0 != e[24].0);
        } else if j == 30 {
            reveal_strlit("add an issue");
            assert(e[30].0 == "add an issue"@ && "add an issue"@.len() == 12);
            assert(e[j].0 != e[24].0);
        }
    }
    lemma_map_at(e, 24);
}

proof fn lemma_normalized_compose_monthly_status_report()
    ensures
        normalized("compose monthly status report"@) == "create monthly status report"@,
{
    lemma_stripped_compose_monthly_status_report();
    lemma_map_compose_monthly_status_report();
}

#[verifier::rlimit(40)]
proof fn lemma_no_filler_create_my_weekly_status_report()
    ensures
        !has_occurrence("create my weekly status report"@, seq!['i', ' ', 'w', 'a', 'n', 't', ' ', 't', 'o', ' '], 0),
        !has_occurrence("create my weekly status report"@, seq!['i', ' ', 'w', 'a', 'n', 't', ' '], 0),
        !has_occurrence("create my weekly status report"@, seq!['t', 'h', 'e', ' '], 0),
{
    reveal_strlit("create my weekly status report");
    reveal_with_fuel(has_occurrence, 33);
    reveal_with_fuel(prefix_eq, 11);
    assert(!has_occurrence("create my weekly status report"@, seq!['i', ' ', 'w', 'a', 'n', 't', ' ', 't', 'o', ' '], 0));
    assert(!has_occurrence("create my weekly status report"@, seq!['i', ' ', 'w', 'a', 'n', 't', ' '], 0));
    assert(!has_occurrence("create my weekly status report"@, seq!['t', 'h', 'e', ' '], 0));
}

#[verifier::rlimit(40)]
proof fn lemma_drop_my_create_my_weekly_status_report()
    ensures
        rep_from("create my weekly status report"@, seq!['m', 'y', ' '], Seq::empty(), 0) == "create weekly status report"@,
{
    reveal_strlit("create my weekly status report");
    reveal_strlit("create weekly status report");
    reveal_with_fuel(rep_from, 33);
    reveal_with_fuel(prefix_eq, 4);
    assert(rep_from("create my weekly status report"@, seq!['m', 'y', ' '], Seq::empty(), 0) =~= "create weekly status report"@);
}

proof fn lemma_stripped_create_my_weekly_status_report()
    ensures
        stripped("create my weekly status report"@) == "create weekly status report"@,
{
    lemma_no_filler_create_my_weekly_status_report();
    lemma_drop_my_create_my_weekly_status_report();
    lemma_no_occurrence("create my weekly status report"@, seq!['i', ' ', 'w', 'a', 'n', 't', ' ', 't', 'o', ' '], 0);
    lemma_no_occurrence("create my weekly status report"@, seq!['i', ' ', 'w', 'a', 'n', 't', ' '], 0);
    lemma_no_occurrence("create my weekly status report"@, seq!['t', 'h', 'e', ' '], 0);
    assert("create my weekly status report"@.skip(0) =~= "create my weekly status report"@);
    lemma_stripped_steps("create my weekly status report"@, "create my weekly status report"@, "create my weekly status report"@, "create my weekly status report"@, "create weekly status report"@);
}

proof fn lemma_map_create_my_weekly_status_report()
    ensures
        !phrase_mapping().contains_key("create weekly status report"@),
{
    lemma_entry_texts();
    let e = mapping_entries();
    reveal_strlit("create weekly status report");
    assert("create weekly status report"@.len() == 27);
    assert forall|j: int| 0 <= j < e.len() implies (#[trigger] e[j]).0 != "create weekly status report"@ by {
        if j == 0 {
            reveal_strlit("recognize");
            assert(e[0].0 == "recognize"@ && "recognize"@.len() == 9);
            assert(e[j].0 != "create weekly status report"@);
        } else if j == 1 {
            reveal_strlit("recognize colleague");
            assert(e[1].0 == "recognize colleague"@ && "recognize colleague"@.len() == 19);
            assert(e[j].0 != "create weekly status report"@);
        } else if j == 2 {
            reveal_strlit("recognize someone");
            assert(e[2].0 == "recognize someone"@ && "recognize someone"@.len() == 17);
            assert(e[j].0 != "create weekly status report"@);
        } else if j == 3 {
            reveal_strlit("holidays");
            assert(e[3].0 == "holidays"@ && "holidays"@.len() == 8);
            assert(e[j].0 != "create weekly status report"@);
        } else if j == 4 {
            reveal_strlit("book holidays");
            assert(e[4].0 == "book holidays"@ && "book holidays"@.len() == 13);
            assert(e[j].0 != "create weekly status report"@);
        } else if j == 5 {
            reveal_strlit("my holidays");
            assert(e[5].0 == "my holidays"@ && "my holidays"@.len() == 11);
            assert(e[j].0 != "create weekly status report"@);
        } else if j == 6 {
            reveal_strlit("request holidays");
            assert(e[6].0 == "request holidays"@ && "request holidays"@.len() == 16);
            assert(e[j].0 != "create weekly status report"@);
        } else if j == 7 {
            reveal_strlit("request vacations");
            assert(e[7].0 == "request vacations"@ && "request vacations"@.len() == 17);
            assert(e[j].0 != "create weekly status report"@);
        } else if j == 8 {
            reveal_strlit("open lunch menu");
            assert(e[8].0 == "open lunch menu"@ && "open lunch menu"@.len() == 15);
            assert(e[j].0 != "create weekly status report"@);
        } else if j == 9 {
            reveal_strlit("what should i eat");
            assert(e[9].0 == "what should i eat"@ && "what should i eat"@.len() == 17);
            assert(e[j].0 != "create weekly status report"@);
        } else if j == 10 {
            reveal_strlit("what should i have for lunch");
            assert(e[10].0 == "what should i have for lunch"@ && "what should i have for lunch"@.len() == 28);
            assert(e[j].0 != "create weekly status report"@);
        } else if j == 11 {
            reveal_strlit("when is train work");
            assert(e[11].0 == "when is train work"@ && "when is train work"@.len() == 18);
            assert(e[j].0 != "create weekly status report"@);
        } else if j == 12 {
            reveal_strlit("when is train to work");
            assert(e[12].0 == "when is train to work"@ && "when is train to work"@.len() == 21);
            assert(e[j].0 != "create weekly status report"@);
        } else if j == 13 {
            reveal_strlit("when is next train work");
            assert(e[13].0 == "when is next train work"@ && "when is next train work"@.len() == 23);
            assert(e[j].0 != "create weekly status report"@);
        } else if j == 14 {
            reveal_strlit("when is next train to work");
            assert(e[14].0 == "when is next train to work"@ && "when is next train to work"@.len() == 26);
            assert(e[j].0 != "create weekly status report"@);
        } else if j == 15 {
            reveal_strlit("when can i go to work");
            assert(e[15].0 == "when can i go to work"@ && "when can i go to work"@.len() == 21);
            assert(e[j].0 != "create weekly status report"@);
        } else if j == 16 {
            reveal_strlit("when does train to work departs");
            assert(e[16].0 == "when does train to work departs"@ && "when does train to work departs"@.len() == 31);
            assert(e[j].0 != "create weekly status report"@);
        } else if j == 17 {
            reveal_strlit("when is next train home");
            assert(e[17].0 == "when is next train home"@ && "when is next train home"@.len() == 23);
            assert(e[j].0 != "create weekly status report"@);
        } else if j == 18 {
            reveal_strlit("when is train home");
            assert(e[18].0 == "when is train home"@ && "when is train home"@.len() == 18);
            assert(e[j].0 != "create weekly status report"@);
        } else if j == 19 {
            reveal_strlit("when can i return home");
            assert(e[19].0 == "when can i return home"@ && "when can i return home"@.len() == 22);
            assert(e[j].0 != "create weekly status report"@);
        } else if j == 20 {
            reveal_strlit("when does train home departs");
            assert(e[20].0 == "when does train home departs"@ && "when does train home departs"@.len() == 28);
            assert(e[j].0 != "create weekly status report"@);
        } else if j == 21 {
            reveal_strlit("compose custom action");
            assert(e[21].0 == "compose custom action"@ && "compose custom action"@.len() == 21);
            assert(e[j].0 != "create weekly status report"@);
        } else if j == 22 {
            reveal_strlit("create my monthly status report");
            assert(e[22].0 == "create my monthly status report"@ && "create my monthly status report"@.len() == 31);
            assert(e[j].0 != "create weekly status report"@);
        } else if j == 23 {
            reveal_strlit("compose my monthly status report");
            assert(e[23].0 == "compose my monthly status report"@ && "compose my monthly status report"@.len() == 32);
            assert(e[j].0 != "create weekly status report"@);
        } else if j == 24 {
            reveal_strlit("compose monthly status report");
            assert(e[24].0 == "compose monthly status report"@ && "compose monthly status report"@.len() == 29);
            assert(e[j].0 != "create weekly status report"@);
        } else if j == 25 {
            reveal_strlit("create my weekly status report");
            assert(e[25].0 == "create my weekly status report"@ && "create my weekly status report"@.len() == 30);
            assert(e[j].0 != "create weekly status report"@);
        } else if j == 26 {
            reveal_strlit("compose my weekly status report");
            assert(e[26].0 == "compose my weekly status report"@ && "compose my weekly status report"@.len() == 31);
            assert(e[j].0 != "create weekly status report"@);
        } else if j == 27 {
            reveal_strlit("compose weekly status report");
            assert(e[27].0 == "compose weekly status report"@ && "compose weekly status report"@.len() == 28);
            assert(e[j].0 != "create weekly status report"@);
        } else if j == 28 {
            reveal_strlit("create an issue");
            assert(e[28].0 == "create an issue"@ && "create an issue"@.len() == 15);
            assert(e[j].0 != "create weekly status report"@);
        } else if j == 29 {
            reveal_strlit("submit an issue");
            assert(e[29].0 == "submit an issue"@ && "submit an issue"@.len() == 15);
            assert(e[j].0 != "create weekly status report"@);
        } else if j == 30 {
            reveal_strlit("add an issue");
            assert(e[30].0 == "add an issue"@ && "add an issue"@.len() == 12);
            assert(e[j].0 != "create weekly status report"@);
        }
    }
    lemma_map_absent(e, "create weekly status report"@);
}

proof fn lemma_normalized_create_my_weekly_status_report()
    ensures
        normalized("create my weekly status report"@) == "create weekly status report"@,
{
    lemma_stripped_create_my_weekly_status_report();
    lemma_map_create_my_weekly_status_report();
}

#[verifier::rlimit(40)]
proof fn lemma_no_filler_compose_my_weekly_status_report()
    ensures
        !has_occurrence("compose my weekly status report"@, seq!['i', ' ', 'w', 'a', 'n', 't', ' ', 't', 'o', ' '], 0),
        !has_occurrence("compose my weekly status report"@, seq!['i', ' ', 'w', 'a', 'n', 't', ' '], 0),
        !has_occurrence("compose my weekly status report"@, seq!['t', 'h', 'e', ' '], 0),
{
    reveal_strlit("compose my weekly status report");
    reveal_with_fuel(has_occurrence, 34);
    reveal_with_fuel(prefix_eq, 11);
    assert(!has_occurrence("compose my weekly status report"@, seq!['i', ' ', 'w', 'a', 'n', 't', ' ', 't', 'o', ' '], 0));
    assert(!has_occurrence("compose my weekly status report"@, seq!['i', ' ', 'w', 'a', 'n', 't', ' '], 0));
    assert(!has_occurrence("compose my weekly status report"@, seq!['t', 'h', 'e', ' '], 0));
}

#[verifier::rlimit(40)]
proof fn lemma_drop_my_compose_my_weekly_status_report()
    ensures
        rep_from("compose my weekly status report"@, seq!['m', 'y', ' '], Seq::empty(), 0) == "compose weekly status report"@,
{
    reveal_strlit("compose my weekly status report");
    reveal_strlit("compose weekly status report");
    reveal_with_fuel(rep_from, 34);
    reveal_with_fuel(prefix_eq, 4);
    assert(rep_from("compose my weekly status report"@, seq!['m', 'y', ' '], Seq::empty(), 0) =~= "compose weekly status report"@);
}

proof fn lemma_stripped_compose_my_weekly_status_report()
    ensures
        stripped("compose my weekly status report"@) == "compose weekly status report"@,
{
    lemma_no_filler_compose_my_weekly_status_report();
    lemma_drop_my_compose_my_weekly_status_report();
    lemma_no_occurrence("compose my weekly status report"@, seq!['i', ' ', 'w', 'a', 'n', 't', ' ', 't', 'o', ' '], 0);
    lemma_no_occurrence("compose my weekly status report"@, seq!['i', ' ', 'w', 'a', 'n', 't', ' '], 0);
    lemma_no_occurrence("compose my weekly status report"@, seq!['t', 'h', 'e', ' '], 0);
    assert("compose my weekly status report"@.skip(0) =~= "compose my weekly status report"@);
    lemma_stripped_steps("compose my weekly status report"@, "compose my weekly status report"@, "compose my weekly status report"@, "compose my weekly status report"@, "compose weekly status report"@);
}

proof fn lemma_map_compose_my_weekly_status_report()
    ensures
        phrase_mapping().contains_key("compose weekly status report"@),
        phrase_mapping()["compose weekly status report"@] == "create weekly status report"@,
{
    lemma_entry_texts();
    let e = mapping_entries();
    reveal_strlit("compose weekly status report");
    assert("compose weekly status report"@.len() == 28);
    assert forall|j: int| 27 < j < e.len() implies (#[trigger] e[j]).0 != e[27].0 by {
        if j == 28 {
            reveal_strlit("create an issue");
            assert(e[28].0 == "create an issue"@ && "create an issue"@.len() == 15);
            assert(e[j].0 != e[27].0);
        } else if j == 29 {
            reveal_strlit("submit an issue");
            assert(e[29].0 == "submit an issue"@ && "submit an issue"@.len() == 15);
            assert(e[j].0 != e[27].0);
        } else if j == 30 {
            reveal_strlit("add an issue");
            assert(e[30].0 == "add an issue"@ && "add an issue"@.len() == 12);
            assert(e[j].0 != e[27].0);
        }
    }
    lemma_map_at(e, 27);
}

proof fn lemma_normalized_compose_my_weekly_status_report()
    ensures
        normalized("compose my weekly status report"@) == "create weekly status report"@,
{
    lemma_stripped_compose_my_weekly_status_report();
    lemma_map_compose_my_weekly_status_report();
}

#[verifier::rlimit(40)]
proof fn lemma_stripped_compose_weekly_status_report()
    ensures
        stripped("compose weekly status report"@) == "compose weekly status report"@,
{
    reveal_strlit("compose weekly status report");
    reveal_with_fuel(has_occurrence, 31);
    reveal_with_fuel(prefix_eq, 11);
    assert(!has_occurrence("compose weekly status report"@, seq!['i', ' ', 'w', 'a', 'n', 't', ' ', 't', 'o', ' '], 0));
    assert(!has_occurrence("compose weekly status report"@, seq!['i', ' ', 'w', 'a', 'n', 't', ' '], 0));
    assert(!has_occurrence("compose weekly status report"@, seq!['t', 'h', 'e', ' '], 0));
    assert(!has_occurrence("compose weekly status report"@, seq!['m', 'y', ' '], 0));
    lemma_stripped_fixed("compose weekly status report"@);
}

proof fn lemma_map_compose_weekly_status_report()
    ensures
        phrase_mapping().contains_key("compose weekly status report"@),
        phrase_mapping()["compose weekly status report"@] == "create weekly status report"@,
{
    lemma_entry_texts();
    let e = mapping_entries();
    reveal_strlit("compose weekly status report");
    assert("compose weekly status report"@.len() == 28);
    assert forall|j: int| 27 < j < e.len() implies (#[trigger] e[j]).0 != e[27].0 by {
        if j == 28 {
            reveal_strlit("create an issue");
            assert(e[28].0 == "create an issue"@ && "create an issue"@.len() == 15);
            assert(e[j].0 != e[27].0);
        } else if j == 29 {
            reveal_strlit("submit an issue");
            assert(e[29].0 == "submit an issue"@ && "submit an issue"@.len() == 15);
            assert(e[j].0 != e[27].0);
        } else if j == 30 {
            reveal_strlit("add an issue");
            assert(e[30].0 == "add an issue"@ && "add an issue"@.len() == 12);
            assert(e[j].0 != e[27].0);
        }
    }
    lemma_map_at(e, 27);
}

proof fn lemma_normalized_compose_weekly_status_report()
    ensures
        normalized("compose weekly status report"@) == "create weekly status report"@,
{
    lemma_stripped_compose_weekly_status_report();
    lemma_map_compose_weekly_status_report();
}

#[verifier::rlimit(40)]
proof fn lemma_stripped_create_an_issue()
    ensures
        stripped("create an issue"@) == "create an issue"@,
{
    reveal_strlit("create an issue");
    reveal_with_fuel(has_occurrence, 18);
    reveal_with_fuel(prefix_eq, 11);
    assert(!has_occurrence("create an issue"@, seq!['i', ' ', 'w', 'a', 'n', 't', ' ', 't', 'o', ' '], 0));
    assert(!has_occurrence("create an issue"@, seq!['i', ' ', 'w', 'a', 'n', 't', ' '], 0));
    assert(!has_occurrence("create an issue"@, seq!['t', 'h', 'e', ' '], 0));
    assert(!has_occurrence("create an issue"@, seq!['m', 'y', ' '], 0));
    lemma_stripped_fixed("create an issue"@);
}

proof fn lemma_map_create_an_issue()
    ensures
        phrase_mapping().contains_key("create an issue"@),
        phrase_mapping()["create an issue"@] == "file na issue"@,
{
    lemma_entry_texts();
    let e = mapping_entries();
    reveal_strlit("create an issue");
    assert("create an issue"@.len() == 15);
    assert forall|j: int| 28 < j < e.len() implies (#[trigger] e[j]).0 != e[28].0 by {
        if j == 29 {
            reveal_strlit("submit an issue");
            assert(e[29].0 == "submit an issue"@ && "submit an issue"@.len() == 15);
            assert("submit an issue"@[0] != "create an issue"@[0]);
            assert(e[j].0 != e[28].0);
        } else if j == 30 {
            reveal_strlit("add an issue");
            assert(e[30].0 == "add an issue"@ && "add an issue"@.len() == 12);
            assert(e[j].0 != e[28].0);
        }
    }
    lemma_map_at(e, 28);
}

proof fn lemma_normalized_create_an_issue()
    ensures
        normalized("create an issue"@) == "file na issue"@,
{
    lemma_stripped_create_an_issue();
    lemma_map_create_an_issue();
}

#[verifier::rlimit(40)]
proof fn lemma_stripped_submit_an_issue()
    ensures
        stripped("submit an issue"@) == "submit an issue"@,
{
    reveal_strlit("submit an issue");
    reveal_with_fuel(has_occurrence, 18);
    reveal_with_fuel(prefix_eq, 11);
    assert(!has_occurrence("submit an issue"@, seq!['i', ' ', 'w', 'a', 'n', 't', ' ', 't', 'o', ' '], 0));
    assert(!has_occurrence("submit an issue"@, seq!['i', ' ', 'w', 'a', 'n', 't', ' '], 0));
    assert(!has_occurrence("submit an issue"@, seq!['t', 'h', 'e', ' '], 0));
    assert(!has_occurrence("submit an issue"@, seq!['m', 'y', ' '], 0));
    lemma_stripped_fixed("submit an issue"@);
}

proof fn lemma_map_submit_an_issue()
    ensures
        phrase_mapping().contains_key("submit an issue"@),
        phrase_mapping()["submit an issue"@] == "file na issue"@,
{
    lemma_entry_texts();
    let e = mapping_entries();
    reveal_strlit("submit an issue");
    assert("submit an issue"@.len() == 15);
    assert forall|j: int| 29 < j < e.len() implies (#[trigger] e[j]).0 != e[29].0 by {
        if j == 30 {
            reveal_strlit("add an issue");
            assert(e[30].0 == "add an issue"@ && "add an issue"@.len() == 12);
            assert(e[j].0 != e[29].0);
        }
    }
    lemma_map_at(e, 29);
}

proof fn lemma_normalized_submit_an_issue()
    ensures
        normalized("submit an issue"@) == "file na issue"@,
{
    lemma_stripped_submit_an_issue();
    lemma_map_submit_an_issue();
}

#[verifier::rlimit(40)]
proof fn lemma_stripped_add_an_issue()
    ensures
        stripped("add an issue"@) == "add an issue"@,
{
    reveal_strlit("add an issue");
    reveal_with_fuel(has_occurrence, 15);
    reveal_with_fuel(prefix_eq, 11);
    assert(!has_occurrence("add an issue"@, seq!['i', ' ', 'w', 'a', 'n', 't', ' ', 't', 'o', ' '], 0));
    assert(!has_occurrence("add an issue"@, seq!['i', ' ', 'w', 'a', 'n', 't', ' '], 0));
    assert(!has_occurrence("add an issue"@, seq!['t', 'h', 'e', ' '], 0));
    assert(!has_occurrence("add an issue"@, seq!['m', 'y', ' '], 0));
    lemma_stripped_fixed("add an issue"@);
}

proof fn lemma_map_add_an_issue()
    ensures
        phrase_mapping().contains_key("add an issue"@),
        phrase_mapping()["add an issue"@] == "file na issue"@,
{
    lemma_entry_texts();
    let e = mapping_entries();
    reveal_strlit("add an issue");
    assert("add an issue"@.len() == 12);
    assert forall|j: int| 30 < j < e.len() implies (#[trigger] e[j]).0 != e[30].0 by {
    }
    lemma_map_at(e, 30);
}

proof fn lemma_normalized_add_an_issue()
    ensures
        normalized("add an issue"@) == "file na issue"@,
{
    lemma_stripped_add_an_issue();
    lemma_map_add_an_issue();
}
/// Every phrase that the mapping accepts normalises to its command: saying
/// any of them reaches the action registered under that command.
pub proof fn lemma_mapped_phrases()
    ensures
        normalized("recognize"@) == "give recognition"@,
        normalized("recognize colleague"@) == "give recognition"@,
        normalized("recognize someone"@) == "give recognition"@,
        normalized("holidays"@) == "give me holidays"@,
        normalized("book holidays"@) == "give me holidays"@,
        normalized("my holidays"@) == "give me holidays"@,
        normalized("request holidays"@) == "give me holidays"@,
        normalized("request vacations"@) == "give me holidays"@,
        normalized("open lunch menu"@) == "open lunch menus"@,
        normalized("what should i eat"@) == "open lunch menus"@,
        normalized("what should i have for lunch"@) == "open lunch menus"@,
        normalized("when is train work"@) == "when is the next train to work"@,
        normalized("when is train to work"@) == "when is the next train to work"@,
        normalized("when is next train work"@) == "when is the next train to work"@,
        normalized("when is next train to work"@) == "when is the next train to work"@,
        normalized("when can i go to work"@) == "when is the next train to work"@,
        normalized("when does train to work departs"@) == "when is the next train to work"@,
        normalized("when is next train home"@) == "when is the next train home"@,
        normalized("when is train home"@) == "when is the next train home"@,
        normalized("when can i return home"@) == "when is the next train home"@,
        normalized("when does train home departs"@) == "when is the next train home"@,
        normalized("compose custom action"@) == "create custom action"@,
        normalized("create my monthly status report"@) == "create monthly status report"@,
        normalized("compose my monthly status report"@) == "create monthly status report"@,
        normalized("compose monthly status report"@) == "create monthly status report"@,
        normalized("create my weekly status report"@) == "create weekly status report"@,
        normalized("compose my weekly status report"@) == "create weekly status report"@,
        normalized("compose weekly status report"@) == "create weekly status report"@,
        normalized("create an issue"@) == "file na issue"@,
        normalized("submit an issue"@) == "file na issue"@,
        normalized("add an issue"@) == "file na issue"@,
{
    lemma_normalized_recognize();
    lemma_normalized_recognize_colleague();
    lemma_normalized_recognize_someone();
    lemma_normalized_holidays();
    lemma_normalized_book_holidays();
    lemma_normalized_my_holidays();
    lemma_normalized_request_holidays();
    lemma_normalized_request_vacations();
    lemma_normalized_open_lunch_menu();
    lemma_normalized_what_should_i_eat();
    lemma_normalized_what_should_i_have_for_lunch();
    lemma_normalized_when_is_train_work();
    lemma_normalized_when_is_train_to_work();
    lemma_normalized_when_is_next_train_work();
    lemma_normalized_when_is_next_train_to_work();
    lemma_normalized_when_can_i_go_to_work();
    lemma_normalized_when_does_train_to_work_departs();
    lemma_normalized_when_is_next_train_home();
    lemma_normalized_when_is_train_home();
    lemma_normalized_when_can_i_return_home();
    lemma_normalized_when_does_train_home_departs();
    lemma_normalized_compose_custom_action();
    lemma_normalized_create_my_monthly_status_report();
    lemma_normalized_compose_my_monthly_status_report();
    lemma_normalized_compose_monthly_status_report();
    lemma_normalized_create_my_weekly_status_report();
    lemma_normalized_compose_my_weekly_status_report();
    lemma_normalized_compose_weekly_status_report();
    lemma_normalized_create_an_issue();
    lemma_normalized_submit_an_issue();
    lemma_normalized_add_an_issue();
}


/// Saying "i want to " before a phrase changes nothing: the phrase
/// normalises as it would alone, so "i want to request vacations" reaches
/// the holidays action as "request vacations" does.
pub proof fn lemma_want_to_prefix(s: Seq<char>)
    ensures
        normalized("i want to "@ + s) == normalized(s),
{
    reveal_strlit("i want to ");
    let p = "i want to "@;
    let t = p + s;
    assert(p.len() == 10);
    assert(t.subrange(0, 10) =~= p);
    assert(occurs_at(t, p, 0));
    assert(t.skip(10) =~= s);
    assert(replace_all(t, p, Seq::empty()) == Seq::<char>::empty() + replace_all(s, p, Seq::empty()));
    assert(Seq::<char>::empty() + replace_all(s, p, Seq::empty()) =~= replace_all(s, p, Seq::empty()));
    assert(stripped(t) == stripped(s));
}

} // verus!
