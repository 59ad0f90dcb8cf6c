use vstd::prelude::*;
use crate::text::str_eq;

verus! {

/// The registry of spoken commands: each command phrase leads to one action.
pub struct Intents<A> {
    keys: Vec<String>,
    targets: Vec<usize>,
    actions: Vec<A>,
}

/// The message with which a phrase without an action is refused.
pub open spec fn not_recognized_message(key: Seq<char>) -> Seq<char> {
    "Action \""@ + key + "\" not recognized"@
}

impl<A> Intents<A> {
    /// Each phrase appears once and leads to a stored action.
    pub closed spec fn wf(self) -> bool {
        &&& self.keys@.len() == self.targets@.len()
        &&& forall|i: int| 0 <= i < self.targets@.len() ==> self.targets@[i] < self.actions@.len()
        &&& forall|i: int, j: int|
            0 <= i < j < self.keys@.len() ==> self.keys@[i]@ != self.keys@[j]@
    }

    /// The phrase `k` has an action.
    pub closed spec fn has_command(self, k: Seq<char>) -> bool {
        exists|i: int| 0 <= i < self.keys@.len() && self.keys@[i]@ == k
    }

    spec fn index_of(self, k: Seq<char>) -> int {
        choose|i: int| 0 <= i < self.keys@.len() && self.keys@[i]@ == k
    }

    /// The registry as a map from command phrase to action.
    pub closed spec fn commands(self) -> Map<Seq<char>, A> {
        Map::new(
            |k: Seq<char>| self.has_command(k),
            |k: Seq<char>| self.actions@[self.targets@[self.index_of(k)] as int],
        )
    }

    /// An empty registry.
    pub fn new() -> (res: Self)
        ensures
            res.wf(),
            res.commands() == Map::<Seq<char>, A>::empty(),
    {
        let res = Intents { keys: Vec::new(), targets: Vec::new(), actions: Vec::new() };
        assert(res.commands() =~= Map::<Seq<char>, A>::empty());
        res
    }

    fn position(&self, key: &str) -> (res: Option<usize>)
        requires
            self.wf(),
        ensures
            match res {
                Some(i) => i < self.keys@.len() && self.keys@[i as int]@ == key@,
                None => !self.has_command(key@),
            },
    {
        let mut i: usize = 0;
        while i < self.keys.len()
            invariant
                forall|j: int| 0 <= j < i ==> self.keys@[j]@ != key@,
            decreases self.keys@.len() - i,
        {
            if str_eq(self.keys[i].as_str(), key) {
                return Some(i);
            }
            i = i + 1;
        }
        None
    }

    proof fn lemma_index_of(self, i: int)
        requires
            0 <= i < self.keys@.len(),
            forall|a: int, b: int|
                0 <= a < b < self.keys@.len() ==> self.keys@[a]@ != self.keys@[b]@,
        ensures
            self.has_command(self.keys@[i]@),
            self.index_of(self.keys@[i]@) == i,
    {
        let k = self.keys@[i]@;
        assert(self.has_command(k));
        let j = self.index_of(k);
        if j != i {
            if j < i {
                assert(self.keys@[j]@ != self.keys@[i]@);
            } else {
                assert(self.keys@[i]@ != self.keys@[j]@);
            }
        }
    }

    /// Registers `action` under every phrase of `keys`; a phrase that already
    /// had an action now leads to this one.
    pub fn register_action(&mut self, keys: Vec<String>, action: A) -> (res: Result<(), String>)
        requires
            old(self).wf(),
        ensures
            final(self).wf(),
            res is Ok,
            final(self).commands() == old(self).commands().union_prefer_right(
                Map::new(
                    |k: Seq<char>| exists|i: int| 0 <= i < keys@.len() && keys@[i]@ == k,
                    |k: Seq<char>| action,
                ),
            ),
    {
        let ghost old_map = self.commands();
        let ghost pre = *self;
        let idx = self.actions.len();
        self.actions.push(action);
        let ghost added = Map::new(
            |k: Seq<char>| exists|i: int| 0 <= i < keys@.len() && keys@[i]@ == k,
            |k: Seq<char>| action,
        );
        assert(self.commands() =~= old_map) by {
            assert forall|k: Seq<char>| self.has_command(k) implies self.commands()[k]
                == old_map[k] by {
                assert(pre.has_command(k));
                let j = self.index_of(k);
                assert(j == pre.index_of(k));
                assert(self.targets@[j] < idx);
                assert(self.actions@[self.targets@[j] as int] == pre.actions@[pre.targets@[j] as int]);
            }
            assert forall|k: Seq<char>| pre.has_command(k) implies self.has_command(k) by {
                let j = pre.index_of(k);
                assert(self.keys@[j]@ == k);
            }
        }
        let mut n: usize = 0;
        while n < keys.len()
            invariant
                self.wf(),
                n <= keys@.len(),
                idx < self.actions@.len(),
                self.actions@[idx as int] == action,
                self.commands() == old_map.union_prefer_right(
                    Map::new(
                        |k: Seq<char>| exists|i: int| 0 <= i < n && keys@[i]@ == k,
                        |k: Seq<char>| action,
                    ),
                ),
            decreases keys@.len() - n,
        {
            let ghost before = self.commands();
            let key = keys[n].clone();
            let ghost k = key@;
            match self.position(key.as_str()) {
                Some(i) => {
                    proof {
                        self.lemma_index_of(i as int);
                    }
                    self.targets[i] = idx;
                    proof {
                        self.lemma_index_of(i as int);
                        assert forall|k2: Seq<char>| #[trigger] self.has_command(k2) && k2 != k
                            implies self.index_of(k2) != i by {}
                    }
                    assert(self.commands() =~= before.insert(k, action));
                },
                None => {
                    let ghost len: int = self.keys@.len() as int;
                    let ghost old_self = *self;
                    self.keys.push(key);
                    self.targets.push(idx);
                    proof {
                        self.lemma_index_of(len);
                        assert forall|k2: Seq<char>| k2 != k implies self.has_command(k2)
                            == old_self.has_command(k2) by {
                            if self.has_command(k2) {
                                let j = self.index_of(k2);
                                assert(j != len);
                                assert(old_self.keys@[j]@ == k2);
                            }
                            if old_self.has_command(k2) {
                                let j = old_self.index_of(k2);
                                assert(self.keys@[j]@ == k2);
                            }
                        }
                        assert forall|k2: Seq<char>| #[trigger] old_self.has_command(k2) && k2
                            != k implies self.commands()[k2] == before[k2] by {
                            let j0 = old_self.index_of(k2);
                            old_self.lemma_index_of(j0);
                            self.lemma_index_of(j0);
                        }
                    }
                    assert(self.commands() =~= before.insert(k, action));
                },
            }
            n = n + 1;
            assert(old_map.union_prefer_right(
                Map::new(
                    |k: Seq<char>| exists|i: int| 0 <= i < n && keys@[i]@ == k,
                    |k: Seq<char>| action,
                ),
            ) =~= before.insert(k, action));
        }
        assert(added =~= Map::new(
            |k: Seq<char>| exists|i: int| 0 <= i < n && keys@[i]@ == k,
            |k: Seq<char>| action,
        ));
        Ok(())
    }

    /// The action registered for `key`, or the message that refuses it.
    pub fn get_action(&self, key: &str) -> (res: Result<&A, String>)
        requires
            self.wf(),
        ensures
            self.commands().contains_key(key@) ==> res == Ok::<&A, String>(&self.commands()[key@]),
            !self.commands().contains_key(key@) ==> (res matches Err(msg) && msg@
                == not_recognized_message(key@)),
    {
        match self.position(key) {
            Some(i) => {
                proof {
                    self.lemma_index_of(i as int);
                }
                Ok(&self.actions[self.targets[i]])
            },
            None => {
                let mut msg = String::from_str("Action \"");
                msg.append(key);
                msg.append("\" not recognized");
                Err(msg)
            },
        }
    }

    /// Every registered command phrase, once each.
    pub fn get_commands(&self) -> (res: Vec<&str>)
        requires
            self.wf(),
        ensures
            forall|k: Seq<char>|
                self.commands().contains_key(k) <==> exists|i: int|
                    0 <= i < res@.len() && (#[trigger] res@[i])@ == k,
            forall|i: int, j: int| 0 <= i < j < res@.len() ==> res@[i]@ != res@[j]@,
    {
        let mut res: Vec<&str> = Vec::new();
        let mut i: usize = 0;
        while i < self.keys.len()
            invariant
                i <= self.keys@.len(),
                res@.len() == i,
                forall|j: int| 0 <= j < i ==> (#[trigger] res@[j])@ == self.keys@[j]@,
                forall|a: int, b: int|
                    0 <= a < b < self.keys@.len() ==> self.keys@[a]@ != self.keys@[b]@,
            decreases self.keys@.len() - i,
        {
            res.push(self.keys[i].as_str());
            i = i + 1;
        }
        proof {
            assert forall|k: Seq<char>|
                self.commands().contains_key(k) implies exists|i: int|
                    0 <= i < res@.len() && (#[trigger] res@[i])@ == k by {
                let j = self.index_of(k);
                assert(res@[j]@ == k);
            }
        }
        res
    }
}

/// The phrases of `keys`, as a set.
pub open spec fn key_set(keys: Seq<String>) -> Set<Seq<char>> {
    Set::new(|k: Seq<char>| exists|i: int| 0 <= i < keys.len() && keys[i]@ == k)
}

/// The commands that registering `keys` under `action` adds.
pub open spec fn registration<A>(keys: Seq<String>, action: A) -> Map<Seq<char>, A> {
    Map::new(
        |x: Seq<char>| exists|i: int| 0 <= i < keys.len() && keys[i]@ == x,
        |x: Seq<char>| action,
    )
}

/// The index of the last of `regs` whose phrases hold `k`; -1 where none
/// does.
pub open spec fn last_registration<A>(regs: Seq<(Seq<String>, A)>, k: Seq<char>) -> int
    decreases regs.len(),
{
    if regs.len() == 0 {
        -1
    } else if key_set(regs.last().0).contains(k) {
        regs.len() - 1
    } else {
        last_registration(regs.drop_last(), k)
    }
}

proof fn lemma_last_registration<A>(regs: Seq<(Seq<String>, A)>, k: Seq<char>)
    ensures
        -1 <= last_registration(regs, k) < regs.len(),
        last_registration(regs, k) >= 0 ==> key_set(regs[last_registration(regs, k)].0).contains(k),
        forall|j: int|
            last_registration(regs, k) < j < regs.len() ==> !key_set(
                #[trigger] regs[j].0,
            ).contains(k),
    decreases regs.len(),
{
    if regs.len() > 0 && !key_set(regs.last().0).contains(k) {
        lemma_last_registration(regs.drop_last(), k);
        assert forall|j: int| last_registration(regs, k) < j < regs.len() implies !key_set(
            #[trigger] regs[j].0,
        ).contains(k) by {
            if j < regs.len() - 1 {
                assert(regs[j] == regs.drop_last()[j]);
            }
        }
    }
}

/// Registrations in turn: after registering `regs[0]`, `regs[1]`, ... on an
/// empty registry (`states[i]` is the registry before `regs[i]`), a phrase
/// leads to the action of the last registration that names it, and a phrase
/// that no registration names has no action.
pub proof fn lemma_registration_sequence<A>(
    states: Seq<Intents<A>>,
    regs: Seq<(Seq<String>, A)>,
    k: Seq<char>,
)
    requires
        states.len() == regs.len() + 1,
        states[0].commands() == Map::<Seq<char>, A>::empty(),
        forall|i: int|
            0 <= i < regs.len() ==> (#[trigger] states[i + 1]).commands() == states[i].commands().union_prefer_right(
                registration(regs[i].0, regs[i].1),
            ),
    ensures
        last_registration(regs, k) >= 0 ==> {
            let j = last_registration(regs, k);
            &&& key_set(regs[j].0).contains(k)
            &&& forall|j2: int| j < j2 < regs.len() ==> !key_set(#[trigger] regs[j2].0).contains(k)
            &&& states.last().commands().contains_key(k)
            &&& states.last().commands()[k] == regs[j].1
        },
        last_registration(regs, k) < 0 ==> (forall|j: int|
            0 <= j < regs.len() ==> !key_set(#[trigger] regs[j].0).contains(k))
            && !states.last().commands().contains_key(k),
    decreases regs.len(),
{
    lemma_last_registration(regs, k);
    if regs.len() > 0 {
        let n = regs.len() - 1;
        let s1 = states.drop_last();
        let r1 = regs.drop_last();
        assert forall|i: int| 0 <= i < r1.len() implies (#[trigger] s1[i + 1]).commands()
            == s1[i].commands().union_prefer_right(registration(r1[i].0, r1[i].1)) by {
            assert(states[i + 1] == s1[i + 1]);
        }
        lemma_registration_sequence(s1, r1, k);
        assert(states[n + 1] == states.last());
        assert(s1.last() == states[n]);
        if !key_set(regs.last().0).contains(k) {
            assert forall|j: int| 0 <= j < regs.len() && last_registration(regs, k) < 0 implies !key_set(
                #[trigger] regs[j].0,
            ).contains(k) by {
                if j < n {
                    assert(regs[j] == r1[j]);
                }
            }
            if last_registration(regs, k) >= 0 {
                assert(regs[last_registration(regs, k)] == r1[last_registration(regs, k)]);
            }
        }
    } else {
        assert(states.last() == states[0]);
    }
}

/// Read after write: once `action` is registered under `keys`, each of
/// those phrases leads to `action`, and every other phrase leads where it led
/// before (or nowhere, as before).
pub proof fn lemma_registered_phrases_lead_to_action<A>(
    before: Intents<A>,
    after: Intents<A>,
    keys: Seq<String>,
    action: A,
    k: Seq<char>,
)
    requires
        after.commands() == before.commands().union_prefer_right(
            Map::new(
                |x: Seq<char>| exists|i: int| 0 <= i < keys.len() && keys[i]@ == x,
                |x: Seq<char>| action,
            ),
        ),
    ensures
        key_set(keys).contains(k) ==> after.commands().contains_key(k) && after.commands()[k]
            == action,
        !key_set(keys).contains(k) ==> (after.commands().contains_key(k)
            == before.commands().contains_key(k)),
        !key_set(keys).contains(k) && before.commands().contains_key(k) ==> after.commands()[k]
            == before.commands()[k],
{
}

/// Registering the same action under the same phrases twice leaves the
/// commands as registering it once does.
pub proof fn lemma_register_idempotent<A>(
    start: Intents<A>,
    once: Intents<A>,
    twice: Intents<A>,
    keys: Seq<String>,
    action: A,
)
    requires
        once.commands() == start.commands().union_prefer_right(
            Map::new(
                |x: Seq<char>| exists|i: int| 0 <= i < keys.len() && keys[i]@ == x,
                |x: Seq<char>| action,
            ),
        ),
        twice.commands() == once.commands().union_prefer_right(
            Map::new(
                |x: Seq<char>| exists|i: int| 0 <= i < keys.len() && keys[i]@ == x,
                |x: Seq<char>| action,
            ),
        ),
    ensures
        twice.commands() == once.commands(),
{
    assert(twice.commands() =~= once.commands());
}

} // verus!
