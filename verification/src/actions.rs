use vstd::prelude::*;
use crate::config::{
    clone_opt_strings, clone_strings, same_opt_strings, same_strings, CustomAction, CustomActions,
    JIRAConfig, OrganizationConfig,
};
use crate::nlu::{normalize_phrase, normalized};
use crate::nlu_laws::lemma_command_phrases_are_fixed;
use crate::interpreter::Intents;
use crate::jira::JIRA;
use crate::msr::MSR;
use crate::skm::SKM;

verus! {

/// The action of a custom phrase: runs its shell script.
pub struct ExecuteCustomAction {
    pub script_: String,
}

impl ExecuteCustomAction {
    pub fn new(script: String) -> (res: Self)
        ensures
            res.script_ == script,
    {
        ExecuteCustomAction { script_: script }
    }

    /// The command line that the shell evaluates for this action.
    pub fn command_line(&self) -> (res: String)
        ensures
            res@ == "eval "@ + self.script_@,
    {
        let mut c = String::from_str("eval ");
        c.append(self.script_.as_str());
        c
    }
}

/// The action that opens a set of websites, announcing it first.
pub struct OpenWebsites {
    pub urls: Vec<String>,
    pub feedback: String,
}

impl OpenWebsites {
    pub fn new(urls: Vec<String>, feedback: String) -> (res: Self)
        ensures
            res.urls == urls,
            res.feedback == feedback,
    {
        OpenWebsites { urls: urls, feedback: feedback }
    }
}

/// What a spoken command leads to.
pub enum Action {
    /// Run a custom action's script.
    ExecuteCustom(ExecuteCustomAction),
    /// Open the editor of custom actions.
    CreateCustom,
    /// Open websites.
    OpenWebsites(OpenWebsites),
    /// File an issue in the tracker.
    Jira(JIRA),
    /// Compose and mail a status report.
    Msr(MSR),
    /// Announce the next train.
    Skm(SKM),
}

/// The index of the last custom action in `cas` whose phrase is `k`.
pub open spec fn last_with_phrase(cas: Seq<CustomAction>, k: Seq<char>) -> int
    decreases cas.len(),
{
    if cas.len() == 0 {
        -1
    } else if cas.last().phrase@ == k {
        cas.len() - 1
    } else {
        last_with_phrase(cas.drop_last(), k)
    }
}

/// `a` runs the script `script`.
pub open spec fn runs_script(a: Action, script: Seq<char>) -> bool {
    a matches Action::ExecuteCustom(e) && e.script_@ == script
}

proof fn lemma_last_with_phrase_bounds(cas: Seq<CustomAction>, k: Seq<char>)
    ensures
        -1 <= last_with_phrase(cas, k) < cas.len(),
        last_with_phrase(cas, k) >= 0 ==> cas[last_with_phrase(cas, k)].phrase@ == k,
        last_with_phrase(cas, k) == -1 <==> forall|j: int| 0 <= j < cas.len() ==> cas[j].phrase@ != k,
    decreases cas.len(),
{
    if cas.len() > 0 {
        lemma_last_with_phrase_bounds(cas.drop_last(), k);
        if cas.last().phrase@ != k {
            assert forall|j: int| 0 <= j < cas.len() - 1 implies cas[j] == cas.drop_last()[j] by {}
        }
    }
}

/// Registers each custom action under its phrase; where two share a phrase,
/// the later one is kept, and a phrase already registered now runs the script.
pub fn register_custom_actions(intents: &mut Intents<Action>, custom_actions: &CustomActions)
    requires
        old(intents).wf(),
    ensures
        final(intents).wf(),
        forall|k: Seq<char>|
            #![trigger final(intents).commands().contains_key(k)]
            final(intents).commands().contains_key(k) == (old(intents).commands().contains_key(k)
                || last_with_phrase(custom_actions.custom_actions@, k) >= 0),
        forall|k: Seq<char>|
            #![trigger final(intents).commands()[k]]
            last_with_phrase(custom_actions.custom_actions@, k) >= 0 ==> runs_script(
                final(intents).commands()[k],
                custom_actions.custom_actions@[last_with_phrase(custom_actions.custom_actions@, k)].script@,
            ),
        forall|k: Seq<char>|
            #![trigger final(intents).commands()[k]]
            last_with_phrase(custom_actions.custom_actions@, k) < 0 && old(
                intents,
            ).commands().contains_key(k) ==> final(intents).commands()[k] == old(
                intents,
            ).commands()[k],
{
    let ghost cas = custom_actions.custom_actions@;
    let ghost start = intents.commands();
    let mut i: usize = 0;
    while i < custom_actions.custom_actions.len()
        invariant
            cas == custom_actions.custom_actions@,
            i <= cas.len(),
            intents.wf(),
            forall|k: Seq<char>|
                #![trigger intents.commands().contains_key(k)]
                intents.commands().contains_key(k) == (start.contains_key(k) || last_with_phrase(
                    cas.take(i as int),
                    k,
                ) >= 0),
            forall|k: Seq<char>|
                #![trigger intents.commands()[k]]
                last_with_phrase(cas.take(i as int), k) >= 0 ==> runs_script(
                    intents.commands()[k],
                    cas[last_with_phrase(cas.take(i as int), k)].script@,
                ),
            forall|k: Seq<char>|
                #![trigger intents.commands()[k]]
                last_with_phrase(cas.take(i as int), k) < 0 && start.contains_key(k)
                    ==> intents.commands()[k] == start[k],
        decreases cas.len() - i,
    {
        let ca = &custom_actions.custom_actions[i];
        let ghost before = intents.commands();
        let mut keys: Vec<String> = Vec::new();
        keys.push(ca.phrase.clone());
        let action = Action::ExecuteCustom(ExecuteCustomAction::new(ca.script.clone()));
        let ghost a = action;
        let _ = intents.register_action(keys, action);
        proof {
            let t = cas.take(i + 1);
            assert(t.drop_last() =~= cas.take(i as int));
            assert(t.last() == cas[i as int]);
            lemma_last_with_phrase_bounds(cas.take(i as int), ca.phrase@);
            assert(keys@[0]@ == ca.phrase@);
            assert forall|k: Seq<char>|
                #![trigger intents.commands()[k]]
                last_with_phrase(t, k) >= 0 implies runs_script(
                    intents.commands()[k],
                    cas[last_with_phrase(t, k)].script@,
                ) by {
                lemma_last_with_phrase_bounds(cas.take(i as int), k);
                if k == ca.phrase@ {
                    assert(intents.commands()[k] == a);
                } else {
                    assert(intents.commands()[k] == before[k]);
                }
            }
            assert forall|k: Seq<char>|
                #![trigger intents.commands().contains_key(k)]
                intents.commands().contains_key(k) == (start.contains_key(k) || last_with_phrase(
                    t,
                    k,
                ) >= 0) by {}
        }
        i = i + 1;
    }
    assert(cas.take(cas.len() as int) =~= cas);
}


/// The address of the railway timetable that the next-train actions ask.
pub open spec fn skm_site() -> Seq<char> {
    "https://skm.trojmiasto.pl/"@
}

/// `a` opens exactly `urls`, announcing `feedback`.
pub open spec fn opens_websites(a: Action, urls: Option<Vec<String>>, feedback: Seq<char>) -> bool {
    urls matches Some(u) && a matches Action::OpenWebsites(w) && same_strings(w.urls@, u@)
        && w.feedback@ == feedback
}

/// `a` announces the next train from `from` to `to`, through the proxies `proxy`.
pub open spec fn announces_trains(
    a: Action,
    proxy: Option<Vec<String>>,
    from: Seq<char>,
    to: Seq<char>,
) -> bool {
    a matches Action::Skm(k) && k.skm_url@ == skm_site() && same_opt_strings(k.proxy, proxy)
        && k.from@ == from && k.to@ == to
}

/// `a` mails a report over `time_frame` weeks with the settings of `org`
/// and the project configuration `project`.
pub open spec fn composes_report(
    a: Action,
    org: OrganizationConfig,
    project: Seq<char>,
    time_frame: u8,
) -> bool {
    org.email matches Some(e) && a matches Action::Msr(m) && same_opt_strings(m.proxies, org.proxy)
        && m.project_config_file@ == project && m.time_frame == time_frame && m.server@
        == e.server@ && m.port == e.port && m.from@ == e.from@ && m.to@ == e.to@
}

/// `a` files issues with the account `j`, through the proxies `proxy`.
pub open spec fn files_issues(a: Action, j: JIRAConfig, proxy: Option<Vec<String>>) -> bool {
    a matches Action::Jira(x) && x.user@ == j.user@ && x.jira_url@ == j.url@ && same_opt_strings(
        x.proxy,
        proxy,
    ) && x.project@ == j.project@
}

/// The command phrases of the assistant's own actions, given what the
/// organization configures.
pub open spec fn assistant_phrase(
    k: Seq<char>,
    org: OrganizationConfig,
    jira: Option<JIRAConfig>,
) -> bool {
    ||| (jira is Some && k == "file an issue"@)
    ||| (org.email is Some && (k == "create monthly status report"@ || k
        == "create weekly status report"@))
    ||| k == "create custom action"@
    ||| (org.home_work_train_stations is Some && (k == "when is the next train to work"@ || k
        == "when is the next train home"@))
    ||| (org.restaurants is Some && k == "open lunch menus"@)
    ||| (org.holidays is Some && k == "give me holidays"@)
    ||| (org.recognition is Some && k == "give recognition"@)
}

fn register_one(intents: &mut Intents<Action>, phrase: &str, action: Action)
    requires
        old(intents).wf(),
    ensures
        final(intents).wf(),
        final(intents).commands() == old(intents).commands().insert(normalized(phrase@), action),
{
    let key = normalize_phrase(phrase);
    let ghost k = key@;
    let mut keys: Vec<String> = Vec::new();
    keys.push(key);
    let ghost a = action;
    let _ = intents.register_action(keys, action);
    assert(keys@[0]@ == k);
    assert(Map::new(
        |x: Seq<char>| exists|i: int| 0 <= i < keys@.len() && keys@[i]@ == x,
        |x: Seq<char>| a,
    ) =~= Map::<Seq<char>, Action>::empty().insert(k, a));
}

/// Registers the assistant's own actions under their command phrases: the
/// issue tracker where it is configured, the status reports where email is,
/// the editor of custom actions, the next trains between the configured
/// stations (the first two, and the last two in reverse), and the websites of
/// the workplace. A phrase registered before now leads to the new action.
pub fn register_assistant_actions(
    intents: &mut Intents<Action>,
    org: &OrganizationConfig,
    jira: Option<JIRAConfig>,
    project_config_file: &str,
)
    requires
        old(intents).wf(),
        org.home_work_train_stations matches Some(s) ==> s@.len() >= 2,
    ensures
        final(intents).wf(),
        forall|k: Seq<char>|
            #![trigger final(intents).commands().contains_key(k)]
            final(intents).commands().contains_key(k) == (old(intents).commands().contains_key(k)
                || assistant_phrase(k, *org, jira)),
        forall|k: Seq<char>|
            #![trigger final(intents).commands()[k]]
            !assistant_phrase(k, *org, jira) && old(intents).commands().contains_key(k)
                ==> final(intents).commands()[k] == old(intents).commands()[k],
        jira matches Some(j) ==> files_issues(
            final(intents).commands()["file an issue"@],
            j,
            org.proxy,
        ),
        org.email is Some ==> composes_report(
            final(intents).commands()["create monthly status report"@],
            *org,
            project_config_file@,
            4,
        ),
        org.email is Some ==> composes_report(
            final(intents).commands()["create weekly status report"@],
            *org,
            project_config_file@,
            1,
        ),
        final(intents).commands()["create custom action"@] == Action::CreateCustom,
        org.home_work_train_stations matches Some(s) ==> announces_trains(
            final(intents).commands()["when is the next train to work"@],
            org.proxy,
            s@[0]@,
            s@[1]@,
        ),
        org.home_work_train_stations matches Some(s) ==> announces_trains(
            final(intents).commands()["when is the next train home"@],
            org.proxy,
            s@[s@.len() - 1]@,
            s@[s@.len() - 2]@,
        ),
        org.restaurants is Some ==> opens_websites(
            final(intents).commands()["open lunch menus"@],
            org.restaurants,
            "Opening lunch menus"@,
        ),
        org.holidays is Some ==> opens_websites(
            final(intents).commands()["give me holidays"@],
            org.holidays,
            "Opening the holdiday request form"@,
        ),
        org.recognition is Some ==> opens_websites(
            final(intents).commands()["give recognition"@],
            org.recognition,
            "Opening the recognition system"@,
        ),
{
    proof {
        lemma_command_phrases_are_fixed();
        reveal_strlit("give recognition");
        reveal_strlit("give me holidays");
        reveal_strlit("open lunch menus");
        reveal_strlit("when is the next train to work");
        reveal_strlit("when is the next train home");
        reveal_strlit("create custom action");
        reveal_strlit("create monthly status report");
        reveal_strlit("create weekly status report");
        reveal_strlit("file an issue");
        assert("give recognition"@[5] != "give me holidays"@[5]);
        assert("give recognition"@[0] != "open lunch menus"@[0]);
        assert("give me holidays"@[0] != "open lunch menus"@[0]);
        assert("create weekly status report"@[0] != "when is the next train home"@[0]);
    }
    let ghost m0 = intents.commands();
    match jira {
        Some(j) => {
            let action = Action::Jira(JIRA::new(j.user, j.url, clone_opt_strings(&org.proxy), j.project));
            register_one(intents, "file an issue", action);
        },
        None => {},
    }
    let ghost m1 = intents.commands();
    match &org.email {
        Some(email) => {
            register_one(intents, "create monthly status report", Action::Msr(MSR::new(&org.proxy, project_config_file, 4, email)));
            register_one(intents, "create weekly status report", Action::Msr(MSR::new(&org.proxy, project_config_file, 1, email)));
        },
        None => {},
    }
    let ghost m2 = intents.commands();
    register_one(intents, "create custom action", Action::CreateCustom);
    let ghost m3 = intents.commands();
    match &org.home_work_train_stations {
        Some(stations) => {
            let n = stations.len();
            let to_work = Action::Skm(
                SKM::new(
                    String::from_str("https://skm.trojmiasto.pl/"),
                    clone_opt_strings(&org.proxy),
                    stations[0].clone(),
                    stations[1].clone(),
                ),
            );
            register_one(intents, "when is the next train to work", to_work);
            let home = Action::Skm(
                SKM::new(
                    String::from_str("https://skm.trojmiasto.pl/"),
                    clone_opt_strings(&org.proxy),
                    stations[n - 1].clone(),
                    stations[n - 2].clone(),
                ),
            );
            register_one(intents, "when is the next train home", home);
        },
        None => {},
    }
    let ghost m4 = intents.commands();
    match &org.restaurants {
        Some(urls) => {
            register_one(intents, "open lunch menus", Action::OpenWebsites(OpenWebsites::new(clone_strings(urls), String::from_str("Opening lunch menus"))));
        },
        None => {},
    }
    match &org.holidays {
        Some(urls) => {
            register_one(intents, "give me holidays", Action::OpenWebsites(OpenWebsites::new(clone_strings(urls), String::from_str("Opening the holdiday request form"))));
        },
        None => {},
    }
    match &org.recognition {
        Some(urls) => {
            register_one(intents, "give recognition", Action::OpenWebsites(OpenWebsites::new(clone_strings(urls), String::from_str("Opening the recognition system"))));
        },
        None => {},
    }
}

/// Every phrase under which the assistant registers one of its own actions
/// is its own normal form, so saying that phrase reaches the action.
pub proof fn lemma_assistant_phrases_reachable(
    k: Seq<char>,
    org: OrganizationConfig,
    jira: Option<JIRAConfig>,
)
    requires
        assistant_phrase(k, org, jira),
    ensures
        normalized(k) == k,
{
    lemma_command_phrases_are_fixed();
}

} // verus!
