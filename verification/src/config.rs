use vstd::prelude::*;
use crate::text::{str_eq, trim, trimmed};
use crate::toml_text::{append_escaped, escaped};

verus! {

/// Where and to whom status reports are mailed.
pub struct EmailConfig {
    pub server: String,
    pub port: u16,
    pub from: String,
    pub to: String,
}

/// The organization's settings: websites of the workplace, proxies, the
/// issue tracker, the railway stations near home and work, and email.
pub struct OrganizationConfig {
    pub restaurants: Option<Vec<String>>,
    pub recognition: Option<Vec<String>>,
    pub holidays: Option<Vec<String>>,
    pub proxy: Option<Vec<String>>,
    pub jira: Option<Vec<String>>,
    pub home_work_train_stations: Option<Vec<String>>,
    pub email: Option<EmailConfig>,
}

/// The GitHub account and repositories whose contributions are reported.
pub struct GithubConfig {
    pub user: String,
    pub token: String,
    pub repos: Vec<String>,
    pub url: String,
}

/// The issue tracker account and project.
pub struct JIRAConfig {
    pub user: String,
    pub project: String,
    pub url: String,
}

/// A phrase and the shell script that it runs.
pub struct CustomAction {
    pub phrase: String,
    pub script: String,
}

/// The user's custom actions.
pub struct CustomActions {
    pub custom_actions: Vec<CustomAction>,
}

/// A copy of a list of strings.
pub fn clone_strings(v: &Vec<String>) -> (res: Vec<String>)
    ensures
        res@.len() == v@.len(),
        forall|i: int| 0 <= i < v@.len() ==> (#[trigger] res@[i])@ == v@[i]@,
{
    let mut res: Vec<String> = Vec::new();
    let mut i: usize = 0;
    while i < v.len()
        invariant
            i <= v@.len(),
            res@.len() == i,
            forall|j: int| 0 <= j < i ==> (#[trigger] res@[j])@ == v@[j]@,
        decreases v@.len() - i,
    {
        res.push(v[i].clone());
        i = i + 1;
    }
    res
}

/// The two lists hold the same strings.
pub open spec fn same_strings(a: Seq<String>, b: Seq<String>) -> bool {
    &&& a.len() == b.len()
    &&& forall|i: int| 0 <= i < a.len() ==> (#[trigger] a[i])@ == b[i]@
}

/// The two optional lists hold the same strings.
pub open spec fn same_opt_strings(a: Option<Vec<String>>, b: Option<Vec<String>>) -> bool {
    match (a, b) {
        (None, None) => true,
        (Some(x), Some(y)) => same_strings(x@, y@),
        _ => false,
    }
}

/// A copy of an optional list of strings.
pub fn clone_opt_strings(v: &Option<Vec<String>>) -> (res: Option<Vec<String>>)
    ensures
        same_opt_strings(res, *v),
{
    match v {
        Some(l) => Some(clone_strings(l)),
        None => None,
    }
}

/// The first proxy of a list of proxies, where one is configured.
pub fn select_proxy(proxies: &Option<Vec<String>>) -> (res: Option<String>)
    requires
        proxies matches Some(l) ==> l@.len() > 0,
    ensures
        match *proxies {
            Some(l) => res matches Some(p) && p@ == l@[0]@,
            None => res is None,
        },
{
    match proxies {
        Some(l) => Some(l[0].clone()),
        None => None,
    }
}

/// The custom-actions file written where there is none yet.
pub const DEFAULT_CUSTOM_ACTIONS: &'static str = r#"
                    [[custom_actions]]
                     phrase = "open the terminal"
                     script = "gnome-terminal -- tmux"
                    "#;

/// The project file written where there is none yet.
pub const DEFAULT_REPOS_CONFIG: &'static str = "
                [github]
                user = \"<your github id>\"
                token = \"<your github token>\"
                repos = [\"Paddle\"]
                url = \"https://api.github.com/graphql\"

                [jira]
                user = \"<username to JIRA>\"
                project = \"PADDLEQ\"
                url = [\"<URL of JIRA server>\"]
                epics = [[\"<JIRA epic>\",\"JIRA epic descrition\",..]
                ";

/// The organization file written where there is none yet.
pub const DEFAULT_ORGANIZATION_CONFIG: &'static str = " 
                restaurants = [\"<URL of first nearby resturant>\", \"<URL of second nearby resturant>\", \"<yet another URL of some reachable canteen>\"]
                recognition = [\"<URL to website with recognition>\"]
                holidays = [\"<URL to website with holidays request form>\"]
                proxy = [\"<URL of proxy servers>\"]
                home_work_train_stations = [\"<Name of SKM train station nearby home and work e.g. Gdansk Wrzeszcz  and Gdansk Port Lotniczy>\"]
                ";

/// The email client file written where there is none yet.
pub const DEFAULT_MAILER_CONFIG: &'static str = "[email]
                    login = \"<your Intel username\"
                    password = \"<your Intel password\"
                    server = \"<an smtp server for email communication>\"
                    port = 0
                    from = \"<sender>\"
                    to = \"<receiver>\"
                ";

/// The path that `PathBuf::push` makes of `base` and `name` on Unix: an
/// absolute `name` replaces `base`; otherwise they are joined with one '/'.
pub open spec fn joined_path(base: Seq<char>, name: Seq<char>) -> Seq<char> {
    if name.len() > 0 && name[0] == '/' {
        name
    } else if base.len() == 0 || base.last() == '/' {
        base + name
    } else {
        base + seq!['/'] + name
    }
}

/// `base` extended by `name`, as `PathBuf::push` does it on Unix.
pub fn join_path(base: &str, name: &str) -> (res: String)
    ensures
        res@ == joined_path(base@, name@),
{
    let nlen = name.unicode_len();
    if nlen > 0 && name.get_char(0) == '/' {
        return String::from_str(name);
    }
    let blen = base.unicode_len();
    let mut r = String::from_str(base);
    if blen > 0 && base.get_char(blen - 1) != '/' {
        r.append("/");
    }
    r.append(name);
    proof {
        reveal_strlit("/");
    }
    r
}

/// A configuration file and the text it receives when it does not exist yet.
pub struct ConfigFile {
    pub path: String,
    pub default_content: String,
}

/// The directory that holds the assistant's configuration files.
pub struct CAConfig {
    pub config_dir: String,
}

impl CAConfig {
    /// The configuration directory under the home directory `home`.
    pub fn from_home(home: &str) -> (res: Self)
        ensures
            res.config_dir@ == joined_path(home@, ".corporate_assistant"@),
    {
        CAConfig { config_dir: join_path(home, ".corporate_assistant") }
    }

    /// The custom-actions file.
    pub fn get_custom_action_config(&self) -> (res: ConfigFile)
        ensures
            res.path@ == joined_path(self.config_dir@, "custom_actions.toml"@),
            res.default_content@ == DEFAULT_CUSTOM_ACTIONS@,
    {
        ConfigFile {
            path: join_path(self.config_dir.as_str(), "custom_actions.toml"),
            default_content: String::from_str(DEFAULT_CUSTOM_ACTIONS),
        }
    }

    /// The file of project `project`.
    pub fn get_repos_config(&self, project: &str) -> (res: ConfigFile)
        ensures
            res.path@ == joined_path(self.config_dir@, project@),
            res.default_content@ == DEFAULT_REPOS_CONFIG@,
    {
        ConfigFile {
            path: join_path(self.config_dir.as_str(), project),
            default_content: String::from_str(DEFAULT_REPOS_CONFIG),
        }
    }

    /// The organization file named `organization_config_name`.
    pub fn get_organization_config(&self, organization_config_name: &str) -> (res: ConfigFile)
        ensures
            res.path@ == joined_path(self.config_dir@, organization_config_name@),
            res.default_content@ == DEFAULT_ORGANIZATION_CONFIG@,
    {
        ConfigFile {
            path: join_path(self.config_dir.as_str(), organization_config_name),
            default_content: String::from_str(DEFAULT_ORGANIZATION_CONFIG),
        }
    }

    /// The email client file.
    pub fn get_mailer_config(&self) -> (res: ConfigFile)
        ensures
            res.path@ == joined_path(self.config_dir@, "email_client.toml"@),
            res.default_content@ == DEFAULT_MAILER_CONFIG@,
    {
        ConfigFile {
            path: join_path(self.config_dir.as_str(), "email_client.toml"),
            default_content: String::from_str(DEFAULT_MAILER_CONFIG),
        }
    }
}

/// The entry of one custom action in the custom-actions file: the phrase
/// and the script as TOML basic strings, so that both read back unchanged
/// (`lemma_escaped_reads_back`).
pub open spec fn entry_text(phrase: Seq<char>, script: Seq<char>) -> Seq<char> {
    "\n[[custom_actions]]\n phrase = \""@ + escaped(phrase) + "\"\n script = \""@ + escaped(script)
        + "\"\n"@
}

/// The text of a custom-actions file that holds `actions`, in order.
pub open spec fn actions_text(actions: Seq<(Seq<char>, Seq<char>)>) -> Seq<char>
    decreases actions.len(),
{
    if actions.len() == 0 {
        Seq::empty()
    } else {
        actions_text(actions.drop_last()) + entry_text(actions.last().0, actions.last().1)
    }
}

/// The custom actions as (phrase, script) pairs.
pub open spec fn actions_view(actions: Seq<CustomAction>) -> Seq<(Seq<char>, Seq<char>)> {
    actions.map_values(|a: CustomAction| (a.phrase@, a.script@))
}

/// `actions` with the script of every action named `phrase` replaced.
pub open spec fn with_script(
    actions: Seq<(Seq<char>, Seq<char>)>,
    phrase: Seq<char>,
    script: Seq<char>,
) -> Seq<(Seq<char>, Seq<char>)> {
    actions.map_values(
        |a: (Seq<char>, Seq<char>)|
            if a.0 == phrase {
                (phrase, script)
            } else {
                a
            },
    )
}

/// The custom actions after saving `script` under `phrase` (without its
/// surrounding White_Space): an action of that phrase gets the new script,
/// and where there is none, the action is added at the end.
pub open spec fn saved_actions(
    actions: Seq<(Seq<char>, Seq<char>)>,
    phrase: Seq<char>,
    script: Seq<char>,
) -> Seq<(Seq<char>, Seq<char>)> {
    let p = trimmed(phrase);
    if exists|i: int| 0 <= i < actions.len() && actions[i].0 == p {
        with_script(actions, p, script)
    } else {
        actions.push((p, script))
    }
}

fn append_entry(text: &mut String, phrase: &str, script: &str)
    ensures
        final(text)@ == old(text)@ + entry_text(phrase@, script@),
{
    text.append("\n[[custom_actions]]\n phrase = \"");
    append_escaped(text, phrase);
    text.append("\"\n script = \"");
    append_escaped(text, script);
    text.append("\"\n");
    proof {
        assert(text@ =~= old(text)@ + entry_text(phrase@, script@));
    }
}

/// The whole custom-actions file after saving `script` under `phrase`: the
/// script of an action already named so is overwritten, else the action is
/// added.
pub fn save_custom_action(actions: &CustomActions, phrase: &str, script: &str) -> (res: String)
    ensures
        res@ == actions_text(saved_actions(actions_view(actions.custom_actions@), phrase@, script@)),
{
    let ghost v = actions_view(actions.custom_actions@);
    let p = trim(phrase);
    let mut text = String::new();
    let mut found = false;
    let mut i: usize = 0;
    while i < actions.custom_actions.len()
        invariant
            i <= v.len(),
            v == actions_view(actions.custom_actions@),
            p@ == trimmed(phrase@),
            text@ == actions_text(with_script(v.take(i as int), p@, script@)),
            found == exists|j: int| 0 <= j < i && v[j].0 == p@,
        decreases v.len() - i,
    {
        let a = &actions.custom_actions[i];
        assert(v[i as int] == (a.phrase@, a.script@));
        assert(with_script(v.take(i + 1), p@, script@).drop_last() =~= with_script(
            v.take(i as int),
            p@,
            script@,
        ));
        if str_eq(a.phrase.as_str(), p.as_str()) {
            append_entry(&mut text, p.as_str(), script);
            found = true;
        } else {
            append_entry(&mut text, a.phrase.as_str(), a.script.as_str());
        }
        i = i + 1;
    }
    assert(v.take(v.len() as int) =~= v);
    if !found {
        proof {
            assert(with_script(v, p@, script@) =~= v) by {
                assert forall|j: int| 0 <= j < v.len() implies with_script(v, p@, script@)[j] == v[j] by {
                    assert(v[j].0 != p@);
                }
            }
            assert(v.push((p@, script@)).drop_last() =~= v);
        }
        append_entry(&mut text, p.as_str(), script);
    }
    text
}

} // verus!
