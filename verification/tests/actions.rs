use corporate_assistant::actions::{
    register_assistant_actions, register_custom_actions, Action, ExecuteCustomAction, OpenWebsites,
};
use corporate_assistant::config::{CustomAction, CustomActions, EmailConfig, JIRAConfig, OrganizationConfig};
use corporate_assistant::interpreter::Intents;

fn ca(phrase: &str, script: &str) -> CustomAction {
    CustomAction { phrase: phrase.to_string(), script: script.to_string() }
}

fn script_of(intents: &Intents<Action>, phrase: &str) -> String {
    match intents.get_action(phrase) {
        Ok(Action::ExecuteCustom(e)) => e.script_.clone(),
        _ => panic!("no custom action"),
    }
}

#[test]
fn custom_actions_are_registered_by_phrase() {
    let mut intents = Intents::new();
    let config = CustomActions {
        custom_actions: vec![ca("open the terminal", "gnome-terminal"), ca("list", "ls"), ca("list", "ls -l")],
    };
    register_custom_actions(&mut intents, &config);
    assert_eq!(script_of(&intents, "open the terminal"), "gnome-terminal");
    assert_eq!(script_of(&intents, "list"), "ls -l");
    assert_eq!(intents.get_commands().len(), 2);
}

#[test]
fn execute_and_open_actions() {
    let e = ExecuteCustomAction::new("ls -la".to_string());
    assert_eq!(e.command_line(), "eval ls -la");
    let w = OpenWebsites::new(vec!["https://a".to_string()], "Opening".to_string());
    assert_eq!(w.urls, vec!["https://a".to_string()]);
    assert_eq!(w.feedback, "Opening");
}

fn organization() -> OrganizationConfig {
    OrganizationConfig {
        restaurants: Some(vec!["https://lunch".to_string()]),
        recognition: None,
        holidays: Some(vec!["https://holidays".to_string(), "https://form".to_string()]),
        proxy: Some(vec!["http://proxy:911".to_string()]),
        jira: None,
        home_work_train_stations: Some(vec!["Gdansk Wrzeszcz".to_string(), "Gdansk Port Lotniczy".to_string()]),
        email: Some(EmailConfig { server: "s".to_string(), port: 25, from: "f".to_string(), to: "t".to_string() }),
    }
}

#[test]
fn assistant_actions_are_registered() {
    let mut intents = Intents::new();
    register_custom_actions(&mut intents, &CustomActions { custom_actions: vec![ca("give me holidays", "x")] });
    let jira = JIRAConfig { user: "u".to_string(), project: "P".to_string(), url: "https://jira".to_string() };
    register_assistant_actions(&mut intents, &organization(), Some(jira), "paddle.toml");
    match intents.get_action("file an issue") {
        Ok(Action::Jira(j)) => {
            assert_eq!(j.user, "u");
            assert_eq!(j.jira_url, "https://jira");
            assert_eq!(j.project, "P");
            assert_eq!(j.proxy, Some(vec!["http://proxy:911".to_string()]));
        }
        _ => panic!("no issue action"),
    }
    match intents.get_action("create monthly status report") {
        Ok(Action::Msr(m)) => {
            assert_eq!(m.time_frame, 4);
            assert_eq!(m.project_config_file, "paddle.toml");
        }
        _ => panic!("no monthly report"),
    }
    match intents.get_action("create weekly status report") {
        Ok(Action::Msr(m)) => assert_eq!(m.time_frame, 1),
        _ => panic!("no weekly report"),
    }
    assert!(matches!(intents.get_action("create custom action"), Ok(Action::CreateCustom)));
    match intents.get_action("when is the next train to work") {
        Ok(Action::Skm(s)) => {
            assert_eq!(s.skm_url, "https://skm.trojmiasto.pl/");
            assert_eq!(s.from, "Gdansk Wrzeszcz");
            assert_eq!(s.to, "Gdansk Port Lotniczy");
        }
        _ => panic!("no train to work"),
    }
    match intents.get_action("when is the next train home") {
        Ok(Action::Skm(s)) => {
            assert_eq!(s.from, "Gdansk Port Lotniczy");
            assert_eq!(s.to, "Gdansk Wrzeszcz");
        }
        _ => panic!("no train home"),
    }
    match intents.get_action("give me holidays") {
        Ok(Action::OpenWebsites(w)) => {
            assert_eq!(w.urls.len(), 2);
            assert_eq!(w.feedback, "Opening the holdiday request form");
        }
        _ => panic!("no holidays"),
    }
    match intents.get_action("open lunch menus") {
        Ok(Action::OpenWebsites(w)) => assert_eq!(w.feedback, "Opening lunch menus"),
        _ => panic!("no lunch menus"),
    }
    assert!(intents.get_action("give recognition").is_err());
    assert_eq!(intents.get_commands().len(), 8);
}

#[test]
fn unconfigured_actions_are_left_out() {
    let mut intents = Intents::new();
    let org = OrganizationConfig {
        restaurants: None,
        recognition: None,
        holidays: None,
        proxy: None,
        jira: None,
        home_work_train_stations: None,
        email: None,
    };
    register_assistant_actions(&mut intents, &org, None, "p.toml");
    assert_eq!(intents.get_commands(), vec!["create custom action"]);
}
