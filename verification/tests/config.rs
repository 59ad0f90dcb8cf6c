use corporate_assistant::config::{
    join_path, save_custom_action, select_proxy, CAConfig, DEFAULT_CUSTOM_ACTIONS,
    DEFAULT_MAILER_CONFIG, DEFAULT_ORGANIZATION_CONFIG, DEFAULT_REPOS_CONFIG,
};
use corporate_assistant::config::{CustomAction, CustomActions};

#[test]
fn paths_join_like_pathbuf_push() {
    assert_eq!(join_path("/home/u", ".corporate_assistant"), "/home/u/.corporate_assistant");
    assert_eq!(join_path("/home/u/", "x.toml"), "/home/u/x.toml");
    assert_eq!(join_path("", "x.toml"), "x.toml");
    assert_eq!(join_path("/home/u", "/etc/x.toml"), "/etc/x.toml");
    let mut p = std::path::PathBuf::from("/home/u");
    p.push("x.toml");
    assert_eq!(join_path("/home/u", "x.toml"), p.to_str().unwrap());
}

#[test]
fn configuration_files() {
    let c = CAConfig::from_home("/home/u");
    assert_eq!(c.config_dir, "/home/u/.corporate_assistant");
    let f = c.get_custom_action_config();
    assert_eq!(f.path, "/home/u/.corporate_assistant/custom_actions.toml");
    assert_eq!(f.default_content, DEFAULT_CUSTOM_ACTIONS);
    assert!(DEFAULT_CUSTOM_ACTIONS.contains("phrase = \"open the terminal\""));
    let f = c.get_repos_config("paddle.toml");
    assert_eq!(f.path, "/home/u/.corporate_assistant/paddle.toml");
    assert_eq!(f.default_content, DEFAULT_REPOS_CONFIG);
    let f = c.get_organization_config("itp.toml");
    assert_eq!(f.path, "/home/u/.corporate_assistant/itp.toml");
    assert_eq!(f.default_content, DEFAULT_ORGANIZATION_CONFIG);
    let f = c.get_mailer_config();
    assert_eq!(f.path, "/home/u/.corporate_assistant/email_client.toml");
    assert_eq!(f.default_content, DEFAULT_MAILER_CONFIG);
    assert!(DEFAULT_MAILER_CONFIG.starts_with("[email]\n"));
}

fn read_back(text: &str) -> Vec<(String, String)> {
    let v: toml::Value = text.parse().unwrap();
    v["custom_actions"]
        .as_array()
        .unwrap()
        .iter()
        .map(|a| (a["phrase"].as_str().unwrap().to_string(), a["script"].as_str().unwrap().to_string()))
        .collect()
}

fn pairs(v: &[(&str, &str)]) -> Vec<(String, String)> {
    v.iter().map(|(p, s)| (p.to_string(), s.to_string())).collect()
}

#[test]
fn saving_a_new_phrase_adds_the_action() {
    let none = CustomActions { custom_actions: vec![] };
    assert_eq!(
        save_custom_action(&none, "  open the terminal \n", "gnome-terminal -- tmux"),
        "\n[[custom_actions]]\n phrase = \"open the terminal\"\n script = \"gnome-terminal -- tmux\"\n"
    );
    assert_eq!(
        save_custom_action(&none, "\u{3000}\u{a0}x", ""),
        "\n[[custom_actions]]\n phrase = \"x\"\n script = \"\"\n"
    );
}

#[test]
fn saving_a_known_phrase_overwrites_its_script() {
    let actions = CustomActions {
        custom_actions: vec![
            CustomAction { phrase: "open the terminal".to_string(), script: "xterm".to_string() },
            CustomAction { phrase: "list".to_string(), script: "ls".to_string() },
        ],
    };
    assert_eq!(
        save_custom_action(&actions, "open the terminal ", "gnome-terminal -- tmux"),
        "\n[[custom_actions]]\n phrase = \"open the terminal\"\n script = \"gnome-terminal -- tmux\"\n\
         \n[[custom_actions]]\n phrase = \"list\"\n script = \"ls\"\n"
    );
    assert_eq!(
        save_custom_action(&actions, "top", "htop"),
        "\n[[custom_actions]]\n phrase = \"open the terminal\"\n script = \"xterm\"\n\
         \n[[custom_actions]]\n phrase = \"list\"\n script = \"ls\"\n\
         \n[[custom_actions]]\n phrase = \"top\"\n script = \"htop\"\n"
    );
}

#[test]
fn special_characters_are_escaped() {
    let none = CustomActions { custom_actions: vec![] };
    assert_eq!(
        save_custom_action(&none, "say \"hi\"", "echo \\n\tdone\n\u{1}\u{7f}"),
        "\n[[custom_actions]]\n phrase = \"say \\\"hi\\\"\"\n script = \"echo \\\\n\\tdone\\n\\u0001\\u007f\"\n"
    );
}

#[test]
fn saved_file_reads_back_with_every_action_unchanged() {
    // A file as a user may have written it: a literal string holding
    // backslashes, and a script holding three quotes.
    let original = r#"
[[custom_actions]]
 phrase = "tabs"
 script = '''printf a\tb\n'''
[[custom_actions]]
 phrase = "quotes"
 script = "echo \"\"\""
"#;
    let before = read_back(original);
    assert_eq!(before, pairs(&[("tabs", r"printf a\tb\n"), ("quotes", "echo \"\"\"")]));
    let actions = CustomActions {
        custom_actions: before
            .iter()
            .map(|(p, s)| CustomAction { phrase: p.clone(), script: s.clone() })
            .collect(),
    };
    let script = "for f in *; do\n\techo \"$f\" \\\n\u{1b}[0m; done";
    let added = read_back(&save_custom_action(&actions, " new one ", script));
    assert_eq!(
        added,
        pairs(&[("tabs", r"printf a\tb\n"), ("quotes", "echo \"\"\""), ("new one", script)])
    );
    let replaced = read_back(&save_custom_action(&actions, "quotes", "echo '\"\"\"' \\"));
    assert_eq!(replaced, pairs(&[("tabs", r"printf a\tb\n"), ("quotes", "echo '\"\"\"' \\")]));
}

#[test]
fn first_proxy_is_selected() {
    assert_eq!(select_proxy(&Some(vec!["a".to_string(), "b".to_string()])), Some("a".to_string()));
    assert_eq!(select_proxy(&None), None);
}
