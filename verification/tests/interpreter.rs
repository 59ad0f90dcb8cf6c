use corporate_assistant::config::EmailConfig;
use corporate_assistant::interpreter::Intents;
use corporate_assistant::msr::MSR;
use corporate_assistant::nlu::normalize_phrase;

#[test]
fn test_register() -> Result<(), String> {
    let mut intents = Intents::new();
    let dummy_config = EmailConfig {
        server: String::new(),
        port: 0,
        from: String::new(),
        to: String::new(),
    };

    intents
        .register_action(
            vec![normalize_phrase("create my monthly status report")],
            MSR::new(&None, "dummy.toml", 4, &dummy_config),
        )
        .expect("Registration failed");
    // Get registered action
    let action = intents.get_action(&normalize_phrase("create my monthly status report"));
    match action {
        Ok(_action) => Ok(()),
        Err(_action) => Err(String::from("Error getting an action")),
    }
}

#[test]
fn get_after_register_gives_the_action() {
    let mut intents: Intents<u32> = Intents::new();
    intents.register_action(vec!["a".to_string(), "b".to_string()], 7).unwrap();
    intents.register_action(vec!["c".to_string()], 9).unwrap();
    assert_eq!(intents.get_action("a"), Ok(&7));
    assert_eq!(intents.get_action("b"), Ok(&7));
    assert_eq!(intents.get_action("c"), Ok(&9));
}

#[test]
fn register_again_replaces_the_action() {
    let mut intents: Intents<u32> = Intents::new();
    intents.register_action(vec!["a".to_string()], 1).unwrap();
    intents.register_action(vec!["a".to_string(), "a".to_string()], 2).unwrap();
    assert_eq!(intents.get_action("a"), Ok(&2));
    assert_eq!(intents.get_commands(), vec!["a"]);
}

#[test]
fn unknown_phrase_is_refused() {
    let mut intents: Intents<u32> = Intents::new();
    intents.register_action(vec!["a".to_string()], 1).unwrap();
    assert_eq!(
        intents.get_action("open the door"),
        Err("Action \"open the door\" not recognized".to_string())
    );
    let empty: Intents<u32> = Intents::new();
    assert_eq!(empty.get_action(""), Err("Action \"\" not recognized".to_string()));
}

#[test]
fn commands_lists_each_phrase_once() {
    let mut intents: Intents<&str> = Intents::new();
    intents.register_action(vec!["x".to_string(), "y".to_string()], "first").unwrap();
    intents.register_action(vec!["y".to_string(), "z".to_string()], "second").unwrap();
    let mut commands = intents.get_commands();
    commands.sort();
    assert_eq!(commands, vec!["x", "y", "z"]);
    assert_eq!(intents.get_action("x"), Ok(&"first"));
    assert_eq!(intents.get_action("y"), Ok(&"second"));
    assert!(Intents::<u8>::new().get_commands().is_empty());
}
