use corporate_assistant::nlu::normalize_phrase;

#[test]
fn test_nlu_custom_action() -> Result<(), String> {
    assert_eq!(normalize_phrase("create custom action"), "create custom action");
    assert_eq!(normalize_phrase("compose custom action"), "create custom action");

    assert_eq!(normalize_phrase("i want holidays"), "give me holidays");
    assert_eq!(normalize_phrase("give me my holidays"), "give me holidays");

    Ok(())
}

#[test]
fn test_nlu_holidays() -> Result<(), String> {
    assert_eq!(normalize_phrase("i want holidays"), "give me holidays");
    assert_eq!(normalize_phrase("give me my holidays"), "give me holidays");

    Ok(())
}

#[test]
fn test_nlu_msr() -> Result<(), String> {
    assert_eq!(
        normalize_phrase("create my monthly status report"),
        "create monthly status report"
    );
    assert_eq!(
        normalize_phrase("compose my monthly status report"),
        "create monthly status report"
    );
    assert_eq!(
        normalize_phrase("compose monthly status report"),
        "create monthly status report"
    );

    Ok(())
}

#[test]
fn test_nlu_wsr() -> Result<(), String> {
    assert_eq!(
        normalize_phrase("create my weekly status report"),
        "create weekly status report"
    );
    assert_eq!(
        normalize_phrase("compose my weekly status report"),
        "create weekly status report"
    );
    assert_eq!(
        normalize_phrase("compose weekly status report"),
        "create weekly status report"
    );
    Ok(())
}

#[test]
fn test_nlu_skm() -> Result<(), String> {
    // Train to work
    assert_eq!(
        normalize_phrase("when is the train work"),
        "when is the next train to work"
    );
    assert_eq!(
        normalize_phrase("when is the next train work"),
        "when is the next train to work"
    );
    assert_eq!(
        normalize_phrase("when is the next train to work"),
        "when is the next train to work"
    );
    assert_eq!(
        normalize_phrase("when is the train to work"),
        "when is the next train to work"
    );
    assert_eq!(
        normalize_phrase("when can i go to work"),
        "when is the next train to work"
    );
    assert_eq!(
        normalize_phrase("when does the train to work departs"),
        "when is the next train to work"
    );

    // Train home
    assert_eq!(
        normalize_phrase("when is the train home"),
        "when is the next train home"
    );
    assert_eq!(
        normalize_phrase("when is the next train home"),
        "when is the next train home"
    );
    assert_eq!(
        normalize_phrase("when can i return home"),
        "when is the next train home"
    );
    assert_eq!(
        normalize_phrase("when does the train home departs"),
        "when is the next train home"
    );

    Ok(())
}

#[test]
fn test_nlu_jira() -> Result<(), String> {
    assert_eq!(normalize_phrase("create an issue"), "file na issue");
    assert_eq!(normalize_phrase("submit an issue"), "file na issue");
    assert_eq!(normalize_phrase("add an issue"), "file na issue");
    Ok(())
}

#[test]
fn test_nlu_restaurants() -> Result<(), String> {
    assert_eq!(normalize_phrase("open the lunch menu"), "open lunch menus");
    assert_eq!(normalize_phrase("open lunch menus"), "open lunch menus");
    assert_eq!(normalize_phrase("what should i eat"), "open lunch menus");
    assert_eq!(
        normalize_phrase("what should i have for lunch"),
        "open lunch menus"
    );

    Ok(())
}

#[test]
fn test_nlu_recognition() -> Result<(), String> {
    assert_eq!(normalize_phrase("i want to recognize"), "give recognition");
    assert_eq!(
        normalize_phrase("recognize my colleague"),
        "give recognition"
    );
    assert_eq!(normalize_phrase("recognize someone"), "give recognition");
    assert_eq!(normalize_phrase("give recognition"), "give recognition");

    Ok(())
}

#[test]
fn normalize_unmapped_phrase_is_only_stripped() {
    assert_eq!(normalize_phrase("open the terminal"), "open terminal");
    assert_eq!(normalize_phrase("i want to see my mail"), "see mail");
    assert_eq!(normalize_phrase(""), "");
}

#[test]
fn normalize_strips_in_order() {
    // "i want to " is removed first, then "i want ".
    assert_eq!(normalize_phrase("i want to i want book holidays"), "give me holidays");
    // a removal can form a new filler, which the earlier pass does not see again
    assert_eq!(normalize_phrase("mmy y x"), "my x");
}

#[test]
fn normalized_commands_are_fixed_points() {
    for c in [
        "give recognition",
        "give me holidays",
        "open lunch menus",
        "when is the next train to work",
        "when is the next train home",
        "create custom action",
        "create monthly status report",
        "create weekly status report",
        "file na issue",
        "file an issue",
    ] {
        assert_eq!(normalize_phrase(c), c);
    }
    for p in ["i want holidays", "when is the train work", "add an issue", "compose custom action"] {
        let once = normalize_phrase(p);
        assert_eq!(normalize_phrase(&once), once);
    }
}
