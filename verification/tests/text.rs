use corporate_assistant::mailer::Client;
use corporate_assistant::text::{find, replace, str_eq, to_chars, trim};

#[test]
fn replace_agrees_with_str_replace() {
    for (s, p, r) in [
        ("the the the", "the ", ""),
        ("aaaa", "aa", "b"),
        ("i want to go", "i want ", "X"),
        ("", "x", "y"),
        ("zażółć", "ó", "o"),
        ("abc", "abcd", ""),
    ] {
        assert_eq!(replace(s, p, r), s.replace(p, r));
    }
}

#[test]
fn trim_agrees_with_str_trim() {
    for s in ["  a b  ", "\t\n", "", "x", "\u{2003}y\u{3000}", "\u{200b}z"] {
        assert_eq!(trim(s), s.trim());
    }
}

#[test]
fn find_and_equality() {
    let hay = to_chars("abcabc");
    assert_eq!(find(&hay, &to_chars("ca")), Some(2));
    assert_eq!(find(&hay, &to_chars("")), Some(0));
    assert_eq!(find(&hay, &to_chars("x")), None);
    assert!(str_eq("ä", "ä"));
    assert!(!str_eq("a", "ab"));
}


#[test]
fn mail_client_keeps_its_settings() {
    let c = Client::new("login", "secret", "smtp.example.com", 465);
    assert_eq!(c.login, "login");
    assert_eq!(c.password, "secret");
    assert_eq!(c.server, "smtp.example.com");
    assert_eq!(c.port, 465);
}
