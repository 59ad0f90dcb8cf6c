use corporate_assistant::skm::{find_station_id, SKM};

fn skm() -> SKM {
    SKM::new(
        "https://skm.trojmiasto.pl/".to_string(),
        None,
        "Gdansk Wrzeszcz".to_string(),
        "Gdansk Port Lotniczy".to_string(),
    )
}

const STATIONS_PAGE: &str = "<option data-keywords=\"gdansk,wrzeszcz\" value=\"7534\">Gdańsk Wrzeszcz</option>\n<option data-keywords=\"gdansk,port,lotniczy\" value=\"7617\">Gdańsk Port Lotniczy</option>";

#[test]
fn station_id_is_read_from_the_page() {
    let s = skm();
    assert_eq!(s.get_station_id(STATIONS_PAGE, "Gdansk Wrzeszcz"), Some("7534".to_string()));
    assert_eq!(s.get_station_id(STATIONS_PAGE, "Gdansk  Port\tLotniczy"), Some("7617".to_string()));
    assert_eq!(s.get_station_id(STATIONS_PAGE, "GDANSK WRZESZCZ"), Some("7534".to_string()));
}

#[test]
fn station_id_by_keywords() {
    assert_eq!(find_station_id(STATIONS_PAGE, "gdansk,port,lotniczy"), Some("7617".to_string()));
    // the keywords are taken as given: no lowercasing here
    assert_eq!(find_station_id(STATIONS_PAGE, "Gdansk,Wrzeszcz"), None);
    assert_eq!(find_station_id("data-keywords=\"a\" value='x1'\"", "a"), Some("x1'".to_string()));
    // the first listing counts
    assert_eq!(
        find_station_id("data-keywords=\"a\" value=\"1\" data-keywords=\"a\" value=\"2\"", "a"),
        Some("1".to_string())
    );
}

#[test]
fn station_id_missing() {
    let s = skm();
    assert_eq!(s.get_station_id(STATIONS_PAGE, "Sopot"), None);
    // nothing after the pattern
    assert_eq!(s.get_station_id("data-keywords=\"sopot\" value=", "Sopot"), None);
    // a multi-byte character where the quote should be
    assert_eq!(s.get_station_id("data-keywords=\"sopot\" value=ż12\"", "Sopot"), None);
    // no closing quote
    assert_eq!(s.get_station_id("data-keywords=\"sopot\" value=\"12", "Sopot"), None);
    // an empty identifier
    assert_eq!(s.get_station_id("data-keywords=\"sopot\" value=\"\"", "Sopot"), Some(String::new()));
}

#[test]
fn departure_message_is_read_from_the_page() {
    let s = skm();
    let body = "<div><p>Najbli\u{017c}sza kolejka za</p>\n<h3 class=\"no-print\">28 min</h3><p>and a lot more text after it to make the window full ........</p></div>";
    assert_eq!(
        s.get_message(body, "Gdansk Wrzeszcz"),
        Some("Next train from station Gdansk Wrzeszcz departs in 28 minutes".to_string())
    );
}

#[test]
fn departure_message_missing() {
    let s = skm();
    // no marker
    assert_eq!(s.get_message("nothing here 5 min", "A"), None);
    // fewer than 100 bytes after the marker
    assert_eq!(s.get_message("Najbliższa kolejka za 3 min", "A"), None);
    // no minutes within the first 100 bytes
    let far = format!("Najbl{}7 min", "x".repeat(200));
    assert_eq!(s.get_message(&far, "A"), None);
}

#[test]
fn departure_window_ends_inside_a_character() {
    let s = skm();
    // 'ż' takes two bytes; it straddles the 100th byte after the marker
    let body = format!("Najbl{}ż 4 min{}", "y".repeat(94), "z".repeat(50));
    assert_eq!(s.get_message(&body, "A"), None);
    // when it ends exactly at the 100th byte the window is accepted
    let body = format!("Najbl12 min{}ż{}", "y".repeat(87), "z".repeat(50));
    assert_eq!(s.get_message(&body, "A"), Some("Next train from station A departs in 12 minutes".to_string()));
}

#[test]
fn timetable_request_url() {
    let s = skm();
    assert_eq!(
        s.timetable_request("7534", "7617", "2021-03-04", "09", "05"),
        "https://skm.trojmiasto.pl//rozklad/?from=7534&to=7617&date=2021-03-04&hour=09%3A05"
    );
}
