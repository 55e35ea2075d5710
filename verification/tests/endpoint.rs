use epitech_api::endpoint::resolve;
use epitech_api::ENDPOINT;

#[test]
fn origin_is_the_intranet() {
    assert_eq!(ENDPOINT, "https://intra.epitech.eu");
}

#[test]
fn relative_path_gets_origin_and_flag() {
    assert_eq!(resolve("/user"), "https://intra.epitech.eu/user?format=json");
}

#[test]
fn path_with_query_is_joined_by_ampersand() {
    assert_eq!(
        resolve("/user/filter/location?active=true"),
        "https://intra.epitech.eu/user/filter/location?active=true&format=json"
    );
}

#[test]
fn flag_after_question_mark_is_recognised() {
    assert_eq!(
        resolve("/complete/user?format=json&contains&search=abc"),
        "https://intra.epitech.eu/complete/user?format=json&contains&search=abc"
    );
}

#[test]
fn flag_after_ampersand_is_recognised() {
    assert_eq!(
        resolve("/user?active=true&format=json"),
        "https://intra.epitech.eu/user?active=true&format=json"
    );
}

#[test]
fn absolute_path_keeps_its_origin() {
    assert_eq!(
        resolve("https://intra.epitech.eu/user"),
        "https://intra.epitech.eu/user?format=json"
    );
}

#[test]
fn resolved_url_is_left_unchanged() {
    let url = "https://intra.epitech.eu/user?format=json";
    assert_eq!(resolve(url), url);
}

#[test]
fn resolving_twice_is_resolving_once() {
    for path in [
        "",
        "/user",
        "/user?x=1",
        "user",
        "https://intra.epitech.eu",
        "https://intra.epitech.eu/user?format=json",
        "http://intra.epitech.eu/user",
        "/user?FORMAT=JSON",
        "/user/é?q=ü",
    ] {
        let once = resolve(path);
        assert_eq!(resolve(&once), once);
        assert!(once.starts_with(ENDPOINT));
        assert!(once.contains("?format=json") || once.contains("&format=json"));
    }
}

#[test]
fn flag_in_other_case_is_doubled() {
    assert_eq!(
        resolve("https://intra.epitech.eu/user?FORMAT=JSON"),
        "https://intra.epitech.eu/user?FORMAT=JSON&format=json"
    );
}

#[test]
fn flag_without_separator_is_doubled() {
    assert_eq!(resolve("/format=json"), "https://intra.epitech.eu/format=json?format=json");
}

#[test]
fn other_origin_is_prefixed() {
    assert_eq!(
        resolve("https://example.org/user"),
        "https://intra.epitech.euhttps://example.org/user?format=json"
    );
}

#[test]
fn empty_path_is_the_origin_with_flag() {
    assert_eq!(resolve(""), "https://intra.epitech.eu?format=json");
}

#[test]
fn origin_must_stand_at_the_start() {
    assert_eq!(
        resolve("/go?to=https://intra.epitech.eu"),
        "https://intra.epitech.eu/go?to=https://intra.epitech.eu&format=json"
    );
}
