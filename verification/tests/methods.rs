use rapidhttp::error::ErrorKind;
use rapidhttp::method::Method;

#[test]
fn standard_methods_are_upper_cased() {
    let cases = [
        ("GET", "GET"),
        ("get", "GET"),
        ("Post", "POST"),
        ("pUt", "PUT"),
        ("delete", "DELETE"),
        ("PaTcH", "PATCH"),
        ("head", "HEAD"),
        ("Options", "OPTIONS"),
    ];
    for (raw, expected) in cases {
        let method = Method::parse(raw).unwrap();
        assert_eq!(method.as_str(), expected);
    }
}

#[test]
fn method_with_a_space_is_refused() {
    let err = Method::parse("G ET").unwrap_err();
    assert_eq!(err.kind(), ErrorKind::InvalidMethod);
    assert_eq!(err.message(), "Invalid HTTP method: invalid HTTP method");
    assert_eq!(err.status_code(), None);
}

#[test]
fn empty_method_is_refused() {
    let err = Method::parse("").unwrap_err();
    assert_eq!(err.kind(), ErrorKind::InvalidMethod);
}

#[test]
fn extension_methods_are_accepted() {
    assert_eq!(Method::parse("purge").unwrap().as_str(), "PURGE");
    assert_eq!(Method::parse("m-search").unwrap().as_str(), "M-SEARCH");
    let long = "averyveryverylongextensionmethod";
    assert_eq!(Method::parse(long).unwrap().as_str(), long.to_uppercase());
}

#[test]
fn characters_outside_the_token_set_are_refused() {
    for raw in ["GE\tT", "GET/", "GET:", "G(ET", "GÉT", "GET\n", "G#T", "G@T"] {
        let err = Method::parse(raw).unwrap_err();
        assert_eq!(err.kind(), ErrorKind::InvalidMethod, "{:?}", raw);
    }
}

#[test]
fn every_character_of_the_token_set_is_accepted() {
    let token = "!*+-.^_`|~0123456789ABCDEFGHIJKLMNOPQRSTUVWXYZ";
    assert_eq!(Method::from_token(token.to_string()).unwrap().as_str(), token);
}

#[test]
fn from_token_keeps_the_case() {
    assert_eq!(Method::from_token("get".to_string()).unwrap().as_str(), "get");
    assert!(Method::from_token("g et".to_string()).is_err());
}

#[test]
fn upper_casing_goes_beyond_ascii() {
    assert_eq!(Method::parse("po\u{17f}t").unwrap().as_str(), "POST");
}

#[test]
fn upper_case_follows_ascii_and_unicode() {
    assert_eq!(rapidhttp::text::upper_case("m-Search1"), "M-SEARCH1");
    assert_eq!(rapidhttp::text::upper_case(""), "");
    assert_eq!(rapidhttp::text::upper_case("stra\u{df}e"), "STRASSE");
    assert_eq!(rapidhttp::text::upper_case("\u{e9}t\u{e9}"), "\u{c9}T\u{c9}");
}

#[test]
fn non_ascii_text_that_maps_to_no_token_is_refused() {
    let err = Method::parse("g\u{e9}t").unwrap_err();
    assert_eq!(err.kind(), ErrorKind::InvalidMethod);
}
