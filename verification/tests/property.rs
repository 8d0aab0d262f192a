use tephrite_rs::property::{
    debug_enable_body, lookup_id, request_target, route_event, select_accepts, text_bool,
    toggle_value,
    EventRoute,
};
use tephrite_rs::remote_control::parse_form_urlencoded;

#[test]
fn lookup_ids_join_entity_bits_and_aspect() {
    assert_eq!(lookup_id(100, 0), "100:0");
    assert_eq!(lookup_id(u64::MAX, u32::MAX), "18446744073709551615:4294967295");
}

#[test]
fn debug_reply_names_the_port_or_null() {
    assert_eq!(debug_enable_body(Some(15702)), "{\"ok\":true,\"brp_port\":15702}");
    assert_eq!(debug_enable_body(None), "{\"ok\":true,\"brp_port\":null}");
}

#[test]
fn scene_requests_name_target_then_id_then_name() {
    let f = parse_form_urlencoded(b"name=bob&id=3&target=Entity(5)");
    assert_eq!(request_target(&f).map(String::as_str), Some("Entity(5)"));
    let f = parse_form_urlencoded(b"name=bob&id=3");
    assert_eq!(request_target(&f).map(String::as_str), Some("3"));
    let f = parse_form_urlencoded(b"name=bob");
    assert_eq!(request_target(&f).map(String::as_str), Some("bob"));
    let f = parse_form_urlencoded(b"x=1");
    assert_eq!(request_target(&f), None);
}

#[test]
fn posted_events_are_routed() {
    let ids = vec!["100:0".to_string(), "101:1".to_string(), "100:0".to_string()];
    let f = parse_form_urlencoded(b"value=1");
    assert_eq!(route_event(&f, Some(&ids)), EventRoute::MissingId);
    let f = parse_form_urlencoded(b"id=__tephrite_quit");
    assert_eq!(route_event(&f, None), EventRoute::Quit);
    let f = parse_form_urlencoded(b"id=100%3A0&value=3");
    assert_eq!(route_event(&f, None), EventRoute::NotReady);
    assert_eq!(route_event(&f, Some(&ids)), EventRoute::Property(2));
    let f = parse_form_urlencoded(b"id=101:1");
    assert_eq!(route_event(&f, Some(&ids)), EventRoute::Property(1));
    let f = parse_form_urlencoded(b"id=5:5");
    assert_eq!(route_event(&f, Some(&ids)), EventRoute::UnknownProperty);
}

#[test]
fn toggles_accept_words_and_digits() {
    for raw in ["1", "true", "on"] {
        assert_eq!(toggle_value(Some(raw)), Some(true));
    }
    for raw in ["0", "false", "off"] {
        assert_eq!(toggle_value(Some(raw)), Some(false));
    }
    assert_eq!(toggle_value(Some("yes")), None);
    assert_eq!(toggle_value(Some("TRUE")), None);
    assert_eq!(toggle_value(None), None);
}

#[test]
fn selects_accept_only_their_options() {
    let options = vec!["low".to_string(), "high".to_string()];
    assert!(select_accepts(&options, &"high".to_string()));
    assert!(!select_accepts(&options, &"mid".to_string()));
    assert!(!select_accepts(&vec![], &"low".to_string()));
}

#[test]
fn text_values_convert_to_truth_values() {
    assert_eq!(text_bool("true"), Some(true));
    assert_eq!(text_bool("TrUe"), Some(true));
    assert_eq!(text_bool("1"), Some(true));
    assert_eq!(text_bool("FALSE"), Some(false));
    assert_eq!(text_bool("0"), Some(false));
    assert_eq!(text_bool("yes"), None);
    assert_eq!(text_bool(""), None);
    assert_eq!(text_bool("truee"), None);
}
