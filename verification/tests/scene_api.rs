use tephrite_rs::scene_api::{parse_entity_checked, resolve_entity_checked};
use tephrite_rs::scene_api::{
    entity_by_exact_name, json_escape, parse_entity, render_entities_json, resolve_entity, EntityRow,
};

fn row(bits: u64, name: Option<&str>, has_transform: bool) -> EntityRow {
    EntityRow { bits, name: name.map(|n| n.to_string()), has_transform }
}

#[test]
fn entities_listing_filters_by_exact_name() {
    let rows = vec![row(7, Some("bob"), true), row(8, None, false), row(9, Some("bobby"), true)];
    let json = render_entities_json(&rows, Some("bob"));
    assert_eq!(json, "{\"entities\":[{\"id\":\"7\",\"name\":\"bob\",\"has_transform\":true}]}");
    assert!(json.contains("\"id\":\"7\""));
    assert!(json.contains("\"name\":\"bob\""));
    assert!(json.contains("\"has_transform\":true"));
}

#[test]
fn entities_listing_without_filter_lists_every_row() {
    let rows = vec![row(7, Some("a\"b"), true), row(4294967297, None, false)];
    let json = render_entities_json(&rows, None);
    assert_eq!(
        json,
        "{\"entities\":[{\"id\":\"7\",\"name\":\"a\\\"b\",\"has_transform\":true},\
         {\"id\":\"4294967297\",\"name\":null,\"has_transform\":false}]}"
    );
    assert_eq!(render_entities_json(&[], None), "{\"entities\":[]}");
    assert_eq!(render_entities_json(&rows, Some("nobody")), "{\"entities\":[]}");
}

#[test]
fn json_escape_escapes_quotes_backslashes_and_controls() {
    assert_eq!(json_escape("plain"), "plain");
    assert_eq!(json_escape("a\"b\\c"), "a\\\"b\\\\c");
    assert_eq!(json_escape("l1\nl2\r\t"), "l1\\nl2\\r\\t");
    assert_eq!(json_escape("\u{1}\u{7f}\u{9f}é"), "\\u0001\\u007f\\u009fé");
}

#[test]
fn entity_targets_parse_with_or_without_wrapper() {
    assert_eq!(parse_entity("Entity(42)"), Some(42));
    assert_eq!(parse_entity("42"), Some(42));
    assert_eq!(parse_entity("+42"), Some(42));
    assert_eq!(parse_entity("Entity(+7)"), Some(7));
    assert_eq!(parse_entity("18446744073709551615"), Some(u64::MAX));
    assert_eq!(parse_entity("18446744073709551616"), None);
    assert_eq!(parse_entity("Entity()"), None);
    assert_eq!(parse_entity("Entity(4"), None);
    assert_eq!(parse_entity("bob"), None);
    assert_eq!(parse_entity(""), None);
    assert_eq!(parse_entity("+"), None);
}

#[test]
fn exact_name_lookup_takes_the_first_match() {
    let rows = vec![row(3, Some("bobby"), false), row(5, Some("bob"), true), row(6, Some("bob"), false)];
    assert_eq!(entity_by_exact_name(&rows, "bob"), Some(5));
    assert_eq!(entity_by_exact_name(&rows, "bo"), None);
    assert_eq!(entity_by_exact_name(&[], "bob"), None);
}

#[test]
fn targets_resolve_to_existing_ids_before_names() {
    let rows = vec![row(12, Some("42"), true), row(42, Some("cube"), true)];
    assert_eq!(resolve_entity(&rows, "Entity(42)"), Some(42));
    assert_eq!(resolve_entity(&rows, "42"), Some(42));
    assert_eq!(resolve_entity(&rows, "cube"), Some(42));
}

#[test]
fn targets_with_unknown_ids_fall_back_to_names() {
    let rows = vec![row(12, Some("7"), true), row(13, Some("lamp"), false)];
    assert_eq!(resolve_entity(&rows, "7"), Some(12));
    assert_eq!(resolve_entity(&rows, "Entity(99)"), None);
    assert_eq!(resolve_entity(&rows, "sofa"), None);
}

#[test]
fn checked_targets_refuse_bits_that_name_no_entity() {
    assert_eq!(parse_entity_checked("42"), Some(42));
    assert_eq!(parse_entity_checked("0"), None);
    assert_eq!(parse_entity_checked("Entity(4294967296)"), None);
    assert_eq!(parse_entity_checked("bob"), None);
    let rows = vec![row(42, Some("0"), true)];
    assert_eq!(resolve_entity_checked(&rows, "0"), None);
    assert_eq!(resolve_entity_checked(&rows, "42"), Some(42));
}
