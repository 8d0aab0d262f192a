use tephrite_rs::remote_control::{
    escape_html, parse_form_urlencoded, render_index_page, API_DEBUG_ENABLE_PATH, API_ENTITIES_PATH,
    API_TRANSFORM_LOOK_AT_PATH, EVENT_PATH,
};

#[test]
fn render_index_page_contains_expected_js_wiring() {
    let html = render_index_page("<div>controls</div>", Some(15702));
    assert!(html.contains(EVENT_PATH));
    assert!(html.contains(API_ENTITIES_PATH));
    assert!(html.contains(API_TRANSFORM_LOOK_AT_PATH));
    assert!(html.contains("sendUpdate"));
    assert!(html.contains("window.teph"));
    assert!(html.contains("window.teph_quick"));
    assert!(html.contains("jquery.terminal.min.js"));
    assert!(html.contains("jquery.terminal.min.css"));
    assert!(html.contains("Scene Terminal"));
    assert!(html.contains("evaluateTerminalCommand"));
    assert!(html.contains("executeTerminalCommand"));
    assert!(html.contains("Unknown command or variable"));
    assert!(html.contains("help teph_quick"));
    assert!(html.contains("formatEntityList"));
    assert!(html.contains("formatComponentList"));
    assert!(html.contains("ls --all"));
    assert!(html.contains("ls <name or id>"));
    assert!(html.contains("listEntityComponents"));
    assert!(html.contains("Enable Debugging"));
    assert!(html.contains("enableDebugging"));
    assert!(html.contains(API_DEBUG_ENABLE_PATH));
    assert!(html.contains("text/plain;charset=UTF-8"));
    assert!(html.contains("rpc.discover"));
    assert!(html.contains("world.query"));
    assert!(html.contains("world.get_components"));
    assert!(html.contains("world.spawn_entity"));
    assert!(html.contains("world.mutate_components"));
    assert!(html.contains("tephVec3ArrayArgs"));
    assert!(html.contains("world.get_resources"));
    assert!(html.contains("schedule.graph"));
    assert!(html.contains(":15702"));
    assert!(html.contains("sendVec3"));
    assert!(html.contains("setupAnalog"));
    assert!(html.contains("quitApp"));
    assert!(html.contains("Quit</button>"));
}

#[test]
fn index_page_fills_every_placeholder() {
    let html = render_index_page("<p>x</p>", None);
    assert!(html.contains("<div id=\"controls\"><p>x</p></div>"));
    assert!(html.contains("let BRP_URL = null;"));
    assert!(html.contains("'__tephrite_quit'"));
    assert!(!html.contains("{{CONTROLS_HTML}}"));
    assert!(!html.contains("__BRP_URL__"));
    assert!(!html.contains("__EVENT_PATH__"));
    assert!(!html.contains("__QUIT_ID__"));
}

#[test]
fn index_page_debug_url_names_the_port() {
    let html = render_index_page("", Some(8));
    assert!(html.contains("let BRP_URL = 'http://' + window.location.hostname + ':8/';"));
}

#[test]
fn escape_html_escapes_markup_characters() {
    assert_eq!(
        escape_html("<a href=\"x\">Tom & Jerry's</a>"),
        "&lt;a href=&quot;x&quot;&gt;Tom &amp; Jerry&#39;s&lt;/a&gt;"
    );
    assert_eq!(escape_html("plain \u{e9}"), "plain \u{e9}");
    assert_eq!(escape_html(""), "");
}

#[test]
fn parse_form_urlencoded_decodes_plus_and_percent() {
    let map = parse_form_urlencoded(b"id=abc%2B123&value=hello+world%2C42");
    assert_eq!(map.get("id").map(String::as_str), Some("abc+123"));
    assert_eq!(map.get("value").map(String::as_str), Some("hello world,42"));
}
