use tephrite_rs::controls::{render_controls, ControlDefinition, ControlMarkup};
use tephrite_rs::property::lookup_id;

fn def(bits: u64, label: &str, control: ControlMarkup) -> ControlDefinition {
    ControlDefinition { entity_bits: bits, aspect_id: 0, label: label.into(), control }
}

fn text(v: f32) -> String {
    format!("{v}")
}

fn rounded(v: f32) -> String {
    format!("{v:.2}")
}

#[test]
fn render_controls_contains_controls() {
    let defs = vec![
        def(
            1,
            "slider",
            ControlMarkup::Slider {
                min: text(0.0),
                max: text(1.0),
                step: text(0.1),
                initial: text(0.5),
            },
        ),
        def(2, "toggle", ControlMarkup::Toggle { checked: true }),
        def(
            3,
            "select",
            ControlMarkup::Select { options: vec!["A".into(), "B".into()], selected: 1 },
        ),
        def(4, "string", ControlMarkup::Text { initial: "hello".into() }),
        def(
            5,
            "vec3",
            ControlMarkup::Vector3 { x: text(1.0), y: text(2.0), z: text(3.0), step: text(0.1) },
        ),
        def(6, "button", ControlMarkup::Button),
        def(
            7,
            "analog",
            ControlMarkup::Analog {
                x: text(0.2),
                y: text(-0.4),
                x_rounded: rounded(0.2),
                y_rounded: rounded(-0.4),
            },
        ),
    ];

    let html = render_controls(&defs);
    assert!(html.contains("type=\"range\""));
    assert!(html.contains("type=\"checkbox\""));
    assert!(html.contains("<select"));
    assert!(html.contains("type=\"text\""));
    assert!(html.contains("sendVec3"));
    assert!(html.contains("class=\"analog\""));
    assert!(!html.contains("Quit</button>"));
    assert!(html.contains(&format!("value-{}", lookup_id(defs[0].entity_bits, defs[0].aspect_id))));
}

#[test]
fn slider_markup_is_exact() {
    let defs = vec![def(
        9,
        "a<b",
        ControlMarkup::Slider {
            min: "0".into(),
            max: "1".into(),
            step: "0.1".into(),
            initial: "0.5".into(),
        },
    )];
    assert_eq!(
        render_controls(&defs),
        "<div class=\"control\"><label>a&lt;b: <span class=\"value\" id=\"value-9:0\">0.5</span></label>\
         <input type=\"range\" min=\"0\" max=\"1\" step=\"0.1\" value=\"0.5\" \
         oninput=\"setLabel('9:0', this.value)\" onchange=\"sendUpdate('9:0', this.value)\"></div>"
    );
}

#[test]
fn select_marks_the_clamped_initial_option() {
    let defs = vec![def(
        3,
        "s",
        ControlMarkup::Select { options: vec!["A".into(), "<B>".into()], selected: 7 },
    )];
    assert_eq!(
        render_controls(&defs),
        "<div class=\"control\"><label>s</label><select onchange=\"sendUpdate('3:0', this.value)\">\
         <option value=\"A\">A</option><option value=\"&lt;B&gt;\" selected>&lt;B&gt;</option>\
         </select></div>"
    );
    let empty = vec![def(3, "s", ControlMarkup::Select { options: vec![], selected: 2 })];
    assert_eq!(
        render_controls(&empty),
        "<div class=\"control\"><label>s</label><select onchange=\"sendUpdate('3:0', this.value)\">\
         </select></div>"
    );
}

#[test]
fn toggles_and_buttons_render() {
    let defs = vec![
        def(1, "on", ControlMarkup::Toggle { checked: true }),
        def(2, "off", ControlMarkup::Toggle { checked: false }),
        def(3, "go", ControlMarkup::Button),
    ];
    assert_eq!(
        render_controls(&defs),
        "<div class=\"control\"><label><input type=\"checkbox\" checked \
         onchange=\"sendUpdate('1:0', this.checked ? '1' : '0')\">on</label></div>\
         <div class=\"control\"><label><input type=\"checkbox\" \
         onchange=\"sendUpdate('2:0', this.checked ? '1' : '0')\">off</label></div>\
         <div class=\"control\"><button type=\"button\" onclick=\"sendUpdate('3:0', '1')\">go</button></div>"
    );
    assert_eq!(render_controls(&[]), "");
}
