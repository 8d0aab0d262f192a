use tephrite_rs::interactor::{
    button_command_from_lowercase, button_press, interactor_label, interactor_properties,
    parse_button_command, stick_axes, ButtonPress, JoystickAxis, JoystickButton, ANALOG_2_ASPECT,
    ANALOG_ASPECT, BUTTON_ASPECT,
};

fn press(button: JoystickButton, duration_ms: u64) -> Option<ButtonPress> {
    Some(ButtonPress { button, duration_ms })
}

#[test]
fn button_names_map_to_buttons() {
    assert_eq!(button_command_from_lowercase("a"), press(JoystickButton::Button2, 500));
    assert_eq!(button_command_from_lowercase("b"), press(JoystickButton::Button3, 500));
    assert_eq!(button_command_from_lowercase("x"), press(JoystickButton::Button0, 500));
    assert_eq!(button_command_from_lowercase("y"), press(JoystickButton::Button1, 500));
    assert_eq!(button_command_from_lowercase("bl"), press(JoystickButton::BL, 500));
    assert_eq!(button_command_from_lowercase("br"), press(JoystickButton::BR, 500));
    assert_eq!(button_command_from_lowercase("tl"), press(JoystickButton::TL, 500));
    assert_eq!(button_command_from_lowercase("tr"), press(JoystickButton::TR, 500));
    assert_eq!(button_command_from_lowercase("back"), press(JoystickButton::Back, 500));
    assert_eq!(button_command_from_lowercase("start"), press(JoystickButton::Start, 500));
    assert_eq!(button_command_from_lowercase("z"), None);
    assert_eq!(button_command_from_lowercase(""), None);
}

#[test]
fn button_durations_are_parsed_and_clamped() {
    assert_eq!(button_command_from_lowercase("a:250"), press(JoystickButton::Button2, 250));
    assert_eq!(button_command_from_lowercase("a:+250"), press(JoystickButton::Button2, 250));
    assert_eq!(button_command_from_lowercase("a:0"), press(JoystickButton::Button2, 1));
    assert_eq!(button_command_from_lowercase("a:99999"), press(JoystickButton::Button2, 10000));
    assert_eq!(button_command_from_lowercase("a:soon"), press(JoystickButton::Button2, 500));
    assert_eq!(button_command_from_lowercase("a:"), press(JoystickButton::Button2, 500));
    assert_eq!(
        button_command_from_lowercase("a:99999999999999999999999"),
        press(JoystickButton::Button2, 500)
    );
    assert_eq!(button_command_from_lowercase("a:1:2"), press(JoystickButton::Button2, 500));
    assert_eq!(button_command_from_lowercase(":250"), None);
}

#[test]
fn button_commands_ignore_case() {
    assert_eq!(parse_button_command("START:40"), press(JoystickButton::Start, 40));
    assert_eq!(parse_button_command("Bl"), press(JoystickButton::BL, 500));
    assert_eq!(button_command_from_lowercase("Bl"), None);
}

#[test]
fn only_the_button_aspect_presses() {
    assert_eq!(button_press(BUTTON_ASPECT, "X:10"), press(JoystickButton::Button0, 10));
    assert_eq!(button_press(ANALOG_ASPECT, "x"), None);
}

#[test]
fn stick_aspects_drive_their_axes() {
    assert_eq!(stick_axes(ANALOG_ASPECT), Some((JoystickAxis::LeftX, JoystickAxis::LeftY)));
    assert_eq!(stick_axes(ANALOG_2_ASPECT), Some((JoystickAxis::RightX, JoystickAxis::RightY)));
    assert_eq!(stick_axes(BUTTON_ASPECT), None);
}

#[test]
fn interactor_labels_and_properties() {
    let e3v1: u64 = (1u64 << 32) | u64::from(u32::MAX - 3);
    assert_eq!(interactor_label(Some("wand"), e3v1), "wand Buttons");
    assert_eq!(interactor_label(None, e3v1), "Entity 3v1 Buttons");
    let props = interactor_properties("wand Buttons");
    assert_eq!(props.len(), 3);
    assert_eq!(props[0].0, BUTTON_ASPECT);
    assert_eq!(
        props[0].1,
        "wand Buttons (A, B, X, Y, BL, BR, TL, TR, Back, Start)[:ms duration, default 500 ms]"
    );
    assert_eq!(props[1], (ANALOG_ASPECT, "wand Buttons Left Stick (x,y in [-1,1])".to_string()));
    assert_eq!(props[2], (ANALOG_2_ASPECT, "wand Buttons Right Stick (x,y in [-1,1])".to_string()));
}
