//! The simulated joystick of the remote-control page: the properties that an
//! interactor offers, and what a button command or a stick aspect asks for.
//!
//! A button command is a button name, optionally followed by `:` and how
//! long the press lasts in milliseconds, e.g. `a` or `start:250`.
use crate::property::ascii_lowercase;
use crate::scene_api::{parse_u64, parse_u64_range};
use crate::text::{push_chars, str_chars, string_from_chars};
use crate::use_cases::{entity_label, entity_label_text, labeled_view, opt_view, valid_entity_bits};
use vstd::prelude::*;

verus! {

/// The aspect of an interactor's button property.
pub const BUTTON_ASPECT: u32 = 10;

/// The aspect of an interactor's left stick property.
pub const ANALOG_ASPECT: u32 = 11;

/// The aspect of an interactor's right stick property.
pub const ANALOG_2_ASPECT: u32 = 12;

/// How long a press lasts when the command names no duration, or one that
/// does not parse.
pub const DEFAULT_PRESS_MS: u64 = 500;

/// The shortest press.
pub const MIN_PRESS_MS: u64 = 1;

/// The longest press.
pub const MAX_PRESS_MS: u64 = 10000;

/// The buttons that a command can press.
#[derive(PartialEq, Eq, Structural, Debug, Clone, Copy)]
pub enum JoystickButton {
    Button0,
    Button1,
    Button2,
    Button3,
    BL,
    BR,
    TL,
    TR,
    Back,
    Start,
}

/// The stick axes.
#[derive(PartialEq, Eq, Structural, Debug, Clone, Copy)]
pub enum JoystickAxis {
    LeftX,
    LeftY,
    RightX,
    RightY,
}

/// A press of `button` that is released after `duration_ms` milliseconds.
#[derive(PartialEq, Eq, Structural, Debug, Clone, Copy)]
pub struct ButtonPress {
    pub button: JoystickButton,
    pub duration_ms: u64,
}

// MARK: Button commands

/// The button that a lower-case name stands for.
pub open spec fn button_named(name: Seq<char>) -> Option<JoystickButton> {
    if name == "a"@ {
        Some(JoystickButton::Button2)
    } else if name == "b"@ {
        Some(JoystickButton::Button3)
    } else if name == "x"@ {
        Some(JoystickButton::Button0)
    } else if name == "y"@ {
        Some(JoystickButton::Button1)
    } else if name == "bl"@ {
        Some(JoystickButton::BL)
    } else if name == "br"@ {
        Some(JoystickButton::BR)
    } else if name == "tl"@ {
        Some(JoystickButton::TL)
    } else if name == "tr"@ {
        Some(JoystickButton::TR)
    } else if name == "back"@ {
        Some(JoystickButton::Back)
    } else if name == "start"@ {
        Some(JoystickButton::Start)
    } else {
        None
    }
}

/// `v` brought into the range of press durations.
pub open spec fn clamp_press(v: u64) -> u64 {
    if v < MIN_PRESS_MS {
        MIN_PRESS_MS
    } else if v > MAX_PRESS_MS {
        MAX_PRESS_MS
    } else {
        v
    }
}

/// The duration that the text after the `:` asks for.
pub open spec fn press_duration(text: Seq<char>) -> u64 {
    match parse_u64(text) {
        Some(v) => clamp_press(v),
        None => DEFAULT_PRESS_MS,
    }
}

/// `k` is where the first `:` of `s` stands.
pub open spec fn is_first_colon(s: Seq<char>, k: int) -> bool {
    &&& 0 <= k < s.len()
    &&& s[k] == ':'
    &&& forall|j: int| 0 <= j < k ==> s[j] != ':'
}

/// The press that a lower-case command asks for: the name before the first
/// `:` (or the whole command) picks the button, the text after it the
/// duration.
pub open spec fn button_command(lower: Seq<char>) -> Option<ButtonPress> {
    let has_colon = exists|k: int| is_first_colon(lower, k);
    let k = choose|k: int| is_first_colon(lower, k);
    let name = if has_colon {
        lower.take(k)
    } else {
        lower
    };
    let ms = if has_colon {
        press_duration(lower.skip(k + 1))
    } else {
        DEFAULT_PRESS_MS
    };
    match button_named(name) {
        Some(b) => Some(ButtonPress { button: b, duration_ms: ms }),
        None => None,
    }
}

fn is_name(name: &String, lit: &str) -> (r: bool)
    ensures
        r == (name@ == lit@),
{
    *name == lit.to_owned()
}

fn button_for(name: &String) -> (r: Option<JoystickButton>)
    ensures
        r == button_named(name@),
{
    if is_name(name, "a") {
        Some(JoystickButton::Button2)
    } else if is_name(name, "b") {
        Some(JoystickButton::Button3)
    } else if is_name(name, "x") {
        Some(JoystickButton::Button0)
    } else if is_name(name, "y") {
        Some(JoystickButton::Button1)
    } else if is_name(name, "bl") {
        Some(JoystickButton::BL)
    } else if is_name(name, "br") {
        Some(JoystickButton::BR)
    } else if is_name(name, "tl") {
        Some(JoystickButton::TL)
    } else if is_name(name, "tr") {
        Some(JoystickButton::TR)
    } else if is_name(name, "back") {
        Some(JoystickButton::Back)
    } else if is_name(name, "start") {
        Some(JoystickButton::Start)
    } else {
        None
    }
}

/// The press that an already lower-cased command asks for, if it names a
/// button.
pub fn button_command_from_lowercase(lower: &str) -> (r: Option<ButtonPress>)
    ensures
        r == button_command(lower@),
{
    let chars = str_chars(lower);
    let n = chars.len();
    let mut k: usize = 0;
    while k < n && chars[k] != ':'
        invariant
            0 <= k <= n,
            n == chars@.len(),
            chars@ == lower@,
            forall|j: int| 0 <= j < k ==> chars@[j] != ':',
        decreases n - k,
    {
        k = k + 1;
    }
    let has_colon = k < n;
    proof {
        if has_colon {
            assert(is_first_colon(lower@, k as int));
            assert forall|m: int| is_first_colon(lower@, m) implies m == k by {
                if m < k {
                    assert(chars@[m] != ':');
                }
                if m > k {
                    assert(lower@[k as int] == ':');
                }
            }
        } else {
            assert forall|m: int| !is_first_colon(lower@, m) by {
                if 0 <= m < lower@.len() {
                    assert(chars@[m] != ':');
                }
            }
        }
    }
    let name = string_from_chars(vstd::slice::slice_subrange(chars.as_slice(), 0, k));
    assert(name@ =~= (if has_colon {
        lower@.take(k as int)
    } else {
        lower@
    }));
    let ms = if has_colon {
        match parse_u64_range(&chars, k + 1, n) {
            Some(v) => if v < MIN_PRESS_MS {
                MIN_PRESS_MS
            } else if v > MAX_PRESS_MS {
                MAX_PRESS_MS
            } else {
                v
            },
            None => DEFAULT_PRESS_MS,
        }
    } else {
        DEFAULT_PRESS_MS
    };
    proof {
        if has_colon {
            assert(chars@.subrange(k + 1, n as int) =~= lower@.skip(k + 1));
        }
    }
    match button_for(&name) {
        Some(b) => Some(ButtonPress { button: b, duration_ms: ms }),
        None => None,
    }
}

/// Every character of `s` is ASCII.
pub open spec fn is_ascii_text(s: Seq<char>) -> bool {
    forall|i: int| 0 <= i < s.len() ==> (s[i] as u32) < 128
}

/// What `str::to_lowercase` makes of a text.
pub uninterp spec fn text_lowercase(s: Seq<char>) -> Seq<char>;

/// `str::to_lowercase`: the text in Unicode lower case.  The mapping is
/// Unicode's and is named here; on ASCII text it is stated: `A` to `Z`
/// become `a` to `z` and every other character stays.
#[verifier::external_body]
fn lowercase_text(s: &str) -> (l: String)
    ensures
        l@ == text_lowercase(s@),
        is_ascii_text(s@) ==> l@ == ascii_lowercase(s@),
{
    s.to_lowercase()
}

/// The press that a command asks for, in any case: the command is lowered
/// as a whole, then read as `button_command_from_lowercase` reads it.
pub fn parse_button_command(text: &str) -> (r: Option<ButtonPress>)
    ensures
        r == button_command(text_lowercase(text@)),
        is_ascii_text(text@) ==> r == button_command(ascii_lowercase(text@)),
{
    let lower = lowercase_text(text);
    button_command_from_lowercase(lower.as_str())
}

/// What a property event on an interactor presses: nothing unless it is for
/// the button aspect.
pub fn button_press(aspect_id: u32, text: &str) -> (r: Option<ButtonPress>)
    ensures
        r == (if aspect_id == BUTTON_ASPECT {
            button_command(text_lowercase(text@))
        } else {
            None
        }),
        is_ascii_text(text@) ==> r == (if aspect_id == BUTTON_ASPECT {
            button_command(ascii_lowercase(text@))
        } else {
            None
        }),
{
    if aspect_id != BUTTON_ASPECT {
        return None;
    }
    parse_button_command(text)
}

// MARK: Sticks

/// The axes that a stick aspect drives, horizontal first.
pub open spec fn axes_of(aspect_id: u32) -> Option<(JoystickAxis, JoystickAxis)> {
    if aspect_id == ANALOG_ASPECT {
        Some((JoystickAxis::LeftX, JoystickAxis::LeftY))
    } else if aspect_id == ANALOG_2_ASPECT {
        Some((JoystickAxis::RightX, JoystickAxis::RightY))
    } else {
        None
    }
}

/// The axes that a property event on an interactor drives.
pub fn stick_axes(aspect_id: u32) -> (r: Option<(JoystickAxis, JoystickAxis)>)
    ensures
        r == axes_of(aspect_id),
{
    if aspect_id == ANALOG_ASPECT {
        Some((JoystickAxis::LeftX, JoystickAxis::LeftY))
    } else if aspect_id == ANALOG_2_ASPECT {
        Some((JoystickAxis::RightX, JoystickAxis::RightY))
    } else {
        None
    }
}

// MARK: Property labels

pub const BUTTONS_SUFFIX: &'static str = " Buttons";

pub const BUTTON_HELP: &'static str =
    " (A, B, X, Y, BL, BR, TL, TR, Back, Start)[:ms duration, default 500 ms]";

pub const LEFT_STICK_HELP: &'static str = " Left Stick (x,y in [-1,1])";

pub const RIGHT_STICK_HELP: &'static str = " Right Stick (x,y in [-1,1])";

/// The label of an interactor's properties: its name, or `Entity` and the
/// entity's text, followed by ` Buttons`.
pub fn interactor_label(name: Option<&str>, entity: u64) -> (l: String)
    requires
        valid_entity_bits(entity),
    ensures
        l@ == entity_label_text(opt_view(name), entity, BUTTONS_SUFFIX@),
{
    entity_label(name, entity, BUTTONS_SUFFIX)
}

/// The properties an interactor offers, as aspect and label: its buttons,
/// its left stick and its right stick.
pub open spec fn interactor_properties_spec(label: Seq<char>) -> Seq<(u32, Seq<char>)> {
    seq![
        (BUTTON_ASPECT, label + BUTTON_HELP@),
        (ANALOG_ASPECT, label + LEFT_STICK_HELP@),
        (ANALOG_2_ASPECT, label + RIGHT_STICK_HELP@),
    ]
}

fn joined(a: &str, b: &str) -> (s: String)
    ensures
        s@ == a@ + b@,
{
    let mut out: Vec<char> = Vec::new();
    push_chars(&mut out, a);
    push_chars(&mut out, b);
    string_from_chars(out.as_slice())
}

/// The properties an interactor offers under `label`.
pub fn interactor_properties(label: &str) -> (props: Vec<(u32, String)>)
    ensures
        labeled_view(props@) == interactor_properties_spec(label@),
{
    let mut props: Vec<(u32, String)> = Vec::new();
    props.push((BUTTON_ASPECT, joined(label, BUTTON_HELP)));
    props.push((ANALOG_ASPECT, joined(label, LEFT_STICK_HELP)));
    props.push((ANALOG_2_ASPECT, joined(label, RIGHT_STICK_HELP)));
    assert(labeled_view(props@) =~= interactor_properties_spec(label@));
    props
}

} // verus!
