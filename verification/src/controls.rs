//! The markup of the remote-control page's controls.
//!
//! Numbers appear on the page as the application formats them, so the
//! controls carry them as text.
use crate::property::{lookup_id, lookup_id_text};
use crate::remote_control::{escape_html, spec_escape_html};
use crate::text::{push_chars, string_from_chars};
use vstd::prelude::*;

verus! {

/// A control and the values that its markup shows.
pub enum ControlMarkup {
    /// A numeric slider.
    Slider { min: String, max: String, step: String, initial: String },
    /// A slider with a low and a high handle.
    RangeSlider { min: String, max: String, step: String, initial_low: String, initial_high: String },
    /// A checkbox.
    Toggle { checked: bool },
    /// A dropdown of fixed options, with the index of the initial one.
    Select { options: Vec<String>, selected: usize },
    /// A free-form text field.
    Text { initial: String },
    /// Three number fields, one per axis, with their step.
    Vector3 { x: String, y: String, z: String, step: String },
    /// A two-axis stick: its position, and the position rounded to two
    /// decimals as its label shows it.
    Analog { x: String, y: String, x_rounded: String, y_rounded: String },
    /// A push button.
    Button,
}

/// A property as the page shows it.
pub struct ControlDefinition {
    pub entity_bits: u64,
    pub aspect_id: u32,
    pub label: String,
    pub control: ControlMarkup,
}

/// The markup of a control other than a select, with its label escaped and
/// its property id.
pub open spec fn control_html(label: Seq<char>, pid: Seq<char>, c: ControlMarkup) -> Seq<char> {
    match c {
        ControlMarkup::Slider { min, max, step, initial } => {
            Seq::<char>::empty() +
            "<div class=\"control\"><label>"@ +
            label +
            ": <span class=\"value\" id=\"value-"@ +
            pid +
            "\">"@ +
            initial@ +
            "</span></label><input type=\"range\" min=\""@ +
            min@ +
            "\" max=\""@ +
            max@ +
            "\" step=\""@ +
            step@ +
            "\" value=\""@ +
            initial@ +
            "\" oninput=\"setLabel('"@ +
            pid +
            "', this.value)\" onchange=\"sendUpdate('"@ +
            pid +
            "', this.value)\"></div>"@
        },
        ControlMarkup::RangeSlider { min, max, step, initial_low, initial_high } => {
            Seq::<char>::empty() +
            "<div class=\"control\"><label>"@ +
            label +
            ": <span class=\"value\" id=\"value-"@ +
            pid +
            "\">"@ +
            initial_low@ +
            " - "@ +
            initial_high@ +
            "</span></label><div class=\"dual-range-wrapper\"><div class=\"slider-track\" id=\"track-"@ +
            pid +
            "\"></div><input type=\"range\" id=\"dual-"@ +
            pid +
            "-low\" min=\""@ +
            min@ +
            "\" max=\""@ +
            max@ +
            "\" step=\""@ +
            step@ +
            "\" value=\""@ +
            initial_low@ +
            "\" oninput=\"updateDualRange('"@ +
            pid +
            "', "@ +
            min@ +
            ", "@ +
            max@ +
            ")\" onchange=\"sendDualRange('"@ +
            pid +
            "')\"><input type=\"range\" id=\"dual-"@ +
            pid +
            "-high\" min=\""@ +
            min@ +
            "\" max=\""@ +
            max@ +
            "\" step=\""@ +
            step@ +
            "\" value=\""@ +
            initial_high@ +
            "\" oninput=\"updateDualRange('"@ +
            pid +
            "', "@ +
            min@ +
            ", "@ +
            max@ +
            ")\" onchange=\"sendDualRange('"@ +
            pid +
            "')\"></div></div>"@
        },
        ControlMarkup::Toggle { checked } => {
            Seq::<char>::empty() +
            "<div class=\"control\"><label><input type=\"checkbox\""@ +
            (if checked { " checked"@ } else { ""@ }) +
            " onchange=\"sendUpdate('"@ +
            pid +
            "', this.checked ? '1' : '0')\">"@ +
            label +
            "</label></div>"@
        },
        ControlMarkup::Text { initial } => {
            Seq::<char>::empty() +
            "<div class=\"control\"><label>"@ +
            label +
            "</label><input type=\"text\" value=\""@ +
            spec_escape_html(initial@) +
            "\" onchange=\"sendUpdate('"@ +
            pid +
            "', this.value)\"></div>"@
        },
        ControlMarkup::Vector3 { x, y, z, step } => {
            Seq::<char>::empty() +
            "<div class=\"control\"><label>"@ +
            label +
            "</label><div class=\"vec3\"><input id=\"vec3-"@ +
            pid +
            "-x\" type=\"number\" step=\""@ +
            step@ +
            "\" value=\""@ +
            x@ +
            "\"><input id=\"vec3-"@ +
            pid +
            "-y\" type=\"number\" step=\""@ +
            step@ +
            "\" value=\""@ +
            y@ +
            "\"><input id=\"vec3-"@ +
            pid +
            "-z\" type=\"number\" step=\""@ +
            step@ +
            "\" value=\""@ +
            z@ +
            "\"><button type=\"button\" onclick=\"sendVec3('"@ +
            pid +
            "')\">Set</button></div></div>"@
        },
        ControlMarkup::Analog { x, y, x_rounded, y_rounded } => {
            Seq::<char>::empty() +
            "<div class=\"control\"><label>"@ +
            label +
            ": <span class=\"value\" id=\"analog-value-"@ +
            pid +
            "\">"@ +
            x_rounded@ +
            ", "@ +
            y_rounded@ +
            "</span></label><div class=\"analog\" id=\"analog-"@ +
            pid +
            "\" data-prop-id=\""@ +
            pid +
            "\" data-x=\""@ +
            x@ +
            "\" data-y=\""@ +
            y@ +
            "\" tabindex=\"0\" role=\"slider\" aria-label=\""@ +
            label +
            "\" aria-valuemin=\"-1\" aria-valuemax=\"1\" aria-valuetext=\""@ +
            x_rounded@ +
            ", "@ +
            y_rounded@ +
            "\"><div class=\"analog-cross\"></div><div class=\"analog-stick\" id=\"analog-stick-"@ +
            pid +
            "\"></div></div></div>"@
        },
        ControlMarkup::Button => {
            Seq::<char>::empty() +
            "<div class=\"control\"><button type=\"button\" onclick=\"sendUpdate('"@ +
            pid +
            "', '1')\">"@ +
            label +
            "</button></div>"@
        },
        ControlMarkup::Select { options, selected } => select_html(
            label,
            pid,
            options@.map_values(|o: String| spec_escape_html(o@)),
            selected as int,
        ),
    }
}

/// The option that a select shows first: the initial index, within range.
pub open spec fn safe_initial(count: int, initial: int) -> int {
    if count == 0 {
        0
    } else if initial < count - 1 {
        initial
    } else {
        count - 1
    }
}

pub open spec fn select_head(label: Seq<char>, pid: Seq<char>) -> Seq<char> {
    Seq::<char>::empty() +
    "<div class=\"control\"><label>"@ +
    label +
    "</label><select onchange=\"sendUpdate('"@ +
    pid +
    "', this.value)\">"@
}

/// One option of a select, with its text escaped.
pub open spec fn option_html(escaped: Seq<char>, selected: bool) -> Seq<char> {
    Seq::<char>::empty() +
    "<option value=\""@ +
    escaped +
    "\""@ +
    (if selected { " selected"@ } else { ""@ }) +
    ">"@ +
    escaped +
    "</option>"@
}

/// The options of a select, the one at index `sel` selected.
pub open spec fn options_html(escaped: Seq<Seq<char>>, sel: int) -> Seq<char>
    decreases escaped.len(),
{
    if escaped.len() == 0 {
        Seq::<char>::empty()
    } else {
        options_html(escaped.drop_last(), sel) + option_html(
            escaped.last(),
            escaped.len() - 1 == sel,
        )
    }
}

/// The markup of a select with escaped options.
pub open spec fn select_html(
    label: Seq<char>,
    pid: Seq<char>,
    escaped: Seq<Seq<char>>,
    initial: int,
) -> Seq<char> {
    select_head(label, pid) + options_html(escaped, safe_initial(escaped.len() as int, initial))
        + "</select></div>"@
}

/// The markup of one property.
pub open spec fn definition_html(d: ControlDefinition) -> Seq<char> {
    control_html(spec_escape_html(d.label@), lookup_id_text(d.entity_bits, d.aspect_id), d.control)
}

/// The markup of properties, one after the other.
pub open spec fn controls_html(defs: Seq<ControlDefinition>) -> Seq<char>
    decreases defs.len(),
{
    if defs.len() == 0 {
        Seq::<char>::empty()
    } else {
        controls_html(defs.drop_last()) + definition_html(defs.last())
    }
}

/// One number field of a three-axis control: the input whose id names the
/// property and the axis, with the step and the value it shows.
pub open spec fn vec3_field(pid: Seq<char>, axis: char, step: Seq<char>, value: Seq<char>) -> Seq<char> {
    "<input id=\"vec3-"@ + pid + seq!['-', axis] + "\" type=\"number\" step=\""@ + step
        + "\" value=\""@ + value + "\">"@
}

/// Whether `part` occurs in `whole` as a contiguous run.
pub open spec fn occurs_in(whole: Seq<char>, part: Seq<char>) -> bool {
    exists|k: int|
        0 <= k && k + part.len() <= whole.len() && #[trigger] whole.subrange(k, k + part.len())
            == part
}

/// In the markup of a three-axis control, the number field whose id ends in
/// `-x` shows the x value, the one ending in `-y` the y value and the one
/// ending in `-z` the z value, each with the control's step.
pub proof fn lemma_vector3_fields(label: Seq<char>, pid: Seq<char>, c: ControlMarkup)
    ensures
        match c {
            ControlMarkup::Vector3 { x, y, z, step } => {
                &&& occurs_in(control_html(label, pid, c), vec3_field(pid, 'x', step@, x@))
                &&& occurs_in(control_html(label, pid, c), vec3_field(pid, 'y', step@, y@))
                &&& occurs_in(control_html(label, pid, c), vec3_field(pid, 'z', step@, z@))
            },
            _ => true,
        },
{
    match c {
        ControlMarkup::Vector3 { x, y, z, step } => {
            reveal_strlit("</label><div class=\"vec3\"><input id=\"vec3-");
            reveal_strlit("</label><div class=\"vec3\">");
            reveal_strlit("<input id=\"vec3-");
            reveal_strlit("-x\" type=\"number\" step=\"");
            reveal_strlit("-y\" type=\"number\" step=\"");
            reveal_strlit("-z\" type=\"number\" step=\"");
            reveal_strlit("\" type=\"number\" step=\"");
            reveal_strlit("\"><input id=\"vec3-");
            reveal_strlit("\">");
            reveal_strlit("\"><button type=\"button\" onclick=\"sendVec3('");
            reveal_strlit("<button type=\"button\" onclick=\"sendVec3('");
            let open_input = "<input id=\"vec3-"@;
            let step_attr = "\" type=\"number\" step=\""@;
            let close = "\">"@;
            assert("</label><div class=\"vec3\"><input id=\"vec3-"@
                =~= "</label><div class=\"vec3\">"@ + open_input);
            assert("-x\" type=\"number\" step=\""@ =~= seq!['-', 'x'] + step_attr);
            assert("-y\" type=\"number\" step=\""@ =~= seq!['-', 'y'] + step_attr);
            assert("-z\" type=\"number\" step=\""@ =~= seq!['-', 'z'] + step_attr);
            assert("\"><input id=\"vec3-"@ =~= close + open_input);
            assert("\"><button type=\"button\" onclick=\"sendVec3('"@
                =~= close + "<button type=\"button\" onclick=\"sendVec3('"@);
            let fx = vec3_field(pid, 'x', step@, x@);
            let fy = vec3_field(pid, 'y', step@, y@);
            let fz = vec3_field(pid, 'z', step@, z@);
            let pre = Seq::<char>::empty() + "<div class=\"control\"><label>"@ + label
                + "</label><div class=\"vec3\">"@;
            let post = "<button type=\"button\" onclick=\"sendVec3('"@ + pid
                + "')\">Set</button></div></div>"@;
            let html = control_html(label, pid, c);
            assert(html =~= pre + fx + fy + fz + post);
            let kx = pre.len() as int;
            let ky = kx + fx.len();
            let kz = ky + fy.len();
            assert(html.subrange(kx, kx + fx.len()) =~= fx);
            assert(html.subrange(ky, ky + fy.len()) =~= fy);
            assert(html.subrange(kz, kz + fz.len()) =~= fz);
        },
        _ => {},
    }
}

fn select_head_chars(label: &str, pid: &str) -> (out: Vec<char>)
    ensures
        out@ == select_head(label@, pid@),
{
    let mut out: Vec<char> = Vec::new();
    push_chars(&mut out, "<div class=\"control\"><label>");
    push_chars(&mut out, label);
    push_chars(&mut out, "</label><select onchange=\"sendUpdate('");
    push_chars(&mut out, pid);
    push_chars(&mut out, "', this.value)\">");
    out
}

fn option_chars(escaped: &str, selected: bool) -> (out: Vec<char>)
    ensures
        out@ == option_html(escaped@, selected),
{
    let mut out: Vec<char> = Vec::new();
    push_chars(&mut out, "<option value=\"");
    push_chars(&mut out, escaped);
    push_chars(&mut out, "\"");
    if selected {
        push_chars(&mut out, " selected");
    } else {
        push_chars(&mut out, "");
    }
    push_chars(&mut out, ">");
    push_chars(&mut out, escaped);
    push_chars(&mut out, "</option>");
    out
}

fn select_chars(label: &str, pid: &str, options: &Vec<String>, initial: usize) -> (out: Vec<char>)
    ensures
        out@ == select_html(
            label@,
            pid@,
            options@.map_values(|o: String| spec_escape_html(o@)),
            initial as int,
        ),
{
    let ghost escaped = options@.map_values(|o: String| spec_escape_html(o@));
    let n = options.len();
    let sel = if n == 0 {
        0
    } else if initial < n - 1 {
        initial
    } else {
        n - 1
    };
    let mut out = select_head_chars(label, pid);
    let ghost head = out@;
    let mut i: usize = 0;
    while i < n
        invariant
            0 <= i <= n,
            n == options@.len(),
            escaped == options@.map_values(|o: String| spec_escape_html(o@)),
            sel == safe_initial(n as int, initial as int),
            out@ == head + options_html(escaped.take(i as int), sel as int),
        decreases n - i,
    {
        let e = escape_html(options[i].as_str());
        let mut piece = option_chars(e.as_str(), i == sel);
        assert(escaped.take(i + 1).drop_last() =~= escaped.take(i as int));
        assert(escaped.take(i + 1).last() == e@);
        out.append(&mut piece);
        i = i + 1;
    }
    assert(escaped.take(n as int) =~= escaped);
    push_chars(&mut out, "</select></div>");
    out
}

fn control_chars(label: &str, pid: &str, c: &ControlMarkup) -> (out: Vec<char>)
    ensures
        out@ == control_html(label@, pid@, *c),
{
    let mut out: Vec<char> = Vec::new();
    match c {
        ControlMarkup::Slider { min, max, step, initial } => {
            push_chars(&mut out, "<div class=\"control\"><label>");
            push_chars(&mut out, label);
            push_chars(&mut out, ": <span class=\"value\" id=\"value-");
            push_chars(&mut out, pid);
            push_chars(&mut out, "\">");
            push_chars(&mut out, initial.as_str());
            push_chars(&mut out, "</span></label><input type=\"range\" min=\"");
            push_chars(&mut out, min.as_str());
            push_chars(&mut out, "\" max=\"");
            push_chars(&mut out, max.as_str());
            push_chars(&mut out, "\" step=\"");
            push_chars(&mut out, step.as_str());
            push_chars(&mut out, "\" value=\"");
            push_chars(&mut out, initial.as_str());
            push_chars(&mut out, "\" oninput=\"setLabel('");
            push_chars(&mut out, pid);
            push_chars(&mut out, "', this.value)\" onchange=\"sendUpdate('");
            push_chars(&mut out, pid);
            push_chars(&mut out, "', this.value)\"></div>");
        },
        ControlMarkup::RangeSlider { min, max, step, initial_low, initial_high } => {
            push_chars(&mut out, "<div class=\"control\"><label>");
            push_chars(&mut out, label);
            push_chars(&mut out, ": <span class=\"value\" id=\"value-");
            push_chars(&mut out, pid);
            push_chars(&mut out, "\">");
            push_chars(&mut out, initial_low.as_str());
            push_chars(&mut out, " - ");
            push_chars(&mut out, initial_high.as_str());
            push_chars(&mut out, "</span></label><div class=\"dual-range-wrapper\"><div class=\"slider-track\" id=\"track-");
            push_chars(&mut out, pid);
            push_chars(&mut out, "\"></div><input type=\"range\" id=\"dual-");
            push_chars(&mut out, pid);
            push_chars(&mut out, "-low\" min=\"");
            push_chars(&mut out, min.as_str());
            push_chars(&mut out, "\" max=\"");
            push_chars(&mut out, max.as_str());
            push_chars(&mut out, "\" step=\"");
            push_chars(&mut out, step.as_str());
            push_chars(&mut out, "\" value=\"");
            push_chars(&mut out, initial_low.as_str());
            push_chars(&mut out, "\" oninput=\"updateDualRange('");
            push_chars(&mut out, pid);
            push_chars(&mut out, "', ");
            push_chars(&mut out, min.as_str());
            push_chars(&mut out, ", ");
            push_chars(&mut out, max.as_str());
            push_chars(&mut out, ")\" onchange=\"sendDualRange('");
            push_chars(&mut out, pid);
            push_chars(&mut out, "')\"><input type=\"range\" id=\"dual-");
            push_chars(&mut out, pid);
            push_chars(&mut out, "-high\" min=\"");
            push_chars(&mut out, min.as_str());
            push_chars(&mut out, "\" max=\"");
            push_chars(&mut out, max.as_str());
            push_chars(&mut out, "\" step=\"");
            push_chars(&mut out, step.as_str());
            push_chars(&mut out, "\" value=\"");
            push_chars(&mut out, initial_high.as_str());
            push_chars(&mut out, "\" oninput=\"updateDualRange('");
            push_chars(&mut out, pid);
            push_chars(&mut out, "', ");
            push_chars(&mut out, min.as_str());
            push_chars(&mut out, ", ");
            push_chars(&mut out, max.as_str());
            push_chars(&mut out, ")\" onchange=\"sendDualRange('");
            push_chars(&mut out, pid);
            push_chars(&mut out, "')\"></div></div>");
        },
        ControlMarkup::Toggle { checked } => {
            push_chars(&mut out, "<div class=\"control\"><label><input type=\"checkbox\"");
            if *checked {
                push_chars(&mut out, " checked");
            } else {
                push_chars(&mut out, "");
            }
            push_chars(&mut out, " onchange=\"sendUpdate('");
            push_chars(&mut out, pid);
            push_chars(&mut out, "', this.checked ? '1' : '0')\">");
            push_chars(&mut out, label);
            push_chars(&mut out, "</label></div>");
        },
        ControlMarkup::Text { initial } => {
            push_chars(&mut out, "<div class=\"control\"><label>");
            push_chars(&mut out, label);
            push_chars(&mut out, "</label><input type=\"text\" value=\"");
            push_chars(&mut out, escape_html(initial.as_str()).as_str());
            push_chars(&mut out, "\" onchange=\"sendUpdate('");
            push_chars(&mut out, pid);
            push_chars(&mut out, "', this.value)\"></div>");
        },
        ControlMarkup::Vector3 { x, y, z, step } => {
            push_chars(&mut out, "<div class=\"control\"><label>");
            push_chars(&mut out, label);
            push_chars(&mut out, "</label><div class=\"vec3\"><input id=\"vec3-");
            push_chars(&mut out, pid);
            push_chars(&mut out, "-x\" type=\"number\" step=\"");
            push_chars(&mut out, step.as_str());
            push_chars(&mut out, "\" value=\"");
            push_chars(&mut out, x.as_str());
            push_chars(&mut out, "\"><input id=\"vec3-");
            push_chars(&mut out, pid);
            push_chars(&mut out, "-y\" type=\"number\" step=\"");
            push_chars(&mut out, step.as_str());
            push_chars(&mut out, "\" value=\"");
            push_chars(&mut out, y.as_str());
            push_chars(&mut out, "\"><input id=\"vec3-");
            push_chars(&mut out, pid);
            push_chars(&mut out, "-z\" type=\"number\" step=\"");
            push_chars(&mut out, step.as_str());
            push_chars(&mut out, "\" value=\"");
            push_chars(&mut out, z.as_str());
            push_chars(&mut out, "\"><button type=\"button\" onclick=\"sendVec3('");
            push_chars(&mut out, pid);
            push_chars(&mut out, "')\">Set</button></div></div>");
        },
        ControlMarkup::Analog { x, y, x_rounded, y_rounded } => {
            push_chars(&mut out, "<div class=\"control\"><label>");
            push_chars(&mut out, label);
            push_chars(&mut out, ": <span class=\"value\" id=\"analog-value-");
            push_chars(&mut out, pid);
            push_chars(&mut out, "\">");
            push_chars(&mut out, x_rounded.as_str());
            push_chars(&mut out, ", ");
            push_chars(&mut out, y_rounded.as_str());
            push_chars(&mut out, "</span></label><div class=\"analog\" id=\"analog-");
            push_chars(&mut out, pid);
            push_chars(&mut out, "\" data-prop-id=\"");
            push_chars(&mut out, pid);
            push_chars(&mut out, "\" data-x=\"");
            push_chars(&mut out, x.as_str());
            push_chars(&mut out, "\" data-y=\"");
            push_chars(&mut out, y.as_str());
            push_chars(&mut out, "\" tabindex=\"0\" role=\"slider\" aria-label=\"");
            push_chars(&mut out, label);
            push_chars(&mut out, "\" aria-valuemin=\"-1\" aria-valuemax=\"1\" aria-valuetext=\"");
            push_chars(&mut out, x_rounded.as_str());
            push_chars(&mut out, ", ");
            push_chars(&mut out, y_rounded.as_str());
            push_chars(&mut out, "\"><div class=\"analog-cross\"></div><div class=\"analog-stick\" id=\"analog-stick-");
            push_chars(&mut out, pid);
            push_chars(&mut out, "\"></div></div></div>");
        },
        ControlMarkup::Button => {
            push_chars(&mut out, "<div class=\"control\"><button type=\"button\" onclick=\"sendUpdate('");
            push_chars(&mut out, pid);
            push_chars(&mut out, "', '1')\">");
            push_chars(&mut out, label);
            push_chars(&mut out, "</button></div>");
        },
        ControlMarkup::Select { options, selected } => {
            out = select_chars(label, pid, options, *selected);
        },
    }
    out
}

/// Build the page's control list.
pub fn render_controls(properties: &[ControlDefinition]) -> (html: String)
    ensures
        html@ == controls_html(properties@),
{
    let mut out: Vec<char> = Vec::new();
    let mut i: usize = 0;
    while i < properties.len()
        invariant
            0 <= i <= properties@.len(),
            out@ == controls_html(properties@.take(i as int)),
        decreases properties@.len() - i,
    {
        let p = &properties[i];
        let pid = lookup_id(p.entity_bits, p.aspect_id);
        let label = escape_html(p.label.as_str());
        let mut piece = control_chars(label.as_str(), pid.as_str(), &p.control);
        assert(properties@.take(i + 1).drop_last() =~= properties@.take(i as int));
        out.append(&mut piece);
        i = i + 1;
    }
    assert(properties@.take(properties@.len() as int) =~= properties@);
    string_from_chars(out.as_slice())
}

} // verus!
