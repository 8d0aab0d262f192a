//! Remote-control requests: property ids, where a posted event goes, and
//! the values that controls without numbers accept.
use crate::remote_control::{form_lookup, FormFields, QUIT_ID};
use crate::scene_api::{digits_value, is_digit, lemma_decimal_value};
use crate::text::{decimal, push_chars, push_decimal, str_chars, string_from_chars};
use vstd::prelude::*;

verus! {

/// The id under which the page posts a property: `<entity bits>:<aspect>`.
pub open spec fn lookup_id_text(entity_bits: u64, aspect_id: u32) -> Seq<char> {
    decimal(entity_bits as nat) + seq![':'] + decimal(aspect_id as nat)
}

/// Stable URL-safe identifier of a property, used by the page's posts.
pub fn lookup_id(entity_bits: u64, aspect_id: u32) -> (id: String)
    ensures
        id@ == lookup_id_text(entity_bits, aspect_id),
{
    let mut out: Vec<char> = Vec::new();
    push_decimal(entity_bits, &mut out);
    out.push(':');
    push_decimal(aspect_id as u64, &mut out);
    assert(out@ =~= lookup_id_text(entity_bits, aspect_id));
    string_from_chars(out.as_slice())
}

/// Distinct properties have distinct lookup ids: an id names one entity
/// and one aspect.
pub proof fn lemma_lookup_ids_are_unique(b1: u64, a1: u32, b2: u64, a2: u32)
    requires
        lookup_id_text(b1, a1) == lookup_id_text(b2, a2),
    ensures
        b1 == b2,
        a1 == a2,
{
    let s = lookup_id_text(b1, a1);
    let d1 = decimal(b1 as nat);
    let d2 = decimal(b2 as nat);
    lemma_decimal_value(b1 as nat);
    lemma_decimal_value(b2 as nat);
    lemma_decimal_value(a1 as nat);
    lemma_decimal_value(a2 as nat);
    if d1.len() < d2.len() {
        assert(s[d1.len() as int] == ':');
        assert(s[d1.len() as int] == d2[d1.len() as int]);
        assert(is_digit(d2[d1.len() as int]));
    } else if d2.len() < d1.len() {
        assert(s[d2.len() as int] == ':');
        assert(s[d2.len() as int] == d1[d2.len() as int]);
        assert(is_digit(d1[d2.len() as int]));
    }
    assert(d1 =~= s.take(d1.len() as int));
    assert(d2 =~= s.take(d2.len() as int));
    assert(decimal(a1 as nat) =~= s.skip((d1.len() + 1) as int));
    assert(decimal(a2 as nat) =~= s.skip((d2.len() + 1) as int));
}

pub const DEBUG_REPLY_OPEN: &'static str = "{\"ok\":true,\"brp_port\":";

pub const DEBUG_REPLY_NULL: &'static str = "null";

/// The reply to a request to enable debugging: the remote protocol port,
/// or `null` where there is none.
pub open spec fn debug_reply(brp_port: Option<u16>) -> Seq<char> {
    DEBUG_REPLY_OPEN@ + match brp_port {
        Some(port) => decimal(port as nat),
        None => DEBUG_REPLY_NULL@,
    } + seq!['}']
}

pub fn debug_enable_body(brp_port: Option<u16>) -> (body: String)
    ensures
        body@ == debug_reply(brp_port),
{
    let mut out: Vec<char> = Vec::new();
    push_chars(&mut out, DEBUG_REPLY_OPEN);
    match brp_port {
        Some(port) => push_decimal(port as u64, &mut out),
        None => push_chars(&mut out, DEBUG_REPLY_NULL),
    }
    out.push('}');
    assert(out@ =~= debug_reply(brp_port));
    string_from_chars(out.as_slice())
}

pub const FIELD_TARGET: &'static str = "target";

pub const FIELD_ID: &'static str = "id";

pub const FIELD_NAME: &'static str = "name";

/// The entity a scene request names: its `target` field, else its `id`,
/// else its `name`.
pub open spec fn target_text(fields: Seq<(Seq<char>, Seq<char>)>) -> Option<Seq<char>> {
    match form_lookup(fields, FIELD_TARGET@) {
        Some(t) => Some(t),
        None => match form_lookup(fields, FIELD_ID@) {
            Some(t) => Some(t),
            None => form_lookup(fields, FIELD_NAME@),
        },
    }
}

pub fn request_target(fields: &FormFields) -> (r: Option<&String>)
    ensures
        match r {
            Some(t) => target_text(fields@) == Some(t@),
            None => target_text(fields@) is None,
        },
{
    match fields.get(FIELD_TARGET) {
        Some(t) => Some(t),
        None => match fields.get(FIELD_ID) {
            Some(t) => Some(t),
            None => fields.get(FIELD_NAME),
        },
    }
}

/// Where a posted property event goes.
#[derive(PartialEq, Eq, Structural, Debug, Clone, Copy)]
pub enum EventRoute {
    /// The post has no `id` field.
    MissingId,
    /// The post asks the application to quit.
    Quit,
    /// The server has no property table yet.
    NotReady,
    /// No property has this id.
    UnknownProperty,
    /// The property at this index of the table.
    Property(usize),
}

/// The index of the last id in `ids` equal to `id`: a map built by
/// inserting the ids in order keeps that one.
pub open spec fn last_index_of(ids: Seq<Seq<char>>, id: Seq<char>) -> Option<int>
    decreases ids.len(),
{
    if ids.len() == 0 {
        None
    } else if ids.last() == id {
        Some(ids.len() - 1)
    } else {
        last_index_of(ids.drop_last(), id)
    }
}

/// Where a post with `fields` goes, given the lookup ids of the property
/// table, or `None` where the server has none yet.
pub open spec fn event_route(
    fields: Seq<(Seq<char>, Seq<char>)>,
    ids: Option<Seq<Seq<char>>>,
) -> EventRoute {
    match form_lookup(fields, FIELD_ID@) {
        None => EventRoute::MissingId,
        Some(id) => if id == QUIT_ID@ {
            EventRoute::Quit
        } else {
            match ids {
                None => EventRoute::NotReady,
                Some(ids) => match last_index_of(ids, id) {
                    None => EventRoute::UnknownProperty,
                    Some(k) => EventRoute::Property(k as usize),
                },
            }
        },
    }
}

/// Route a posted property event.  `lookup_ids` are the ids of the
/// property table in order, or `None` where the server has none yet.
pub fn route_event(fields: &FormFields, lookup_ids: Option<&Vec<String>>) -> (r: EventRoute)
    ensures
        r == event_route(
            fields@,
            match lookup_ids {
                Some(v) => Some(v@.map_values(|s: String| s@)),
                None => None,
            },
        ),
{
    let id = match fields.get(FIELD_ID) {
        Some(id) => id,
        None => {
            return EventRoute::MissingId;
        },
    };
    let quit = QUIT_ID.to_owned();
    if *id == quit {
        return EventRoute::Quit;
    }
    let ids = match lookup_ids {
        Some(ids) => ids,
        None => {
            return EventRoute::NotReady;
        },
    };
    let ghost view = ids@.map_values(|s: String| s@);
    let mut i = ids.len();
    assert(view.take(i as int) =~= view);
    while i > 0
        invariant
            i <= ids@.len(),
            view == ids@.map_values(|s: String| s@),
            last_index_of(view, id@) == last_index_of(view.take(i as int), id@),
            form_lookup(fields@, FIELD_ID@) == Some(id@),
            id@ != QUIT_ID@,
            lookup_ids == Some(ids),
        decreases i,
    {
        assert(view.take(i as int).drop_last() =~= view.take(i - 1));
        if ids[i - 1] == *id {
            assert(view[i - 1] == ids@[i - 1]@);
            assert(view.take(i as int).last() == id@);
            return EventRoute::Property(i - 1);
        }
        i = i - 1;
    }
    EventRoute::UnknownProperty
}

pub const TOGGLE_ONE: &'static str = "1";

pub const TOGGLE_TRUE: &'static str = "true";

pub const TOGGLE_ON: &'static str = "on";

pub const TOGGLE_ZERO: &'static str = "0";

pub const TOGGLE_FALSE: &'static str = "false";

pub const TOGGLE_OFF: &'static str = "off";

/// The value a toggle control accepts: `1`, `true` or `on` for true, `0`,
/// `false` or `off` for false.
pub open spec fn toggle_text_value(raw: Seq<char>) -> Option<bool> {
    if raw == TOGGLE_ONE@ || raw == TOGGLE_TRUE@ || raw == TOGGLE_ON@ {
        Some(true)
    } else if raw == TOGGLE_ZERO@ || raw == TOGGLE_FALSE@ || raw == TOGGLE_OFF@ {
        Some(false)
    } else {
        None
    }
}

/// The value of a toggle control's post, if it is one it accepts.
pub fn toggle_value(raw: Option<&str>) -> (r: Option<bool>)
    ensures
        r == match raw {
            Some(s) => toggle_text_value(s@),
            None => None,
        },
{
    match raw {
        None => None,
        Some(s) => {
            let s = s.to_owned();
            if s == TOGGLE_ONE.to_owned() || s == TOGGLE_TRUE.to_owned() || s
                == TOGGLE_ON.to_owned() {
                Some(true)
            } else if s == TOGGLE_ZERO.to_owned() || s == TOGGLE_FALSE.to_owned() || s
                == TOGGLE_OFF.to_owned() {
                Some(false)
            } else {
                None
            }
        },
    }
}

/// Whether a select control offers `raw` among its options.
pub fn select_accepts(options: &Vec<String>, raw: &String) -> (r: bool)
    ensures
        r == options@.map_values(|s: String| s@).contains(raw@),
{
    let ghost view = options@.map_values(|s: String| s@);
    let mut i: usize = 0;
    while i < options.len()
        invariant
            0 <= i <= options@.len(),
            view == options@.map_values(|s: String| s@),
            forall|j: int| 0 <= j < i ==> view[j] != raw@,
        decreases options@.len() - i,
    {
        if options[i] == *raw {
            assert(view[i as int] == raw@);
            return true;
        }
        i = i + 1;
    }
    false
}

/// A character in ASCII lower case.
pub open spec fn ascii_lower(c: char) -> char {
    if 'A' <= c && c <= 'Z' {
        ((c as u32) + 32) as char
    } else {
        c
    }
}

/// Text in ASCII lower case.
pub open spec fn ascii_lowercase(s: Seq<char>) -> Seq<char> {
    s.map_values(|c: char| ascii_lower(c))
}

fn lowercase_ascii(x: &str) -> (l: String)
    ensures
        l@ == ascii_lowercase(x@),
{
    let chars = str_chars(x);
    let mut out: Vec<char> = Vec::new();
    let mut i: usize = 0;
    while i < chars.len()
        invariant
            0 <= i <= chars@.len(),
            chars@ == x@,
            out@ == ascii_lowercase(chars@.take(i as int)),
        decreases chars@.len() - i,
    {
        let c = chars[i];
        let l = if 'A' <= c && c <= 'Z' {
            ((c as u8) + 32) as char
        } else {
            c
        };
        assert(l == ascii_lower(c));
        out.push(l);
        assert(ascii_lowercase(chars@.take(i + 1)) =~= ascii_lowercase(chars@.take(i as int)).push(
            ascii_lower(c),
        ));
        i = i + 1;
    }
    assert(chars@.take(chars@.len() as int) =~= chars@);
    string_from_chars(out.as_slice())
}

/// What a text value means as a truth value: `true` in any ASCII case or
/// `1`; `false` in any ASCII case or `0`; nothing else.
pub open spec fn text_truth(x: Seq<char>) -> Option<bool> {
    if ascii_lowercase(x) == TOGGLE_TRUE@ || x == TOGGLE_ONE@ {
        Some(true)
    } else if ascii_lowercase(x) == TOGGLE_FALSE@ || x == TOGGLE_ZERO@ {
        Some(false)
    } else {
        None
    }
}

/// The truth value of a text property value, if it has one.
pub fn text_bool(x: &str) -> (r: Option<bool>)
    ensures
        r == text_truth(x@),
{
    let lower = lowercase_ascii(x);
    let text = x.to_owned();
    if lower == TOGGLE_TRUE.to_owned() || text == TOGGLE_ONE.to_owned() {
        Some(true)
    } else if lower == TOGGLE_FALSE.to_owned() || text == TOGGLE_ZERO.to_owned() {
        Some(false)
    } else {
        None
    }
}

} // verus!
