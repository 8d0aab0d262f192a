//! The scene API's text: entity ids in requests and JSON in replies.
use crate::text::{
    decimal, digit_char, lemma_decimal_digits, lemma_u64_below_pow10_20, pow10, push_chars,
    push_decimal, str_chars, string_from_chars,
};
use crate::use_cases::valid_entity_bits;
use vstd::prelude::*;

verus! {

/// A control character: Unicode general category Cc.
pub open spec fn is_control(c: char) -> bool {
    (c as u32) <= 0x1f || (0x7f <= (c as u32) && (c as u32) <= 0x9f)
}

/// The lowercase hexadecimal digit for `d` (below sixteen).
pub open spec fn hex_digit(d: nat) -> char {
    if d < 10 {
        (48 + d) as char
    } else {
        (87 + d) as char
    }
}

/// The four lowercase hexadecimal digits of `n` (below 0x10000).
pub open spec fn hex4(n: nat) -> Seq<char> {
    seq![hex_digit(n / 4096 % 16), hex_digit(n / 256 % 16), hex_digit(n / 16 % 16), hex_digit(n % 16)]
}

/// What one character becomes inside a JSON string literal.
pub open spec fn json_escape_char(c: char) -> Seq<char> {
    if c == '"' {
        seq!['\\', '"']
    } else if c == '\\' {
        seq!['\\', '\\']
    } else if c == '\n' {
        seq!['\\', 'n']
    } else if c == '\r' {
        seq!['\\', 'r']
    } else if c == '\t' {
        seq!['\\', 't']
    } else if is_control(c) {
        seq!['\\', 'u'] + hex4(c as u32 as nat)
    } else {
        seq![c]
    }
}

/// Text escaped for a JSON string literal, character by character.
pub open spec fn spec_json_escape(s: Seq<char>) -> Seq<char>
    decreases s.len(),
{
    if s.len() == 0 {
        seq![]
    } else {
        spec_json_escape(s.drop_last()) + json_escape_char(s.last())
    }
}

/// Escaped JSON text holds no control character: each one is written as
/// an escape sequence.
pub proof fn lemma_json_escape_has_no_controls(s: Seq<char>)
    ensures
        forall|i: int| 0 <= i < spec_json_escape(s).len() ==> !is_control(
            #[trigger] spec_json_escape(s)[i],
        ),
    decreases s.len(),
{
    if s.len() > 0 {
        lemma_json_escape_has_no_controls(s.drop_last());
        let a = spec_json_escape(s.drop_last());
        let c = s.last();
        let e = json_escape_char(c);
        if is_control(c) && c != '\n' && c != '\r' && c != '\t' {
            let n = c as u32 as nat;
            assert(n / 4096 % 16 < 16 && n / 256 % 16 < 16 && n / 16 % 16 < 16 && n % 16 < 16);
        }
        assert forall|i: int| 0 <= i < spec_json_escape(s).len() implies !is_control(
            #[trigger] spec_json_escape(s)[i],
        ) by {
            if i >= a.len() {
                assert(spec_json_escape(s)[i] == e[i - a.len()]);
            } else {
                assert(spec_json_escape(s)[i] == a[i]);
            }
        }
    }
}

fn hex_char(d: u32) -> (c: char)
    requires
        d < 16,
    ensures
        c == hex_digit(d as nat),
{
    if d < 10 {
        ((48 + d) as u8) as char
    } else {
        ((87 + d) as u8) as char
    }
}

fn push_json_escaped(out: &mut Vec<char>, ch: char)
    ensures
        final(out)@ == old(out)@ + json_escape_char(ch),
{
    if ch == '"' {
        out.push('\\');
        out.push('"');
    } else if ch == '\\' {
        out.push('\\');
        out.push('\\');
    } else if ch == '\n' {
        out.push('\\');
        out.push('n');
    } else if ch == '\r' {
        out.push('\\');
        out.push('r');
    } else if ch == '\t' {
        out.push('\\');
        out.push('t');
    } else {
        let code = ch as u32;
        if code <= 0x1f || (0x7f <= code && code <= 0x9f) {
            out.push('\\');
            out.push('u');
            out.push(hex_char(code / 4096 % 16));
            out.push(hex_char(code / 256 % 16));
            out.push(hex_char(code / 16 % 16));
            out.push(hex_char(code % 16));
        } else {
            out.push(ch);
        }
    }
    assert(final(out)@ =~= old(out)@ + json_escape_char(ch));
}

/// Escape text for a JSON string literal.
pub fn json_escape(value: &str) -> (out: String)
    ensures
        out@ == spec_json_escape(value@),
{
    let chars = str_chars(value);
    let n = chars.len();
    let mut out: Vec<char> = Vec::new();
    let mut i: usize = 0;
    while i < n
        invariant
            0 <= i <= n,
            n == chars@.len(),
            out@ == spec_json_escape(chars@.take(i as int)),
        decreases n - i,
    {
        push_json_escaped(&mut out, chars[i]);
        assert(chars@.take(i + 1).drop_last() =~= chars@.take(i as int));
        i = i + 1;
    }
    assert(chars@.take(n as int) =~= chars@);
    string_from_chars(out.as_slice())
}

/// The characters `Entity(`.
pub open spec fn entity_prefix() -> Seq<char> {
    seq!['E', 'n', 't', 'i', 't', 'y', '(']
}

/// The id text of an entity target: what is inside `Entity(...)`, or the
/// target itself.
pub open spec fn entity_id_text(s: Seq<char>) -> Seq<char> {
    if s.len() >= 8 && s.take(7) == entity_prefix() && s.last() == ')' {
        s.subrange(7, s.len() - 1)
    } else {
        s
    }
}

pub open spec fn is_digit(c: char) -> bool {
    '0' <= c && c <= '9'
}

/// The value of a string of decimal digits.
pub open spec fn digits_value(d: Seq<char>) -> nat
    decreases d.len(),
{
    if d.len() == 0 {
        0
    } else {
        digits_value(d.drop_last()) * 10 + (d.last() as nat - 48) as nat
    }
}

/// The digits of an unsigned number: the text without one leading `+`.
pub open spec fn unsigned_digits(s: Seq<char>) -> Seq<char> {
    if s.len() > 0 && s[0] == '+' {
        s.skip(1)
    } else {
        s
    }
}

/// Whether every character of `d` is a decimal digit.
pub open spec fn all_digits(d: Seq<char>) -> bool {
    forall|i: int| 0 <= i < d.len() ==> is_digit(#[trigger] d[i])
}

/// The `u64` that a non-empty string of digits denotes, when it fits.
pub open spec fn digits_u64(d: Seq<char>) -> Option<u64> {
    if d.len() > 0 && all_digits(d) && digits_value(d) <= u64::MAX {
        Some(digits_value(d) as u64)
    } else {
        None
    }
}

/// What `str::parse::<u64>` accepts: an optional `+`, then one or more
/// decimal digits whose value fits in a `u64`.
pub open spec fn parse_u64(s: Seq<char>) -> Option<u64> {
    digits_u64(unsigned_digits(s))
}

proof fn lemma_digits_value_monotone(d: Seq<char>, k: int)
    requires
        0 <= k <= d.len(),
        forall|i: int| 0 <= i < d.len() ==> is_digit(#[trigger] d[i]),
    ensures
        digits_value(d.take(k)) <= digits_value(d),
    decreases d.len(),
{
    if k < d.len() {
        assert(d.drop_last().take(k) =~= d.take(k));
        lemma_digits_value_monotone(d.drop_last(), k);
    } else {
        assert(d.take(k) =~= d);
    }
}

/// Once a prefix of digits exceeds `u64::MAX`, the whole string cannot
/// parse as a `u64`.
proof fn lemma_overflow_rejects(d: Seq<char>, k: int)
    requires
        0 < k <= d.len(),
        digits_value(d.take(k)) > u64::MAX,
    ensures
        digits_u64(d) is None,
{
    if all_digits(d) {
        lemma_digits_value_monotone(d, k);
    }
}

/// The value of a decimal numeral is its number.
pub proof fn lemma_decimal_value(n: nat)
    ensures
        digits_value(decimal(n)) == n,
        all_digits(decimal(n)),
    decreases n,
{
    let c = digit_char(n % 10);
    assert(c as nat == 48 + n % 10);
    if n >= 10 {
        lemma_decimal_value(n / 10);
        let d = decimal(n);
        assert(d.drop_last() =~= decimal(n / 10));
        assert(d.last() == c);
        assert((n / 10) * 10 + n % 10 == n) by (nonlinear_arith);
        assert(digits_value(d) == digits_value(decimal(n / 10)) * 10 + (c as nat - 48) as nat);
        assert forall|i: int| 0 <= i < d.len() implies is_digit(#[trigger] d[i]) by {
            if i < d.len() - 1 {
                assert(d[i] == decimal(n / 10)[i]);
            }
        }
    } else {
        assert(decimal(n).drop_last() =~= Seq::<char>::empty());
        assert(decimal(n).last() == c);
        assert(digits_value(Seq::<char>::empty()) == 0);
    }
}

/// An entity id as the listing shows it reads back as the same entity,
/// bare or wrapped in `Entity(...)`.
pub proof fn lemma_entity_id_roundtrip(bits: u64)
    ensures
        parse_u64(entity_id_text(decimal(bits as nat))) == Some(bits),
        parse_u64(entity_id_text(entity_prefix() + decimal(bits as nat) + seq![')'])) == Some(bits),
{
    let d = decimal(bits as nat);
    lemma_u64_below_pow10_20(bits);
    lemma_decimal_digits(bits as nat, 20, pow10(20));
    lemma_decimal_value(bits as nat);
    assert(is_digit(d[0]));
    if d.len() >= 8 && d.take(7) == entity_prefix() {
        assert(d.take(7)[0] == 'E');
    }
    assert(unsigned_digits(d) == d);
    let w = entity_prefix() + d + seq![')'];
    assert(w.take(7) =~= entity_prefix());
    assert(w.subrange(7, w.len() - 1) =~= d);
}

/// `str::parse::<u64>` on the characters `chars[start..end]`.
pub(crate) fn parse_u64_range(chars: &Vec<char>, start: usize, end: usize) -> (r: Option<u64>)
    requires
        start <= end <= chars@.len(),
    ensures
        r == parse_u64(chars@.subrange(start as int, end as int)),
{
    let ghost text = chars@.subrange(start as int, end as int);
    let mut from = start;
    if from < end && chars[from] == '+' {
        from = from + 1;
    }
    let ghost d = chars@.subrange(from as int, end as int);
    assert(d =~= unsigned_digits(text));
    if from >= end {
        return None;
    }
    let mut value: u64 = 0;
    let mut i = from;
    while i < end
        invariant
            from <= i <= end,
            text == chars@.subrange(start as int, end as int),
            end <= chars@.len(),
            d == chars@.subrange(from as int, end as int),
            d == unsigned_digits(text),
            forall|j: int| from <= j < i ==> is_digit(#[trigger] chars@[j]),
            value == digits_value(chars@.subrange(from as int, i as int)),
        decreases end - i,
    {
        let c = chars[i];
        if !('0' <= c && c <= '9') {
            assert(!is_digit(d[i - from]));
            assert(!all_digits(d));
            return None;
        }
        let digit = (c as u32 - 48) as u64;
        assert(chars@.subrange(from as int, i + 1).drop_last() =~= chars@.subrange(
            from as int,
            i as int,
        ));
        assert(chars@.subrange(from as int, i + 1) =~= d.take(i + 1 - from));
        assert(digits_value(chars@.subrange(from as int, i + 1)) == value * 10 + digit);
        match value.checked_mul(10) {
            Some(m) => match m.checked_add(digit) {
                Some(v) => {
                    value = v;
                },
                None => {
                    proof {
                        lemma_overflow_rejects(d, i + 1 - from);
                    }
                    return None;
                },
            },
            None => {
                proof {
                    lemma_overflow_rejects(d, i + 1 - from);
                }
                return None;
            },
        }
        i = i + 1;
    }
    assert(chars@.subrange(from as int, end as int) =~= d);
    Some(value)
}

/// The bits that a target spells stand for an entity, when it spells any
/// (bevy's `Entity::from_bits` panics on others).
pub open spec fn target_bits_valid(target: Seq<char>) -> bool {
    match parse_u64(entity_id_text(target)) {
        Some(b) => valid_entity_bits(b),
        None => true,
    }
}

/// Parse an entity target: `Entity(<bits>)` or `<bits>`.
pub fn parse_entity(target: &str) -> (r: Option<u64>)
    requires
        target_bits_valid(target@),
    ensures
        r == parse_u64(entity_id_text(target@)),
{
    parse_target_bits(target)
}

/// Parse an entity target where its bits may not stand for an entity:
/// `None` where they do not, as where the target spells no bits.
pub fn parse_entity_checked(target: &str) -> (r: Option<u64>)
    ensures
        r == (if target_bits_valid(target@) {
            parse_u64(entity_id_text(target@))
        } else {
            None
        }),
{
    match parse_target_bits(target) {
        Some(b) => if b % 0x1_0000_0000 == 0 {
            None
        } else {
            Some(b)
        },
        None => None,
    }
}

/// The bits that an entity target spells, if any.
fn parse_target_bits(target: &str) -> (r: Option<u64>)
    ensures
        r == parse_u64(entity_id_text(target@)),
{
    let chars = str_chars(target);
    let n = chars.len();
    let mut start: usize = 0;
    let mut end: usize = n;
    if n >= 8 && chars[0] == 'E' && chars[1] == 'n' && chars[2] == 't' && chars[3] == 'i'
        && chars[4] == 't' && chars[5] == 'y' && chars[6] == '(' && chars[n - 1] == ')' {
        start = 7;
        end = n - 1;
        assert(chars@.take(7) =~= entity_prefix());
    } else {
        if n >= 8 && chars[n - 1] == ')' {
            assert(chars@.take(7) != entity_prefix()) by {
                let t = chars@.take(7);
                if t == entity_prefix() {
                    assert(t[0] == 'E' && t[1] == 'n' && t[2] == 't' && t[3] == 'i' && t[4] == 't'
                        && t[5] == 'y' && t[6] == '(');
                }
            }
        }
    }
    assert(chars@.subrange(start as int, end as int) =~= entity_id_text(target@));
    parse_u64_range(&chars, start, end)
}

// MARK: Entity listing

/// One entity as the listing reports it: its id bits, its `Name` if it has
/// one, and whether it has a `Transform`.
pub struct EntityRow {
    pub bits: u64,
    pub name: Option<String>,
    pub has_transform: bool,
}

impl EntityRow {
    pub open spec fn name_view(&self) -> Option<Seq<char>> {
        match self.name {
            Some(n) => Some(n@),
            None => None,
        }
    }
}

pub const ENTITIES_OPEN: &'static str = "{\"entities\":[";

pub const ENTITIES_CLOSE: &'static str = "]}";

pub const ROW_ID_OPEN: &'static str = "{\"id\":\"";

pub const ROW_NAME_KEY: &'static str = "\",\"name\":";

pub const ROW_NULL: &'static str = "null";

pub const ROW_TRANSFORM_KEY: &'static str = ",\"has_transform\":";

pub const JSON_TRUE: &'static str = "true";

pub const JSON_FALSE: &'static str = "false";

/// The JSON object for one entity.
pub open spec fn row_json(bits: u64, name: Option<Seq<char>>, has_transform: bool) -> Seq<char> {
    ROW_ID_OPEN@ + decimal(bits as nat) + ROW_NAME_KEY@ + match name {
        Some(n) => seq!['"'] + spec_json_escape(n) + seq!['"'],
        None => ROW_NULL@,
    } + ROW_TRANSFORM_KEY@ + (if has_transform {
        JSON_TRUE@
    } else {
        JSON_FALSE@
    }) + seq!['}']
}

/// Whether a row passes the name filter: no filter, or a name equal to it.
pub open spec fn row_selected(name: Option<Seq<char>>, filter: Option<Seq<char>>) -> bool {
    match filter {
        None => true,
        Some(f) => name == Some(f),
    }
}

/// The JSON objects of the rows that pass the filter, in order.
pub open spec fn selected_rows_json(
    rows: Seq<(u64, Option<Seq<char>>, bool)>,
    filter: Option<Seq<char>>,
) -> Seq<Seq<char>>
    decreases rows.len(),
{
    if rows.len() == 0 {
        seq![]
    } else {
        let r = rows.last();
        let before = selected_rows_json(rows.drop_last(), filter);
        if row_selected(r.1, filter) {
            before.push(row_json(r.0, r.1, r.2))
        } else {
            before
        }
    }
}

/// Parts joined by commas.
pub open spec fn join_commas(parts: Seq<Seq<char>>) -> Seq<char>
    decreases parts.len(),
{
    if parts.len() == 0 {
        seq![]
    } else if parts.len() == 1 {
        parts[0]
    } else {
        join_commas(parts.drop_last()) + seq![','] + parts.last()
    }
}

/// The rows as the listing sees them.
pub open spec fn rows_view(rows: Seq<EntityRow>) -> Seq<(u64, Option<Seq<char>>, bool)> {
    rows.map_values(|r: EntityRow| (r.bits, r.name_view(), r.has_transform))
}

/// The entity listing: `{"entities":[...]}` with one object per row that
/// passes the name filter.
pub open spec fn entities_json(
    rows: Seq<(u64, Option<Seq<char>>, bool)>,
    filter: Option<Seq<char>>,
) -> Seq<char> {
    ENTITIES_OPEN@ + join_commas(selected_rows_json(rows, filter)) + ENTITIES_CLOSE@
}

fn push_row_json(out: &mut Vec<char>, row: &EntityRow)
    ensures
        final(out)@ == old(out)@ + row_json(row.bits, row.name_view(), row.has_transform),
{
    push_chars(out, ROW_ID_OPEN);
    push_decimal(row.bits, out);
    push_chars(out, ROW_NAME_KEY);
    match &row.name {
        Some(name) => {
            out.push('"');
            let escaped = json_escape(name.as_str());
            push_chars(out, escaped.as_str());
            out.push('"');
        },
        None => {
            push_chars(out, ROW_NULL);
        },
    }
    push_chars(out, ROW_TRANSFORM_KEY);
    if row.has_transform {
        push_chars(out, JSON_TRUE);
    } else {
        push_chars(out, JSON_FALSE);
    }
    out.push('}');
    assert(final(out)@ =~= old(out)@ + row_json(row.bits, row.name_view(), row.has_transform));
}

fn same_text(a: &str, b: &str) -> (r: bool)
    ensures
        r == (a@ == b@),
{
    let x = str_chars(a);
    let y = str_chars(b);
    if x.len() != y.len() {
        return false;
    }
    let mut i: usize = 0;
    while i < x.len()
        invariant
            0 <= i <= x@.len(),
            x@.len() == y@.len(),
            x@ == a@,
            y@ == b@,
            forall|j: int| 0 <= j < i ==> x@[j] == y@[j],
        decreases x@.len() - i,
    {
        if x[i] != y[i] {
            return false;
        }
        i = i + 1;
    }
    assert(x@ =~= y@);
    true
}

/// The JSON listing of `rows` whose name equals `name_filter`, or of every
/// row when there is no filter.
pub fn render_entities_json(rows: &[EntityRow], name_filter: Option<&str>) -> (out: String)
    ensures
        out@ == entities_json(
            rows_view(rows@),
            match name_filter {
                Some(f) => Some(f@),
                None => None,
            },
        ),
{
    let ghost filter: Option<Seq<char>> = match name_filter {
        Some(f) => Some(f@),
        None => None,
    };
    let ghost view = rows_view(rows@);
    let mut out: Vec<char> = Vec::new();
    push_chars(&mut out, ENTITIES_OPEN);
    let mut first = true;
    let mut i: usize = 0;
    while i < rows.len()
        invariant
            0 <= i <= rows@.len(),
            view == rows_view(rows@),
            filter == (match name_filter {
                Some(f) => Some(f@),
                None => None::<Seq<char>>,
            }),
            out@ == ENTITIES_OPEN@ + join_commas(selected_rows_json(view.take(i as int), filter)),
            first == (selected_rows_json(view.take(i as int), filter).len() == 0),
        decreases rows@.len() - i,
    {
        let row = &rows[i];
        assert(view.take(i + 1).drop_last() =~= view.take(i as int));
        assert(view.take(i + 1).last() == (row.bits, row.name_view(), row.has_transform));
        let keep = match name_filter {
            None => true,
            Some(f) => match &row.name {
                Some(n) => same_text(n.as_str(), f),
                None => false,
            },
        };
        let ghost before = selected_rows_json(view.take(i as int), filter);
        let ghost obj = row_json(row.bits, row.name_view(), row.has_transform);
        assert(keep == row_selected(row.name_view(), filter));
        if keep {
            if !first {
                out.push(',');
            }
            first = false;
            push_row_json(&mut out, row);
            assert(before.push(obj).drop_last() =~= before);
            assert(before.push(obj).last() == obj);
            assert(out@ =~= ENTITIES_OPEN@ + join_commas(before.push(obj)));
        }
        i = i + 1;
    }
    assert(view.take(rows@.len() as int) =~= view);
    push_chars(&mut out, ENTITIES_CLOSE);
    string_from_chars(out.as_slice())
}


// MARK: Entity lookup

/// The id of the first row named exactly `name`, in the order of the rows.
pub open spec fn first_named(rows: Seq<(u64, Option<Seq<char>>, bool)>, name: Seq<char>) -> Option<u64>
    decreases rows.len(),
{
    if rows.len() == 0 {
        None
    } else if rows[0].1 == Some(name) {
        Some(rows[0].0)
    } else {
        first_named(rows.drop_first(), name)
    }
}

/// Whether some row has the id `bits`.
pub open spec fn has_entity(rows: Seq<(u64, Option<Seq<char>>, bool)>, bits: u64) -> bool {
    exists|k: int| 0 <= k < rows.len() && (#[trigger] rows[k]).0 == bits
}

/// What a target resolves to: the parsed id when an entity has it, else the
/// first entity named exactly like the target.
pub open spec fn resolved_entity(rows: Seq<(u64, Option<Seq<char>>, bool)>, target: Seq<char>) -> Option<u64> {
    match parse_u64(entity_id_text(target)) {
        Some(b) => if has_entity(rows, b) {
            Some(b)
        } else {
            first_named(rows, target)
        },
        None => first_named(rows, target),
    }
}

/// The id of the first of `rows` named exactly `name`.
pub fn entity_by_exact_name(rows: &[EntityRow], name: &str) -> (r: Option<u64>)
    ensures
        r == first_named(rows_view(rows@), name@),
{
    let ghost view = rows_view(rows@);
    assert(view.skip(0) =~= view);
    let mut i: usize = 0;
    while i < rows.len()
        invariant
            0 <= i <= rows@.len(),
            view == rows_view(rows@),
            first_named(view, name@) == first_named(view.skip(i as int), name@),
        decreases rows@.len() - i,
    {
        let row = &rows[i];
        assert(view.skip(i as int)[0] == (row.bits, row.name_view(), row.has_transform));
        assert(view.skip(i as int).drop_first() =~= view.skip(i + 1));
        match &row.name {
            Some(n) => {
                if same_text(n.as_str(), name) {
                    return Some(row.bits);
                }
            },
            None => {},
        }
        i = i + 1;
    }
    assert(view.skip(i as int).len() == 0);
    None
}

fn has_row(rows: &[EntityRow], bits: u64) -> (r: bool)
    ensures
        r == has_entity(rows_view(rows@), bits),
{
    let ghost view = rows_view(rows@);
    let mut i: usize = 0;
    while i < rows.len()
        invariant
            0 <= i <= rows@.len(),
            view == rows_view(rows@),
            forall|j: int| 0 <= j < i ==> (#[trigger] view[j]).0 != bits,
        decreases rows@.len() - i,
    {
        if rows[i].bits == bits {
            assert(view[i as int].0 == bits);
            return true;
        }
        i = i + 1;
    }
    false
}

/// Resolve a target whose bits may not stand for an entity: `None` where
/// they do not, else as `resolve_entity` does.
pub fn resolve_entity_checked(rows: &[EntityRow], target: &str) -> (r: Option<u64>)
    ensures
        r == (if target_bits_valid(target@) {
            resolved_entity(rows_view(rows@), target@)
        } else {
            None
        }),
{
    match parse_target_bits(target) {
        Some(b) => if b % 0x1_0000_0000 == 0 {
            return None;
        },
        None => {},
    }
    resolve_entity(rows, target)
}

/// Resolve a target to an entity of `rows` (every entity of the world): the
/// id that `target` spells, when an entity has it, else the first entity
/// whose name is exactly `target`.
pub fn resolve_entity(rows: &[EntityRow], target: &str) -> (r: Option<u64>)
    requires
        target_bits_valid(target@),
    ensures
        r == resolved_entity(rows_view(rows@), target@),
{
    match parse_entity(target) {
        Some(bits) => {
            if has_row(rows, bits) {
                return Some(bits);
            }
        },
        None => {},
    }
    entity_by_exact_name(rows, target)
}

} // verus!
