//! The remote-control web page and the parsing of its requests.
use crate::text::{decimal, push_chars, push_decimal, replace_chars, spec_replace, str_chars, string_from_chars};
use vstd::prelude::*;
use vstd::utf8::{decode_utf8, encode_utf8, pop_first_scalar, valid_utf8};
use vstd::string::StringSliceAdditionalSpecFns;

verus! {

/// URL path for the remote-control HTML page.
pub const INDEX_PATH: &'static str = "/";

/// URL path for property update POST requests.
pub const EVENT_PATH: &'static str = "/event";

/// Special control ID used to request app shutdown.
pub const QUIT_ID: &'static str = "__tephrite_quit";

/// URL path listing entities, optionally filtered by `name`.
pub const API_ENTITIES_PATH: &'static str = "/api/entities";

/// URL path reading an entity's transform.
pub const API_TRANSFORM_PATH: &'static str = "/api/transform";

/// URL path setting an entity's position.
pub const API_TRANSFORM_POSITION_PATH: &'static str = "/api/transform/position";

/// URL path turning an entity towards a point.
pub const API_TRANSFORM_LOOK_AT_PATH: &'static str = "/api/transform/look_at";

/// URL path asking the application to enable remote debugging.
pub const API_DEBUG_ENABLE_PATH: &'static str = "/api/debug/enable";

pub const JQUERY_JS_PATH: &'static str = "/assets/jquery-1.7.1.min.js";

pub const JQUERY_TERMINAL_JS_PATH: &'static str = "/assets/jquery.terminal.min.js";

pub const JQUERY_TERMINAL_CSS_PATH: &'static str = "/assets/jquery.terminal.min.css";

/// The page shell; `render_index_page` fills in its placeholders.
pub const INDEX_TEMPLATE: &'static str = r#"<!DOCTYPE html>
<html lang="en">
<head>
<meta charset="utf-8">
<meta name="viewport" content="width=device-width, initial-scale=1">
<title>Remote Control</title>
<link rel="stylesheet" href="/assets/jquery.terminal.min.css">
<style>
body { font-family: sans-serif; margin: 1em; background: #f4f4f4; }
h1 { font-size: 1.4em; }
.control { margin: 0.6em 0; padding: 0.4em; background: #fff; border-radius: 4px; }
.control label { display: block; }
.dual-range-wrapper { position: relative; height: 2em; }
.dual-range-wrapper input { position: absolute; width: 100%; }
.slider-track { position: absolute; top: 0.8em; height: 0.3em; width: 100%; background: #ccc; }
.vec3 input { width: 6em; }
.analog { position: relative; width: 120px; height: 120px; border: 1px solid #888; border-radius: 50%; touch-action: none; }
.analog-cross { position: absolute; left: 50%; top: 0; bottom: 0; border-left: 1px dashed #aaa; }
.analog-stick { position: absolute; width: 24px; height: 24px; margin: -12px 0 0 -12px; left: 50%; top: 50%; background: #446; border-radius: 50%; }
#terminal { height: 320px; margin-top: 1em; }
.toolbar button { margin-right: 0.5em; }
</style>
</head>
<body>
<h1>Remote Control</h1>
<div class="toolbar">
<button type="button" onclick="enableDebugging()">Enable Debugging</button>
<button type="button" onclick="quitApp()">Quit</button>
</div>
<div id="controls">{{CONTROLS_HTML}}</div>
<h2>Scene Terminal</h2>
<div id="terminal"></div>
<script src="/assets/jquery-1.7.1.min.js"></script>
<script src="/assets/jquery.terminal.min.js"></script>
<script>
const EVENT_PATH = '__EVENT_PATH__';
const API_ENTITIES_PATH = '__API_ENTITIES_PATH__';
const API_TRANSFORM_LOOK_AT_PATH = '__API_TRANSFORM_LOOK_AT_PATH__';
const API_DEBUG_ENABLE_PATH = '__API_DEBUG_ENABLE_PATH__';
const QUIT_ID = '__QUIT_ID__';
let BRP_URL = __BRP_URL__;
let brpRequestId = 0;

function postForm(path, fields) {
  const body = Object.keys(fields)
    .map(function (k) { return encodeURIComponent(k) + '=' + encodeURIComponent(fields[k]); })
    .join('&');
  return fetch(path, {
    method: 'POST',
    headers: { 'Content-Type': 'application/x-www-form-urlencoded' },
    body: body
  }).then(function (r) { return r.text(); });
}

function setLabel(id, value) {
  const label = document.getElementById('value-' + id);
  if (label) { label.textContent = value; }
}

function sendUpdate(id, value) {
  setLabel(id, value);
  return postForm(EVENT_PATH, { id: id, value: value });
}

function updateDualRange(id, min, max) {
  const low = document.getElementById('dual-' + id + '-low');
  const high = document.getElementById('dual-' + id + '-high');
  let a = parseFloat(low.value);
  let b = parseFloat(high.value);
  if (a > b) { const t = a; a = b; b = t; }
  setLabel(id, a + ' - ' + b);
  const track = document.getElementById('track-' + id);
  if (track && max > min) {
    const left = (a - min) / (max - min) * 100;
    const right = (b - min) / (max - min) * 100;
    track.style.background = 'linear-gradient(to right, #ccc ' + left + '%, #446 ' + left + '%, #446 ' + right + '%, #ccc ' + right + '%)';
  }
}

function sendDualRange(id) {
  const low = parseFloat(document.getElementById('dual-' + id + '-low').value);
  const high = parseFloat(document.getElementById('dual-' + id + '-high').value);
  return sendUpdate(id, Math.min(low, high) + ',' + Math.max(low, high));
}

function sendVec3(id) {
  const parts = ['x', 'y', 'z'].map(function (axis) {
    return document.getElementById('vec3-' + id + '-' + axis).value;
  });
  return sendUpdate(id, parts.join(','));
}

function setupAnalog(el) {
  const id = el.getAttribute('data-prop-id');
  const stick = document.getElementById('analog-stick-' + id);
  const label = document.getElementById('analog-value-' + id);
  function place(x, y) {
    stick.style.left = (50 + x * 50) + '%';
    stick.style.top = (50 - y * 50) + '%';
    const text = x.toFixed(2) + ', ' + y.toFixed(2);
    if (label) { label.textContent = text; }
    el.setAttribute('aria-valuetext', text);
  }
  function fromEvent(ev) {
    const rect = el.getBoundingClientRect();
    let x = ((ev.clientX - rect.left) / rect.width) * 2 - 1;
    let y = 1 - ((ev.clientY - rect.top) / rect.height) * 2;
    const len = Math.sqrt(x * x + y * y);
    if (len > 1) { x /= len; y /= len; }
    return [x, y];
  }
  let dragging = false;
  el.addEventListener('pointerdown', function (ev) { dragging = true; el.setPointerCapture(ev.pointerId); });
  el.addEventListener('pointermove', function (ev) {
    if (!dragging) { return; }
    const p = fromEvent(ev);
    place(p[0], p[1]);
    postForm(EVENT_PATH, { id: id, value: p[0] + ',' + p[1] });
  });
  el.addEventListener('pointerup', function () {
    dragging = false;
    place(0, 0);
    postForm(EVENT_PATH, { id: id, value: '0,0' });
  });
  place(parseFloat(el.getAttribute('data-x')) || 0, parseFloat(el.getAttribute('data-y')) || 0);
}

function quitApp() {
  return postForm(EVENT_PATH, { id: QUIT_ID, value: '1' });
}

function enableDebugging() {
  return fetch(API_DEBUG_ENABLE_PATH, { method: 'POST' })
    .then(function (r) { return r.json(); })
    .then(function (info) {
      if (info.brp_port !== null && info.brp_port !== undefined) {
        BRP_URL = 'http://' + window.location.hostname + ':' + info.brp_port + '/';
      }
      return info;
    });
}

function brp(method, params) {
  if (!BRP_URL) { return Promise.reject(new Error('remote debugging is not enabled')); }
  brpRequestId += 1;
  const payload = { jsonrpc: '2.0', id: brpRequestId, method: method };
  if (params !== undefined) { payload.params = params; }
  return fetch(BRP_URL, {
    method: 'POST',
    headers: { 'Content-Type': 'text/plain;charset=UTF-8' },
    body: JSON.stringify(payload)
  }).then(function (r) { return r.json(); }).then(function (reply) {
    if (reply.error) { throw new Error(reply.error.message || 'request failed'); }
    return reply.result;
  });
}

function tephVec3ArrayArgs(args) {
  if (args.length === 1 && Array.isArray(args[0])) { return args[0].map(Number); }
  return [Number(args[0]), Number(args[1]), Number(args[2])];
}

function formatEntityList(reply) {
  const entities = (reply && reply.entities) || [];
  if (entities.length === 0) { return '(no entities)'; }
  return entities.map(function (e) {
    return e.id + '\t' + (e.name === null ? '<unnamed>' : e.name) + (e.has_transform ? '\t[transform]' : '');
  }).join('\n');
}

function formatComponentList(components) {
  const names = Array.isArray(components) ? components : Object.keys(components || {});
  if (names.length === 0) { return '(no components)'; }
  return names.join('\n');
}

function listEntities(name) {
  const path = name ? API_ENTITIES_PATH + '?name=' + encodeURIComponent(name) : API_ENTITIES_PATH;
  return fetch(path).then(function (r) { return r.json(); });
}

function listEntityComponents(target) {
  return listEntities().then(function (reply) {
    const found = (reply.entities || []).filter(function (e) {
      return e.id === String(target) || e.name === target;
    });
    if (found.length === 0) { throw new Error('no entity named or numbered ' + target); }
    return brp('world.list_components', { entity: Number(found[0].id) });
  });
}

window.teph = {
  discover: function () { return brp('rpc.discover'); },
  query: function (components) { return brp('world.query', { data: { components: components || [] } }); },
  components: function (entity, components) { return brp('world.get_components', { entity: entity, components: components }); },
  spawn: function (components) { return brp('world.spawn_entity', { components: components || {} }); },
  mutate: function (entity, component, path, value) {
    return brp('world.mutate_components', { entity: entity, component: component, path: path, value: value });
  },
  resources: function (resource) { return brp('world.get_resources', { resource: resource }); },
  schedule: function (schedule) { return brp('schedule.graph', { schedule: schedule || 'Update' }); },
  entities: listEntities,
  entityComponents: listEntityComponents,
  lookAt: function (target) {
    const p = tephVec3ArrayArgs(Array.prototype.slice.call(arguments, 1));
    return postForm(API_TRANSFORM_LOOK_AT_PATH, { target: target, x: p[0], y: p[1], z: p[2] });
  },
  update: sendUpdate,
  quit: quitApp,
  debug: enableDebugging
};

window.teph_quick = {
  ls: function (name) { return listEntities(name).then(formatEntityList); },
  lc: function (target) { return listEntityComponents(target).then(formatComponentList); },
  look: window.teph.lookAt,
  quit: quitApp
};

const HELP_TEXT = [
  'Commands:',
  '  ls                 list named entities',
  '  ls --all           list every entity',
  '  ls <name or id>    list the components of an entity',
  '  help teph_quick    describe the shortcuts in window.teph_quick',
  'Anything else is evaluated as JavaScript with window.teph and window.teph_quick in scope.'
].join('\n');

const QUICK_HELP_TEXT = [
  'window.teph_quick.ls(name)           entities, optionally filtered by name',
  'window.teph_quick.lc(target)         components of an entity',
  'window.teph_quick.look(target, x, y, z)  turn an entity towards a point',
  'window.teph_quick.quit()             stop the application'
].join('\n');

function evaluateTerminalCommand(command) {
  const teph = window.teph;
  const teph_quick = window.teph_quick;
  try {
    return Function('teph', 'teph_quick', '"use strict"; return (' + command + ');')(teph, teph_quick);
  } catch (err) {
    if (err instanceof ReferenceError || err instanceof SyntaxError) {
      throw new Error('Unknown command or variable: ' + command);
    }
    throw err;
  }
}

function executeTerminalCommand(command, term) {
  const trimmed = command.trim();
  if (trimmed === '') { return; }
  let result;
  if (trimmed === 'help') {
    term.echo(HELP_TEXT);
    return;
  } else if (trimmed === 'help teph_quick') {
    term.echo(QUICK_HELP_TEXT);
    return;
  } else if (trimmed === 'ls') {
    result = listEntities().then(function (reply) {
      reply.entities = (reply.entities || []).filter(function (e) { return e.name !== null; });
      return formatEntityList(reply);
    });
  } else if (trimmed === 'ls --all') {
    result = listEntities().then(formatEntityList);
  } else if (trimmed.indexOf('ls ') === 0) {
    result = listEntityComponents(trimmed.substring(3).trim()).then(formatComponentList);
  } else {
    try {
      result = evaluateTerminalCommand(trimmed);
    } catch (err) {
      term.error(String(err.message || err));
      return;
    }
  }
  Promise.resolve(result).then(function (value) {
    if (value === undefined) { return; }
    term.echo(typeof value === 'string' ? value : JSON.stringify(value, null, 2));
  }, function (err) {
    term.error(String(err.message || err));
  });
}

$(function () {
  Array.prototype.forEach.call(document.querySelectorAll('.analog'), setupAnalog);
  $('#terminal').terminal(function (command) { executeTerminalCommand(command, this); }, {
    greetings: 'Scene Terminal. Type help for commands.',
    prompt: 'teph> '
  });
});
</script>
</body>
</html>
"#;

pub const CONTROLS_PLACEHOLDER: &'static str = "{{CONTROLS_HTML}}";

pub const BRP_URL_PLACEHOLDER: &'static str = "__BRP_URL__";

pub const EVENT_PATH_PLACEHOLDER: &'static str = "__EVENT_PATH__";

pub const API_ENTITIES_PLACEHOLDER: &'static str = "__API_ENTITIES_PATH__";

pub const API_LOOK_AT_PLACEHOLDER: &'static str = "__API_TRANSFORM_LOOK_AT_PATH__";

pub const API_DEBUG_ENABLE_PLACEHOLDER: &'static str = "__API_DEBUG_ENABLE_PATH__";

pub const QUIT_ID_PLACEHOLDER: &'static str = "__QUIT_ID__";

pub const BRP_URL_PREFIX: &'static str = "'http://' + window.location.hostname + ':";

pub const BRP_URL_SUFFIX: &'static str = "/'";

pub const BRP_URL_NONE: &'static str = "null";

// MARK: HTML escaping

/// What one character becomes in escaped HTML text.
pub open spec fn html_escape_char(c: char) -> Seq<char> {
    if c == '&' {
        seq!['&', 'a', 'm', 'p', ';']
    } else if c == '<' {
        seq!['&', 'l', 't', ';']
    } else if c == '>' {
        seq!['&', 'g', 't', ';']
    } else if c == '"' {
        seq!['&', 'q', 'u', 'o', 't', ';']
    } else if c == '\'' {
        seq!['&', '#', '3', '9', ';']
    } else {
        seq![c]
    }
}

/// Text escaped for embedding into HTML, character by character.
pub open spec fn spec_escape_html(s: Seq<char>) -> Seq<char>
    decreases s.len(),
{
    if s.len() == 0 {
        seq![]
    } else {
        spec_escape_html(s.drop_last()) + html_escape_char(s.last())
    }
}

/// A character that HTML reads as markup or as the end of an attribute.
pub open spec fn is_markup_char(c: char) -> bool {
    c == '<' || c == '>' || c == '"' || c == '\''
}

/// Escaped text can be embedded in an element or a quoted attribute: it
/// holds no character that HTML reads as markup or as a quote.
pub proof fn lemma_escaped_html_has_no_markup(s: Seq<char>)
    ensures
        forall|i: int| 0 <= i < spec_escape_html(s).len() ==> !is_markup_char(
            #[trigger] spec_escape_html(s)[i],
        ),
    decreases s.len(),
{
    if s.len() > 0 {
        lemma_escaped_html_has_no_markup(s.drop_last());
        let a = spec_escape_html(s.drop_last());
        let e = html_escape_char(s.last());
        assert forall|i: int| 0 <= i < spec_escape_html(s).len() implies !is_markup_char(
            #[trigger] spec_escape_html(s)[i],
        ) by {
            if i >= a.len() {
                assert(spec_escape_html(s)[i] == e[i - a.len()]);
            } else {
                assert(spec_escape_html(s)[i] == a[i]);
            }
        }
    }
}

/// Escape text before embedding into HTML.
pub fn escape_html(input: &str) -> (out: String)
    ensures
        out@ == spec_escape_html(input@),
{
    let chars = str_chars(input);
    let n = chars.len();
    let mut out: Vec<char> = Vec::new();
    let mut i: usize = 0;
    while i < n
        invariant
            0 <= i <= n,
            n == chars@.len(),
            chars@ == input@,
            out@ == spec_escape_html(chars@.take(i as int)),
        decreases n - i,
    {
        let ch = chars[i];
        if ch == '&' {
            out.push('&');
            out.push('a');
            out.push('m');
            out.push('p');
            out.push(';');
        } else if ch == '<' {
            out.push('&');
            out.push('l');
            out.push('t');
            out.push(';');
        } else if ch == '>' {
            out.push('&');
            out.push('g');
            out.push('t');
            out.push(';');
        } else if ch == '"' {
            out.push('&');
            out.push('q');
            out.push('u');
            out.push('o');
            out.push('t');
            out.push(';');
        } else if ch == '\'' {
            out.push('&');
            out.push('#');
            out.push('3');
            out.push('9');
            out.push(';');
        } else {
            out.push(ch);
        }
        assert(chars@.take(i + 1).drop_last() =~= chars@.take(i as int));
        i = i + 1;
        assert(out@ =~= spec_escape_html(chars@.take(i as int)));
    }
    assert(chars@.take(n as int) =~= chars@);
    string_from_chars(out.as_slice())
}

// MARK: Index page

/// The JavaScript expression for the remote-debugging URL.
pub open spec fn brp_url(brp_port: Option<u16>) -> Seq<char> {
    match brp_port {
        Some(port) => BRP_URL_PREFIX@ + decimal(port as nat) + BRP_URL_SUFFIX@,
        None => BRP_URL_NONE@,
    }
}

/// The index page: the template with the controls, the debugging URL, the
/// request paths and the quit ID filled in, in that order.
pub open spec fn index_page(controls_html: Seq<char>, brp_port: Option<u16>) -> Seq<char> {
    let p1 = spec_replace(INDEX_TEMPLATE@, CONTROLS_PLACEHOLDER@, controls_html);
    let p2 = spec_replace(p1, BRP_URL_PLACEHOLDER@, brp_url(brp_port));
    let p3 = spec_replace(p2, EVENT_PATH_PLACEHOLDER@, EVENT_PATH@);
    let p4 = spec_replace(p3, API_ENTITIES_PLACEHOLDER@, API_ENTITIES_PATH@);
    let p5 = spec_replace(p4, API_LOOK_AT_PLACEHOLDER@, API_TRANSFORM_LOOK_AT_PATH@);
    let p6 = spec_replace(p5, API_DEBUG_ENABLE_PLACEHOLDER@, API_DEBUG_ENABLE_PATH@);
    spec_replace(p6, QUIT_ID_PLACEHOLDER@, QUIT_ID@)
}

fn replace_with(s: Vec<char>, pat: &str, with: Vec<char>) -> (r: Vec<char>)
    requires
        pat@.len() > 0,
    ensures
        r@ == spec_replace(s@, pat@, with@),
{
    let p = str_chars(pat);
    replace_chars(&s, &p, &with)
}

/// Build the page shell and JavaScript helpers from the template.
pub fn render_index_page(controls_html: &str, brp_port: Option<u16>) -> (page: String)
    ensures
        page@ == index_page(controls_html@, brp_port),
{
    let mut url: Vec<char> = Vec::new();
    match brp_port {
        Some(port) => {
            push_chars(&mut url, BRP_URL_PREFIX);
            push_decimal(port as u64, &mut url);
            push_chars(&mut url, BRP_URL_SUFFIX);
        },
        None => {
            push_chars(&mut url, BRP_URL_NONE);
        },
    }
    assert(url@ =~= brp_url(brp_port));
    proof {
        reveal_strlit("{{CONTROLS_HTML}}");
        reveal_strlit("__BRP_URL__");
        reveal_strlit("__EVENT_PATH__");
        reveal_strlit("__API_ENTITIES_PATH__");
        reveal_strlit("__API_TRANSFORM_LOOK_AT_PATH__");
        reveal_strlit("__API_DEBUG_ENABLE_PATH__");
        reveal_strlit("__QUIT_ID__");
    }
    let t = str_chars(INDEX_TEMPLATE);
    let p1 = replace_with(t, CONTROLS_PLACEHOLDER, str_chars(controls_html));
    let p2 = replace_with(p1, BRP_URL_PLACEHOLDER, url);
    let p3 = replace_with(p2, EVENT_PATH_PLACEHOLDER, str_chars(EVENT_PATH));
    let p4 = replace_with(p3, API_ENTITIES_PLACEHOLDER, str_chars(API_ENTITIES_PATH));
    let p5 = replace_with(p4, API_LOOK_AT_PLACEHOLDER, str_chars(API_TRANSFORM_LOOK_AT_PATH));
    let p6 = replace_with(p5, API_DEBUG_ENABLE_PLACEHOLDER, str_chars(API_DEBUG_ENABLE_PATH));
    let p7 = replace_with(p6, QUIT_ID_PLACEHOLDER, str_chars(QUIT_ID));
    string_from_chars(p7.as_slice())
}

// MARK: Form decoding

/// The value of an ASCII hexadecimal digit.
pub open spec fn hex_value(b: u8) -> Option<u8> {
    if 48 <= b <= 57 {
        Some((b - 48) as u8)
    } else if 97 <= b <= 102 {
        Some((b - 97 + 10) as u8)
    } else if 65 <= b <= 70 {
        Some((b - 65 + 10) as u8)
    } else {
        None
    }
}

pub fn from_hex(byte: u8) -> (r: Option<u8>)
    ensures
        r == hex_value(byte),
{
    if byte >= 48 && byte <= 57 {
        Some(byte - 48)
    } else if byte >= 97 && byte <= 102 {
        Some(byte - 97 + 10)
    } else if byte >= 65 && byte <= 70 {
        Some(byte - 65 + 10)
    } else {
        None
    }
}

/// URL form decoding of bytes: `+` is a space, `%` with two hex digits is
/// the byte they spell, and every other byte stands for itself.
pub open spec fn spec_percent_decode(b: Seq<u8>) -> Seq<u8>
    decreases b.len(),
{
    if b.len() == 0 {
        seq![]
    } else if b[0] == 43 {
        seq![32u8] + spec_percent_decode(b.skip(1))
    } else if b[0] == 37 && b.len() > 2 && hex_value(b[1]) is Some && hex_value(b[2]) is Some {
        seq![(hex_value(b[1]).unwrap() * 16 + hex_value(b[2]).unwrap()) as u8]
            + spec_percent_decode(b.skip(3))
    } else {
        seq![b[0]] + spec_percent_decode(b.skip(1))
    }
}

/// What `String::from_utf8_lossy` makes of a byte sequence.
pub uninterp spec fn utf8_lossy(b: Seq<u8>) -> Seq<char>;

/// `String::from_utf8_lossy`: the string that the bytes spell, with invalid
/// sequences replaced; on valid UTF-8 it is exactly the decoded text.
#[verifier::external_body]
fn lossy_string(b: &[u8]) -> (s: String)
    ensures
        s@ == utf8_lossy(b@),
        valid_utf8(b@) ==> s@ == decode_utf8(b@),
{
    String::from_utf8_lossy(b).into_owned()
}

/// The text of a byte sequence: the text it encodes where it is valid
/// UTF-8, else what `String::from_utf8_lossy` makes of it.
pub open spec fn utf8_text(b: Seq<u8>) -> Seq<char> {
    if valid_utf8(b) {
        decode_utf8(b)
    } else {
        utf8_lossy(b)
    }
}

/// Bytes below 128 are valid UTF-8, and their text has one character per
/// byte: the character with that code.
pub proof fn lemma_ascii_utf8_text(b: Seq<u8>)
    requires
        forall|i: int| 0 <= i < b.len() ==> b[i] < 128,
    ensures
        valid_utf8(b),
        utf8_text(b) == b.map_values(|x: u8| x as char),
    decreases b.len(),
{
    if b.len() > 0 {
        let x = b[0];
        assert((x & 0x7F) == x) by (bit_vector)
            requires
                x < 128,
        ;
        assert(pop_first_scalar(b) =~= b.skip(1));
        lemma_ascii_utf8_text(b.skip(1));
        assert(decode_utf8(b) =~= b.map_values(|x: u8| x as char));
    } else {
        assert(decode_utf8(b) =~= b.map_values(|x: u8| x as char));
    }
}

/// The text that percent-decoding the UTF-8 form of `s` gives.
pub open spec fn percent_decoded(s: Seq<char>) -> Seq<char> {
    utf8_text(spec_percent_decode(encode_utf8(s)))
}

/// Percent-decoder for URL-encoded form values.
pub fn percent_decode(input: &str) -> (out: String)
    ensures
        out@ == percent_decoded(input@),
{
    let bytes = input.as_bytes();
    let n = bytes.len();
    let mut out: Vec<u8> = Vec::new();
    let mut i: usize = 0;
    assert(bytes@.skip(0) =~= bytes@);
    while i < n
        invariant
            0 <= i <= n,
            n == bytes@.len(),
            out@ + spec_percent_decode(bytes@.skip(i as int)) == spec_percent_decode(bytes@),
        decreases n - i,
    {
        let ghost cur = bytes@.skip(i as int);
        let b = bytes[i];
        if b == 43 {
            assert(cur.skip(1) =~= bytes@.skip(i + 1));
            out.push(32);
            i = i + 1;
        } else if b == 37 && n - i > 2 {
            let h = from_hex(bytes[i + 1]);
            let l = from_hex(bytes[i + 2]);
            if h.is_some() && l.is_some() {
                let hv = h.unwrap();
                let lv = l.unwrap();
                let v = (hv << 4) | lv;
                assert(v == hv * 16 + lv) by (bit_vector)
                    requires
                        hv < 16,
                        lv < 16,
                        v == (hv << 4) | lv,
                ;
                assert(cur.skip(3) =~= bytes@.skip(i + 3));
                out.push(v);
                i = i + 3;
            } else {
                assert(cur.skip(1) =~= bytes@.skip(i + 1));
                out.push(b);
                i = i + 1;
            }
        } else {
            assert(cur.skip(1) =~= bytes@.skip(i + 1));
            out.push(b);
            i = i + 1;
        }
        assert(out@ + spec_percent_decode(bytes@.skip(i as int)) =~= spec_percent_decode(bytes@));
    }
    assert(bytes@.skip(n as int) =~= Seq::<u8>::empty());
    assert(out@ =~= spec_percent_decode(bytes@));
    lossy_string(out.as_slice())
}

/// The `&`-separated pieces of `s`, the first of them continuing `cur`.
pub open spec fn pieces_from(s: Seq<char>, cur: Seq<char>) -> Seq<Seq<char>>
    decreases s.len(),
{
    if s.len() == 0 {
        seq![cur]
    } else if s[0] == '&' {
        seq![cur] + pieces_from(s.skip(1), seq![])
    } else {
        pieces_from(s.skip(1), cur.push(s[0]))
    }
}

/// A piece split at its first `=` into key and value (empty without `=`).
pub open spec fn split_eq(p: Seq<char>) -> (Seq<char>, Seq<char>)
    decreases p.len(),
{
    if p.len() == 0 {
        (seq![], seq![])
    } else if p[0] == '=' {
        (seq![], p.skip(1))
    } else {
        let (k, v) = split_eq(p.skip(1));
        (seq![p[0]] + k, v)
    }
}

/// The decoded pairs of the non-empty pieces, in order.
pub open spec fn form_fields_of(pieces: Seq<Seq<char>>) -> Seq<(Seq<char>, Seq<char>)>
    decreases pieces.len(),
{
    if pieces.len() == 0 {
        seq![]
    } else {
        let before = form_fields_of(pieces.drop_last());
        let p = pieces.last();
        if p.len() == 0 {
            before
        } else {
            before.push((percent_decoded(split_eq(p).0), percent_decoded(split_eq(p).1)))
        }
    }
}

/// The pairs of an `application/x-www-form-urlencoded` body.
pub open spec fn form_pairs(body: Seq<u8>) -> Seq<(Seq<char>, Seq<char>)> {
    form_fields_of(pieces_from(utf8_text(body), seq![]))
}

/// The value of the last pair with key `key`, as a map collected from the
/// pairs in order keeps it.
pub open spec fn form_lookup(pairs: Seq<(Seq<char>, Seq<char>)>, key: Seq<char>) -> Option<Seq<char>>
    decreases pairs.len(),
{
    if pairs.len() == 0 {
        None
    } else if pairs.last().0 == key {
        Some(pairs.last().1)
    } else {
        form_lookup(pairs.drop_last(), key)
    }
}

/// Decoded form fields, in the order of the body.
pub struct FormFields {
    pairs: Vec<(String, String)>,
}

impl View for FormFields {
    type V = Seq<(Seq<char>, Seq<char>)>;

    closed spec fn view(&self) -> Seq<(Seq<char>, Seq<char>)> {
        self.pairs@.map_values(|p: (String, String)| (p.0@, p.1@))
    }
}

impl FormFields {
    /// The number of fields.
    pub fn len(&self) -> (n: usize)
        ensures
            n == self@.len(),
    {
        self.pairs.len()
    }

    /// The value that a map collected from the fields holds for `key`: that
    /// of the last field with this key.
    pub fn get(&self, key: &str) -> (r: Option<&String>)
        ensures
            match r {
                Some(v) => form_lookup(self@, key@) == Some(v@),
                None => form_lookup(self@, key@) is None,
            },
    {
        let k = key.to_owned();
        let mut i = self.pairs.len();
        assert(self@.take(i as int) =~= self@);
        while i > 0
            invariant
                i <= self.pairs@.len(),
                k@ == key@,
                form_lookup(self@, key@) == form_lookup(self@.take(i as int), key@),
            decreases i,
        {
            let ghost pre = self@.take(i as int);
            assert(pre.drop_last() =~= self@.take(i - 1));
            let pair = &self.pairs[i - 1];
            if pair.0 == k {
                return Some(&pair.1);
            }
            i = i - 1;
        }
        None
    }
}

/// Split a piece at its first `=` and decode both halves.
fn decode_piece(p: &Vec<char>) -> (r: (String, String))
    ensures
        r.0@ == percent_decoded(split_eq(p@).0),
        r.1@ == percent_decoded(split_eq(p@).1),
{
    let n = p.len();
    let mut i: usize = 0;
    assert(p@.skip(0) =~= p@);
    assert(p@.take(0) =~= Seq::<char>::empty());
    while i < n && p[i] != '='
        invariant
            0 <= i <= n,
            n == p@.len(),
            forall|j: int| 0 <= j < i ==> p@[j] != '=',
            split_eq(p@) == (p@.take(i as int) + split_eq(p@.skip(i as int)).0, split_eq(
                p@.skip(i as int),
            ).1),
        decreases n - i,
    {
        let ghost cur = p@.skip(i as int);
        assert(cur.skip(1) =~= p@.skip(i + 1));
        assert(p@.take(i + 1) =~= p@.take(i as int) + seq![p@[i as int]]);
        i = i + 1;
    }
    let ghost tail = p@.skip(i as int);
    let key = copy_range(p, 0, i);
    let value = if i < n {
        assert(tail.skip(1) =~= p@.subrange(i + 1, n as int));
        copy_range(p, i + 1, n)
    } else {
        assert(tail.len() == 0);
        Vec::new()
    };
    assert(key@ =~= p@.take(i as int));
    assert(split_eq(p@).0 =~= key@);
    assert(split_eq(p@).1 =~= value@);
    let ks = string_from_chars(key.as_slice());
    let vs = string_from_chars(value.as_slice());
    (percent_decode(ks.as_str()), percent_decode(vs.as_str()))
}

/// The characters of `v` from `a` up to `b`.
fn copy_range(v: &Vec<char>, a: usize, b: usize) -> (r: Vec<char>)
    requires
        a <= b <= v@.len(),
    ensures
        r@ == v@.subrange(a as int, b as int),
{
    let mut r: Vec<char> = Vec::new();
    let mut i = a;
    while i < b
        invariant
            a <= i <= b,
            b <= v@.len(),
            r@ == v@.subrange(a as int, i as int),
        decreases b - i,
    {
        r.push(v[i]);
        i = i + 1;
        assert(r@ =~= v@.subrange(a as int, i as int));
    }
    r
}

/// Parse `application/x-www-form-urlencoded` request bodies.
pub fn parse_form_urlencoded(body: &[u8]) -> (fields: FormFields)
    ensures
        fields@ == form_pairs(body@),
{
    let text = lossy_string(body);
    let chars = str_chars(text.as_str());
    let n = chars.len();
    let mut pairs: Vec<(String, String)> = Vec::new();
    let mut cur: Vec<char> = Vec::new();
    let ghost mut done: Seq<Seq<char>> = seq![];
    let mut i: usize = 0;
    assert(chars@.skip(0) =~= chars@);
    while i < n
        invariant
            0 <= i <= n,
            n == chars@.len(),
            chars@ == utf8_text(body@),
            done + pieces_from(chars@.skip(i as int), cur@) == pieces_from(chars@, seq![]),
            pairs@.map_values(|p: (String, String)| (p.0@, p.1@)) == form_fields_of(done),
        decreases n - i,
    {
        let ghost rest_chars = chars@.skip(i as int);
        assert(rest_chars.skip(1) =~= chars@.skip(i + 1));
        let c = chars[i];
        if c == '&' {
            proof {
                assert(done.push(cur@).drop_last() =~= done);
                assert(done.push(cur@) + pieces_from(chars@.skip(i + 1), seq![]) =~= done + (seq![
                    cur@,
                ] + pieces_from(chars@.skip(i + 1), seq![])));
            }
            let ghost old_pairs = pairs@;
            if cur.len() > 0 {
                let pair = decode_piece(&cur);
                pairs.push(pair);
                assert(pairs@.map_values(|p: (String, String)| (p.0@, p.1@)) =~= old_pairs.map_values(
                    |p: (String, String)| (p.0@, p.1@),
                ).push((pair.0@, pair.1@)));
            }
            proof {
                done = done.push(cur@);
            }
            cur = Vec::new();
        } else {
            cur.push(c);
        }
        i = i + 1;
    }
    proof {
        assert(chars@.skip(n as int) =~= Seq::<char>::empty());
        assert(done.push(cur@).drop_last() =~= done);
        assert(done.push(cur@) =~= done + pieces_from(chars@.skip(n as int), cur@));
    }
    let ghost old_pairs = pairs@;
    if cur.len() > 0 {
        let pair = decode_piece(&cur);
        pairs.push(pair);
        assert(pairs@.map_values(|p: (String, String)| (p.0@, p.1@)) =~= old_pairs.map_values(
            |p: (String, String)| (p.0@, p.1@),
        ).push((pair.0@, pair.1@)));
    }
    FormFields { pairs }
}

} // verus!
