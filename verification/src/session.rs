//! Render sessions: the id that groups a logic process with its render
//! processes, the name of their shared memory block derived from it, and
//! the rules for shared memory names.
use crate::text::{
    decimal, lemma_decimal_digits, lemma_u64_below_pow10_20, pow10, push_chars, push_decimal,
    str_chars, string_from_chars,
};
use crate::scene_api::{parse_u64, parse_u64_range};
use std::hash::DefaultHasher;
use std::hash::Hash;
use std::hash::Hasher;
use vstd::prelude::*;
use vstd::std_specs::hash::DefaultHasherAdditionalSpecFns;
use vstd::string::StringSliceAdditionalSpecFns;

verus! {

/// Prefix of shared memory block names.
pub const SHMEM_NAME_PREFIX: &'static str = "TEPH_";

/// Size of the shared memory block (4 GiB); it cannot grow.
pub const SHMEM_DEFAULT_BLOCK_SIZE: u64 = 4294967296u64;

/// Size of the shared memory block in tests (128 KiB).
pub const SHMEM_TESTING_BLOCK_SIZE: u64 = 131072u64;

/// The longest shared memory name accepted, in bytes.
pub const SHMEM_KEY_MAX_BYTES: usize = 255;

/// The id of a render session, a UUID string.
pub struct SessionID(pub String);

impl SessionID {
    pub fn as_str(&self) -> (s: &str)
        ensures
            s@ == self.0@,
    {
        self.0.as_str()
    }
}

/// A lowercase hexadecimal digit.
pub open spec fn is_lower_hex(c: char) -> bool {
    ('0' <= c && c <= '9') || ('a' <= c && c <= 'f')
}

/// The hyphenated lowercase text of a random (version 4) UUID: 36
/// characters, `-` at positions 8, 13, 18 and 23, lowercase hexadecimal
/// digits elsewhere, the version digit `4` at position 14 and the variant
/// digit (`8`, `9`, `a` or `b`) at position 19.
pub open spec fn is_random_uuid_text(s: Seq<char>) -> bool {
    &&& s.len() == 36
    &&& forall|i: int|
        0 <= i < 36 ==> if i == 8 || i == 13 || i == 18 || i == 23 {
            #[trigger] s[i] == '-'
        } else {
            is_lower_hex(s[i])
        }
    &&& s[14] == '4'
    &&& (s[19] == '8' || s[19] == '9' || s[19] == 'a' || s[19] == 'b')
}

/// `uuid::Uuid::new_v4` followed by `to_string`: a random UUID in its
/// hyphenated lowercase form.  Which UUID comes back is chance; its form is
/// what the contract states.  The call panics where the system's source of
/// random numbers fails.
#[verifier::external_body]
fn new_uuid_text() -> (s: String)
    ensures
        is_random_uuid_text(s@),
{
    uuid::Uuid::new_v4().to_string()
}

/// A new render session id: a random UUID.
pub fn generate_session_id() -> (id: SessionID)
    ensures
        is_random_uuid_text(id.0@),
{
    SessionID(new_uuid_text())
}

/// An ASCII letter or digit.
pub open spec fn is_ascii_alphanumeric(c: char) -> bool {
    ('a' <= c && c <= 'z') || ('A' <= c && c <= 'Z') || ('0' <= c && c <= '9')
}

/// The number of leading characters of `s` that are not ASCII letters or
/// digits.
pub open spec fn leading_non_alnum(s: Seq<char>) -> nat
    decreases s.len(),
{
    if s.len() == 0 || is_ascii_alphanumeric(s[0]) {
        0
    } else {
        1 + leading_non_alnum(s.skip(1))
    }
}

/// `s` without its leading characters that are not ASCII letters or
/// digits.
pub open spec fn trim_to_alnum(s: Seq<char>) -> Seq<char> {
    s.skip(leading_non_alnum(s) as int)
}

/// What `<String as Hash>::hash` writes into a hasher for a string with
/// characters `s`.
pub uninterp spec fn string_hash_writes(s: Seq<char>) -> Seq<Seq<u8>>;

/// `<String as Hash>::hash`: feeds `s` into `hasher`.  What it writes is
/// named, not stated: it depends on `s` alone.
#[verifier::external_body]
fn hash_string(s: &String, hasher: &mut DefaultHasher)
    ensures
        final(hasher)@ == old(hasher)@ + string_hash_writes(s@),
{
    s.hash(hasher)
}

/// The name of the shared memory block whose session hashes to `hash`:
/// `/`, the prefix, and the hash in decimal.
pub open spec fn name_for_hash(hash: u64) -> Seq<char> {
    seq!['/'] + SHMEM_NAME_PREFIX@ + decimal(hash as nat)
}

/// The name of a session's shared memory block: named by the hash of the
/// session id from its first ASCII letter or digit on.
pub open spec fn block_name(session: Seq<char>) -> Seq<char> {
    name_for_hash(DefaultHasher::spec_finish(string_hash_writes(trim_to_alnum(session))))
}

/// The session id from its first ASCII letter or digit on.
pub fn trimmed_session_id(session: &SessionID) -> (s: String)
    ensures
        s@ == trim_to_alnum(session.0@),
{
    let chars = str_chars(session.as_str());
    let n = chars.len();
    let mut i: usize = 0;
    assert(chars@.skip(0) =~= chars@);
    while i < n && !is_alnum(chars[i])
        invariant
            0 <= i <= n,
            n == chars@.len(),
            chars@ == session.0@,
            leading_non_alnum(chars@) == i + leading_non_alnum(chars@.skip(i as int)),
        decreases n - i,
    {
        assert(chars@.skip(i as int).skip(1) =~= chars@.skip(i + 1));
        i = i + 1;
    }
    assert(leading_non_alnum(chars@.skip(i as int)) == 0);
    string_from_chars(vstd::slice::slice_subrange(chars.as_slice(), i, n))
}

fn is_alnum(c: char) -> (r: bool)
    ensures
        r == is_ascii_alphanumeric(c),
{
    ('a' <= c && c <= 'z') || ('A' <= c && c <= 'Z') || ('0' <= c && c <= '9')
}

/// The name of the shared memory block whose session hashes to `hash`.
pub fn block_name_for_hash(hash: u64) -> (name: String)
    ensures
        name@ == name_for_hash(hash),
{
    let mut out: Vec<char> = Vec::new();
    out.push('/');
    push_chars(&mut out, SHMEM_NAME_PREFIX);
    push_decimal(hash, &mut out);
    assert(out@ =~= name_for_hash(hash));
    string_from_chars(out.as_slice())
}

/// The name of the shared memory block of `session`.
pub fn shared_mem_block_name(session: &SessionID) -> (name: String)
    ensures
        name@ == block_name(session.0@),
{
    let trimmed = trimmed_session_id(session);
    let mut hasher = DefaultHasher::new();
    hash_string(&trimmed, &mut hasher);
    assert(hasher@ =~= string_hash_writes(trim_to_alnum(session.0@)));
    block_name_for_hash(hasher.finish())
}

/// Every block name is a valid shared memory name, and short enough for
/// the platforms with the strictest limit (fewer than 31 characters): `/`
/// and a name without `/`, at most 26 ASCII characters.
pub proof fn lemma_block_names_are_valid_keys(hash: u64)
    ensures
        is_slash_name(name_for_hash(hash)),
        name_for_hash(hash).len() <= 26,
        forall|i: int| 0 <= i < name_for_hash(hash).len() ==> (#[trigger] name_for_hash(hash)[i]
            as u32) < 128,
{
    reveal_strlit("TEPH_");
    let d = decimal(hash as nat);
    lemma_u64_below_pow10_20(hash);
    lemma_decimal_digits(hash as nat, 20, pow10(20));
    let name = name_for_hash(hash);
    assert(name =~= seq!['/', 'T', 'E', 'P', 'H', '_'] + d);
    assert forall|i: int| 1 <= i < name.len() implies #[trigger] name[i] != '/' && (name[i]
        as u32) < 128 by {
        if i >= 6 {
            assert(name[i] == d[i - 6]);
        }
    }
}

/// Why a shared memory name is refused.
#[derive(PartialEq, Eq, Structural, Debug, Clone, Copy)]
pub enum ShmemKeyError {
    /// The name is not `/` followed by a name without `/`.
    NotSlashName,
    /// The name is longer than the limit.
    TooLong,
}

impl ShmemKeyError {
    pub fn message(&self) -> (m: &'static str)
        ensures
            m@ == (match self {
                ShmemKeyError::NotSlashName => "key must be '/name'"@,
                ShmemKeyError::TooLong => "key too long"@,
            }),
    {
        match self {
            ShmemKeyError::NotSlashName => "key must be '/name'",
            ShmemKeyError::TooLong => "key too long",
        }
    }
}

/// `/` followed by a name that holds no `/`.
pub open spec fn is_slash_name(key: Seq<char>) -> bool {
    key.len() > 0 && key[0] == '/' && forall|i: int| 1 <= i < key.len() ==> #[trigger] key[i] != '/'
}

/// Check a shared memory name: `/` and a name without `/`, at most 255
/// bytes long.
pub fn check_shmem_key(key: &str) -> (r: Result<(), ShmemKeyError>)
    ensures
        !is_slash_name(key@) ==> r == Err::<(), ShmemKeyError>(ShmemKeyError::NotSlashName),
        is_slash_name(key@) && key.spec_bytes().len() > SHMEM_KEY_MAX_BYTES ==> r == Err::<
            (),
            ShmemKeyError,
        >(ShmemKeyError::TooLong),
        is_slash_name(key@) && key.spec_bytes().len() <= SHMEM_KEY_MAX_BYTES ==> r is Ok,
{
    let chars = str_chars(key);
    if chars.len() == 0 || chars[0] != '/' {
        return Err(ShmemKeyError::NotSlashName);
    }
    let mut i: usize = 1;
    while i < chars.len()
        invariant
            1 <= i <= chars@.len(),
            chars@ == key@,
            forall|j: int| 1 <= j < i ==> #[trigger] chars@[j] != '/',
        decreases chars@.len() - i,
    {
        if chars[i] == '/' {
            return Err(ShmemKeyError::NotSlashName);
        }
        i = i + 1;
    }
    if key.as_bytes().len() > SHMEM_KEY_MAX_BYTES {
        return Err(ShmemKeyError::TooLong);
    }
    Ok(())
}


/// The rank that a render process's rank text stands for: `str::parse::<u32>`
/// (an optional `+`, then decimal digits whose value fits in a `u32`).
pub open spec fn rank_of(text: Seq<char>) -> Option<u32> {
    match parse_u64(text) {
        Some(v) => if v <= u32::MAX {
            Some(v as u32)
        } else {
            None
        },
        None => None,
    }
}

/// Parse the rank of a render process from its text.
pub fn parse_rank(text: &str) -> (r: Option<u32>)
    ensures
        r == rank_of(text@),
{
    let chars = str_chars(text);
    assert(chars@.subrange(0, chars@.len() as int) =~= text@);
    match parse_u64_range(&chars, 0, chars.len()) {
        Some(v) => if v <= u32::MAX as u64 {
            Some(v as u32)
        } else {
            None
        },
        None => None,
    }
}

/// How a logic process runs: with how many render processes, and whether
/// it simulates the display itself.
#[derive(PartialEq, Eq, Structural, Debug, Clone, Copy)]
pub struct LaunchPlan {
    pub child_count: u32,
    pub simulator: bool,
}

/// Plan a launch from the configured number of render processes.  Having
/// no render process at all makes no sense, so at least one is launched;
/// without any configured, the process simulates the display, as it does
/// when a simulator is forced.
pub fn launch_plan(configured_children: u32, force_simulator: bool) -> (plan: LaunchPlan)
    ensures
        plan.child_count == if configured_children == 0 {
            1
        } else {
            configured_children
        },
        plan.simulator == (configured_children == 0 || force_simulator),
{
    LaunchPlan {
        child_count: if configured_children == 0 {
            1
        } else {
            configured_children
        },
        simulator: configured_children == 0 || force_simulator,
    }
}

/// Prefix of the shared memory names of graphics support helpers.
pub const SUPPORT_KEY_PREFIX: &'static str = "/TEPHSP_";

/// The first `n` characters of `s` that are not `-`.
pub open spec fn undashed_prefix(s: Seq<char>, n: nat) -> Seq<char>
    decreases s.len(),
{
    if s.len() == 0 || n == 0 {
        Seq::<char>::empty()
    } else if s[0] == '-' {
        undashed_prefix(s.skip(1), n)
    } else {
        seq![s[0]] + undashed_prefix(s.skip(1), (n - 1) as nat)
    }
}

/// The key of a graphics support helper made from a random id: the prefix
/// and the id's first eight characters that are not `-`.
pub fn support_key_for(id: &str) -> (key: String)
    ensures
        key@ == SUPPORT_KEY_PREFIX@ + undashed_prefix(id@, 8),
{
    let chars = str_chars(id);
    let mut out: Vec<char> = Vec::new();
    push_chars(&mut out, SUPPORT_KEY_PREFIX);
    let ghost head = out@;
    let mut taken: usize = 0;
    let mut i: usize = 0;
    assert(chars@.skip(0) =~= chars@);
    while i < chars.len() && taken < 8
        invariant
            0 <= i <= chars@.len(),
            taken <= 8,
            chars@ == id@,
            out@ + undashed_prefix(chars@.skip(i as int), (8 - taken) as nat) == head
                + undashed_prefix(id@, 8),
        decreases chars@.len() - i,
    {
        let ghost cur = chars@.skip(i as int);
        assert(cur.skip(1) =~= chars@.skip(i + 1));
        let c = chars[i];
        if c != '-' {
            let ghost before = out@;
            out.push(c);
            taken = taken + 1;
            assert(before + (seq![c] + undashed_prefix(cur.skip(1), (8 - taken) as nat))
                =~= out@ + undashed_prefix(cur.skip(1), (8 - taken) as nat));
        }
        i = i + 1;
    }
    assert(undashed_prefix(chars@.skip(i as int), (8 - taken) as nat) =~= Seq::<char>::empty());
    assert(out@ =~= head + undashed_prefix(id@, 8));
    string_from_chars(out.as_slice())
}

/// Where the first `n` characters of `s` hold no `-`, they are what
/// `undashed_prefix` takes.
proof fn lemma_undashed_prefix_of_plain(s: Seq<char>, n: nat)
    requires
        n <= s.len(),
        forall|i: int| 0 <= i < n ==> #[trigger] s[i] != '-',
    ensures
        undashed_prefix(s, n) == s.take(n as int),
    decreases n,
{
    if n > 0 {
        lemma_undashed_prefix_of_plain(s.skip(1), (n - 1) as nat);
        assert(s.take(n as int) =~= seq![s[0]] + s.skip(1).take(n - 1));
    } else {
        assert(s.take(0) =~= Seq::<char>::empty());
    }
}

/// A new key for a graphics support helper: the prefix and eight random
/// lowercase hexadecimal digits.
pub fn make_support_key() -> (key: String)
    ensures
        key@.len() == 16,
        key@.take(8) == SUPPORT_KEY_PREFIX@,
        forall|i: int| 8 <= i < 16 ==> is_lower_hex(#[trigger] key@[i]),
{
    let id = new_uuid_text();
    let key = support_key_for(id.as_str());
    proof {
        reveal_strlit("/TEPHSP_");
        assert forall|i: int| 0 <= i < 8 implies #[trigger] id@[i] != '-' by {
            assert(is_lower_hex(id@[i]));
        }
        lemma_undashed_prefix_of_plain(id@, 8);
        assert(key@.take(8) =~= SUPPORT_KEY_PREFIX@);
        assert forall|i: int| 8 <= i < 16 implies is_lower_hex(#[trigger] key@[i]) by {
            assert(key@[i] == id@[i - 8]);
        }
    }
    key
}

/// File name of the graphics support library.
pub const SUPPORT_LIBRARY_NAME: &'static str = "libvktephsupport.so";

/// Where the graphics support library is: its file name inside
/// `library_dir`, with a `/` between them where the directory does not end
/// with one, or the bare file name (for the loader to search) where no
/// directory, or an empty one, is configured.
pub open spec fn library_path(library_dir: Option<Seq<char>>) -> Seq<char> {
    match library_dir {
        Some(d) => if d.len() == 0 {
            SUPPORT_LIBRARY_NAME@
        } else if d.last() == '/' {
            d + SUPPORT_LIBRARY_NAME@
        } else {
            d + seq!['/'] + SUPPORT_LIBRARY_NAME@
        },
        None => SUPPORT_LIBRARY_NAME@,
    }
}

pub fn library_name(library_dir: Option<&str>) -> (path: String)
    ensures
        path@ == library_path(match library_dir {
            Some(d) => Some(d@),
            None => None,
        }),
{
    let mut out: Vec<char> = Vec::new();
    match library_dir {
        Some(d) => {
            let dir = str_chars(d);
            if dir.len() > 0 {
                push_chars(&mut out, d);
                if dir[dir.len() - 1] != '/' {
                    out.push('/');
                }
            }
        },
        None => {},
    }
    push_chars(&mut out, SUPPORT_LIBRARY_NAME);
    string_from_chars(out.as_slice())
}

/// A search-path list with `value` in front of `existing`: joined by `:`,
/// or `value` alone where there is nothing to keep.
pub open spec fn prepended_list(value: Seq<char>, existing: Option<Seq<char>>) -> Seq<char> {
    match existing {
        Some(e) => if e.len() > 0 {
            value + seq![':'] + e
        } else {
            value
        },
        None => value,
    }
}

pub fn prepend_to_list(value: &str, existing: Option<&str>) -> (joined: String)
    ensures
        joined@ == prepended_list(value@, match existing {
            Some(e) => Some(e@),
            None => None,
        }),
{
    let mut out: Vec<char> = Vec::new();
    push_chars(&mut out, value);
    match existing {
        Some(e) => {
            let rest = str_chars(e);
            if rest.len() > 0 {
                out.push(':');
                push_chars(&mut out, e);
            }
        },
        None => {},
    }
    string_from_chars(out.as_slice())
}

} // verus!
