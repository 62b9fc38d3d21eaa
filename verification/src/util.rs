use base64::Engine;
use md5::Digest;
use rand::Rng;
use vstd::prelude::*;
use vstd::string::StringSliceAdditionalSpecFns;

use crate::text::{hex_char, hex_digit, hex_lower, hex_string, push_char};

verus! {

/// The MD5 digest of `bytes`.
pub uninterp spec fn md5_digest(bytes: Seq<u8>) -> Seq<u8>;

/// The character of the standard Base64 alphabet for a 6-bit value.
pub open spec fn base64_char(v: int) -> char {
    if v < 26 {
        ('A' as int + v) as char
    } else if v < 52 {
        ('a' as int + (v - 26)) as char
    } else if v < 62 {
        ('0' as int + (v - 52)) as char
    } else if v == 62 {
        '+'
    } else {
        '/'
    }
}

/// The standard Base64 encoding of `bytes` (RFC 4648, with `=` padding):
/// each group of three bytes gives four characters of six bits each; a last
/// group of one or two bytes is padded to four characters.
pub open spec fn base64_standard(bytes: Seq<u8>) -> Seq<char>
    decreases bytes.len(),
{
    if bytes.len() == 0 {
        Seq::empty()
    } else if bytes.len() == 1 {
        let a = bytes[0] as int;
        seq![base64_char(a / 4), base64_char((a % 4) * 16), '=', '=']
    } else if bytes.len() == 2 {
        let (a, b) = (bytes[0] as int, bytes[1] as int);
        seq![base64_char(a / 4), base64_char((a % 4) * 16 + b / 16), base64_char((b % 16) * 4), '=']
    } else {
        let (a, b, c) = (bytes[0] as int, bytes[1] as int, bytes[2] as int);
        seq![
            base64_char(a / 4),
            base64_char((a % 4) * 16 + b / 16),
            base64_char((b % 16) * 4 + c / 64),
            base64_char(c % 64),
        ] + base64_standard(bytes.skip(3))
    }
}

/// MD5 of `bytes` (md-5's `Md5` hasher): the digest named `md5_digest`,
/// which is 16 bytes long.
#[verifier::external_body]
fn md5_bytes(bytes: &[u8]) -> (digest: Vec<u8>)
    ensures
        digest@ == md5_digest(bytes@),
        digest@.len() == 16,
{
    let mut hasher = md5::Md5::new();
    hasher.update(bytes);
    hasher.finalize().to_vec()
}

/// Base64 with the standard alphabet and padding (base64's
/// `STANDARD.encode`), as `base64_standard` spells it out.  The input
/// length is bounded so that the output length fits in `usize`.
#[verifier::external_body]
fn base64_encode(bytes: &[u8]) -> (encoded: String)
    requires
        bytes@.len() <= usize::MAX / 2,
    ensures
        encoded@ == base64_standard(bytes@),
{
    base64::engine::general_purpose::STANDARD.encode(bytes)
}

/// A uniformly random byte (rand's `random::<u8>`); nothing is known of
/// its value.
#[verifier::external_body]
fn random_byte() -> (b: u8) {
    rand::random::<u8>()
}

/// An ASCII letter or digit, drawn uniformly (rand's `Alphanumeric`
/// distribution on the thread generator).
#[verifier::external_body]
fn random_alphanumeric() -> (b: u8)
    ensures
        is_alphanumeric(b),
{
    rand::thread_rng().sample(rand::distributions::Alphanumeric)
}

/// std's clock time, carried through opaque.
#[verifier::external_type_specification]
#[verifier::external_body]
pub struct ExSystemTime(std::time::SystemTime);

/// The current time of the system clock (std's `SystemTime::now`); nothing
/// is known of it.
#[verifier::external_body]
fn system_now() -> (t: std::time::SystemTime) {
    std::time::SystemTime::now()
}

/// The time from the Unix epoch to `t` as whole seconds and the
/// nanoseconds of the fraction (std's `SystemTime::duration_since` with
/// `UNIX_EPOCH`); `None` when `t` lies before the epoch.  The fraction is
/// below one second, as `Duration::subsec_nanos` documents; the seconds
/// depend on `t`, which is opaque here, so nothing more is stated.
#[verifier::external_body]
fn since_unix_epoch(t: &std::time::SystemTime) -> (d: Option<(u64, u32)>)
    ensures
        d matches Some((_, nanos)) ==> nanos < 1_000_000_000,
{
    match t.duration_since(std::time::UNIX_EPOCH) {
        Ok(d) => Some((d.as_secs(), d.subsec_nanos())),
        Err(_) => None,
    }
}

/// An ASCII letter or digit.
pub open spec fn is_alphanumeric(b: u8) -> bool {
    (48 <= b <= 57) || (65 <= b <= 90) || (97 <= b <= 122)
}

/// An ASCII uppercase letter or digit.
pub open spec fn is_upper_alnum_char(c: char) -> bool {
    ('0' <= c <= '9') || ('A' <= c <= 'Z')
}

/// A lowercase hexadecimal digit.
pub open spec fn is_hex_char(c: char) -> bool {
    ('0' <= c <= '9') || ('a' <= c <= 'f')
}

/// Lowercase hex of the MD5 digest of the UTF-8 bytes of `text`.
pub open spec fn md5_hex_of(text: Seq<char>) -> Seq<char> {
    hex_lower(md5_digest(vstd::utf8::encode_utf8(text)))
}

proof fn lemma_hex_lower_chars(bytes: Seq<u8>)
    ensures
        hex_lower(bytes).len() == 2 * bytes.len(),
        forall|i: int| 0 <= i < hex_lower(bytes).len() ==> is_hex_char(#[trigger] hex_lower(bytes)[i]),
    decreases bytes.len(),
{
    if bytes.len() > 0 {
        lemma_hex_lower_chars(bytes.drop_last());
        let hi = (bytes.last() / 16) as nat;
        let lo = (bytes.last() % 16) as nat;
        assert(is_hex_char(hex_digit(hi)));
        assert(is_hex_char(hex_digit(lo)));
    }
}

/// Lowercase hex of the MD5 digest of `s`.
pub fn md5_hex(s: &str) -> (h: String)
    ensures
        h@ == md5_hex_of(s@),
        h@.len() == 32,
{
    let digest = md5_bytes(s.as_bytes());
    let h = hex_string(digest.as_slice());
    proof {
        lemma_hex_lower_chars(digest@);
    }
    h
}

/// Standard Base64 of the UTF-8 bytes of `s`.
pub fn base64_of(s: &str) -> (encoded: String)
    requires
        s.spec_bytes().len() <= usize::MAX / 2,
    ensures
        encoded@ == base64_standard(s.spec_bytes()),
{
    base64_encode(s.as_bytes())
}

/// `n` random lowercase hexadecimal digits.
pub fn random_hex(n: usize) -> (s: String)
    ensures
        s@.len() == n,
        forall|i: int| 0 <= i < n ==> is_hex_char(#[trigger] s@[i]),
{
    let mut s = String::new();
    let mut i: usize = 0;
    while i < n
        invariant
            i <= n,
            s@.len() == i,
            forall|j: int| 0 <= j < i ==> is_hex_char(#[trigger] s@[j]),
        decreases n - i,
    {
        let b = random_byte();
        push_char(&mut s, hex_char(b / 16));
        i = i + 1;
        if i < n {
            push_char(&mut s, hex_char(b % 16));
            i = i + 1;
        }
    }
    s
}

/// `n` random uppercase ASCII letters and digits.
pub fn random_alnum_upper(n: usize) -> (s: String)
    ensures
        s@.len() == n,
        forall|i: int| 0 <= i < n ==> is_upper_alnum_char(#[trigger] s@[i]),
{
    let mut s = String::new();
    let mut i: usize = 0;
    while i < n
        invariant
            i <= n,
            s@.len() == i,
            forall|j: int| 0 <= j < i ==> is_upper_alnum_char(#[trigger] s@[j]),
        decreases n - i,
    {
        let b = random_alphanumeric();
        let upper = if 97 <= b && b <= 122 {
            b - 32
        } else {
            b
        };
        push_char(&mut s, upper as char);
        i = i + 1;
    }
    s
}

/// Whole seconds of a time since the epoch; zero for a clock before it.
pub open spec fn secs_of(t: Option<(u64, u32)>) -> u64 {
    match t {
        Some((secs, _)) => secs,
        None => 0,
    }
}

/// Whole milliseconds of a time since the epoch; zero for a clock before it.
pub open spec fn millis_of(t: Option<(u64, u32)>) -> nat {
    match t {
        Some((secs, nanos)) => secs as nat * 1000 + (nanos as nat) / 1_000_000,
        None => 0,
    }
}

/// The milliseconds of a clock reading, divided by a thousand, are its
/// seconds: the fraction of a reading stays below one second.
pub proof fn law_millis_are_secs(t: Option<(u64, u32)>)
    requires
        is_reading(t),
    ensures
        millis_of(t) / 1000 == secs_of(t),
{
    if let Some((secs, nanos)) = t {
        let f = (nanos as nat) / 1_000_000;
        assert(f < 1000);
        assert((secs as nat * 1000 + f) / 1000 == secs as nat) by (nonlinear_arith)
            requires
                f < 1000,
        ;
    }
}

/// Whole seconds of a clock reading (zero for a clock before the epoch).
pub fn reading_secs(t: Option<(u64, u32)>) -> (secs: u64)
    ensures
        secs == secs_of(t),
{
    match t {
        Some((secs, _)) => secs,
        None => 0,
    }
}

/// Whole milliseconds of a clock reading (zero for a clock before the
/// epoch).
pub fn reading_millis(t: Option<(u64, u32)>) -> (millis: u128)
    ensures
        millis as nat == millis_of(t),
{
    match t {
        Some((secs, nanos)) => (secs as u128) * 1000 + (nanos / 1_000_000) as u128,
        None => 0,
    }
}


/// A possible clock reading: no reading, or whole seconds with a fraction
/// below one second.
pub open spec fn is_reading(t: Option<(u64, u32)>) -> bool {
    t matches Some((_, nanos)) ==> nanos < 1_000_000_000
}

/// Seconds since the Unix epoch, read from the system clock (zero if the
/// clock is before the epoch): the whole seconds of some clock reading.
pub fn unix_secs() -> (secs: u64)
    ensures
        exists|t: Option<(u64, u32)>| is_reading(t) && secs == secs_of(t),
{
    let t = since_unix_epoch(&system_now());
    let secs = reading_secs(t);
    assert(is_reading(t) && secs == secs_of(t));
    secs
}

/// Milliseconds since the Unix epoch, read from the system clock (zero if
/// the clock is before the epoch): the whole milliseconds of some clock
/// reading.
pub fn unix_millis() -> (millis: u128)
    ensures
        exists|t: Option<(u64, u32)>| is_reading(t) && millis as nat == millis_of(t),
{
    let t = since_unix_epoch(&system_now());
    let millis = reading_millis(t);
    assert(is_reading(t) && millis as nat == millis_of(t));
    millis
}

} // verus!
