//! Primitive pieces of the wire format: every packet field is written by bincode with the
//! little-endian, fixed-width integer configuration and no size limit.
use vstd::prelude::*;
use vstd::bytes::*;
use vstd::utf8::*;
use vstd::string::*;

verus! {

// ---------------------------------------------------------------------------------------
// Byte images of the primitive fields.
// ---------------------------------------------------------------------------------------

/// One byte, written as itself.
pub open spec fn enc_u8(v: u8) -> Seq<u8> {
    seq![v]
}

/// A boolean is the byte 1 for `true` and 0 for `false`.
pub open spec fn enc_bool(b: bool) -> Seq<u8> {
    seq![if b { 1u8 } else { 0u8 }]
}

/// A `u32` is its four little-endian bytes.
pub open spec fn enc_u32(v: u32) -> Seq<u8> {
    spec_u32_to_le_bytes(v)
}

/// A `u64` is its eight little-endian bytes.
pub open spec fn enc_u64(v: u64) -> Seq<u8> {
    spec_u64_to_le_bytes(v)
}

/// A byte string is its length as a `u64`, then the bytes.
pub open spec fn enc_bytes(b: Seq<u8>) -> Seq<u8> {
    enc_u64(b.len() as u64) + b
}

/// A text is its UTF-8 bytes, written as a byte string.
pub open spec fn enc_str(s: Seq<char>) -> Seq<u8> {
    enc_bytes(encode_utf8(s))
}

// ---------------------------------------------------------------------------------------
// Reading the primitive fields from the front of a byte sequence.  Each reader gives the
// value and the number of bytes it took, or `None` when the bytes do not hold one.
// ---------------------------------------------------------------------------------------

pub open spec fn parse_u8(s: Seq<u8>) -> Option<(u8, int)> {
    if s.len() >= 1 {
        Some((s[0], 1))
    } else {
        None
    }
}

pub open spec fn parse_bool(s: Seq<u8>) -> Option<(bool, int)> {
    if s.len() >= 1 && s[0] <= 1 {
        Some((s[0] == 1, 1))
    } else {
        None
    }
}

pub open spec fn parse_u32(s: Seq<u8>) -> Option<(u32, int)> {
    if s.len() >= 4 {
        Some((spec_u32_from_le_bytes(s.subrange(0, 4)), 4))
    } else {
        None
    }
}

pub open spec fn parse_u64(s: Seq<u8>) -> Option<(u64, int)> {
    if s.len() >= 8 {
        Some((spec_u64_from_le_bytes(s.subrange(0, 8)), 8))
    } else {
        None
    }
}

pub open spec fn parse_bytes(s: Seq<u8>) -> Option<(Seq<u8>, int)> {
    match parse_u64(s) {
        Some((n, k)) => if k + n <= s.len() {
            Some((s.subrange(k, k + n), k + n))
        } else {
            None
        },
        None => None,
    }
}

pub open spec fn parse_str(s: Seq<u8>) -> Option<(Seq<char>, int)> {
    match parse_bytes(s) {
        Some((b, n)) => if valid_utf8(b) {
            Some((decode_utf8(b), n))
        } else {
            None
        },
        None => None,
    }
}

/// The bytes after the first `n`.
pub open spec fn rest(s: Seq<u8>, n: int) -> Seq<u8> {
    s.subrange(n, s.len() as int)
}

// ---------------------------------------------------------------------------------------
// What reading gives back of what was written.
// ---------------------------------------------------------------------------------------

pub proof fn lemma_rest_concat(a: Seq<u8>, b: Seq<u8>)
    ensures
        rest(a + b, a.len() as int) == b,
{
    assert(rest(a + b, a.len() as int) =~= b);
}

pub proof fn lemma_parse_u8(v: u8, tail: Seq<u8>)
    ensures
        parse_u8(enc_u8(v) + tail) == Some((v, 1int)),
        enc_u8(v).len() == 1,
{
}

pub proof fn lemma_parse_bool(b: bool, tail: Seq<u8>)
    ensures
        parse_bool(enc_bool(b) + tail) == Some((b, 1int)),
        enc_bool(b).len() == 1,
{
}

pub proof fn lemma_parse_u32(v: u32, tail: Seq<u8>)
    ensures
        parse_u32(enc_u32(v) + tail) == Some((v, 4int)),
        enc_u32(v).len() == 4,
{
    lemma_auto_spec_u32_to_from_le_bytes();
    assert((enc_u32(v) + tail).subrange(0, 4) =~= enc_u32(v));
}

pub proof fn lemma_parse_u64(v: u64, tail: Seq<u8>)
    ensures
        parse_u64(enc_u64(v) + tail) == Some((v, 8int)),
        enc_u64(v).len() == 8,
{
    lemma_auto_spec_u64_to_from_le_bytes();
    assert((enc_u64(v) + tail).subrange(0, 8) =~= enc_u64(v));
}

pub proof fn lemma_parse_bytes(b: Seq<u8>, tail: Seq<u8>)
    requires
        b.len() <= u64::MAX,
    ensures
        parse_bytes(enc_bytes(b) + tail) == Some((b, enc_bytes(b).len() as int)),
        enc_bytes(b).len() == 8 + b.len(),
{
    let n = b.len() as u64;
    lemma_parse_u64(n, b + tail);
    assert(enc_bytes(b) + tail =~= enc_u64(n) + (b + tail));
    assert((enc_bytes(b) + tail).subrange(8, 8 + b.len() as int) =~= b);
}

pub proof fn lemma_parse_str(s: Seq<char>, tail: Seq<u8>)
    requires
        encode_utf8(s).len() <= u64::MAX,
    ensures
        parse_str(enc_str(s) + tail) == Some((s, enc_str(s).len() as int)),
{
    encode_utf8_valid_utf8(s);
    encode_utf8_decode_utf8(s);
    lemma_parse_bytes(encode_utf8(s), tail);
}

// ---------------------------------------------------------------------------------------
// What a reader takes is exactly the bytes of what it gives.
// ---------------------------------------------------------------------------------------

/// The primitive byte images are the ones bincode writes with fixed-width little-endian
/// integers: a byte as itself, a boolean as 1 or 0, integers as their little-endian bytes,
/// and a byte string or text as its length as a `u64` followed by its (UTF-8) bytes.
pub proof fn primitive_encodings(v: u8, b: bool, w: u32, x: u64, d: Seq<u8>, t: Seq<char>)
    ensures
        enc_u8(v) == seq![v],
        enc_bool(b) == seq![if b { 1u8 } else { 0u8 }],
        enc_u32(w) == spec_u32_to_le_bytes(w),
        enc_u32(w).len() == 4,
        enc_u64(x) == spec_u64_to_le_bytes(x),
        enc_u64(x).len() == 8,
        enc_bytes(d) == spec_u64_to_le_bytes(d.len() as u64) + d,
        enc_str(t) == spec_u64_to_le_bytes(encode_utf8(t).len() as u64) + encode_utf8(t),
{
    lemma_auto_spec_u32_to_from_le_bytes();
    lemma_auto_spec_u64_to_from_le_bytes();
}

/// The bytes before `a + b` are those before `a`, then the `b` bytes after them.
pub proof fn lemma_prefix_concat(s: Seq<u8>, a: int, b: int)
    requires
        0 <= a,
        0 <= b,
        a + b <= s.len(),
    ensures
        s.subrange(0, a + b) == s.subrange(0, a) + rest(s, a).subrange(0, b),
{
    assert(s.subrange(0, a + b) =~= s.subrange(0, a) + rest(s, a).subrange(0, b));
}

/// Two fields read one after the other take their two byte images.
pub proof fn lemma_take_next(s: Seq<u8>, a: int, x: Seq<u8>, b: int, y: Seq<u8>)
    requires
        0 <= a,
        0 <= b,
        a + b <= s.len(),
        s.subrange(0, a) == x,
        rest(s, a).subrange(0, b) == y,
    ensures
        s.subrange(0, a + b) == x + y,
{
    lemma_prefix_concat(s, a, b);
}

/// Skipping `a` bytes and then `b` skips `a + b`.
pub proof fn lemma_rest_rest(s: Seq<u8>, a: int, b: int)
    requires
        0 <= a <= s.len(),
        0 <= b <= s.len() - a,
    ensures
        rest(rest(s, a), b) == rest(s, a + b),
{
    assert(rest(rest(s, a), b) =~= rest(s, a + b));
}

pub proof fn lemma_parse_u8_inv(s: Seq<u8>)
    ensures
        parse_u8(s) matches Some((v, n)) ==> n == 1 && n <= s.len() && s.subrange(0, n) == enc_u8(v),
{
    if s.len() >= 1 {
        assert(s.subrange(0, 1) =~= enc_u8(s[0]));
    }
}

pub proof fn lemma_parse_bool_inv(s: Seq<u8>)
    ensures
        parse_bool(s) matches Some((v, n)) ==> n == 1 && n <= s.len() && s.subrange(0, n) == enc_bool(v),
{
    if s.len() >= 1 && s[0] <= 1 {
        assert(s.subrange(0, 1) =~= enc_bool(s[0] == 1));
    }
}

pub proof fn lemma_parse_u32_inv(s: Seq<u8>)
    ensures
        parse_u32(s) matches Some((v, n)) ==> n == 4 && n <= s.len() && s.subrange(0, n) == enc_u32(v),
{
    lemma_auto_spec_u32_to_from_le_bytes();
}

pub proof fn lemma_parse_u64_inv(s: Seq<u8>)
    ensures
        parse_u64(s) matches Some((v, n)) ==> n == 8 && n <= s.len() && s.subrange(0, n) == enc_u64(v),
{
    lemma_auto_spec_u64_to_from_le_bytes();
}

pub proof fn lemma_parse_bytes_inv(s: Seq<u8>)
    ensures
        parse_bytes(s) matches Some((d, n)) ==> n == 8 + d.len() && n <= s.len() && s.subrange(0, n) == enc_bytes(d),
{
    lemma_parse_u64_inv(s);
    if let Some((d, n)) = parse_bytes(s) {
        let len = parse_u64(s).unwrap().0;
        assert(d.len() == len);
        lemma_prefix_concat(s, 8, len as int);
        assert(rest(s, 8).subrange(0, len as int) =~= d);
    }
}

pub proof fn lemma_parse_str_inv(s: Seq<u8>)
    ensures
        parse_str(s) matches Some((t, n)) ==> n <= s.len() && s.subrange(0, n) == enc_str(t),
{
    lemma_parse_bytes_inv(s);
    if let Some((t, n)) = parse_str(s) {
        let d = parse_bytes(s).unwrap().0;
        decode_utf8_encode_utf8(d);
    }
}

// ---------------------------------------------------------------------------------------
// The calls into bincode.  Each one writes or reads a single primitive field.
// ---------------------------------------------------------------------------------------

/// `bincode::serde::encode_to_vec` on a `u8`: the writer into a `Vec` never fails and a
/// byte is written as itself.
#[verifier::external_body]
pub(crate) fn encode_u8(v: u8) -> (r: Option<Vec<u8>>)
    ensures
        r is Some,
        r.unwrap()@ == enc_u8(v),
{
    let config = bincode::config::standard().with_little_endian().with_fixed_int_encoding().with_no_limit();
    bincode::serde::encode_to_vec(v, config).ok()
}

/// `bincode::serde::encode_to_vec` on a `bool`: written as the byte 1 or 0.
#[verifier::external_body]
pub(crate) fn encode_bool(v: bool) -> (r: Option<Vec<u8>>)
    ensures
        r is Some,
        r.unwrap()@ == enc_bool(v),
{
    let config = bincode::config::standard().with_little_endian().with_fixed_int_encoding().with_no_limit();
    bincode::serde::encode_to_vec(v, config).ok()
}

/// `bincode::serde::encode_to_vec` on a `u32`: with fixed-width little-endian integers
/// this is `to_le_bytes`.
#[verifier::external_body]
pub(crate) fn encode_u32(v: u32) -> (r: Option<Vec<u8>>)
    ensures
        r is Some,
        r.unwrap()@ == enc_u32(v),
{
    let config = bincode::config::standard().with_little_endian().with_fixed_int_encoding().with_no_limit();
    bincode::serde::encode_to_vec(v, config).ok()
}

/// `bincode::serde::encode_to_vec` on a `u64`: with fixed-width little-endian integers
/// this is `to_le_bytes`.
#[verifier::external_body]
pub(crate) fn encode_u64(v: u64) -> (r: Option<Vec<u8>>)
    ensures
        r is Some,
        r.unwrap()@ == enc_u64(v),
{
    let config = bincode::config::standard().with_little_endian().with_fixed_int_encoding().with_no_limit();
    bincode::serde::encode_to_vec(v, config).ok()
}

/// `bincode::serde::encode_to_vec` on a byte slice: the length as a fixed-width `u64`,
/// then the bytes.
#[verifier::external_body]
pub(crate) fn encode_bytes(v: &[u8]) -> (r: Option<Vec<u8>>)
    ensures
        r is Some,
        r.unwrap()@ == enc_bytes(v@),
{
    let config = bincode::config::standard().with_little_endian().with_fixed_int_encoding().with_no_limit();
    bincode::serde::encode_to_vec(v, config).ok()
}

/// `bincode::serde::decode_from_slice` into a `u8`: the first byte, if there is one.
#[verifier::external_body]
pub(crate) fn decode_u8(s: &[u8]) -> (r: Option<(u8, usize)>)
    ensures
        match r {
            Some((v, n)) => parse_u8(s@) == Some((v, n as int)),
            None => parse_u8(s@) is None,
        },
{
    let config = bincode::config::standard().with_little_endian().with_fixed_int_encoding().with_no_limit();
    bincode::serde::decode_from_slice::<u8, _>(s, config).ok()
}

/// `bincode::serde::decode_from_slice` into a `bool`: the first byte must be 0 or 1.
#[verifier::external_body]
pub(crate) fn decode_bool(s: &[u8]) -> (r: Option<(bool, usize)>)
    ensures
        match r {
            Some((v, n)) => parse_bool(s@) == Some((v, n as int)),
            None => parse_bool(s@) is None,
        },
{
    let config = bincode::config::standard().with_little_endian().with_fixed_int_encoding().with_no_limit();
    bincode::serde::decode_from_slice::<bool, _>(s, config).ok()
}

/// `bincode::serde::decode_from_slice` into a `u32`: the first four bytes, little-endian.
#[verifier::external_body]
pub(crate) fn decode_u32(s: &[u8]) -> (r: Option<(u32, usize)>)
    ensures
        match r {
            Some((v, n)) => parse_u32(s@) == Some((v, n as int)),
            None => parse_u32(s@) is None,
        },
{
    let config = bincode::config::standard().with_little_endian().with_fixed_int_encoding().with_no_limit();
    bincode::serde::decode_from_slice::<u32, _>(s, config).ok()
}

/// `bincode::serde::decode_from_slice` into a `u64`: the first eight bytes, little-endian.
#[verifier::external_body]
pub(crate) fn decode_u64(s: &[u8]) -> (r: Option<(u64, usize)>)
    ensures
        match r {
            Some((v, n)) => parse_u64(s@) == Some((v, n as int)),
            None => parse_u64(s@) is None,
        },
{
    let config = bincode::config::standard().with_little_endian().with_fixed_int_encoding().with_no_limit();
    bincode::serde::decode_from_slice::<u64, _>(s, config).ok()
}

/// `bincode::serde::decode_from_slice` into a `Vec<u8>`: a `u64` length, then that many
/// bytes, which must all be there.
#[verifier::external_body]
pub(crate) fn decode_bytes(s: &[u8]) -> (r: Option<(Vec<u8>, usize)>)
    ensures
        match r {
            Some((v, n)) => parse_bytes(s@) == Some((v@, n as int)),
            None => parse_bytes(s@) is None,
        },
{
    let config = bincode::config::standard().with_little_endian().with_fixed_int_encoding().with_no_limit();
    bincode::serde::decode_from_slice::<Vec<u8>, _>(s, config).ok()
}

/// `std::str::from_utf8`: succeeds exactly on valid UTF-8, and the text has those bytes.
#[verifier::external_body]
pub(crate) fn utf8_text(v: &[u8]) -> (r: Option<&str>)
    ensures
        r is Some <==> valid_utf8(v@),
        r matches Some(s) ==> s.spec_bytes() == v@,
{
    std::str::from_utf8(v).ok()
}

} // verus!
