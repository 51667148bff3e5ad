//! The byte layout of messages on the wire: bincode's fixed-width
//! little-endian integers and length-prefixed UTF-8 strings.
use vstd::prelude::*;
use vstd::utf8::*;

verus! {

/// The error that bincode reports.
#[verifier::external_type_specification]
#[verifier::external_body]
pub struct ExBincodeErrorKind(bincode::ErrorKind);

/// The four little-endian bytes of `v`.
pub open spec fn u32_le_bytes(v: u32) -> Seq<u8> {
    seq![v as u8, (v >> 8u32) as u8, (v >> 16u32) as u8, (v >> 24u32) as u8]
}

/// The value of the first four bytes of `b`, read little-endian.
pub open spec fn u32_le_value(b: Seq<u8>) -> u32
    recommends
        b.len() >= 4,
{
    (b[0] as u32) | ((b[1] as u32) << 8u32) | ((b[2] as u32) << 16u32) | ((b[3] as u32)
        << 24u32)
}

/// The eight little-endian bytes of `v`.
pub open spec fn u64_le_bytes(v: u64) -> Seq<u8> {
    seq![
        v as u8,
        (v >> 8u64) as u8,
        (v >> 16u64) as u8,
        (v >> 24u64) as u8,
        (v >> 32u64) as u8,
        (v >> 40u64) as u8,
        (v >> 48u64) as u8,
        (v >> 56u64) as u8,
    ]
}

/// The value of the first eight bytes of `b`, read little-endian.
pub open spec fn u64_le_value(b: Seq<u8>) -> u64
    recommends
        b.len() >= 8,
{
    (b[0] as u64) | ((b[1] as u64) << 8u64) | ((b[2] as u64) << 16u64) | ((b[3] as u64)
        << 24u64) | ((b[4] as u64) << 32u64) | ((b[5] as u64) << 40u64) | ((b[6] as u64)
        << 48u64) | ((b[7] as u64) << 56u64)
}

/// A string on the wire: its UTF-8 byte length as a `u64`, then its bytes.
pub open spec fn str_bytes(s: Seq<char>) -> Seq<u8> {
    u64_le_bytes(encode_utf8(s).len() as u64) + encode_utf8(s)
}

/// The string at the start of `b` and the number of bytes it takes, or
/// `None` where `b` does not start with a length prefix followed by that
/// many bytes of valid UTF-8.
pub open spec fn decode_str(b: Seq<u8>) -> Option<(Seq<char>, int)> {
    if b.len() >= 8 {
        let n = u64_le_value(b) as int;
        if 8 + n <= b.len() && valid_utf8(b.subrange(8, 8 + n)) {
            Some((decode_utf8(b.subrange(8, 8 + n)), 8 + n))
        } else {
            None
        }
    } else {
        None
    }
}

/// `bincode::serialize` of a `u32`. Its contract: the result is `Ok`, with
/// the four little-endian bytes of `v` (the default options of bincode 1
/// encode integers at fixed width, little-endian, with no size limit).
#[verifier::external_body]
fn bincode_serialize_u32(v: u32) -> (r: Result<Vec<u8>, Box<bincode::ErrorKind>>)
    ensures
        r is Ok,
        r matches Ok(b) ==> b@ == u32_le_bytes(v),
{
    bincode::serialize(&v)
}

/// `bincode::serialize` of a `String`. Its contract: the result is `Ok`,
/// with the UTF-8 byte length as a little-endian `u64`, then the bytes.
#[verifier::external_body]
fn bincode_serialize_string(s: &String) -> (r: Result<Vec<u8>, Box<bincode::ErrorKind>>)
    ensures
        r is Ok,
        r matches Ok(b) ==> b@ == str_bytes(s@),
{
    bincode::serialize(s)
}

/// `bincode::deserialize::<u32>`. Its contract: `Ok` exactly when `b` holds
/// at least four bytes, with their little-endian value; later bytes are
/// ignored.
#[verifier::external_body]
fn bincode_deserialize_u32(b: &[u8]) -> (r: Result<u32, Box<bincode::ErrorKind>>)
    ensures
        r is Ok <==> b@.len() >= 4,
        r matches Ok(v) ==> v == u32_le_value(b@),
{
    bincode::deserialize::<u32>(b)
}

/// `bincode::deserialize::<String>`. Its contract: `Ok` exactly when `b`
/// starts with a string as `decode_str` reads it, with that string; later
/// bytes are ignored.
#[verifier::external_body]
fn bincode_deserialize_string(b: &[u8]) -> (r: Result<String, Box<bincode::ErrorKind>>)
    ensures
        r is Ok <==> decode_str(b@) is Some,
        r matches Ok(s) ==> s@ == decode_str(b@)->Some_0.0,
{
    bincode::deserialize::<String>(b)
}

/// Reading back the four bytes written for `v` gives `v`.
pub proof fn lemma_u32_roundtrip(v: u32, rest: Seq<u8>)
    ensures
        u32_le_value(u32_le_bytes(v) + rest) == v,
        (u32_le_bytes(v) + rest).len() == 4 + rest.len(),
        (u32_le_bytes(v) + rest).skip(4) == rest,
{
    let b = u32_le_bytes(v) + rest;
    assert(b[0] == v as u8 && b[1] == (v >> 8u32) as u8 && b[2] == (v >> 16u32) as u8 && b[3]
        == (v >> 24u32) as u8);
    assert(((v as u8) as u32) | ((((v >> 8u32) as u8) as u32) << 8u32) | ((((v >> 16u32) as u8)
        as u32) << 16u32) | ((((v >> 24u32) as u8) as u32) << 24u32) == v) by (bit_vector);
    assert(b.skip(4) =~= rest);
}

/// Reading back the eight bytes written for `v` gives `v`.
pub proof fn lemma_u64_roundtrip(v: u64, rest: Seq<u8>)
    ensures
        u64_le_value(u64_le_bytes(v) + rest) == v,
        (u64_le_bytes(v) + rest).len() == 8 + rest.len(),
{
    let b = u64_le_bytes(v) + rest;
    assert(b[0] == v as u8 && b[1] == (v >> 8u64) as u8 && b[2] == (v >> 16u64) as u8 && b[3]
        == (v >> 24u64) as u8 && b[4] == (v >> 32u64) as u8 && b[5] == (v >> 40u64) as u8
        && b[6] == (v >> 48u64) as u8 && b[7] == (v >> 56u64) as u8);
    assert(((v as u8) as u64) | ((((v >> 8u64) as u8) as u64) << 8u64) | ((((v >> 16u64) as u8)
        as u64) << 16u64) | ((((v >> 24u64) as u8) as u64) << 24u64) | ((((v >> 32u64) as u8)
        as u64) << 32u64) | ((((v >> 40u64) as u8) as u64) << 40u64) | ((((v >> 48u64) as u8)
        as u64) << 48u64) | ((((v >> 56u64) as u8) as u64) << 56u64) == v) by (bit_vector);
}

/// Reading a string from the bytes written for `s`, whatever follows them,
/// gives `s` and the number of bytes written.
pub proof fn lemma_str_roundtrip(s: Seq<char>, rest: Seq<u8>)
    requires
        encode_utf8(s).len() <= u64::MAX,
    ensures
        decode_str(str_bytes(s) + rest) == Some((s, str_bytes(s).len() as int)),
        str_bytes(s).len() == 8 + encode_utf8(s).len(),
{
    let e = encode_utf8(s);
    let b = str_bytes(s) + rest;
    lemma_u64_roundtrip(e.len() as u64, e + rest);
    assert(b =~= u64_le_bytes(e.len() as u64) + (e + rest));
    assert(b.subrange(8, 8 + e.len() as int) =~= e);
    encode_utf8_valid_utf8(s);
    encode_utf8_decode_utf8(s);
}

/// The wire bytes of `v`.
pub fn encode_u32(v: u32) -> (b: Vec<u8>)
    ensures
        b@ == u32_le_bytes(v),
{
    match bincode_serialize_u32(v) {
        Ok(b) => b,
        Err(_) => {
            assert(false);
            Vec::new()
        },
    }
}


/// The wire bytes of `s`.
pub fn encode_string(s: &String) -> (b: Vec<u8>)
    ensures
        b@ == str_bytes(s@),
{
    match bincode_serialize_string(s) {
        Ok(b) => b,
        Err(_) => {
            assert(false);
            Vec::new()
        },
    }
}

/// The `u32` at the start of `b`, if `b` holds four bytes.
pub fn read_u32(b: &[u8]) -> (r: Option<u32>)
    ensures
        r is Some <==> b@.len() >= 4,
        r matches Some(v) ==> v == u32_le_value(b@),
{
    match bincode_deserialize_u32(b) {
        Ok(v) => Some(v),
        Err(_) => None,
    }
}

/// The string at the start of `b`, as `decode_str` reads it.
pub fn read_string(b: &[u8]) -> (r: Option<String>)
    ensures
        r is Some <==> decode_str(b@) is Some,
        r matches Some(s) ==> s@ == decode_str(b@)->Some_0.0,
{
    match bincode_deserialize_string(b) {
        Ok(s) => Some(s),
        Err(_) => None,
    }
}

} // verus!
