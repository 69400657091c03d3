//! The byte-level building blocks of the instruction and account formats:
//! little-endian 32-bit integers and strings prefixed by their byte length.

use vstd::prelude::*;
use vstd::slice::*;
use vstd::utf8::*;

verus! {

/// The error of `String::from_utf8` of the standard library. Nothing is
/// read of it.
#[verifier::external_type_specification]
#[verifier::external_body]
pub struct ExFromUtf8Error(std::string::FromUtf8Error);

/// Byte `k` of `n`, counted from the least significant, which is byte 0.
#[verifier::opaque]
pub open spec fn le_byte(n: u32, k: int) -> u8 {
    if k == 0 {
        (n % 256) as u8
    } else if k == 1 {
        (n / 256 % 256) as u8
    } else if k == 2 {
        (n / 65536 % 256) as u8
    } else {
        (n / 16777216) as u8
    }
}

/// The four bytes of `n`, least significant first.
pub open spec fn u32_le(n: u32) -> Seq<u8> {
    seq![le_byte(n, 0), le_byte(n, 1), le_byte(n, 2), le_byte(n, 3)]
}

/// The number held by the four bytes of `b` that start at `at`, least significant first.
pub open spec fn le_u32_at(b: Seq<u8>, at: int) -> int {
    b[at] + 256 * b[at + 1] + 65536 * b[at + 2] + 16777216 * b[at + 3]
}

/// A string on the wire: the byte length of its UTF-8 encoding as a
/// little-endian 32-bit integer, then the encoding itself.
pub open spec fn string_bytes(s: Seq<char>) -> Seq<u8> {
    u32_le(encode_utf8(s).len() as u32) + encode_utf8(s)
}

/// The string that starts at `at` in `b`, with the offset of the byte after it.
/// There is none where the length prefix or the announced bytes run past the
/// end of `b`, or where the bytes are not UTF-8.
pub open spec fn string_at(b: Seq<u8>, at: int) -> Option<(Seq<char>, int)> {
    if 0 <= at && at + 4 <= b.len() {
        let end = at + 4 + le_u32_at(b, at);
        if end <= b.len() && valid_utf8(b.subrange(at + 4, end)) {
            Some((decode_utf8(b.subrange(at + 4, end)), end))
        } else {
            None
        }
    } else {
        None
    }
}

/// `buf` with the bytes from `at` on replaced by `src`; the length stays.
pub open spec fn overwrite(buf: Seq<u8>, at: int, src: Seq<u8>) -> Seq<u8> {
    buf.subrange(0, at) + src + buf.subrange(at + src.len(), buf.len() as int)
}

/// Reading back the four bytes of a number gives the number.
pub proof fn lemma_u32_le_round_trip(n: u32, b: Seq<u8>, at: int)
    requires
        0 <= at,
        at + 4 <= b.len(),
        b.subrange(at, at + 4) == u32_le(n),
    ensures
        le_u32_at(b, at) == n,
{
    reveal(le_byte);
    let w = b.subrange(at, at + 4);
    assert(w[0] == b[at] && w[1] == b[at + 1] && w[2] == b[at + 2] && w[3] == b[at + 3]);
}

/// A string written at `at` is read back from there, whatever surrounds it.
pub proof fn lemma_string_round_trip(s: Seq<char>, b: Seq<u8>, at: int)
    requires
        encode_utf8(s).len() <= u32::MAX,
        0 <= at,
        at + string_bytes(s).len() <= b.len(),
        b.subrange(at, at + string_bytes(s).len()) == string_bytes(s),
    ensures
        string_at(b, at) == Some((s, at + 4 + encode_utf8(s).len())),
{
    let body = encode_utf8(s);
    let n = body.len() as u32;
    let w = b.subrange(at, at + string_bytes(s).len());
    assert(b.subrange(at, at + 4) =~= w.subrange(0, 4));
    assert(w.subrange(0, 4) =~= u32_le(n));
    lemma_u32_le_round_trip(n, b, at);
    assert(b.subrange(at + 4, at + 4 + body.len()) =~= w.subrange(4, 4 + body.len() as int));
    assert(w.subrange(4, 4 + body.len() as int) =~= body);
    encode_utf8_valid_utf8(s);
    encode_utf8_decode_utf8(s);
}

/// The number at `at`, if four bytes are there.
pub fn read_u32(b: &[u8], at: usize) -> (r: Option<u32>)
    ensures
        at + 4 <= b@.len() ==> r == Some(le_u32_at(b@, at as int) as u32),
        at + 4 > b@.len() ==> r is None,
{
    if b.len() < 4 || at > b.len() - 4 {
        return None;
    }
    let b0: u32 = b[at] as u32;
    let b1: u32 = b[at + 1] as u32;
    let b2: u32 = b[at + 2] as u32;
    let b3: u32 = b[at + 3] as u32;
    Some(b0 + 256 * b1 + 65536 * b2 + 16777216 * b3)
}

/// `String::from_utf8` of the standard library accepts exactly the byte
/// vectors that are UTF-8 and gives the string that they encode.
pub assume_specification[ String::from_utf8 ](vec: Vec<u8>) -> (r: Result<
    String,
    std::string::FromUtf8Error,
>)
    ensures
        r is Ok <==> valid_utf8(vec@),
        r matches Ok(s) ==> s@ == decode_utf8(vec@),
;

/// The string at `at` and the offset of the byte after it, if a string is there.
pub fn read_string(b: &[u8], at: usize) -> (r: Option<(String, usize)>)
    ensures
        match string_at(b@, at as int) {
            Some((s, end)) => r matches Some((t, e)) && t@ == s && e == end,
            None => r is None,
        },
{
    let len: usize = b.len();
    let n: usize = match read_u32(b, at) {
        Some(n) => n as usize,
        None => {
            return None;
        },
    };
    let start: usize = at + 4;
    if n > len - start {
        return None;
    }
    let end: usize = start + n;
    let bytes = slice_to_vec(slice_subrange(b, start, end));
    match String::from_utf8(bytes) {
        Ok(s) => Some((s, end)),
        Err(_) => None,
    }
}

/// Copies `src` into `buf` from `at` on and gives the offset of the byte
/// after the copy.
pub fn write_bytes(buf: &mut [u8], at: usize, src: &[u8]) -> (end: usize)
    requires
        at + src@.len() <= old(buf)@.len(),
    ensures
        end == at + src@.len(),
        final(buf)@ == overwrite(old(buf)@, at as int, src@),
{
    let mut i: usize = 0;
    let mut to: usize = at;
    while i < src.len()
        invariant
            i <= src@.len(),
            to == at + i,
            at + src@.len() <= buf@.len(),
            buf@.len() == old(buf)@.len(),
            buf@ == overwrite(old(buf)@, at as int, src@.subrange(0, i as int)),
        decreases src@.len() - i,
    {
        buf[to] = src[i];
        i += 1;
        to += 1;
    }
    assert(src@.subrange(0, i as int) =~= src@);
    to
}

/// Writes the four bytes of `n` into `buf` from `at` on and gives the offset
/// of the byte after them.
pub fn write_u32(buf: &mut [u8], at: usize, n: u32) -> (end: usize)
    requires
        at + 4 <= old(buf)@.len(),
    ensures
        end == at + 4,
        final(buf)@ == overwrite(old(buf)@, at as int, u32_le(n)),
{
    proof {
        reveal(le_byte);
    }
    buf[at] = (n % 256) as u8;
    buf[at + 1] = (n / 256 % 256) as u8;
    buf[at + 2] = (n / 65536 % 256) as u8;
    buf[at + 3] = (n / 16777216) as u8;
    at + 4
}

/// Writes `s` with its length prefix into `buf` from `at` on and gives the
/// offset of the byte after it.
pub fn write_string(buf: &mut [u8], at: usize, s: &str) -> (end: usize)
    requires
        encode_utf8(s@).len() <= u32::MAX,
        at + string_bytes(s@).len() <= old(buf)@.len(),
    ensures
        end == at + string_bytes(s@).len(),
        final(buf)@ == overwrite(old(buf)@, at as int, string_bytes(s@)),
{
    let body = s.as_bytes();
    let start: usize = write_u32(buf, at, body.len() as u32);
    write_bytes(buf, start, body)
}

} // verus!
