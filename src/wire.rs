//! Primitive encodings: little-endian integers, varints, zigzag, length-prefixed bytes.
use vstd::prelude::*;
use vstd::utf8::*;

verus! {

/// The bytes of `s` from position `p` to its end.
pub open spec fn suffix(s: Seq<u8>, p: int) -> Seq<u8> {
    s.subrange(p, s.len() as int)
}

pub open spec fn le_u16(x: u16) -> Seq<u8> {
    seq![x as u8, (x >> 8u16) as u8]
}

pub open spec fn u16_from_le(b0: u8, b1: u8) -> u16 {
    (b0 as u16) | ((b1 as u16) << 8u16)
}

pub open spec fn le_u32(x: u32) -> Seq<u8> {
    seq![x as u8, (x >> 8u32) as u8, (x >> 16u32) as u8, (x >> 24u32) as u8]
}

pub open spec fn u32_from_le(b0: u8, b1: u8, b2: u8, b3: u8) -> u32 {
    (b0 as u32) | ((b1 as u32) << 8u32) | ((b2 as u32) << 16u32) | ((b3 as u32) << 24u32)
}

pub open spec fn le_u64(x: u64) -> Seq<u8> {
    seq![
        x as u8,
        (x >> 8u64) as u8,
        (x >> 16u64) as u8,
        (x >> 24u64) as u8,
        (x >> 32u64) as u8,
        (x >> 40u64) as u8,
        (x >> 48u64) as u8,
        (x >> 56u64) as u8,
    ]
}

pub open spec fn u64_from_le(s: Seq<u8>) -> u64
    recommends
        s.len() == 8,
{
    (s[0] as u64) | ((s[1] as u64) << 8u64) | ((s[2] as u64) << 16u64) | ((s[3] as u64) << 24u64)
        | ((s[4] as u64) << 32u64) | ((s[5] as u64) << 40u64) | ((s[6] as u64) << 48u64) | ((
    s[7] as u64) << 56u64)
}

pub proof fn lemma_u16_round_trip(x: u16)
    ensures
        u16_from_le(x as u8, (x >> 8u16) as u8) == x,
{
    assert(((x as u8) as u16) | ((((x >> 8u16) as u8) as u16) << 8u16) == x) by (bit_vector);
}

pub proof fn lemma_u32_round_trip(x: u32)
    ensures
        u32_from_le(x as u8, (x >> 8u32) as u8, (x >> 16u32) as u8, (x >> 24u32) as u8) == x,
{
    assert(((x as u8) as u32) | ((((x >> 8u32) as u8) as u32) << 8u32) | ((((x >> 16u32) as u8)
        as u32) << 16u32) | ((((x >> 24u32) as u8) as u32) << 24u32) == x) by (bit_vector);
}

pub proof fn lemma_u64_round_trip(x: u64)
    ensures
        u64_from_le(le_u64(x)) == x,
{
    assert(((x as u8) as u64) | ((((x >> 8u64) as u8) as u64) << 8u64) | ((((x >> 16u64) as u8)
        as u64) << 16u64) | ((((x >> 24u64) as u8) as u64) << 24u64) | ((((x >> 32u64) as u8)
        as u64) << 32u64) | ((((x >> 40u64) as u8) as u64) << 40u64) | ((((x >> 48u64) as u8)
        as u64) << 48u64) | ((((x >> 56u64) as u8) as u64) << 56u64) == x) by (bit_vector);
}

/// Variable-length form of an unsigned integer: one byte below 251, else a marker byte
/// (251, 252, 253) followed by the value in 2, 4 or 8 little-endian bytes.
#[verifier::opaque]
pub open spec fn varint_bytes(x: u64) -> Seq<u8> {
    if x < 251 {
        seq![x as u8]
    } else if x <= 0xffff {
        seq![251u8] + le_u16(x as u16)
    } else if x <= 0xffff_ffff {
        seq![252u8] + le_u32(x as u32)
    } else {
        seq![253u8] + le_u64(x)
    }
}

/// Reads a varint at the start of `s`; gives the value and the bytes after it.
#[verifier::opaque]
pub open spec fn parse_varint(s: Seq<u8>) -> Option<(u64, Seq<u8>)> {
    if s.len() == 0 {
        None
    } else if s[0] < 251 {
        Some((s[0] as u64, suffix(s, 1)))
    } else if s[0] == 251 {
        if s.len() >= 3 {
            Some((u16_from_le(s[1], s[2]) as u64, suffix(s, 3)))
        } else {
            None
        }
    } else if s[0] == 252 {
        if s.len() >= 5 {
            Some((u32_from_le(s[1], s[2], s[3], s[4]) as u64, suffix(s, 5)))
        } else {
            None
        }
    } else if s[0] == 253 {
        if s.len() >= 9 {
            Some((u64_from_le(s.subrange(1, 9)), suffix(s, 9)))
        } else {
            None
        }
    } else {
        None
    }
}

pub proof fn lemma_varint_round_trip(x: u64, rest: Seq<u8>)
    ensures
        parse_varint(varint_bytes(x) + rest) == Some((x, rest)),
{
    reveal(varint_bytes);
    reveal(parse_varint);
    let s = varint_bytes(x) + rest;
    if x < 251 {
        assert(suffix(s, 1) =~= rest);
    } else if x <= 0xffff {
        lemma_u16_round_trip(x as u16);
        assert(suffix(s, 3) =~= rest);
    } else if x <= 0xffff_ffff {
        lemma_u32_round_trip(x as u32);
        assert(suffix(s, 5) =~= rest);
    } else {
        lemma_u64_round_trip(x);
        assert(s.subrange(1, 9) =~= le_u64(x));
        assert(suffix(s, 9) =~= rest);
    }
}

/// Zigzag mapping of a signed integer onto an unsigned one.
pub open spec fn zigzag(x: i64) -> u64 {
    if x >= 0 {
        (2 * x) as u64
    } else {
        (-2 * x - 1) as u64
    }
}

pub open spec fn unzigzag(u: u64) -> i64 {
    if u % 2 == 0 {
        (u / 2) as i64
    } else {
        (-((u / 2) as int) - 1) as i64
    }
}

pub proof fn lemma_zigzag_round_trip(x: i64)
    ensures
        unzigzag(zigzag(x)) == x,
{
}

#[verifier::opaque]
pub open spec fn i64_bytes(x: i64) -> Seq<u8> {
    varint_bytes(zigzag(x))
}

#[verifier::opaque]
pub open spec fn parse_i64(s: Seq<u8>) -> Option<(i64, Seq<u8>)> {
    match parse_varint(s) {
        Some((u, rest)) => Some((unzigzag(u), rest)),
        None => None,
    }
}

/// A byte string: its length as a varint, then its bytes.
#[verifier::opaque]
pub open spec fn bytes_field(b: Seq<u8>) -> Seq<u8> {
    varint_bytes(b.len() as u64) + b
}

#[verifier::opaque]
pub open spec fn parse_bytes(s: Seq<u8>) -> Option<(Seq<u8>, Seq<u8>)> {
    match parse_varint(s) {
        Some((n, rest)) => if n <= rest.len() {
            Some((rest.subrange(0, n as int), suffix(rest, n as int)))
        } else {
            None
        },
        None => None,
    }
}

/// A string: the length-prefixed bytes of its UTF-8 form.
#[verifier::opaque]
pub open spec fn str_field(s: Seq<char>) -> Seq<u8> {
    bytes_field(encode_utf8(s))
}

#[verifier::opaque]
pub open spec fn parse_str(s: Seq<u8>) -> Option<(Seq<char>, Seq<u8>)> {
    match parse_bytes(s) {
        Some((b, rest)) => if valid_utf8(b) {
            Some((decode_utf8(b), rest))
        } else {
            None
        },
        None => None,
    }
}

pub proof fn lemma_i64_round_trip(x: i64, rest: Seq<u8>)
    ensures
        parse_i64(i64_bytes(x) + rest) == Some((x, rest)),
{
    reveal(i64_bytes);
    reveal(parse_i64);
    lemma_varint_round_trip(zigzag(x), rest);
    lemma_zigzag_round_trip(x);
}

pub proof fn lemma_bytes_round_trip(b: Seq<u8>, rest: Seq<u8>)
    requires
        b.len() <= u64::MAX,
    ensures
        parse_bytes(bytes_field(b) + rest) == Some((b, rest)),
{
    reveal(bytes_field);
    reveal(parse_bytes);
    let s = b + rest;
    lemma_varint_round_trip(b.len() as u64, s);
    assert(bytes_field(b) + rest =~= varint_bytes(b.len() as u64) + s);
    assert(s.subrange(0, b.len() as int) =~= b);
    assert(suffix(s, b.len() as int) =~= rest);
}

pub proof fn lemma_str_round_trip(c: Seq<char>, rest: Seq<u8>)
    requires
        encode_utf8(c).len() <= u64::MAX,
    ensures
        parse_str(str_field(c) + rest) == Some((c, rest)),
{
    reveal(str_field);
    reveal(parse_str);
    lemma_bytes_round_trip(encode_utf8(c), rest);
    encode_utf8_valid_utf8(c);
    encode_utf8_decode_utf8(c);
}

/// Relies on `String::from_utf8`: it succeeds exactly on valid UTF-8, and the string then
/// holds the characters that those bytes encode.
#[verifier::external_body]
pub(crate) fn string_from_utf8(bytes: Vec<u8>) -> (r: Option<String>)
    ensures
        match r {
            Some(s) => valid_utf8(bytes@) && s@ == decode_utf8(bytes@),
            None => !valid_utf8(bytes@),
        },
{
    String::from_utf8(bytes).ok()
}

/// Relies on `std::str::from_utf8`: it succeeds exactly on valid UTF-8.
#[verifier::external_body]
pub(crate) fn is_utf8(bytes: &[u8]) -> (r: bool)
    ensures
        r == valid_utf8(bytes@),
{
    std::str::from_utf8(bytes).is_ok()
}

pub fn push_varint(out: &mut Vec<u8>, x: u64)
    ensures
        final(out)@ == old(out)@ + varint_bytes(x),
{
    proof { reveal(varint_bytes); }
    if x < 251 {
        out.push(x as u8);
    } else if x <= 0xffff {
        let v = x as u16;
        out.push(251u8);
        out.push(v as u8);
        out.push((v >> 8u16) as u8);
    } else if x <= 0xffff_ffff {
        let v = x as u32;
        out.push(252u8);
        out.push(v as u8);
        out.push((v >> 8u32) as u8);
        out.push((v >> 16u32) as u8);
        out.push((v >> 24u32) as u8);
    } else {
        out.push(253u8);
        out.push(x as u8);
        out.push((x >> 8u64) as u8);
        out.push((x >> 16u64) as u8);
        out.push((x >> 24u64) as u8);
        out.push((x >> 32u64) as u8);
        out.push((x >> 40u64) as u8);
        out.push((x >> 48u64) as u8);
        out.push((x >> 56u64) as u8);
    }
    assert(final(out)@ =~= old(out)@ + varint_bytes(x));
}

pub fn push_i64(out: &mut Vec<u8>, x: i64)
    ensures
        final(out)@ == old(out)@ + i64_bytes(x),
{
    proof { reveal(i64_bytes); }
    let u: u64 = if x >= 0 {
        (x as u64) * 2
    } else {
        ((-(x + 1)) as u64) * 2 + 1
    };
    assert(u == zigzag(x));
    push_varint(out, u);
}

pub fn push_bytes(out: &mut Vec<u8>, b: &[u8])
    ensures
        final(out)@ == old(out)@ + bytes_field(b@),
{
    proof { reveal(bytes_field); }
    push_varint(out, b.len() as u64);
    out.extend_from_slice(b);
    assert(final(out)@ =~= old(out)@ + bytes_field(b@));
}

pub fn push_str(out: &mut Vec<u8>, s: &String)
    ensures
        final(out)@ == old(out)@ + str_field(s@),
{
    proof { reveal(str_field); }
    push_bytes(out, s.as_str().as_bytes());
}

pub fn read_varint(buf: &[u8], pos: usize) -> (r: Option<(u64, usize)>)
    requires
        pos <= buf@.len(),
    ensures
        match r {
            Some((v, p)) => pos <= p <= buf@.len() && parse_varint(suffix(buf@, pos as int))
                == Some((v, suffix(buf@, p as int))),
            None => parse_varint(suffix(buf@, pos as int)) is None,
        },
{
    proof { reveal(parse_varint); }
    let ghost s = suffix(buf@, pos as int);
    if pos >= buf.len() {
        return None;
    }
    let b = buf[pos];
    assert(s[0] == b);
    let n = buf.len() - pos;
    if b < 251 {
        assert(suffix(s, 1) =~= suffix(buf@, pos + 1));
        Some((b as u64, pos + 1))
    } else if b == 251 {
        if n < 3 {
            return None;
        }
        let v = (buf[pos + 1] as u16) | ((buf[pos + 2] as u16) << 8u16);
        assert(suffix(s, 3) =~= suffix(buf@, pos + 3));
        Some((v as u64, pos + 3))
    } else if b == 252 {
        if n < 5 {
            return None;
        }
        let v = (buf[pos + 1] as u32) | ((buf[pos + 2] as u32) << 8u32) | ((buf[pos + 3] as u32)
            << 16u32) | ((buf[pos + 4] as u32) << 24u32);
        assert(suffix(s, 5) =~= suffix(buf@, pos + 5));
        Some((v as u64, pos + 5))
    } else if b == 253 {
        if n < 9 {
            return None;
        }
        let v = (buf[pos + 1] as u64) | ((buf[pos + 2] as u64) << 8u64) | ((buf[pos + 3] as u64)
            << 16u64) | ((buf[pos + 4] as u64) << 24u64) | ((buf[pos + 5] as u64) << 32u64) | ((
        buf[pos + 6] as u64) << 40u64) | ((buf[pos + 7] as u64) << 48u64) | ((buf[pos + 8] as u64)
            << 56u64);
        assert(suffix(s, 9) =~= suffix(buf@, pos + 9));
        assert(s.subrange(1, 9) =~= buf@.subrange(pos + 1, pos + 9));
        Some((v, pos + 9))
    } else {
        None
    }
}

pub fn read_i64(buf: &[u8], pos: usize) -> (r: Option<(i64, usize)>)
    requires
        pos <= buf@.len(),
    ensures
        match r {
            Some((v, p)) => pos <= p <= buf@.len() && parse_i64(suffix(buf@, pos as int)) == Some(
                (v, suffix(buf@, p as int)),
            ),
            None => parse_i64(suffix(buf@, pos as int)) is None,
        },
{
    proof { reveal(parse_i64); }
    match read_varint(buf, pos) {
        Some((u, p)) => {
            let v: i64 = if u % 2 == 0 {
                (u / 2) as i64
            } else {
                -((u / 2) as i64) - 1
            };
            Some((v, p))
        },
        None => None,
    }
}

pub fn read_bytes(buf: &[u8], pos: usize) -> (r: Option<(Vec<u8>, usize)>)
    requires
        pos <= buf@.len(),
    ensures
        match r {
            Some((v, p)) => pos <= p <= buf@.len() && parse_bytes(suffix(buf@, pos as int)) == Some(
                (v@, suffix(buf@, p as int)),
            ),
            None => parse_bytes(suffix(buf@, pos as int)) is None,
        },
{
    proof { reveal(parse_bytes); }
    match read_varint(buf, pos) {
        Some((n, p)) => {
            let ghost rest = suffix(buf@, p as int);
            if n > (buf.len() - p) as u64 {
                return None;
            }
            let end = p + n as usize;
            let mut v: Vec<u8> = Vec::new();
            v.extend_from_slice(&buf[p..end]);
            assert(v@ =~= rest.subrange(0, n as int));
            assert(suffix(rest, n as int) =~= suffix(buf@, end as int));
            Some((v, end))
        },
        None => None,
    }
}

pub fn read_str(buf: &[u8], pos: usize) -> (r: Option<(String, usize)>)
    requires
        pos <= buf@.len(),
    ensures
        match r {
            Some((v, p)) => pos <= p <= buf@.len() && parse_str(suffix(buf@, pos as int)) == Some(
                (v@, suffix(buf@, p as int)),
            ),
            None => parse_str(suffix(buf@, pos as int)) is None,
        },
{
    proof { reveal(parse_str); }
    match read_bytes(buf, pos) {
        Some((b, p)) => match string_from_utf8(b) {
            Some(s) => Some((s, p)),
            None => None,
        },
        None => None,
    }
}

} // verus!
