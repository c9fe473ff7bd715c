//! Frame envelope: magic `SCB1`, a little-endian `u16` version, a little-endian `u32` payload
//! length, then the payload. Readers work on the bytes received so far and say how many bytes
//! they need before they can decide.
use vstd::prelude::*;
use crate::protocol::{MAGIC, VERSION};
use crate::wire::{le_u16, le_u32, u16_from_le, u32_from_le, lemma_u16_round_trip, lemma_u32_round_trip};

verus! {

#[derive(Debug, Clone, Copy, PartialEq, Eq, Structural)]
pub enum FramingError {
    InvalidMagic,
    MagicNotFound,
    UnsupportedVersion(u16),
    PayloadTooLarge(u32),
}

/// A frame that was read in full: its payload and how many bytes preceded its magic.
#[derive(Debug, Clone, PartialEq, Eq)]
pub struct FrameReadResult {
    pub payload: Vec<u8>,
    pub discarded_bytes: usize,
}

/// Where reading a frame out of the bytes received so far stands.
#[derive(Debug, Clone, PartialEq, Eq)]
pub enum FrameRead {
    /// A whole frame was found.
    Complete(FrameReadResult),
    /// No decision before this many more bytes have been received.
    NeedMore(usize),
    /// The bytes can never form an acceptable frame.
    Failed(FramingError),
}

pub enum FrameOutcome {
    Complete { payload: Seq<u8>, discarded: nat },
    NeedMore { more: nat },
    Failed { error: FramingError },
}

impl View for FrameRead {
    type V = FrameOutcome;

    open spec fn view(&self) -> FrameOutcome {
        match self {
            FrameRead::Complete(r) => FrameOutcome::Complete {
                payload: r.payload@,
                discarded: r.discarded_bytes as nat,
            },
            FrameRead::NeedMore(n) => FrameOutcome::NeedMore { more: *n as nat },
            FrameRead::Failed(e) => FrameOutcome::Failed { error: *e },
        }
    }
}

pub open spec fn magic_seq() -> Seq<u8> {
    seq![0x53u8, 0x43u8, 0x42u8, 0x31u8]
}

pub open spec fn magic_at(s: Seq<u8>, d: int) -> bool {
    0 <= d && d + 4 <= s.len() && s.subrange(d, d + 4) == magic_seq()
}

/// The header that announces a payload of `len` bytes.
pub open spec fn header_bytes(len: u32) -> Seq<u8> {
    magic_seq() + le_u16(VERSION) + le_u32(len)
}

/// A payload wrapped in its envelope.
pub open spec fn frame_bytes(p: Seq<u8>) -> Seq<u8> {
    header_bytes(p.len() as u32) + p
}

/// Reading on from a magic found at `d`: version, then length, then payload.
pub open spec fn read_after_magic(s: Seq<u8>, d: int, max: nat) -> FrameOutcome {
    if s.len() < d + 6 {
        FrameOutcome::NeedMore { more: (d + 6 - s.len()) as nat }
    } else if u16_from_le(s[d + 4], s[d + 5]) != VERSION {
        FrameOutcome::Failed {
            error: FramingError::UnsupportedVersion(u16_from_le(s[d + 4], s[d + 5])),
        }
    } else if s.len() < d + 10 {
        FrameOutcome::NeedMore { more: (d + 10 - s.len()) as nat }
    } else {
        let len = u32_from_le(s[d + 6], s[d + 7], s[d + 8], s[d + 9]);
        if len > max {
            FrameOutcome::Failed { error: FramingError::PayloadTooLarge(len) }
        } else if s.len() < d + 10 + len {
            FrameOutcome::NeedMore { more: (d + 10 + len - s.len()) as nat }
        } else {
            FrameOutcome::Complete {
                payload: s.subrange(d + 10, d + 10 + len),
                discarded: d as nat,
            }
        }
    }
}

/// Strict reading: the input must open with the magic.
pub open spec fn strict_outcome(s: Seq<u8>, max: nat) -> FrameOutcome {
    if s.len() < 4 {
        FrameOutcome::NeedMore { more: (4 - s.len()) as nat }
    } else if !magic_at(s, 0) {
        FrameOutcome::Failed { error: FramingError::InvalidMagic }
    } else {
        read_after_magic(s, 0, max)
    }
}

/// The sliding scan for the magic, looking at the window that starts at `d`; it gives up
/// once the window has moved past `cap` discarded bytes without a match.
pub open spec fn scan_from(s: Seq<u8>, d: int, max: nat, cap: nat) -> FrameOutcome
    decreases s.len() - d,
{
    if d < 0 || s.len() < d + 4 {
        FrameOutcome::NeedMore { more: (if d < 0 { 4 } else { d + 4 - s.len() }) as nat }
    } else if magic_at(s, d) {
        read_after_magic(s, d, max)
    } else if d > cap {
        FrameOutcome::Failed { error: FramingError::MagicNotFound }
    } else {
        scan_from(s, d + 1, max, cap)
    }
}

/// Resynchronising reading: skips bytes before the magic, at most about `cap` of them.
pub open spec fn resync_outcome(s: Seq<u8>, max: nat, cap: nat) -> FrameOutcome {
    if s.len() < 4 {
        FrameOutcome::NeedMore { more: (4 - s.len()) as nat }
    } else if magic_at(s, 0) {
        read_after_magic(s, 0, max)
    } else {
        scan_from(s, 1, max, cap)
    }
}

/// Wraps `payload` in a frame.
pub fn encode_frame(payload: &[u8]) -> (out: Vec<u8>)
    requires
        payload@.len() <= u32::MAX,
    ensures
        out@ == frame_bytes(payload@),
{
    let mut out: Vec<u8> = Vec::new();
    out.push(MAGIC[0]);
    out.push(MAGIC[1]);
    out.push(MAGIC[2]);
    out.push(MAGIC[3]);
    out.push(VERSION as u8);
    out.push((VERSION >> 8u16) as u8);
    let len = payload.len() as u32;
    out.push(len as u8);
    out.push((len >> 8u32) as u8);
    out.push((len >> 16u32) as u8);
    out.push((len >> 24u32) as u8);
    out.extend_from_slice(payload);
    assert(out@ =~= frame_bytes(payload@));
    out
}

fn has_magic_at(input: &[u8], d: usize) -> (r: bool)
    requires
        d + 4 <= input@.len(),
    ensures
        r == magic_at(input@, d as int),
{
    let r = input[d] == MAGIC[0] && input[d + 1] == MAGIC[1] && input[d + 2] == MAGIC[2]
        && input[d + 3] == MAGIC[3];
    assert(r ==> input@.subrange(d as int, d + 4) =~= magic_seq());
    assert(input@.subrange(d as int, d + 4) == magic_seq() ==> input@[d + 1] == MAGIC[1]
        && input@[d as int] == MAGIC[0] && input@[d + 2] == MAGIC[2] && input@[d + 3]
        == MAGIC[3]) by {
        if input@.subrange(d as int, d + 4) == magic_seq() {
            assert(input@.subrange(d as int, d + 4)[0] == input@[d as int]);
            assert(input@.subrange(d as int, d + 4)[1] == input@[d + 1]);
            assert(input@.subrange(d as int, d + 4)[2] == input@[d + 2]);
            assert(input@.subrange(d as int, d + 4)[3] == input@[d + 3]);
        }
    }
    r
}

fn read_from_magic(input: &[u8], d: usize, max_size: usize) -> (r: FrameRead)
    requires
        magic_at(input@, d as int),
    ensures
        r@ == read_after_magic(input@, d as int, max_size as nat),
{
    let n = input.len();
    if n - d < 6 {
        return FrameRead::NeedMore(6 - (n - d));
    }
    let version = (input[d + 4] as u16) | ((input[d + 5] as u16) << 8u16);
    if version != VERSION {
        return FrameRead::Failed(FramingError::UnsupportedVersion(version));
    }
    if n - d < 10 {
        return FrameRead::NeedMore(10 - (n - d));
    }
    let len = (input[d + 6] as u32) | ((input[d + 7] as u32) << 8u32) | ((input[d + 8] as u32)
        << 16u32) | ((input[d + 9] as u32) << 24u32);
    if len as usize > max_size {
        return FrameRead::Failed(FramingError::PayloadTooLarge(len));
    }
    let len = len as usize;
    if n - d - 10 < len {
        return FrameRead::NeedMore(len - (n - d - 10));
    }
    let mut payload: Vec<u8> = Vec::new();
    payload.extend_from_slice(&input[d + 10..d + 10 + len]);
    assert(payload@ =~= input@.subrange(d + 10, d + 10 + len));
    FrameRead::Complete(FrameReadResult { payload, discarded_bytes: d })
}

/// Reads a frame in strict mode from the bytes received so far.
pub fn parse_frame(input: &[u8], max_size: usize) -> (r: FrameRead)
    ensures
        r@ == strict_outcome(input@, max_size as nat),
{
    if input.len() < 4 {
        return FrameRead::NeedMore(4 - input.len());
    }
    if !has_magic_at(input, 0) {
        return FrameRead::Failed(FramingError::InvalidMagic);
    }
    read_from_magic(input, 0, max_size)
}

/// Reads a frame in resynchronising mode from the bytes received so far: bytes before the
/// magic are skipped, and the scan fails once more than `max_scan_bytes` were skipped.
pub fn parse_frame_resync(input: &[u8], max_size: usize, max_scan_bytes: usize) -> (r: FrameRead)
    ensures
        r@ == resync_outcome(input@, max_size as nat, max_scan_bytes as nat),
{
    if input.len() < 4 {
        return FrameRead::NeedMore(4 - input.len());
    }
    if has_magic_at(input, 0) {
        return read_from_magic(input, 0, max_size);
    }
    let mut d: usize = 1;
    loop
        invariant
            1 <= d <= input@.len(),
            input@.len() >= 4,
            resync_outcome(input@, max_size as nat, max_scan_bytes as nat) == scan_from(
                input@,
                d as int,
                max_size as nat,
                max_scan_bytes as nat,
            ),
        decreases input@.len() - d,
    {
        if input.len() - d < 4 {
            return FrameRead::NeedMore(4 - (input.len() - d));
        }
        if has_magic_at(input, d) {
            return read_from_magic(input, d, max_size);
        }
        if d > max_scan_bytes {
            return FrameRead::Failed(FramingError::MagicNotFound);
        }
        d = d + 1;
    }
}

/// No window of four bytes inside `g` is the magic.
pub open spec fn free_of_magic(g: Seq<u8>) -> bool {
    forall|d: int| !#[trigger] magic_at(g, d)
}

proof fn lemma_frame_at(s: Seq<u8>, d: int, p: Seq<u8>, max: nat)
    requires
        0 <= d,
        d + 10 + p.len() <= s.len(),
        s.subrange(d, d + 10 + p.len()) == frame_bytes(p),
        p.len() <= max,
        p.len() <= u32::MAX,
    ensures
        magic_at(s, d),
        read_after_magic(s, d, max) == (FrameOutcome::Complete { payload: p, discarded: d as nat }),
{
    let f = frame_bytes(p);
    assert(f[0] == 0x53u8 && f[1] == 0x43u8 && f[2] == 0x42u8 && f[3] == 0x31u8);
    assert forall|i: int| 0 <= i < 10 + p.len() implies s[d + i] == f[i] by {
        assert(s.subrange(d, d + 10 + p.len())[i] == s[d + i]);
    }
    assert(s.subrange(d, d + 4) =~= magic_seq());
    lemma_u16_round_trip(VERSION);
    let len = p.len() as u32;
    lemma_u32_round_trip(len);
    let h = header_bytes(len);
    assert(h =~= seq![0x53u8, 0x43u8, 0x42u8, 0x31u8, VERSION as u8, (VERSION >> 8u16) as u8,
        len as u8, (len >> 8u32) as u8, (len >> 16u32) as u8, (len >> 24u32) as u8]);
    assert(f[4] == h[4] && f[5] == h[5] && f[6] == h[6] && f[7] == h[7] && f[8] == h[8] && f[9]
        == h[9]);
    assert(s[d + 4] == f[4] && s[d + 5] == f[5] && s[d + 6] == f[6] && s[d + 7] == f[7] && s[d
        + 8] == f[8] && s[d + 9] == f[9]);
    assert(s[d + 4] == VERSION as u8 && s[d + 5] == (VERSION >> 8u16) as u8);
    assert(s[d + 6] == len as u8 && s[d + 7] == (len >> 8u32) as u8 && s[d + 8] == (len
        >> 16u32) as u8 && s[d + 9] == (len >> 24u32) as u8);
    assert forall|i: int| 0 <= i < p.len() implies s[d + 10 + i] == p[i] by {
        assert(f[10 + i] == p[i]);
        assert(s[d + (10 + i)] == f[10 + i]);
    }
    assert(s.subrange(d + 10, d + 10 + p.len()) =~= p);
}

/// A payload within the bound, wrapped in a frame, reads back whole and with nothing
/// discarded, in strict and in resynchronising mode, whatever follows the frame.
pub proof fn lemma_frame_round_trip(p: Seq<u8>, max: nat, cap: nat, rest: Seq<u8>)
    requires
        p.len() <= max,
        p.len() <= u32::MAX,
    ensures
        strict_outcome(frame_bytes(p) + rest, max) == (FrameOutcome::Complete {
            payload: p,
            discarded: 0,
        }),
        resync_outcome(frame_bytes(p) + rest, max, cap) == (FrameOutcome::Complete {
            payload: p,
            discarded: 0,
        }),
{
    let s = frame_bytes(p) + rest;
    assert(s.subrange(0, 10 + p.len() as int) =~= frame_bytes(p));
    lemma_frame_at(s, 0, p, max);
}

/// A header that announces more than the bound fails with `PayloadTooLarge` as soon as the
/// header is in, whatever follows it: nothing past the header is needed or read.
pub proof fn lemma_oversize_rejected_at_header(n: u32, max: nat, cap: nat, tail: Seq<u8>)
    requires
        n > max,
    ensures
        strict_outcome(header_bytes(n) + tail, max) == (FrameOutcome::Failed {
            error: FramingError::PayloadTooLarge(n),
        }),
        resync_outcome(header_bytes(n) + tail, max, cap) == (FrameOutcome::Failed {
            error: FramingError::PayloadTooLarge(n),
        }),
{
    let s = header_bytes(n) + tail;
    assert(s.subrange(0, 4) =~= magic_seq());
    lemma_u16_round_trip(VERSION);
    lemma_u32_round_trip(n);
    assert(header_bytes(n) =~= seq![0x53u8, 0x43u8, 0x42u8, 0x31u8, VERSION as u8, (VERSION
        >> 8u16) as u8, n as u8, (n >> 8u32) as u8, (n >> 16u32) as u8, (n >> 24u32) as u8]);
    assert(s[4] == VERSION as u8 && s[5] == (VERSION >> 8u16) as u8);
    assert(s[6] == n as u8 && s[7] == (n >> 8u32) as u8 && s[8] == (n >> 16u32) as u8 && s[9]
        == (n >> 24u32) as u8);
}

proof fn lemma_scan_reaches(s: Seq<u8>, d: int, g: int, max: nat, cap: nat)
    requires
        1 <= d <= g <= cap,
        g + 4 <= s.len(),
        magic_at(s, g),
        forall|e: int| d <= e < g ==> !#[trigger] magic_at(s, e),
    ensures
        scan_from(s, d, max, cap) == read_after_magic(s, g, max),
    decreases g - d,
{
    if d < g {
        lemma_scan_reaches(s, d + 1, g, max, cap);
    }
}

/// Bytes free of the magic in front of a frame, no more of them than the scan cap, are
/// skipped by the resynchronising reader, which then returns the frame's payload and counts
/// the skipped bytes; the strict reader refuses the same input with `InvalidMagic`.
pub proof fn lemma_resync_skips_prefix(
    g: Seq<u8>,
    p: Seq<u8>,
    max: nat,
    cap: nat,
    rest: Seq<u8>,
)
    requires
        g.len() <= cap,
        free_of_magic(g),
        p.len() <= max,
        p.len() <= u32::MAX,
    ensures
        resync_outcome(g + frame_bytes(p) + rest, max, cap) == (FrameOutcome::Complete {
            payload: p,
            discarded: g.len(),
        }),
        g.len() > 0 ==> strict_outcome(g + frame_bytes(p) + rest, max) == (FrameOutcome::Failed {
            error: FramingError::InvalidMagic,
        }),
{
    let s = g + frame_bytes(p) + rest;
    let n = g.len() as int;
    let f = frame_bytes(p);
    assert(s.subrange(n, n + 10 + p.len()) =~= f);
    lemma_frame_at(s, n, p, max);
    assert(s[n] == 0x53u8) by {
        assert(s.subrange(n, n + 10 + p.len())[0] == s[n]);
    }
    assert forall|e: int| 0 <= e < n implies !#[trigger] magic_at(s, e) by {
        if e + 4 <= n {
            assert(s.subrange(e, e + 4) =~= g.subrange(e, e + 4));
            assert(!magic_at(g, e));
        } else {
            let k = n - e;
            assert(s.subrange(e, e + 4)[k] == s[n]);
            assert(magic_seq()[k] != 0x53u8);
        }
    }
    if n > 0 {
        lemma_scan_reaches(s, 1, n, max, cap);
    }
}

} // verus!
