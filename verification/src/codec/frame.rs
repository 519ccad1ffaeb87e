use vstd::prelude::*;

use crate::codec::error::{FrameError, MAX_FRAME_PAYLOAD};
use bytes::BytesMut;

verus! {

/// First magic byte of every frame.
pub const MAGIC_0: u8 = 0x94;
/// Second magic byte of every frame.
pub const MAGIC_1: u8 = 0xC3;
/// Magic (2 bytes) plus big-endian payload length (2 bytes).
pub const HEADER_LEN: usize = 4;

/// The two magic bytes, in wire order.
pub fn magic() -> (m: [u8; 2])
    ensures
        m@ == seq![MAGIC_0, MAGIC_1],
{
    [MAGIC_0, MAGIC_1]
}

// ---------------------------------------------------------------------------
// Specification of the wire format
// ---------------------------------------------------------------------------

/// The four header bytes announcing a payload of `len` bytes.
pub open spec fn header_bytes(len: nat) -> Seq<u8> {
    seq![MAGIC_0, MAGIC_1, (len / 256) as u8, (len % 256) as u8]
}

/// The complete frame carrying `payload`.
pub open spec fn frame_bytes(payload: Seq<u8>) -> Seq<u8> {
    header_bytes(payload.len()) + payload
}

/// The payload length announced by a header whose length bytes are `hi`, `lo`.
pub open spec fn announced_len(hi: u8, lo: u8) -> nat {
    (hi as nat) * 256 + (lo as nat)
}

/// What `decode` answers for the buffer `b`: the payload of the frame at the
/// start of `b` and the number of bytes it spans, or why there is none.
pub open spec fn decode_spec(b: Seq<u8>) -> Result<(Seq<u8>, nat), FrameError> {
    if b.len() == 0 {
        Err(FrameError::NeedMore(HEADER_LEN))
    } else if b[0] != MAGIC_0 {
        Err(FrameError::BadMagic(b[0], if b.len() > 1 { b[1] } else { 0u8 }))
    } else if b.len() < 2 {
        Err(FrameError::NeedMore((HEADER_LEN - b.len()) as usize))
    } else if b[1] != MAGIC_1 {
        Err(FrameError::BadMagic(b[0], b[1]))
    } else if b.len() < HEADER_LEN {
        Err(FrameError::NeedMore((HEADER_LEN - b.len()) as usize))
    } else {
        let len = announced_len(b[2], b[3]);
        if len > MAX_FRAME_PAYLOAD {
            Err(FrameError::TooLarge(len as usize))
        } else if b.len() < HEADER_LEN + len {
            Err(FrameError::NeedMore((HEADER_LEN + len - b.len()) as usize))
        } else {
            Ok((b.subrange(HEADER_LEN as int, HEADER_LEN + len), (HEADER_LEN + len) as nat))
        }
    }
}

/// One step of the stream decoder on buffer contents `s`: the bytes left in
/// the buffer afterwards, and the frame taken out (if a complete one was there).
/// Bytes that cannot start a frame are discarded first.
pub open spec fn stream_step(s: Seq<u8>) -> (Seq<u8>, Result<Option<Seq<u8>>, FrameError>)
    decreases s.len(),
{
    if s.len() == 0 {
        (s, Ok(None))
    } else if s[0] != MAGIC_0 {
        stream_step(s.drop_first())
    } else if s.len() < 2 {
        (s, Ok(None))
    } else if s[1] != MAGIC_1 {
        stream_step(s.drop_first())
    } else if s.len() < HEADER_LEN {
        (s, Ok(None))
    } else {
        let len = announced_len(s[2], s[3]);
        if len > MAX_FRAME_PAYLOAD {
            (s, Err(FrameError::TooLarge(len as usize)))
        } else if s.len() < HEADER_LEN + len {
            (s, Ok(None))
        } else {
            (
                s.subrange(HEADER_LEN + len, s.len() as int),
                Ok(Some(s.subrange(HEADER_LEN as int, HEADER_LEN + len))),
            )
        }
    }
}

// ---------------------------------------------------------------------------
// The outside byte buffer
// ---------------------------------------------------------------------------

/// `bytes::BytesMut`, the growable buffer that framed streams read into.
#[verifier::external_type_specification]
#[verifier::external_body]
pub struct ExBytesMut(BytesMut);

/// The bytes a `BytesMut` currently holds.
pub uninterp spec fn bytes_mut_contents(b: BytesMut) -> Seq<u8>;

/// `BytesMut::len`: the number of bytes held.
#[verifier::external_body]
fn buf_len(b: &BytesMut) -> (n: usize)
    ensures
        n == bytes_mut_contents(*b).len(),
{
    b.len()
}

/// Indexing a `BytesMut` (through its `Deref` to a byte slice): byte `i`.
#[verifier::external_body]
fn buf_byte(b: &BytesMut, i: usize) -> (v: u8)
    requires
        i < bytes_mut_contents(*b).len(),
    ensures
        v == bytes_mut_contents(*b)[i as int],
{
    b[i]
}

/// `BytesMut::split_to(at)` followed by copying the split-off part into a
/// `Vec`: the first `at` bytes are removed from the buffer and returned.
/// `split_to` panics when `at` exceeds the length, which `requires` rules out.
#[verifier::external_body]
fn buf_split_to(b: &mut BytesMut, at: usize) -> (front: Vec<u8>)
    requires
        at <= bytes_mut_contents(*old(b)).len(),
    ensures
        front@ == bytes_mut_contents(*old(b)).take(at as int),
        bytes_mut_contents(*final(b)) == bytes_mut_contents(*old(b)).skip(at as int),
{
    b.split_to(at).to_vec()
}

/// `BytesMut::reserve`: makes room without changing the contents. It panics
/// when the new capacity would overflow, which `requires` rules out.
#[verifier::external_body]
fn buf_reserve(b: &mut BytesMut, additional: usize)
    requires
        bytes_mut_contents(*old(b)).len() + additional <= isize::MAX,
    ensures
        bytes_mut_contents(*final(b)) == bytes_mut_contents(*old(b)),
{
    b.reserve(additional)
}

/// `BytesMut::extend_from_slice`: appends `s` to the buffer.
#[verifier::external_body]
fn buf_extend(b: &mut BytesMut, s: &[u8])
    requires
        bytes_mut_contents(*old(b)).len() + s@.len() <= isize::MAX,
    ensures
        bytes_mut_contents(*final(b)) == bytes_mut_contents(*old(b)) + s@,
{
    b.extend_from_slice(s)
}

/// How many bytes `b` holds, so that a caller can test what `encode_frame`
/// asks of the buffer.
pub fn buffered_len(b: &BytesMut) -> (n: usize)
    ensures
        n == bytes_mut_contents(*b).len(),
{
    buf_len(b)
}

// ---------------------------------------------------------------------------
// Executable codec
// ---------------------------------------------------------------------------

/// The header for a payload of `len <= MAX_FRAME_PAYLOAD` bytes.
fn header_for(len: usize) -> (h: Vec<u8>)
    requires
        len <= MAX_FRAME_PAYLOAD,
    ensures
        h@ == header_bytes(len as nat),
{
    let hi: u8 = (len / 256) as u8;
    let lo: u8 = (len % 256) as u8;
    let mut h: Vec<u8> = Vec::with_capacity(HEADER_LEN);
    h.push(MAGIC_0);
    h.push(MAGIC_1);
    h.push(hi);
    h.push(lo);
    assert(h@ =~= header_bytes(len as nat));
    h
}

/// Wraps `payload` in a frame: magic, big-endian length, payload.
/// Payloads longer than `MAX_FRAME_PAYLOAD` are refused with `TooLarge`.
pub fn encode(payload: &[u8]) -> (r: Result<Vec<u8>, FrameError>)
    ensures
        payload@.len() > MAX_FRAME_PAYLOAD ==> (r matches Err(FrameError::TooLarge(n))
            && n == payload@.len()),
        payload@.len() <= MAX_FRAME_PAYLOAD ==> (r matches Ok(out) && out@ == frame_bytes(
            payload@,
        )),
{
    if payload.len() > MAX_FRAME_PAYLOAD {
        return Err(FrameError::TooLarge(payload.len()));
    }
    let mut out = header_for(payload.len());
    let mut i: usize = 0;
    while i < payload.len()
        invariant
            i <= payload@.len(),
            payload@.len() <= MAX_FRAME_PAYLOAD,
            out@ == header_bytes(payload@.len()) + payload@.take(i as int),
        decreases payload@.len() - i,
    {
        out.push(payload[i]);
        i = i + 1;
        assert(out@ =~= header_bytes(payload@.len()) + payload@.take(i as int));
    }
    assert(payload@.take(i as int) =~= payload@);
    Ok(out)
}

/// Reads the frame at the start of `bytes`: its payload and the number of
/// bytes it spans, or why the buffer does not start with a complete frame.
pub fn decode(bytes: &[u8]) -> (r: Result<(Vec<u8>, usize), FrameError>)
    ensures
        match (r, decode_spec(bytes@)) {
            (Ok((p, n)), Ok((sp, sn))) => p@ == sp && n == sn,
            (Err(FrameError::BadMagic(a, b)), Err(FrameError::BadMagic(sa, sb))) => a == sa && b
                == sb,
            (Err(FrameError::TooLarge(a)), Err(FrameError::TooLarge(sa))) => a == sa,
            (Err(FrameError::NeedMore(a)), Err(FrameError::NeedMore(sa))) => a == sa,
            _ => false,
        },
{
    if bytes.len() == 0 {
        return Err(FrameError::NeedMore(HEADER_LEN));
    }
    if bytes[0] != MAGIC_0 {
        let second: u8 = if bytes.len() > 1 { bytes[1] } else { 0 };
        return Err(FrameError::BadMagic(bytes[0], second));
    }
    if bytes.len() < 2 {
        return Err(FrameError::NeedMore(HEADER_LEN - bytes.len()));
    }
    if bytes[1] != MAGIC_1 {
        return Err(FrameError::BadMagic(bytes[0], bytes[1]));
    }
    if bytes.len() < HEADER_LEN {
        return Err(FrameError::NeedMore(HEADER_LEN - bytes.len()));
    }
    let len: usize = (bytes[2] as usize) * 256 + (bytes[3] as usize);
    if len > MAX_FRAME_PAYLOAD {
        return Err(FrameError::TooLarge(len));
    }
    let total: usize = HEADER_LEN + len;
    if bytes.len() < total {
        return Err(FrameError::NeedMore(total - bytes.len()));
    }
    let mut out: Vec<u8> = Vec::with_capacity(len);
    let mut i: usize = HEADER_LEN;
    while i < total
        invariant
            HEADER_LEN <= i <= total,
            total <= bytes@.len(),
            out@ == bytes@.subrange(HEADER_LEN as int, i as int),
        decreases total - i,
    {
        out.push(bytes[i]);
        i = i + 1;
        assert(out@ =~= bytes@.subrange(HEADER_LEN as int, i as int));
    }
    Ok((out, total))
}

/// The stream codec used on serial and TCP links.
#[derive(Debug, Default, Clone, Copy)]
pub struct FrameCodec;

impl FrameCodec {
    /// Takes the next complete frame out of `src`, first discarding any bytes
    /// that cannot start a frame. Leaves an incomplete frame in place and
    /// answers `None`; refuses a header that announces too long a payload.
    pub fn decode_frame(&mut self, src: &mut BytesMut) -> (r: Result<Option<Vec<u8>>, FrameError>)
        ensures
            bytes_mut_contents(*final(src)) == stream_step(bytes_mut_contents(*old(src))).0,
            match (r, stream_step(bytes_mut_contents(*old(src))).1) {
                (Ok(Some(p)), Ok(Some(sp))) => p@ == sp,
                (Ok(None), Ok(None)) => true,
                (Err(FrameError::TooLarge(a)), Err(FrameError::TooLarge(sa))) => a == sa,
                _ => false,
            },
    {
        let ghost orig = bytes_mut_contents(*src);
        let n = buf_len(src);
        // Find the first position where a frame can start.
        let mut i: usize = 0;
        assert(orig.skip(0) =~= orig);
        while i < n
            invariant
                i <= n,
                n == orig.len(),
                bytes_mut_contents(*src) == orig,
                stream_step(orig) == stream_step(orig.skip(i as int)),
            ensures
                i <= n,
                bytes_mut_contents(*src) == orig,
                stream_step(orig) == stream_step(orig.skip(i as int)),
                i == n || (orig[i as int] == MAGIC_0 && (i + 1 >= n || orig[i + 1] == MAGIC_1)),
            decreases n - i,
        {
            let b0 = buf_byte(src, i);
            if b0 == MAGIC_0 {
                if i + 1 >= n {
                    break;
                }
                let b1 = buf_byte(src, i + 1);
                if b1 == MAGIC_1 {
                    break;
                }
            }
            proof {
                let s = orig.skip(i as int);
                assert(s.drop_first() =~= orig.skip(i + 1));
            }
            i = i + 1;
        }
        let _ = buf_split_to(src, i);
        proof {
            assert(bytes_mut_contents(*src) == orig.skip(i as int));
        }
        let ghost s = orig.skip(i as int);
        let m = buf_len(src);
        if m < 2 {
            return Ok(None);
        }
        if m < HEADER_LEN {
            return Ok(None);
        }
        let hi = buf_byte(src, 2);
        let lo = buf_byte(src, 3);
        let len: usize = (hi as usize) * 256 + (lo as usize);
        if len > MAX_FRAME_PAYLOAD {
            return Err(FrameError::TooLarge(len));
        }
        let total: usize = HEADER_LEN + len;
        if m < total {
            return Ok(None);
        }
        let _ = buf_split_to(src, HEADER_LEN);
        let payload = buf_split_to(src, len);
        proof {
            assert(payload@ =~= s.subrange(HEADER_LEN as int, HEADER_LEN + len));
            assert(bytes_mut_contents(*src) =~= s.subrange(HEADER_LEN + len, s.len() as int));
        }
        Ok(Some(payload))
    }

    /// Appends the frame carrying `item` to `dst`; refuses payloads longer
    /// than `MAX_FRAME_PAYLOAD`, leaving `dst` unchanged.
    pub fn encode_frame(&mut self, item: Vec<u8>, dst: &mut BytesMut) -> (r: Result<(), FrameError>)
        requires
            bytes_mut_contents(*old(dst)).len() + HEADER_LEN + MAX_FRAME_PAYLOAD <= isize::MAX,
        ensures
            item@.len() > MAX_FRAME_PAYLOAD ==> (r matches Err(FrameError::TooLarge(n)) && n
                == item@.len() && bytes_mut_contents(*final(dst)) == bytes_mut_contents(*old(dst))),
            item@.len() <= MAX_FRAME_PAYLOAD ==> r is Ok && bytes_mut_contents(*final(dst))
                == bytes_mut_contents(*old(dst)) + frame_bytes(item@),
    {
        if item.len() > MAX_FRAME_PAYLOAD {
            return Err(FrameError::TooLarge(item.len()));
        }
        buf_reserve(dst, HEADER_LEN + item.len());
        let header = header_for(item.len());
        buf_extend(dst, header.as_slice());
        buf_extend(dst, item.as_slice());
        proof {
            assert(bytes_mut_contents(*dst) =~= bytes_mut_contents(*old(dst)) + frame_bytes(item@));
        }
        Ok(())
    }
}

} // verus!

verus! {

// ---------------------------------------------------------------------------
// Laws of the frame format
// ---------------------------------------------------------------------------

proof fn lemma_header_len(len: nat)
    requires
        len <= MAX_FRAME_PAYLOAD,
    ensures
        announced_len(((len / 256) as u8), ((len % 256) as u8)) == len,
{
    assert(len / 256 <= 2);
    assert((len / 256) as u8 == len / 256);
    assert((len % 256) as u8 == len % 256);
}

/// A frame built by `encode` reads back, by `decode`, as the same payload,
/// whatever bytes follow it in the buffer.
pub proof fn lemma_decode_encode(payload: Seq<u8>, rest: Seq<u8>)
    requires
        payload.len() <= MAX_FRAME_PAYLOAD,
    ensures
        decode_spec(frame_bytes(payload) + rest) == Ok::<(Seq<u8>, nat), FrameError>(
            (payload, (HEADER_LEN + payload.len()) as nat),
        ),
{
    let b = frame_bytes(payload) + rest;
    lemma_header_len(payload.len());
    assert(b.subrange(HEADER_LEN as int, HEADER_LEN + payload.len()) =~= payload);
}

/// Whatever `decode` accepts is exactly a frame built from the payload it
/// returns: the consumed bytes are the encoding of that payload.
pub proof fn lemma_decode_is_frame(b: Seq<u8>)
    ensures
        decode_spec(b) matches Ok((p, n)) ==> (n <= b.len() && p.len() <= MAX_FRAME_PAYLOAD
            && b.take(n as int) == frame_bytes(p)),
{
    if let Ok((p, n)) = decode_spec(b) {
        let len = announced_len(b[2], b[3]);
        assert(len / 256 == b[2] as nat);
        assert(len % 256 == b[3] as nat);
        assert(b.take(n as int) =~= frame_bytes(p));
    }
}

/// The stream decoder takes a frame built by `encode` out of the front of the
/// buffer and leaves exactly the bytes that followed it.
pub proof fn lemma_stream_encode(payload: Seq<u8>, rest: Seq<u8>)
    requires
        payload.len() <= MAX_FRAME_PAYLOAD,
    ensures
        stream_step(frame_bytes(payload) + rest) == (
            rest,
            Ok::<Option<Seq<u8>>, FrameError>(Some(payload)),
        ),
{
    let b = frame_bytes(payload) + rest;
    lemma_header_len(payload.len());
    assert(b.subrange(HEADER_LEN as int, HEADER_LEN + payload.len()) =~= payload);
    assert(b.subrange(HEADER_LEN + payload.len(), b.len() as int) =~= rest);
}

} // verus!
