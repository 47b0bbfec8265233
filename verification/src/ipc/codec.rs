//! Frame codec for the IPC wire format.
//!
//! A frame is a 4-byte unsigned big-endian length followed by exactly that
//! many payload bytes (UTF-8 JSON). The length does not count the prefix.
//! Frames whose declared length exceeds [`MAX_FRAME_BYTES`] are rejected as
//! soon as the header is seen, without buffering the payload; zero-length
//! frames are rejected too, since no message serializes to nothing.

use crate::ipc::error::{FrameError, IpcError, ProtocolError};
use crate::ipc::message::{
    is_known_container_type, is_known_host_type, ContainerToHost, HostToContainer,
};
use vstd::prelude::*;
use vstd::utf8::valid_utf8;

verus! {

/// Size of the length prefix in bytes.
pub const LENGTH_PREFIX_BYTES: usize = 4;

/// Hard upper bound on the payload size of a single frame (10 MiB).
pub const MAX_FRAME_BYTES: usize = 10485760;

/// Default cap on consecutive unknown-type frames before poisoning.
pub const DEFAULT_MAX_UNKNOWN_SKIPS: usize = 32;

/// The big-endian 4-byte encoding of `n < 2^32`.
pub open spec fn be_u32(n: nat) -> Seq<u8> {
    seq![
        ((n / 16777216) % 256) as u8,
        ((n / 65536) % 256) as u8,
        ((n / 256) % 256) as u8,
        (n % 256) as u8,
    ]
}

/// The value of a big-endian length header (the first four bytes of `b`).
pub open spec fn be_u32_value(b: Seq<u8>) -> nat {
    (b[0] as nat) * 16777216 + (b[1] as nat) * 65536 + (b[2] as nat) * 256 + (b[3] as nat)
}

/// The wire frame carrying `payload`.
pub open spec fn frame_of(payload: Seq<u8>) -> Seq<u8> {
    be_u32(payload.len()) + payload
}

/// Outcome of decoding from a buffer, as a function of the buffer alone.
pub enum DecodeStep {
    /// More bytes are needed; the buffer is left untouched.
    NeedMore,
    /// The header declares an empty frame; the header is consumed.
    Empty,
    /// The header declares an oversized frame; the header is consumed.
    Oversize(nat),
    /// A complete frame of the given payload length is at the front.
    Frame(nat),
}

/// What decoding does with buffer `b`.
pub open spec fn decode_step(b: Seq<u8>) -> DecodeStep {
    if b.len() < LENGTH_PREFIX_BYTES {
        DecodeStep::NeedMore
    } else if be_u32_value(b) == 0 {
        DecodeStep::Empty
    } else if be_u32_value(b) > MAX_FRAME_BYTES {
        DecodeStep::Oversize(be_u32_value(b))
    } else if b.len() < LENGTH_PREFIX_BYTES + be_u32_value(b) {
        DecodeStep::NeedMore
    } else {
        DecodeStep::Frame(be_u32_value(b))
    }
}

proof fn lemma_be_u32_roundtrip(n: nat)
    requires
        n < 4294967296,
    ensures
        be_u32(n).len() == 4,
        be_u32_value(be_u32(n)) == n,
{
    let b = be_u32(n);
    assert(b[0] as nat == (n / 16777216) % 256);
    assert(b[1] as nat == (n / 65536) % 256);
    assert(b[2] as nat == (n / 256) % 256);
    assert(b[3] as nat == n % 256);
    assert(n / 16777216 < 256) by (nonlinear_arith)
        requires
            n < 4294967296,
    ;
    assert((n / 16777216) * 16777216 + ((n / 65536) % 256) * 65536 + ((n / 256) % 256) * 256 + n
        % 256 == n) by (nonlinear_arith);
}

/// Length-prefixed frame codec over byte buffers.
#[derive(Debug, Default, Clone, Copy)]
pub struct FrameCodec;

impl FrameCodec {
    /// Build a new [`FrameCodec`].
    pub fn new() -> (c: Self)
        ensures
            c == FrameCodec,
    {
        FrameCodec
    }

    /// Append the frame carrying `item` to `dst`.
    ///
    /// Empty payloads fail with [`FrameError::EmptyFrame`] and payloads over
    /// [`MAX_FRAME_BYTES`] with [`FrameError::Oversize`]; `dst` is then
    /// unchanged.
    pub fn encode(&mut self, item: &[u8], dst: &mut Vec<u8>) -> (r: Result<(), IpcError>)
        ensures
            item@.len() == 0 ==> r matches Err(IpcError::Frame(FrameError::EmptyFrame)),
            item@.len() > MAX_FRAME_BYTES ==> (r matches Err(
                IpcError::Frame(FrameError::Oversize { size, max }),
            ) && size == item@.len() && max == MAX_FRAME_BYTES),
            0 < item@.len() <= MAX_FRAME_BYTES ==> r is Ok,
            r is Ok ==> final(dst)@ == old(dst)@ + frame_of(item@),
            r is Err ==> final(dst)@ == old(dst)@,
    {
        let n = item.len();
        if n == 0 {
            return Err(IpcError::Frame(FrameError::EmptyFrame));
        }
        if n > MAX_FRAME_BYTES {
            return Err(IpcError::Frame(FrameError::Oversize { size: n, max: MAX_FRAME_BYTES }));
        }
        let len = n as u32;
        dst.push(((len / 16777216) % 256) as u8);
        dst.push(((len / 65536) % 256) as u8);
        dst.push(((len / 256) % 256) as u8);
        dst.push((len % 256) as u8);
        let ghost with_header = dst@;
        let mut i: usize = 0;
        while i < n
            invariant
                n == item@.len(),
                i <= n,
                with_header == old(dst)@ + be_u32(n as nat),
                dst@ == with_header + item@.subrange(0, i as int),
            decreases n - i,
        {
            dst.push(item[i]);
            i = i + 1;
            assert(item@.subrange(0, i as int) == item@.subrange(0, (i - 1) as int).push(
                item@[i - 1],
            ));
        }
        assert(item@.subrange(0, n as int) == item@);
        Ok(())
    }

    /// Take the next complete frame off the front of `src`.
    ///
    /// Returns `Ok(None)` (with `src` untouched) while the header or the
    /// payload is incomplete. A zero or oversized declared length consumes
    /// the header and fails. A complete frame is removed from `src` and its
    /// payload returned.
    pub fn decode(&mut self, src: &mut Vec<u8>) -> (r: Result<Option<Vec<u8>>, IpcError>)
        ensures
            match decode_step(old(src)@) {
                DecodeStep::NeedMore => r matches Ok(None) && final(src)@ == old(src)@,
                DecodeStep::Empty => r matches Err(IpcError::Frame(FrameError::EmptyFrame))
                    && final(src)@ == old(src)@.subrange(
                    LENGTH_PREFIX_BYTES as int,
                    old(src)@.len() as int,
                ),
                DecodeStep::Oversize(n) => r matches Err(
                    IpcError::Frame(FrameError::Oversize { size, max }),
                ) && size == n && max == MAX_FRAME_BYTES && final(src)@ == old(src)@.subrange(
                    LENGTH_PREFIX_BYTES as int,
                    old(src)@.len() as int,
                ),
                DecodeStep::Frame(n) => r matches Ok(Some(p)) && p@ == old(src)@.subrange(
                    LENGTH_PREFIX_BYTES as int,
                    LENGTH_PREFIX_BYTES + n,
                ) && final(src)@ == old(src)@.subrange(
                    LENGTH_PREFIX_BYTES + n,
                    old(src)@.len() as int,
                ),
            },
    {
        if src.len() < LENGTH_PREFIX_BYTES {
            return Ok(None);
        }
        let declared: usize = (src[0] as usize) * 16777216 + (src[1] as usize) * 65536
            + (src[2] as usize) * 256 + (src[3] as usize);
        if declared == 0 {
            let rest = src.split_off(LENGTH_PREFIX_BYTES);
            *src = rest;
            return Err(IpcError::Frame(FrameError::EmptyFrame));
        }
        if declared > MAX_FRAME_BYTES {
            let rest = src.split_off(LENGTH_PREFIX_BYTES);
            *src = rest;
            return Err(IpcError::Frame(FrameError::Oversize { size: declared, max: MAX_FRAME_BYTES }));
        }
        if src.len() - LENGTH_PREFIX_BYTES < declared {
            return Ok(None);
        }
        let rest = src.split_off(LENGTH_PREFIX_BYTES + declared);
        let payload = src.split_off(LENGTH_PREFIX_BYTES);
        *src = rest;
        Ok(Some(payload))
    }

    /// Like [`decode`](Self::decode), but the peer has closed the stream:
    /// leftover bytes that do not form a frame are a truncation error.
    pub fn decode_eof(&mut self, src: &mut Vec<u8>) -> (r: Result<Option<Vec<u8>>, IpcError>)
        ensures
            match decode_step(old(src)@) {
                DecodeStep::NeedMore => final(src)@ == old(src)@ && if old(src)@.len() == 0 {
                    r matches Ok(None)
                } else if old(src)@.len() < LENGTH_PREFIX_BYTES {
                    r matches Err(IpcError::Frame(FrameError::Truncated { expected, got }))
                        && expected == LENGTH_PREFIX_BYTES && got == old(src)@.len()
                } else {
                    r matches Err(IpcError::Frame(FrameError::Truncated { expected, got }))
                        && expected == be_u32_value(old(src)@) && got == old(src)@.len()
                        - LENGTH_PREFIX_BYTES
                },
                DecodeStep::Empty => r matches Err(IpcError::Frame(FrameError::EmptyFrame))
                    && final(src)@ == old(src)@.subrange(
                    LENGTH_PREFIX_BYTES as int,
                    old(src)@.len() as int,
                ),
                DecodeStep::Oversize(n) => r matches Err(
                    IpcError::Frame(FrameError::Oversize { size, max }),
                ) && size == n && max == MAX_FRAME_BYTES && final(src)@ == old(src)@.subrange(
                    LENGTH_PREFIX_BYTES as int,
                    old(src)@.len() as int,
                ),
                DecodeStep::Frame(n) => r matches Ok(Some(p)) && p@ == old(src)@.subrange(
                    LENGTH_PREFIX_BYTES as int,
                    LENGTH_PREFIX_BYTES + n,
                ) && final(src)@ == old(src)@.subrange(
                    LENGTH_PREFIX_BYTES + n,
                    old(src)@.len() as int,
                ),
            },
    {
        match self.decode(src) {
            Ok(Some(frame)) => Ok(Some(frame)),
            Err(e) => Err(e),
            Ok(None) => {
                if src.len() == 0 {
                    Ok(None)
                } else if src.len() < LENGTH_PREFIX_BYTES {
                    Err(
                        IpcError::Frame(
                            FrameError::Truncated { expected: LENGTH_PREFIX_BYTES, got: src.len() },
                        ),
                    )
                } else {
                    let declared: usize = (src[0] as usize) * 16777216 + (src[1] as usize) * 65536
                        + (src[2] as usize) * 256 + (src[3] as usize);
                    Err(
                        IpcError::Frame(
                            FrameError::Truncated {
                                expected: declared,
                                got: src.len() - LENGTH_PREFIX_BYTES,
                            },
                        ),
                    )
                }
            },
        }
    }
}

/// Decoding the frame of a valid payload, followed by any bytes, yields
/// exactly that payload and leaves exactly the following bytes.
pub proof fn lemma_frame_roundtrip(payload: Seq<u8>, rest: Seq<u8>)
    requires
        0 < payload.len() <= MAX_FRAME_BYTES,
    ensures
        decode_step(frame_of(payload) + rest) == DecodeStep::Frame(payload.len()),
        (frame_of(payload) + rest).subrange(
            LENGTH_PREFIX_BYTES as int,
            LENGTH_PREFIX_BYTES + payload.len(),
        ) == payload,
        (frame_of(payload) + rest).subrange(
            LENGTH_PREFIX_BYTES + payload.len(),
            (frame_of(payload) + rest).len() as int,
        ) == rest,
{
    lemma_be_u32_roundtrip(payload.len());
    let b = frame_of(payload) + rest;
    assert(b.subrange(0, 4) == be_u32(payload.len()));
    assert(be_u32_value(b) == be_u32_value(be_u32(payload.len())));
    assert(b.subrange(LENGTH_PREFIX_BYTES as int, LENGTH_PREFIX_BYTES + payload.len()) =~= payload);
    assert(b.subrange(LENGTH_PREFIX_BYTES + payload.len(), b.len() as int) =~= rest);
}


/// Which way a frame travels, and so which message types are known.
#[derive(Debug, Clone, Copy, PartialEq, Eq)]
pub enum WireDirection {
    /// Container → host frames.
    ContainerToHost,
    /// Host → container frames.
    HostToContainer,
}

/// Whether `t` is a known `type` for frames travelling in `dir`.
pub open spec fn is_known_type_for(dir: WireDirection, t: Seq<char>) -> bool {
    match dir {
        WireDirection::ContainerToHost => is_known_container_type(t),
        WireDirection::HostToContainer => is_known_host_type(t),
    }
}

/// What serde_json makes of a payload when asked only for its `type`: the
/// string value of the `type` member of the top-level JSON object, or
/// `None` when the payload is not such an object.
pub uninterp spec fn json_type_field(payload: Seq<u8>) -> Option<Seq<char>>;

/// Checks UTF-8 validity with std's `std::str::from_utf8`.
#[verifier::external_body]
fn utf8_valid(bytes: &[u8]) -> (r: bool)
    ensures
        r == valid_utf8(bytes@),
{
    std::str::from_utf8(bytes).is_ok()
}

/// Parses the payload with `serde_json::from_slice` into a
/// `serde_json::Value` and returns the string under the top-level `type`
/// key. The contract names the result as a function of the bytes.
#[verifier::external_body]
fn probe_json_type(bytes: &[u8]) -> (r: Option<String>)
    ensures
        match r {
            Some(s) => json_type_field(bytes@) == Some(s@),
            None => json_type_field(bytes@) is None,
        },
{
    match serde_json::from_slice::<serde_json::Value>(bytes) {
        Ok(serde_json::Value::Object(map)) => match map.get("type") {
            Some(serde_json::Value::String(ty)) => Some(ty.clone()),
            _ => None,
        },
        _ => None,
    }
}

/// The error a payload that failed full decoding is reported as, given
/// its `type` probe: invalid UTF-8 first; then a `type` that is not known
/// for the direction; otherwise malformed JSON carrying the decoder's own
/// report `detail`.
pub open spec fn decode_failure_spec(
    e: IpcError,
    payload: Seq<u8>,
    dir: WireDirection,
    probed: Option<Seq<char>>,
    detail: Seq<char>,
) -> bool {
    if !valid_utf8(payload) {
        e matches IpcError::Frame(FrameError::InvalidUtf8)
    } else {
        match probed {
            Some(t) => if !is_known_type_for(dir, t) {
                e matches IpcError::Protocol(ProtocolError::UnknownMessageType(u)) && u@ == t
            } else {
                e matches IpcError::Frame(FrameError::MalformedJson(d)) && d@ == detail
            },
            None => e matches IpcError::Frame(FrameError::MalformedJson(d)) && d@ == detail,
        }
    }
}

/// Classifies a payload that failed full decoding from its probed `type`
/// (see [`decode_failure_spec`]).
pub fn classify_probed_failure(
    payload: &[u8],
    dir: WireDirection,
    probed: Option<String>,
    detail: String,
) -> (e: IpcError)
    ensures
        decode_failure_spec(
            e,
            payload@,
            dir,
            match probed {
                Some(s) => Some(s@),
                None => None,
            },
            detail@,
        ),
{
    if !utf8_valid(payload) {
        return IpcError::Frame(FrameError::InvalidUtf8);
    }
    if let Some(ty) = probed {
        let known = match dir {
            WireDirection::ContainerToHost => ContainerToHost::is_known_type(ty.as_str()),
            WireDirection::HostToContainer => HostToContainer::is_known_type(ty.as_str()),
        };
        if !known {
            return IpcError::Protocol(ProtocolError::UnknownMessageType(ty));
        }
    }
    IpcError::Frame(FrameError::MalformedJson(detail))
}

/// Classifies a payload that failed full decoding, structurally: the
/// payload's `type` is probed with serde_json and the outcome decided by
/// [`classify_probed_failure`]. `detail` is the full decoder's report.
pub fn classify_decode_failure(payload: &[u8], dir: WireDirection, detail: String) -> (e: IpcError)
    ensures
        decode_failure_spec(e, payload@, dir, json_type_field(payload@), detail@),
{
    let probed = if utf8_valid(payload) {
        probe_json_type(payload)
    } else {
        None
    };
    classify_probed_failure(payload, dir, probed, detail)
}

/// Streaming output buffer that refuses to grow past `max_bytes`,
/// remembering the size the refused write would have reached.
pub struct CappedBytesWriter {
    bytes: Vec<u8>,
    max_bytes: usize,
    overflow_size: Option<usize>,
}

impl CappedBytesWriter {
    /// The bytes written so far.
    pub closed spec fn bytes_spec(&self) -> Seq<u8> {
        self.bytes@
    }

    /// The cap.
    pub closed spec fn max_spec(&self) -> usize {
        self.max_bytes
    }

    /// The size of the last refused write, if any.
    pub closed spec fn overflow_spec(&self) -> Option<usize> {
        self.overflow_size
    }

    /// An empty writer capped at `max_bytes`.
    pub fn new(max_bytes: usize) -> (w: Self)
        ensures
            w.bytes_spec().len() == 0,
            w.max_spec() == max_bytes,
            w.overflow_spec() is None,
    {
        CappedBytesWriter { bytes: Vec::new(), max_bytes, overflow_size: None }
    }

    /// Appends `buf` unless that would pass the cap; then records the size
    /// it would have reached (saturating) and fails, writing nothing.
    pub fn write(&mut self, buf: &[u8]) -> (r: Result<usize, usize>)
        ensures
            final(self).max_spec() == old(self).max_spec(),
            ({
                let next = if old(self).bytes_spec().len() + buf@.len() > usize::MAX {
                    usize::MAX as nat
                } else {
                    old(self).bytes_spec().len() + buf@.len()
                };
                if next > old(self).max_spec() {
                    r == Err::<usize, usize>(next as usize) && final(self).overflow_spec() == Some(
                        next as usize,
                    ) && final(self).bytes_spec() == old(self).bytes_spec()
                } else {
                    r == Ok::<usize, usize>(buf@.len() as usize) && final(self).bytes_spec() == old(
                    self).bytes_spec() + buf@ && final(self).overflow_spec() == old(self).overflow_spec()
                }
            }),
    {
        let next = self.bytes.len().saturating_add(buf.len());
        if next > self.max_bytes {
            self.overflow_size = Some(next);
            return Err(next);
        }
        let ghost before = self.bytes@;
        let mut i: usize = 0;
        while i < buf.len()
            invariant
                i <= buf@.len(),
                self.bytes@ == before + buf@.subrange(0, i as int),
                self.max_bytes == old(self).max_bytes,
                self.overflow_size == old(self).overflow_size,
            decreases buf@.len() - i,
        {
            self.bytes.push(buf[i]);
            assert(buf@.subrange(0, i + 1) == buf@.subrange(0, i as int).push(buf@[i as int]));
            i = i + 1;
        }
        assert(buf@.subrange(0, buf@.len() as int) == buf@);
        Ok(buf.len())
    }

    /// The size of the refused write, if any.
    pub fn overflow_size(&self) -> (r: Option<usize>)
        ensures
            r == self.overflow_spec(),
    {
        self.overflow_size
    }

    /// The bytes written.
    pub fn into_bytes(self) -> (v: Vec<u8>)
        ensures
            v@ == self.bytes_spec(),
    {
        self.bytes
    }
}

/// The error an encode failure is reported as: the frame cap when the
/// writer refused a write (with the size it would have reached), else a
/// serialization error carrying the serializer's report.
pub fn encode_failure(overflow: Option<usize>, detail: String) -> (e: IpcError)
    ensures
        match overflow {
            Some(size) => e matches IpcError::Frame(FrameError::Oversize { size: s, max }) && s
                == size && max == MAX_FRAME_BYTES,
            None => e matches IpcError::Serialize(d) && d@ == detail@,
        },
{
    match overflow {
        Some(size) => IpcError::Frame(FrameError::Oversize { size, max: MAX_FRAME_BYTES }),
        None => IpcError::Serialize(detail),
    }
}

} // verus!
