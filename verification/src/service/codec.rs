//! Length-delimited framing of serialized messages.
//!
//! A frame is a four-byte big-endian length followed by exactly that many
//! payload bytes. Decoding is resumable: the buffer is only consumed once a
//! whole frame has arrived.
//!
//! Buffers are `BytesMut`, so that a payload is split off a read buffer
//! without being copied. What the buffer type does is taken on trust from
//! its documentation; the framing itself is proved on top of that.

use vstd::prelude::*;
use vstd::string::StringExecFns;
use tokio_util::bytes::BytesMut;

verus! {

/// Width of the length prefix in bytes.
pub const LENGTH_FIELD_LEN: usize = 4;

/// Largest payload any codec accepts, 2^31 - 1 bytes.
pub const MAX_FRAME_LENGTH: usize = 0x7FFF_FFFF;

/// A fatal framing error: the connection it occurs on is torn down.
#[derive(Debug, Clone, Copy, PartialEq, Eq, Structural)]
pub enum CodecError {
    /// The payload, or the length announced by a prefix, exceeds the cap.
    FrameTooLarge,
}

impl CodecError {
    /// What the error says to a reader.
    pub fn message(&self) -> (r: String)
        ensures
            r@ == "frame size too big"@,
    {
        match self {
            CodecError::FrameTooLarge => String::from_str("frame size too big"),
        }
    }
}

/// The four bytes that announce a payload of `n` bytes, most significant first.
pub open spec fn spec_length_prefix(n: nat) -> Seq<u8> {
    seq![
        ((n / 0x100_0000) % 0x100) as u8,
        ((n / 0x1_0000) % 0x100) as u8,
        ((n / 0x100) % 0x100) as u8,
        (n % 0x100) as u8,
    ]
}

/// The length that the first four bytes of `buf` announce.
pub open spec fn spec_announced_length(buf: Seq<u8>) -> nat
    recommends
        buf.len() >= 4,
{
    (buf[0] as nat) * 0x100_0000 + (buf[1] as nat) * 0x1_0000 + (buf[2] as nat) * 0x100 + (
    buf[3] as nat)
}

/// The frame that carries `payload`.
pub open spec fn spec_frame(payload: Seq<u8>) -> Seq<u8> {
    spec_length_prefix(payload.len()) + payload
}

/// What one decoding step does to a buffer.
pub enum DecodeStep {
    /// Fewer bytes than a whole frame are buffered; nothing is consumed.
    Incomplete,
    /// The prefix announces more than the cap; nothing is consumed.
    TooLarge,
    /// A whole frame is present: its payload, and the bytes left behind it.
    Frame { payload: Seq<u8>, rest: Seq<u8> },
}

/// One decoding step on `buf` under the cap `max`.
pub open spec fn spec_decode(max: nat, buf: Seq<u8>) -> DecodeStep {
    if buf.len() < 4 {
        DecodeStep::Incomplete
    } else if spec_announced_length(buf) > max {
        DecodeStep::TooLarge
    } else if buf.len() < 4 + spec_announced_length(buf) {
        DecodeStep::Incomplete
    } else {
        DecodeStep::Frame {
            payload: buf.subrange(4, 4 + spec_announced_length(buf) as int),
            rest: buf.subrange(4 + spec_announced_length(buf) as int, buf.len() as int),
        }
    }
}

/// `bytes::BytesMut`, a growable byte buffer, taken as opaque.
#[verifier::external_type_specification]
#[verifier::external_body]
pub struct ExBytesMut(BytesMut);

/// The bytes a buffer holds, first to last.
pub uninterp spec fn buffer_bytes(buf: BytesMut) -> Seq<u8>;

/// `BytesMut::len`: the number of bytes the buffer holds.
#[verifier::external_body]
fn buffer_len(buf: &BytesMut) -> (n: usize)
    ensures
        n == buffer_bytes(*buf).len(),
{
    buf.len()
}

/// `BytesMut::as_ref`: the bytes the buffer holds, as a slice.
#[verifier::external_body]
fn buffer_slice(buf: &BytesMut) -> (bytes: &[u8])
    ensures
        bytes@ == buffer_bytes(*buf),
{
    buf.as_ref()
}

/// `BytesMut::split_to`: the first `at` bytes are returned as a buffer of
/// their own and the rest stays. It panics where `at` exceeds the length,
/// which is left out here.
#[verifier::external_body]
fn buffer_split_to(buf: &mut BytesMut, at: usize) -> (front: BytesMut)
    requires
        at <= buffer_bytes(*old(buf)).len(),
    ensures
        buffer_bytes(front) == buffer_bytes(*old(buf)).subrange(0, at as int),
        buffer_bytes(*final(buf)) == buffer_bytes(*old(buf)).subrange(
            at as int,
            buffer_bytes(*old(buf)).len() as int,
        ),
{
    buf.split_to(at)
}

/// `BytesMut::reserve`: room for `additional` more bytes is made and the
/// bytes held stay as they are. It panics where the new capacity overflows,
/// which is left out here.
#[verifier::external_body]
fn buffer_reserve(buf: &mut BytesMut, additional: usize)
    requires
        buffer_bytes(*old(buf)).len() + additional <= usize::MAX,
    ensures
        buffer_bytes(*final(buf)) == buffer_bytes(*old(buf)),
{
    buf.reserve(additional)
}

/// `BytesMut::extend_from_slice`: `bytes` are appended. It reserves room
/// first and so panics where the new length overflows, which is left out
/// here.
#[verifier::external_body]
fn buffer_extend(buf: &mut BytesMut, bytes: &[u8])
    requires
        buffer_bytes(*old(buf)).len() + bytes@.len() <= usize::MAX,
    ensures
        buffer_bytes(*final(buf)) == buffer_bytes(*old(buf)) + bytes@,
{
    buf.extend_from_slice(bytes)
}

/// Whether `encode` accepts a payload of `payload_len` bytes for a buffer
/// that holds `buffered` bytes: the payload is within the cap `max`, and
/// the buffer with the frame appended stays within what can be addressed.
pub open spec fn spec_encodable(max: nat, buffered: nat, payload_len: nat) -> bool {
    payload_len <= max && buffered + 4 + payload_len <= usize::MAX
}

/// Frames and unframes payloads under a fixed size cap.
#[derive(Debug, Clone, Copy)]
pub struct DataPacketCodec {
    max_frame_length: usize,
}

impl DataPacketCodec {
    /// The cap this codec enforces.
    pub closed spec fn spec_max_frame_length(&self) -> nat {
        self.max_frame_length as nat
    }

    /// The cap never exceeds [`MAX_FRAME_LENGTH`].
    #[verifier::type_invariant]
    spec fn bounded(&self) -> bool {
        self.max_frame_length <= MAX_FRAME_LENGTH
    }

    /// A codec with the cap `max_frame_length`, or `None` where that exceeds
    /// [`MAX_FRAME_LENGTH`].
    pub fn with_max_frame_length(max_frame_length: usize) -> (r: Option<Self>)
        ensures
            r.is_some() <==> max_frame_length <= MAX_FRAME_LENGTH,
            r.is_some() ==> r.unwrap().spec_max_frame_length() == max_frame_length,
    {
        if max_frame_length <= MAX_FRAME_LENGTH {
            Some(DataPacketCodec { max_frame_length })
        } else {
            None
        }
    }

    /// The cap this codec enforces, at most [`MAX_FRAME_LENGTH`].
    pub fn max_frame_length(&self) -> (r: usize)
        ensures
            r == self.spec_max_frame_length(),
            r <= MAX_FRAME_LENGTH,
    {
        proof {
            use_type_invariant(self);
        }
        self.max_frame_length
    }

    /// Appends the frame of `payload` to `dst`.
    ///
    /// A payload over the cap is an error and leaves `dst` untouched:
    /// nothing is ever truncated. So is a frame that would make `dst` longer
    /// than can be addressed.
    pub fn encode(&self, payload: &[u8], dst: &mut BytesMut) -> (r: Result<(), CodecError>)
        ensures
            !spec_encodable(
                self.spec_max_frame_length(),
                buffer_bytes(*old(dst)).len(),
                payload@.len(),
            ) ==> r == Err::<(), CodecError>(CodecError::FrameTooLarge) && buffer_bytes(
                *final(dst),
            ) == buffer_bytes(*old(dst)),
            spec_encodable(
                self.spec_max_frame_length(),
                buffer_bytes(*old(dst)).len(),
                payload@.len(),
            ) ==> r.is_ok() && buffer_bytes(*final(dst)) == buffer_bytes(*old(dst)) + spec_frame(
                payload@,
            ),
    {
        proof {
            use_type_invariant(self);
        }
        let n: usize = payload.len();
        if n > self.max_frame_length {
            return Err(CodecError::FrameTooLarge);
        }
        let buffered: usize = buffer_len(dst);
        if buffered > usize::MAX - LENGTH_FIELD_LEN - n {
            return Err(CodecError::FrameTooLarge);
        }
        let ghost before = buffer_bytes(*dst);
        let mut prefix: Vec<u8> = Vec::new();
        prefix.push(((n / 0x100_0000) % 0x100) as u8);
        prefix.push(((n / 0x1_0000) % 0x100) as u8);
        prefix.push(((n / 0x100) % 0x100) as u8);
        prefix.push((n % 0x100) as u8);
        assert(prefix@ =~= spec_length_prefix(n as nat));
        buffer_reserve(dst, LENGTH_FIELD_LEN + n);
        buffer_extend(dst, prefix.as_slice());
        buffer_extend(dst, payload);
        assert(buffer_bytes(*dst) =~= before + spec_frame(payload@));
        Ok(())
    }

    /// Takes one frame off the front of `src` if a whole one is buffered.
    ///
    /// With fewer bytes than a whole frame the result is `Ok(None)` and the
    /// bytes of `src` are left as they were; room for the missing ones is
    /// reserved. A prefix that announces more than the cap is an error. A
    /// whole frame is split off `src`, and its payload returned.
    pub fn decode(&self, src: &mut BytesMut) -> (r: Result<Option<BytesMut>, CodecError>)
        ensures
            match spec_decode(self.spec_max_frame_length(), buffer_bytes(*old(src))) {
                DecodeStep::Incomplete => r == Ok::<Option<BytesMut>, CodecError>(None)
                    && buffer_bytes(*final(src)) == buffer_bytes(*old(src)),
                DecodeStep::TooLarge => r == Err::<Option<BytesMut>, CodecError>(
                    CodecError::FrameTooLarge,
                ) && buffer_bytes(*final(src)) == buffer_bytes(*old(src)),
                DecodeStep::Frame { payload, rest } => r.is_ok() && r.unwrap().is_some()
                    && buffer_bytes(r.unwrap().unwrap()) == payload && buffer_bytes(*final(src))
                    == rest,
            },
    {
        proof {
            use_type_invariant(self);
        }
        let available: usize = buffer_len(src);
        if available < LENGTH_FIELD_LEN {
            return Ok(None);
        }
        let head = buffer_slice(src);
        let announced: u64 = (head[0] as u64) * 0x100_0000 + (head[1] as u64) * 0x1_0000 + (
        head[2] as u64) * 0x100 + (head[3] as u64);
        if announced > self.max_frame_length as u64 {
            return Err(CodecError::FrameTooLarge);
        }
        let n: usize = announced as usize;
        if available - LENGTH_FIELD_LEN < n {
            buffer_reserve(src, n - (available - LENGTH_FIELD_LEN));
            return Ok(None);
        }
        let ghost whole = buffer_bytes(*src);
        let _ = buffer_split_to(src, LENGTH_FIELD_LEN);
        let payload = buffer_split_to(src, n);
        assert(buffer_bytes(payload) =~= whole.subrange(4, 4 + n));
        assert(buffer_bytes(*src) =~= whole.subrange(4 + n, whole.len() as int));
        Ok(Some(payload))
    }
}

impl Default for DataPacketCodec {
    /// A codec with the largest cap, [`MAX_FRAME_LENGTH`].
    fn default() -> (r: Self)
        ensures
            r.spec_max_frame_length() == MAX_FRAME_LENGTH,
    {
        DataPacketCodec { max_frame_length: MAX_FRAME_LENGTH }
    }
}

/// A length prefix announces the length it was made from.
pub proof fn lemma_length_prefix_announces(n: nat)
    requires
        n < 0x1_0000_0000,
    ensures
        spec_length_prefix(n).len() == 4,
        spec_announced_length(spec_length_prefix(n)) == n,
{
}

/// Round trip: decoding the frame of a payload within the cap yields that
/// payload and leaves nothing behind.
pub proof fn lemma_round_trip(max: nat, payload: Seq<u8>)
    requires
        payload.len() <= max <= MAX_FRAME_LENGTH,
    ensures
        spec_decode(max, spec_frame(payload)) == (DecodeStep::Frame {
            payload,
            rest: Seq::<u8>::empty(),
        }),
{
    lemma_length_prefix_announces(payload.len());
    let frame = spec_frame(payload);
    assert(frame.len() == 4 + payload.len());
    assert(spec_announced_length(frame) == payload.len());
    assert(frame.subrange(4, 4 + payload.len() as int) =~= payload);
    assert(frame.subrange(4 + payload.len() as int, frame.len() as int) =~= Seq::<u8>::empty());
}

/// Round trip of messages: with any serialization that reads back what it
/// wrote, a message whose serialized form is within the cap comes back from
/// its frame as it went in.
pub proof fn lemma_message_round_trip<M>(
    max: nat,
    serialize: spec_fn(M) -> Seq<u8>,
    deserialize: spec_fn(Seq<u8>) -> Option<M>,
    message: M,
)
    requires
        deserialize(serialize(message)) == Some(message),
        serialize(message).len() <= max <= MAX_FRAME_LENGTH,
    ensures
        spec_decode(max, spec_frame(serialize(message))) matches DecodeStep::Frame { payload, rest }
            && deserialize(payload) == Some(message) && rest == Seq::<u8>::empty(),
{
    lemma_round_trip(max, serialize(message));
}

/// Frames come out in arrival order: with a frame at the front of the
/// buffer, decoding yields its payload and leaves what follows it.
pub proof fn lemma_decode_first_frame(max: nat, payload: Seq<u8>, tail: Seq<u8>)
    requires
        payload.len() <= max <= MAX_FRAME_LENGTH,
    ensures
        spec_decode(max, spec_frame(payload) + tail) == (DecodeStep::Frame { payload, rest: tail }),
{
    lemma_length_prefix_announces(payload.len());
    let buf = spec_frame(payload) + tail;
    let frame = spec_frame(payload);
    assert(buf[0] == frame[0] && buf[1] == frame[1] && buf[2] == frame[2] && buf[3] == frame[3]);
    assert(spec_announced_length(buf) == payload.len());
    assert(buf.subrange(4, 4 + payload.len() as int) =~= payload);
    assert(buf.subrange(4 + payload.len() as int, buf.len() as int) =~= tail);
}

/// Resumability: every proper prefix of a frame decodes to "incomplete", so
/// however the frame is split over reads, nothing comes out and nothing is
/// consumed until its last byte is there.
pub proof fn lemma_partial_frame_incomplete(max: nat, payload: Seq<u8>, k: int)
    requires
        payload.len() <= max <= MAX_FRAME_LENGTH,
        0 <= k < spec_frame(payload).len(),
    ensures
        spec_decode(max, spec_frame(payload).subrange(0, k)) == DecodeStep::Incomplete,
{
    lemma_length_prefix_announces(payload.len());
    let frame = spec_frame(payload);
    let part = frame.subrange(0, k);
    if k >= 4 {
        assert(part[0] == frame[0] && part[1] == frame[1] && part[2] == frame[2] && part[3]
            == frame[3]);
        assert(spec_announced_length(part) == spec_announced_length(frame));
        assert(spec_announced_length(frame) == payload.len());
    }
}

/// The buffer after one decoding step: what lies behind the frame that was
/// taken off, or the buffer as it was.
pub open spec fn spec_buffer_after(max: nat, buf: Seq<u8>) -> Seq<u8> {
    match spec_decode(max, buf) {
        DecodeStep::Frame { rest, .. } => rest,
        _ => buf,
    }
}

/// The bytes of `chunks`, one chunk after the other.
pub open spec fn spec_concat(chunks: Seq<Seq<u8>>) -> Seq<u8>
    decreases chunks.len(),
{
    if chunks.len() == 0 {
        Seq::empty()
    } else {
        spec_concat(chunks.drop_last()) + chunks.last()
    }
}

/// The buffer after `chunks` were read into an empty buffer one by one,
/// with one decoding step after each read.
pub open spec fn spec_buffer_after_reads(max: nat, chunks: Seq<Seq<u8>>) -> Seq<u8>
    decreases chunks.len(),
{
    if chunks.len() == 0 {
        Seq::empty()
    } else {
        spec_buffer_after(max, spec_buffer_after_reads(max, chunks.drop_last()) + chunks.last())
    }
}

/// What the decoding step after the last of `chunks` yields, when they are
/// read into an empty buffer one by one with one decoding step after each.
pub open spec fn spec_decode_after_reads(max: nat, chunks: Seq<Seq<u8>>) -> DecodeStep
    recommends
        chunks.len() > 0,
{
    spec_decode(max, spec_buffer_after_reads(max, chunks.drop_last()) + chunks.last())
}

/// The first `k` chunks make up a prefix of all of them, and a proper one
/// where chunks are left and the last is not empty.
proof fn lemma_concat_prefix(chunks: Seq<Seq<u8>>, k: int)
    requires
        0 <= k <= chunks.len(),
    ensures
        spec_concat(chunks.subrange(0, k)).len() <= spec_concat(chunks).len(),
        spec_concat(chunks.subrange(0, k)) == spec_concat(chunks).subrange(
            0,
            spec_concat(chunks.subrange(0, k)).len() as int,
        ),
        k < chunks.len() ==> spec_concat(chunks.subrange(0, k)).len() + chunks.last().len()
            <= spec_concat(chunks).len(),
    decreases chunks.len() - k,
{
    let all = spec_concat(chunks);
    let head = spec_concat(chunks.subrange(0, k));
    if k == chunks.len() {
        assert(chunks.subrange(0, k) =~= chunks);
        assert(head =~= all.subrange(0, head.len() as int));
    } else {
        lemma_concat_prefix(chunks, k + 1);
        let longer = chunks.subrange(0, k + 1);
        assert(longer.drop_last() =~= chunks.subrange(0, k));
        assert(longer.last() == chunks[k]);
        assert(spec_concat(longer) == head + chunks[k]);
        if k + 1 == chunks.len() {
            assert(longer =~= chunks);
        }
        assert(head =~= all.subrange(0, head.len() as int));
    }
}

/// While only a proper prefix of a frame has been read, the buffer holds
/// exactly what was read.
proof fn lemma_reads_accumulate(max: nat, payload: Seq<u8>, chunks: Seq<Seq<u8>>, k: int)
    requires
        payload.len() <= max <= MAX_FRAME_LENGTH,
        chunks.len() > 0,
        chunks.last().len() > 0,
        spec_concat(chunks) == spec_frame(payload),
        0 <= k < chunks.len(),
    ensures
        spec_buffer_after_reads(max, chunks.subrange(0, k)) == spec_concat(chunks.subrange(0, k)),
        k > 0 ==> spec_decode_after_reads(max, chunks.subrange(0, k)) == DecodeStep::Incomplete,
    decreases k,
{
    if k > 0 {
        lemma_reads_accumulate(max, payload, chunks, k - 1);
        lemma_concat_prefix(chunks, k);
        let read = chunks.subrange(0, k);
        assert(read.drop_last() =~= chunks.subrange(0, k - 1));
        assert(read.last() == chunks[k - 1]);
        let buffered = spec_concat(read);
        assert(buffered == spec_frame(payload).subrange(0, buffered.len() as int));
        lemma_partial_frame_incomplete(max, payload, buffered.len() as int);
    } else {
        assert(chunks.subrange(0, 0) =~= Seq::<Seq<u8>>::empty());
    }
}

/// Resumability over reads: however a frame is split into chunks, the
/// decoding step after each chunk but the last yields nothing, the step
/// after the last yields the payload, and nothing is left in the buffer, so
/// the payload comes out exactly once. (The last chunk is not empty: else
/// the frame would be complete before it.)
pub proof fn lemma_split_frame_resumes(max: nat, payload: Seq<u8>, chunks: Seq<Seq<u8>>)
    requires
        payload.len() <= max <= MAX_FRAME_LENGTH,
        chunks.len() > 0,
        chunks.last().len() > 0,
        spec_concat(chunks) == spec_frame(payload),
    ensures
        forall|k: int|
            1 <= k < chunks.len() ==> #[trigger] spec_decode_after_reads(
                max,
                chunks.subrange(0, k),
            ) == DecodeStep::Incomplete,
        spec_decode_after_reads(max, chunks) == (DecodeStep::Frame {
            payload,
            rest: Seq::<u8>::empty(),
        }),
        spec_buffer_after_reads(max, chunks) == Seq::<u8>::empty(),
        spec_decode(max, spec_buffer_after_reads(max, chunks)) == DecodeStep::Incomplete,
{
    assert forall|k: int| 1 <= k < chunks.len() implies #[trigger] spec_decode_after_reads(
        max,
        chunks.subrange(0, k),
    ) == DecodeStep::Incomplete by {
        lemma_reads_accumulate(max, payload, chunks, k);
    }
    let n = chunks.len() as int;
    lemma_reads_accumulate(max, payload, chunks, n - 1);
    assert(chunks.drop_last() =~= chunks.subrange(0, n - 1));
    lemma_round_trip(max, payload);
}

} // verus!
