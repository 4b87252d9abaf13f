//! Frame buffer for accumulating partial reads.
//!
//! Uses `bytes::BytesMut` for zero-copy buffer management.
//! Implements a state machine for handling fragmented frames:
//! - `WaitingForHeader`: Need at least 11 bytes
//! - `WaitingForPayload`: Header parsed, need N more payload bytes
//!
//! Every header is checked before its payload is awaited (method ID 0,
//! reserved flag bits, and the payload limit), so an oversized declared
//! length is refused without buffering or allocating it.

use vstd::prelude::*;
use bytes::BytesMut;

use super::frame::{payload_of, Frame};
use super::wire_format::{
    decoded, encoded, header_valid, lemma_decode_encode, lemma_encode_decode, validation_message,
    Header, ABSOLUTE_MAX_PAYLOAD_SIZE, DEFAULT_MAX_PAYLOAD_SIZE, HEADER_SIZE,
};
use crate::buffers::{
    bytes_empty, bytes_mut_as_slice, bytes_mut_clear, bytes_mut_contents,
    bytes_mut_extend_from_slice, bytes_mut_freeze, bytes_mut_len, bytes_mut_split_to,
    bytes_mut_with_capacity,
};
use crate::error::ProcwireError;

verus! {

/// State machine for frame parsing.
#[derive(Debug, Clone, Copy)]
enum State {
    /// Waiting for complete header (need 11 bytes).
    WaitingForHeader,
    /// Header parsed, waiting for payload bytes.
    WaitingForPayload { header: Header, remaining: u32 },
}

/// The payload limit that a buffer configured with `max_payload_size`
/// enforces: the configured value, never above `ABSOLUTE_MAX_PAYLOAD_SIZE`.
pub open spec fn effective_limit(max_payload_size: u32) -> u32 {
    if max_payload_size <= ABSOLUTE_MAX_PAYLOAD_SIZE {
        max_payload_size
    } else {
        ABSOLUTE_MAX_PAYLOAD_SIZE
    }
}

/// A parsed frame as plain values: header and payload bytes.
pub type FrameValue = (Header, Seq<u8>);

/// Splits a byte stream into the complete frames at its front.
///
/// Returns the frames, the unconsumed rest of the stream, and whether the
/// split stopped at a header that violates the protocol (the rest then starts
/// with that header).
pub open spec fn split_frames(s: Seq<u8>, limit: u32) -> (Seq<FrameValue>, Seq<u8>, bool)
    decreases s.len(),
{
    if s.len() < HEADER_SIZE {
        (Seq::empty(), s, false)
    } else {
        let h = decoded(s);
        let n = HEADER_SIZE + h.payload_length;
        if !header_valid(h, limit) {
            (Seq::empty(), s, true)
        } else if s.len() < n {
            (Seq::empty(), s, false)
        } else {
            let rest = split_frames(s.skip(n), limit);
            (seq![(h, s.subrange(HEADER_SIZE as int, n))] + rest.0, rest.1, rest.2)
        }
    }
}

/// The frames of a vector as plain values.
pub open spec fn frames_model(v: Seq<Frame>) -> Seq<FrameValue> {
    v.map_values(|f: Frame| (f.header, payload_of(f)))
}

/// What `push` returns and leaves behind for the stream `stream` (the bytes
/// held before the call followed by the pushed bytes).
pub open spec fn push_outcome(
    stream: Seq<u8>,
    limit: u32,
    r: Result<Vec<Frame>, ProcwireError>,
    after: Seq<u8>,
) -> bool {
    let sp = split_frames(stream, limit);
    &&& after == sp.1
    &&& sp.2 ==> (r matches Err(ProcwireError::Protocol(m)) && m@ == validation_message(
        decoded(sp.1),
        limit,
    ))
    &&& !sp.2 ==> (r matches Ok(v) && frames_model(v@) == sp.0)
}

/// What extracting one frame from the stream `s` returns and leaves behind.
pub open spec fn extract_outcome(
    s: Seq<u8>,
    limit: u32,
    r: Result<Option<Frame>, ProcwireError>,
    after: Seq<u8>,
) -> bool {
    if s.len() < HEADER_SIZE {
        r == Ok::<Option<Frame>, ProcwireError>(None) && after == s
    } else {
        let h = decoded(s);
        let n = HEADER_SIZE + h.payload_length;
        if !header_valid(h, limit) {
            &&& r matches Err(ProcwireError::Protocol(m))
            &&& m@ == validation_message(h, limit)
            &&& after == s
        } else if s.len() < n {
            r == Ok::<Option<Frame>, ProcwireError>(None) && after == s
        } else {
            &&& r matches Ok(Some(f))
            &&& f.header == h
            &&& payload_of(f) == s.subrange(HEADER_SIZE as int, n)
            &&& after == s.skip(n)
        }
    }
}

/// Splitting is independent of how the stream arrives: when the bytes `a`
/// split without a protocol violation, splitting `a` followed by `b` gives the
/// frames of `a`, then the frames of what `a` left over followed by `b`.
pub proof fn lemma_split_append(a: Seq<u8>, b: Seq<u8>, limit: u32)
    requires
        !split_frames(a, limit).2,
    ensures
        ({
            let sa = split_frames(a, limit);
            let sr = split_frames(sa.1 + b, limit);
            split_frames(a + b, limit) == (sa.0 + sr.0, sr.1, sr.2)
        }),
    decreases a.len(),
{
    let sa = split_frames(a, limit);
    if a.len() < HEADER_SIZE {
        assert(sa.0 + split_frames(sa.1 + b, limit).0 =~= split_frames(sa.1 + b, limit).0);
    } else {
        let h = decoded(a);
        let n = HEADER_SIZE + h.payload_length;
        assert((a + b).take(HEADER_SIZE as int) =~= a.take(HEADER_SIZE as int));
        assert(decoded(a + b) == h);
        if a.len() < n {
            assert(sa.0 + split_frames(sa.1 + b, limit).0 =~= split_frames(sa.1 + b, limit).0);
        } else {
            let tail = a.skip(n);
            lemma_split_append(tail, b, limit);
            assert((a + b).skip(n) =~= tail + b);
            assert((a + b).subrange(HEADER_SIZE as int, n) =~= a.subrange(HEADER_SIZE as int, n));
            let st = split_frames(tail, limit);
            let sr = split_frames(st.1 + b, limit);
            let f = (h, a.subrange(HEADER_SIZE as int, n));
            assert(seq![f] + (st.0 + sr.0) =~= (seq![f] + st.0) + sr.0);
        }
    }
}

/// Law (fragmentation independence): two consecutive error-free pushes of
/// `a` and then `b` yield, in total, exactly the frames that one push of
/// `a + b` yields, and leave the same bytes pending.
pub proof fn law_fragmented_stream_same_frames(a: Seq<u8>, b: Seq<u8>, limit: u32)
    requires
        !split_frames(a, limit).2,
    ensures
        ({
            let first = split_frames(a, limit);
            let second = split_frames(first.1 + b, limit);
            let whole = split_frames(a + b, limit);
            &&& whole.0 == first.0 + second.0
            &&& whole.1 == second.1
            &&& whole.2 == second.2
        }),
{
    lemma_split_append(a, b, limit);
}

/// What successive calls of `push` with the chunks `chunks`, on a buffer
/// holding `pending`, return in total by `push`'s contract: the frames of
/// every call in order, what stays pending at the end, and whether a call
/// failed (the calls stop at the first failure).
pub open spec fn pushes_outcome(pending: Seq<u8>, chunks: Seq<Seq<u8>>, limit: u32) -> (
    Seq<FrameValue>,
    Seq<u8>,
    bool,
)
    decreases chunks.len(),
{
    if chunks.len() == 0 {
        (Seq::empty(), pending, false)
    } else {
        let sp = split_frames(pending + chunks[0], limit);
        if sp.2 {
            (Seq::empty(), sp.1, true)
        } else {
            let rest = pushes_outcome(sp.1, chunks.drop_first(), limit);
            (sp.0 + rest.0, rest.1, rest.2)
        }
    }
}

proof fn lemma_pushes_outcome(pending: Seq<u8>, chunks: Seq<Seq<u8>>, limit: u32)
    requires
        chunks.len() > 0,
        !pushes_outcome(pending, chunks, limit).2,
    ensures
        pushes_outcome(pending, chunks, limit) == split_frames(pending + chunks.flatten(), limit),
    decreases chunks.len(),
{
    let c0 = chunks[0];
    let rest = chunks.drop_first();
    let sp = split_frames(pending + c0, limit);
    assert(chunks.first() == c0);
    assert(chunks.flatten() == c0 + rest.flatten());
    assert(!sp.2);
    let ro = pushes_outcome(sp.1, rest, limit);
    assert(pushes_outcome(pending, chunks, limit) == (sp.0 + ro.0, ro.1, ro.2));
    if rest.len() == 0 {
        assert(ro == (Seq::<FrameValue>::empty(), sp.1, false));
        assert(rest.flatten() =~= Seq::<u8>::empty());
        assert(pending + chunks.flatten() =~= pending + c0);
        assert(sp.0 + Seq::<FrameValue>::empty() =~= sp.0);
    } else {
        lemma_pushes_outcome(sp.1, rest, limit);
        lemma_split_append(pending + c0, rest.flatten(), limit);
        assert(pending + chunks.flatten() =~= (pending + c0) + rest.flatten());
    }
}

/// A protocol violation in a stream stays one when more bytes follow: the
/// split stops at the same offending header.
proof fn lemma_error_persists(a: Seq<u8>, b: Seq<u8>, limit: u32)
    requires
        split_frames(a, limit).2,
    ensures
        split_frames(a + b, limit).2,
    decreases a.len(),
{
    let h = decoded(a);
    let n = HEADER_SIZE + h.payload_length;
    assert((a + b).take(HEADER_SIZE as int) =~= a.take(HEADER_SIZE as int));
    assert(decoded(a + b) == h);
    if header_valid(h, limit) {
        lemma_error_persists(a.skip(n), b, limit);
        assert((a + b).skip(n) =~= a.skip(n) + b);
    }
}

proof fn lemma_pushes_never_fail(pending: Seq<u8>, chunks: Seq<Seq<u8>>, limit: u32)
    requires
        !split_frames(pending + chunks.flatten(), limit).2,
    ensures
        !pushes_outcome(pending, chunks, limit).2,
    decreases chunks.len(),
{
    if chunks.len() > 0 {
        let c0 = chunks[0];
        let rest = chunks.drop_first();
        assert(chunks.first() == c0);
        assert(chunks.flatten() == c0 + rest.flatten());
        assert(pending + chunks.flatten() =~= (pending + c0) + rest.flatten());
        if split_frames(pending + c0, limit).2 {
            lemma_error_persists(pending + c0, rest.flatten(), limit);
        }
        lemma_split_append(pending + c0, rest.flatten(), limit);
        lemma_pushes_never_fail(split_frames(pending + c0, limit).1, rest, limit);
    }
}

/// Law (fragmentation independence, any number of reads): pushing a stream
/// that holds no protocol violation into a fresh buffer chunk after chunk,
/// however it is cut (whole, in pieces, byte by byte), never fails, and
/// gives in total exactly the frames and the pending rest that pushing the
/// whole stream at once gives.
pub proof fn law_any_chunking_same_frames(chunks: Seq<Seq<u8>>, limit: u32)
    requires
        !split_frames(chunks.flatten(), limit).2,
    ensures
        !pushes_outcome(Seq::empty(), chunks, limit).2,
        pushes_outcome(Seq::empty(), chunks, limit) == split_frames(chunks.flatten(), limit),
{
    assert(Seq::<u8>::empty() + chunks.flatten() =~= chunks.flatten());
    lemma_pushes_never_fail(Seq::empty(), chunks, limit);
    if chunks.len() == 0 {
        assert(chunks.flatten() =~= Seq::<u8>::empty());
    } else {
        lemma_pushes_outcome(Seq::empty(), chunks, limit);
    }
}

/// Law (framing round trip): the bytes of a valid frame, followed by any
/// further bytes, split into exactly that frame followed by the frames of the
/// further bytes.
pub proof fn law_frame_bytes_split_back(h: Header, payload: Seq<u8>, more: Seq<u8>, limit: u32)
    requires
        header_valid(h, limit),
        payload.len() == h.payload_length,
    ensures
        ({
            let s = split_frames(more, limit);
            split_frames(encoded(h) + payload + more, limit) == (seq![(h, payload)] + s.0, s.1, s.2)
        }),
{
    lemma_decode_encode(h);
    let all = encoded(h) + payload + more;
    let n = HEADER_SIZE + h.payload_length;
    assert(all.take(HEADER_SIZE as int) =~= encoded(h));
    assert(decoded(all) == decoded(encoded(h)));
    assert(all.skip(n) =~= more);
    assert(all.subrange(HEADER_SIZE as int, n) =~= payload);
}

/// Every frame a split yields carries a valid header and exactly the payload
/// length that header declares.
pub proof fn lemma_split_frames_valid(s: Seq<u8>, limit: u32)
    ensures
        forall|i: int|
            0 <= i < split_frames(s, limit).0.len() ==> {
                let f = #[trigger] split_frames(s, limit).0[i];
                header_valid(f.0, limit) && f.1.len() == f.0.payload_length
            },
    decreases s.len(),
{
    if s.len() >= HEADER_SIZE {
        let h = decoded(s);
        let n = HEADER_SIZE + h.payload_length;
        if header_valid(h, limit) && s.len() >= n {
            lemma_split_frames_valid(s.skip(n), limit);
            let rest = split_frames(s.skip(n), limit);
            assert forall|i: int| 0 <= i < split_frames(s, limit).0.len() implies {
                let f = #[trigger] split_frames(s, limit).0[i];
                header_valid(f.0, limit) && f.1.len() == f.0.payload_length
            } by {
                if i > 0 {
                    assert(split_frames(s, limit).0[i] == rest.0[i - 1]);
                }
            }
        }
    }
}

/// Buffer for accumulating incoming bytes and extracting complete frames.
///
/// Uses a state machine to handle partial reads efficiently.
/// All data is stored in a single `BytesMut` buffer to minimize allocations.
pub struct FrameBuffer {
    /// Accumulated bytes from socket reads.
    buffer: BytesMut,
    /// Current parsing state.
    state: State,
    /// Maximum allowed payload size.
    max_payload_size: u32,
}

impl FrameBuffer {
    /// The bytes held in the buffer (after an already consumed header, if any).
    pub closed spec fn buffered(&self) -> Seq<u8> {
        bytes_mut_contents(self.buffer)
    }

    /// The header consumed while its payload is awaited, if any.
    pub closed spec fn held_header(&self) -> Option<Header> {
        match self.state {
            State::WaitingForHeader => None,
            State::WaitingForPayload { header, .. } => Some(header),
        }
    }

    /// The configured maximum payload size.
    pub closed spec fn max_payload(&self) -> u32 {
        self.max_payload_size
    }

    /// The part of the incoming stream not yet returned as frames.
    pub open spec fn pending(&self) -> Seq<u8> {
        match self.held_header() {
            Some(h) => encoded(h) + self.buffered(),
            None => self.buffered(),
        }
    }

    /// The payload limit this buffer enforces.
    pub open spec fn limit(&self) -> u32 {
        effective_limit(self.max_payload())
    }

    /// Well-formedness: a held header has passed validation and declares a
    /// non-empty payload that is still awaited.
    pub closed spec fn wf(&self) -> bool {
        match self.state {
            State::WaitingForHeader => true,
            State::WaitingForPayload { header, remaining } => {
                &&& remaining == header.payload_length
                &&& remaining > 0
                &&& header_valid(header, effective_limit(self.max_payload_size))
            },
        }
    }

    /// Create a new frame buffer with default settings.
    ///
    /// Default capacity: 64KB, max payload: 1GB.
    pub fn new() -> (r: Self)
        ensures
            r.wf(),
            r.pending() == Seq::<u8>::empty(),
            r.held_header() is None,
            r.max_payload() == DEFAULT_MAX_PAYLOAD_SIZE,
    {
        Self {
            buffer: bytes_mut_with_capacity(64 * 1024),
            state: State::WaitingForHeader,
            max_payload_size: DEFAULT_MAX_PAYLOAD_SIZE,
        }
    }

    /// Create a new frame buffer with custom max payload size.
    pub fn with_max_payload(max_payload_size: u32) -> (r: Self)
        ensures
            r.wf(),
            r.pending() == Seq::<u8>::empty(),
            r.held_header() is None,
            r.max_payload() == max_payload_size,
    {
        Self {
            buffer: bytes_mut_with_capacity(64 * 1024),
            state: State::WaitingForHeader,
            max_payload_size,
        }
    }

    /// Create a new frame buffer with custom capacity and max payload.
    pub fn with_capacity_and_max_payload(capacity: usize, max_payload_size: u32) -> (r: Self)
        ensures
            r.wf(),
            r.pending() == Seq::<u8>::empty(),
            r.held_header() is None,
            r.max_payload() == max_payload_size,
    {
        Self {
            buffer: bytes_mut_with_capacity(capacity),
            state: State::WaitingForHeader,
            max_payload_size,
        }
    }

    /// The limit this buffer enforces, computed.
    fn enforced_limit(&self) -> (r: u32)
        ensures
            r == self.limit(),
    {
        if self.max_payload_size <= ABSOLUTE_MAX_PAYLOAD_SIZE {
            self.max_payload_size
        } else {
            ABSOLUTE_MAX_PAYLOAD_SIZE
        }
    }

    /// Push data into the buffer and extract all complete frames.
    ///
    /// Returns the complete frames in stream order (possibly none); a partial
    /// frame stays buffered for the next push. A header that violates the
    /// protocol makes the call fail; the frames completed before it in the
    /// same call are then dropped and the offending header stays buffered.
    pub fn push(&mut self, data: &[u8]) -> (r: Result<Vec<Frame>, ProcwireError>)
        requires
            old(self).wf(),
            old(self).buffered().len() + data@.len() <= isize::MAX,
        ensures
            final(self).wf(),
            final(self).max_payload() == old(self).max_payload(),
            push_outcome(old(self).pending() + data@, old(self).limit(), r, final(self).pending()),
    {
        let ghost stream = self.pending() + data@;
        bytes_mut_extend_from_slice(&mut self.buffer, data);
        assert(self.pending() =~= stream);
        let ghost limit = self.limit();
        let mut frames: Vec<Frame> = Vec::new();
        loop
            invariant
                self.wf(),
                self.max_payload() == old(self).max_payload(),
                limit == self.limit(),
                limit == old(self).limit(),
                stream == old(self).pending() + data@,
                split_frames(stream, limit).0 == frames_model(frames@) + split_frames(
                    self.pending(),
                    limit,
                ).0,
                split_frames(stream, limit).1 == split_frames(self.pending(), limit).1,
                split_frames(stream, limit).2 == split_frames(self.pending(), limit).2,
            decreases self.pending().len(),
        {
            let ghost before = self.pending();
            let step = self.try_extract_one();
            match step {
                Ok(Some(frame)) => {
                    let ghost f = (frame.header, payload_of(frame));
                    let ghost old_frames = frames@;
                    frames.push(frame);
                    assert(frames_model(frames@) =~= frames_model(old_frames) + seq![f]);
                    assert(split_frames(before, limit).0 =~= seq![f] + split_frames(
                        self.pending(),
                        limit,
                    ).0);
                    assert(frames_model(old_frames) + (seq![f] + split_frames(
                        self.pending(),
                        limit,
                    ).0) =~= frames_model(frames@) + split_frames(self.pending(), limit).0);
                },
                Ok(None) => {
                    assert(split_frames(before, limit).0 =~= Seq::<FrameValue>::empty());
                    assert(split_frames(before, limit).1 == before);
                    assert(!split_frames(before, limit).2);
                    assert(frames_model(frames@) + split_frames(self.pending(), limit).0
                        =~= frames_model(frames@));
                    return Ok(frames);
                },
                Err(e) => {
                    assert(split_frames(before, limit).1 == before);
                    assert(split_frames(before, limit).2);
                    return Err(e);
                },
            }
        }
    }

    /// Try to extract a single frame from the buffer.
    ///
    /// Returns:
    /// - `Ok(Some(frame))` if a complete frame was extracted
    /// - `Ok(None)` if more data is needed
    /// - `Err(...)` if protocol violation (e.g., payload too large)
    fn try_extract_one(&mut self) -> (r: Result<Option<Frame>, ProcwireError>)
        requires
            old(self).wf(),
        ensures
            final(self).wf(),
            final(self).max_payload() == old(self).max_payload(),
            extract_outcome(old(self).pending(), old(self).limit(), r, final(self).pending()),
    {
        match self.state {
            State::WaitingForHeader => {
                if bytes_mut_len(&self.buffer) < HEADER_SIZE {
                    return Ok(None);
                }
                let header = match Header::decode(bytes_mut_as_slice(&self.buffer)) {
                    Some(h) => h,
                    None => {
                        return Ok(None);
                    },
                };
                let limit = self.enforced_limit();
                match header.validate(limit) {
                    Ok(()) => {},
                    Err(e) => {
                        return Err(e);
                    },
                }
                let ghost s = self.pending();
                proof {
                    lemma_encode_decode(s);
                }
                let _consumed = bytes_mut_split_to(&mut self.buffer, HEADER_SIZE);
                if header.payload_length == 0 {
                    assert(s.subrange(HEADER_SIZE as int, HEADER_SIZE as int) =~= Seq::<
                        u8,
                    >::empty());
                    return Ok(Some(Frame::new(header, bytes_empty())));
                }
                self.state = State::WaitingForPayload { header, remaining: header.payload_length };
                assert(self.pending() =~= s);
                self.take_payload()
            },
            State::WaitingForPayload { .. } => self.take_payload(),
        }
    }

    /// Extract the awaited payload if it has fully arrived.
    fn take_payload(&mut self) -> (r: Result<Option<Frame>, ProcwireError>)
        requires
            old(self).wf(),
            old(self).held_header() is Some,
        ensures
            final(self).wf(),
            final(self).max_payload() == old(self).max_payload(),
            extract_outcome(old(self).pending(), old(self).limit(), r, final(self).pending()),
    {
        match self.state {
            State::WaitingForPayload { header, remaining } => {
                let ghost s = self.pending();
                proof {
                    lemma_decode_encode(header);
                    assert(s.take(HEADER_SIZE as int) =~= encoded(header));
                    assert(decoded(s) == decoded(encoded(header)));
                }
                let remaining = remaining as usize;
                if bytes_mut_len(&self.buffer) < remaining {
                    return Ok(None);
                }
                let body = bytes_mut_split_to(&mut self.buffer, remaining);
                let payload = bytes_mut_freeze(body);
                self.state = State::WaitingForHeader;
                let n = HEADER_SIZE + remaining;
                let frame = Frame::new(header, payload);
                assert(payload_of(frame) =~= s.subrange(HEADER_SIZE as int, n as int));
                assert(self.pending() =~= s.skip(n as int));
                Ok(Some(frame))
            },
            State::WaitingForHeader => Ok(None),
        }
    }

    /// Try to extract a single frame; a protocol violation reads as `None`.
    ///
    /// Prefer using `push()` which handles multiple frames efficiently.
    pub fn try_extract(&mut self) -> (r: Option<Frame>)
        requires
            old(self).wf(),
        ensures
            final(self).wf(),
            final(self).max_payload() == old(self).max_payload(),
            exists|x: Result<Option<Frame>, ProcwireError>|
                {
                    &&& extract_outcome(old(self).pending(), old(self).limit(), x, final(self).pending())
                    &&& r == match x {
                        Ok(o) => o,
                        Err(_) => None,
                    }
                },
    {
        let step = self.try_extract_one();
        match step {
            Ok(o) => o,
            Err(_) => None,
        }
    }

    /// Append data to the buffer without extracting frames.
    ///
    /// Prefer using `push()` which does extend + extract in one call.
    pub fn extend(&mut self, data: &[u8])
        requires
            old(self).wf(),
            old(self).buffered().len() + data@.len() <= isize::MAX,
        ensures
            final(self).wf(),
            final(self).max_payload() == old(self).max_payload(),
            final(self).held_header() == old(self).held_header(),
            final(self).buffered() == old(self).buffered() + data@,
            final(self).pending() == old(self).pending() + data@,
    {
        bytes_mut_extend_from_slice(&mut self.buffer, data);
        assert(self.pending() =~= old(self).pending() + data@);
    }

    /// Get the number of buffered bytes.
    pub fn len(&self) -> (r: usize)
        ensures
            r == self.buffered().len(),
    {
        bytes_mut_len(&self.buffer)
    }

    /// Check if the buffer is empty.
    pub fn is_empty(&self) -> (r: bool)
        ensures
            r == (self.buffered().len() == 0),
    {
        bytes_mut_len(&self.buffer) == 0
    }

    /// Clear the buffer and reset state.
    pub fn clear(&mut self)
        ensures
            final(self).wf(),
            final(self).max_payload() == old(self).max_payload(),
            final(self).held_header() is None,
            final(self).pending() == Seq::<u8>::empty(),
    {
        bytes_mut_clear(&mut self.buffer);
        self.state = State::WaitingForHeader;
    }

    /// Name of the current parsing state (for debugging).
    pub fn state_name(&self) -> (r: &'static str)
        ensures
            self.held_header() is None ==> r@ == "WaitingForHeader"@,
            self.held_header() is Some ==> r@ == "WaitingForPayload"@,
    {
        match self.state {
            State::WaitingForHeader => "WaitingForHeader",
            State::WaitingForPayload { .. } => "WaitingForPayload",
        }
    }
}

impl Default for FrameBuffer {
    fn default() -> (r: Self)
        ensures
            r.wf(),
            r.pending() == Seq::<u8>::empty(),
            r.held_header() is None,
            r.max_payload() == DEFAULT_MAX_PAYLOAD_SIZE,
    {
        Self::new()
    }
}

} // verus!
