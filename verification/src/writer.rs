//! Frames on their way to the pipe, and the byte layout of a batch of them.
//!
//! The writer task (in the application around this library) receives
//! [`OutboundFrame`]s over a channel, writes them in batches with
//! scatter/gather I/O, and resumes a partially written batch from the byte
//! where the write stopped; [`build_remaining_slices`] says which bytes those
//! are.

use vstd::prelude::*;
use bytes::Bytes;
use std::time::Duration;

use crate::backpressure::{duration_from_secs, seconds_duration};
use crate::buffers::{bytes_as_slice, bytes_contents, bytes_empty, bytes_len};
use crate::protocol::frame_buffer::{
    law_frame_bytes_split_back, lemma_split_append, split_frames, FrameValue,
};
use crate::protocol::wire_format::{encoded, header_valid, Header, HEADER_SIZE};

verus! {

/// Default maximum pending frames before backpressure kicks in.
pub const DEFAULT_MAX_PENDING_FRAMES: usize = 1024;

/// Default channel capacity.
pub const DEFAULT_CHANNEL_CAPACITY: usize = 1024;

/// Default backpressure timeout, in seconds.
pub const DEFAULT_BACKPRESSURE_TIMEOUT_SECS: u64 = 5;

/// Maximum frames to batch in a single write operation.
pub const MAX_BATCH_SIZE: usize = 64;

/// Default backpressure timeout: five seconds.
pub fn default_backpressure_timeout() -> (r: Duration)
    ensures
        r == seconds_duration(DEFAULT_BACKPRESSURE_TIMEOUT_SECS),
{
    duration_from_secs(DEFAULT_BACKPRESSURE_TIMEOUT_SECS)
}

/// A frame ready to be written to the pipe.
#[derive(Debug)]
pub struct OutboundFrame {
    /// Pre-encoded header (11 bytes).
    pub header: [u8; HEADER_SIZE],
    /// Payload bytes (can be empty for ACK, STREAM_END, etc.).
    pub payload: Bytes,
}

/// The wire bytes of an outbound frame.
pub open spec fn outbound_bytes(f: OutboundFrame) -> Seq<u8> {
    f.header@ + bytes_contents(f.payload)
}

/// The wire bytes of a batch of outbound frames, in order.
pub open spec fn batch_bytes(batch: Seq<OutboundFrame>) -> Seq<u8>
    decreases batch.len(),
{
    if batch.len() == 0 {
        Seq::empty()
    } else {
        batch_bytes(batch.drop_last()) + outbound_bytes(batch.last())
    }
}

/// The bytes of a list of slices, concatenated.
pub open spec fn concat_slices(v: Seq<&[u8]>) -> Seq<u8>
    decreases v.len(),
{
    if v.len() == 0 {
        Seq::empty()
    } else {
        concat_slices(v.drop_last()) + v.last()@
    }
}

/// `n`, capped at `cap`.
pub open spec fn capped(n: int, cap: int) -> int {
    if n < cap {
        n
    } else {
        cap
    }
}

impl OutboundFrame {
    /// Create a new outbound frame.
    pub fn new(header: &Header, payload: Bytes) -> (r: Self)
        ensures
            r.header@ == encoded(*header),
            r.payload == payload,
    {
        Self { header: header.encode(), payload }
    }

    /// Create a new outbound frame with empty payload.
    pub fn empty(header: &Header) -> (r: Self)
        ensures
            r.header@ == encoded(*header),
            bytes_contents(r.payload) == Seq::<u8>::empty(),
    {
        Self { header: header.encode(), payload: bytes_empty() }
    }

    /// Total size of this frame (header + payload).
    pub fn size(&self) -> (r: usize)
        ensures
            r == HEADER_SIZE + bytes_contents(self.payload).len(),
    {
        HEADER_SIZE + bytes_len(&self.payload)
    }
}

/// Configuration for the writer task.
#[derive(Debug, Clone)]
pub struct WriterConfig {
    /// Maximum pending frames before backpressure kicks in.
    pub max_pending_frames: usize,
    /// Channel capacity for frame queue.
    pub channel_capacity: usize,
    /// Timeout when waiting for backpressure to clear.
    pub backpressure_timeout: Duration,
}

impl Default for WriterConfig {
    fn default() -> (r: Self)
        ensures
            r.max_pending_frames == DEFAULT_MAX_PENDING_FRAMES,
            r.channel_capacity == DEFAULT_CHANNEL_CAPACITY,
            r.backpressure_timeout == seconds_duration(DEFAULT_BACKPRESSURE_TIMEOUT_SECS),
    {
        Self {
            max_pending_frames: DEFAULT_MAX_PENDING_FRAMES,
            channel_capacity: DEFAULT_CHANNEL_CAPACITY,
            backpressure_timeout: default_backpressure_timeout(),
        }
    }
}

proof fn lemma_batch_bytes_push(batch: Seq<OutboundFrame>, i: int)
    requires
        0 <= i < batch.len(),
    ensures
        batch_bytes(batch.take(i + 1)) == batch_bytes(batch.take(i)) + outbound_bytes(batch[i]),
{
    assert(batch.take(i + 1).drop_last() =~= batch.take(i));
}

proof fn lemma_skip_append(a: Seq<u8>, b: Seq<u8>, k: int)
    requires
        k >= 0,
    ensures
        (a + b).skip(capped(k, (a.len() + b.len()) as int)) == a.skip(capped(k, a.len() as int)) + b.skip(
            capped(if k > a.len() { k - a.len() } else { 0 }, b.len() as int),
        ),
{
    assert((a + b).skip(capped(k, (a.len() + b.len()) as int)) =~= a.skip(capped(k, a.len() as int))
        + b.skip(capped(if k > a.len() { k - a.len() } else { 0 }, b.len() as int)));
}

/// Total number of wire bytes in a batch (the batch must fit in memory).
pub fn batch_size(batch: &[OutboundFrame]) -> (r: usize)
    requires
        batch_bytes(batch@).len() <= usize::MAX,
    ensures
        r == batch_bytes(batch@).len(),
{
    let mut total: usize = 0;
    let mut i: usize = 0;
    while i < batch.len()
        invariant
            i <= batch@.len(),
            batch_bytes(batch@).len() <= usize::MAX,
            total == batch_bytes(batch@.take(i as int)).len(),
        decreases batch@.len() - i,
    {
        proof {
            lemma_batch_bytes_push(batch@, i as int);
            lemma_batch_prefix_len(batch@, i as int + 1);
        }
        total = total + batch[i].size();
        i = i + 1;
    }
    assert(batch@.take(i as int) =~= batch@);
    total
}

proof fn lemma_batch_prefix_len(batch: Seq<OutboundFrame>, i: int)
    requires
        0 <= i <= batch.len(),
    ensures
        batch_bytes(batch.take(i)).len() <= batch_bytes(batch).len(),
    decreases batch.len() - i,
{
    if i < batch.len() {
        lemma_batch_prefix_len(batch, i + 1);
        lemma_batch_bytes_push(batch, i);
    } else {
        assert(batch.take(i) =~= batch);
    }
}

/// The unsent parts of one frame whose wire bytes start at offset `start`
/// of the batch, once the first `skip` bytes of the batch went out: the
/// unsent part of its header, if any, then the unsent part of its payload,
/// if the payload is not empty and not fully sent.
pub open spec fn frame_parts(f: OutboundFrame, start: int, skip: int) -> Seq<Seq<u8>> {
    let head = f.header@;
    let body = bytes_contents(f.payload);
    let payload_start = start + HEADER_SIZE;
    let head_part = if skip < payload_start {
        seq![head.skip(if skip > start { skip - start } else { 0 })]
    } else {
        Seq::empty()
    };
    let body_part = if body.len() > 0 && skip < payload_start + body.len() {
        seq![body.skip(if skip > payload_start { skip - payload_start } else { 0 })]
    } else {
        Seq::empty()
    };
    head_part + body_part
}

/// The unsent parts of a batch once its first `skip` bytes went out, frame
/// after frame: at most two per frame, one for the header and one for the
/// payload.
pub open spec fn remaining_parts(batch: Seq<OutboundFrame>, skip: int) -> Seq<Seq<u8>>
    decreases batch.len(),
{
    if batch.len() == 0 {
        Seq::empty()
    } else {
        remaining_parts(batch.drop_last(), skip) + frame_parts(
            batch.last(),
            batch_bytes(batch.drop_last()).len() as int,
            skip,
        )
    }
}

/// The bytes of each slice.
pub open spec fn slice_views(v: Seq<&[u8]>) -> Seq<Seq<u8>> {
    v.map_values(|s: &[u8]| s@)
}

proof fn lemma_remaining_parts_push(batch: Seq<OutboundFrame>, i: int, skip: int)
    requires
        0 <= i < batch.len(),
    ensures
        remaining_parts(batch.take(i + 1), skip) == remaining_parts(batch.take(i), skip)
            + frame_parts(batch[i], batch_bytes(batch.take(i)).len() as int, skip),
{
    assert(batch.take(i + 1).drop_last() =~= batch.take(i));
}

/// The slices still to be written after the first `skip_bytes` bytes of a
/// batch went out: together they hold exactly the rest of the batch's wire
/// bytes, and none of them is empty.
pub fn build_remaining_slices<'a>(batch: &'a [OutboundFrame], skip_bytes: usize) -> (r: Vec<
    &'a [u8],
>)
    requires
        batch_bytes(batch@).len() <= usize::MAX,
    ensures
        concat_slices(r@) == batch_bytes(batch@).skip(
            capped(skip_bytes as int, batch_bytes(batch@).len() as int),
        ),
        forall|i: int| 0 <= i < r@.len() ==> #[trigger] r@[i]@.len() > 0,
        slice_views(r@) == remaining_parts(batch@, skip_bytes as int),
{
    let mut slices: Vec<&'a [u8]> = Vec::new();
    let mut skipped: usize = 0;
    let mut i: usize = 0;
    while i < batch.len()
        invariant
            i <= batch@.len(),
            batch_bytes(batch@).len() <= usize::MAX,
            skipped == batch_bytes(batch@.take(i as int)).len(),
            concat_slices(slices@) == batch_bytes(batch@.take(i as int)).skip(
                capped(skip_bytes as int, skipped as int),
            ),
            forall|j: int| 0 <= j < slices@.len() ==> #[trigger] slices@[j]@.len() > 0,
            slice_views(slices@) == remaining_parts(batch@.take(i as int), skip_bytes as int),
        decreases batch@.len() - i,
    {
        let frame = &batch[i];
        proof {
            lemma_batch_bytes_push(batch@, i as int);
            lemma_batch_prefix_len(batch@, i as int + 1);
            lemma_remaining_parts_push(batch@, i as int, skip_bytes as int);
        }
        let ghost parts_before = slice_views(slices@);
        let ghost before = batch_bytes(batch@.take(i as int));
        let ghost head = frame.header@;
        let ghost body = bytes_contents(frame.payload);
        let header_start = skipped;
        let header_end = skipped + HEADER_SIZE;
        let ghost s0 = slices@;
        if skip_bytes < header_end {
            let start_in_header = skip_bytes.saturating_sub(header_start);
            let part = &frame.header.as_slice()[start_in_header..HEADER_SIZE];
            slices.push(part);
            assert(slices@.drop_last() == s0);
        }
        proof {
            lemma_skip_append(before, head, skip_bytes as int);
            assert(concat_slices(slices@) == (before + head).skip(
                capped(skip_bytes as int, header_end as int),
            ));
        }
        skipped = header_end;
        let payload = bytes_as_slice(&frame.payload);
        let ghost s1 = slices@;
        if payload.len() > 0 {
            let payload_start = skipped;
            let payload_end = skipped + payload.len();
            if skip_bytes < payload_end {
                let start_in_payload = skip_bytes.saturating_sub(payload_start);
                let part = &payload[start_in_payload..payload.len()];
                slices.push(part);
                assert(slices@.drop_last() == s1);
            }
            skipped = payload_end;
        }
        proof {
            lemma_skip_append(before + head, body, skip_bytes as int);
            assert(before + head + body =~= batch_bytes(batch@.take(i as int + 1)));
            assert(slice_views(slices@) =~= parts_before + frame_parts(
                batch@[i as int],
                before.len() as int,
                skip_bytes as int,
            ));
        }
        i = i + 1;
    }
    assert(batch@.take(i as int) =~= batch@);
    slices
}


/// Where a batch stands after one vectored write.
#[derive(Debug, Clone, Copy, PartialEq, Eq, Structural)]
pub enum BatchProgress {
    /// Every byte of the batch went out: flush and finish.
    Complete,
    /// The write moved no byte: the batch cannot go on.
    Stalled,
    /// Only part went out: this many bytes of the batch are written in all;
    /// write the rest next.
    Partial(usize),
}

/// The progress of a batch of `total` bytes, `done` of which were written
/// before, after a write that moved `written` more. A write that reports
/// at least what was left completes the batch; each partial write leaves
/// strictly more written and still less than the whole.
pub fn batch_progress(total: usize, done: usize, written: usize) -> (r: BatchProgress)
    requires
        done < total,
    ensures
        written == 0 ==> r == BatchProgress::Stalled,
        0 < written && written >= total - done ==> r == BatchProgress::Complete,
        0 < written && written < total - done ==> r == BatchProgress::Partial(
            (done + written) as usize,
        ),
        r matches BatchProgress::Partial(n) ==> done < n < total,
{
    if written == 0 {
        BatchProgress::Stalled
    } else if written >= total - done {
        BatchProgress::Complete
    } else {
        BatchProgress::Partial(done + written)
    }
}

/// The frames a batch carries, as plain values, given the header that
/// each frame's header bytes encode.
pub open spec fn batch_frames(batch: Seq<OutboundFrame>, headers: Seq<Header>) -> Seq<FrameValue> {
    Seq::new(batch.len(), |i: int| (headers[i], bytes_contents(batch[i].payload)))
}

/// What the writer sends, a frame buffer reads back: when every frame of a
/// batch carries the encoding of a header that the reader's limit accepts
/// and a payload of the length that header announces, the batch's wire
/// bytes split into exactly those frames, in order, with nothing left over
/// and no error.
pub proof fn law_batch_reads_back(batch: Seq<OutboundFrame>, headers: Seq<Header>, limit: u32)
    requires
        headers.len() == batch.len(),
        forall|i: int|
            0 <= i < batch.len() ==> {
                &&& (#[trigger] batch[i]).header@ == encoded(headers[i])
                &&& header_valid(headers[i], limit)
                &&& bytes_contents(batch[i].payload).len() == headers[i].payload_length
            },
    ensures
        split_frames(batch_bytes(batch), limit) == (
            batch_frames(batch, headers),
            Seq::<u8>::empty(),
            false,
        ),
    decreases batch.len(),
{
    if batch.len() == 0 {
        assert(batch_frames(batch, headers) =~= Seq::<FrameValue>::empty());
    } else {
        let init = batch.drop_last();
        let hinit = headers.drop_last();
        assert forall|i: int| 0 <= i < init.len() implies {
            &&& (#[trigger] init[i]).header@ == encoded(hinit[i])
            &&& header_valid(hinit[i], limit)
            &&& bytes_contents(init[i].payload).len() == hinit[i].payload_length
        } by {
            assert(init[i] == batch[i]);
        }
        law_batch_reads_back(init, hinit, limit);
        let last = batch.last();
        let h = headers.last();
        let p = bytes_contents(last.payload);
        assert(batch[batch.len() - 1] == last);
        let a = batch_bytes(init);
        let tail = outbound_bytes(last);
        lemma_split_append(a, tail, limit);
        assert(Seq::<u8>::empty() + tail =~= tail);
        law_frame_bytes_split_back(h, p, Seq::<u8>::empty(), limit);
        assert(encoded(h) + p + Seq::<u8>::empty() =~= tail);
        assert(batch_frames(batch, headers) =~= batch_frames(init, hinit) + seq![(h, p)]);
    }
}

/// Whether a batch holding `len` frames may take one more before it is
/// written (batches hold at most `MAX_BATCH_SIZE` frames).
pub fn batch_has_room(len: usize) -> (r: bool)
    ensures
        r == (len < MAX_BATCH_SIZE),
{
    len < MAX_BATCH_SIZE
}

} // verus!
