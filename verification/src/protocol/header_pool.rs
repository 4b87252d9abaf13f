//! Header buffer pool for zero-allocation header encoding.
//!
//! Provides a pool of pre-allocated 11-byte header buffers that can be
//! reused across frame sends to avoid per-frame allocations. Buffers are
//! handed out round-robin and are not cleared between uses.

use vstd::prelude::*;

use super::wire_format::{encoded, Header, HEADER_POOL_SIZE, HEADER_SIZE};

verus! {

/// A pool of pre-allocated header buffers.
///
/// Uses round-robin allocation with no synchronization overhead.
pub struct HeaderPool {
    /// Pre-allocated header buffers.
    buffers: [[u8; HEADER_SIZE]; HEADER_POOL_SIZE],
    /// Current index (round-robin).
    index: usize,
}

/// Sixteen zeroed header buffers.
pub open spec fn zeroed_slots() -> Seq<Seq<u8>> {
    Seq::new(HEADER_POOL_SIZE as nat, |i: int| Seq::new(HEADER_SIZE as nat, |j: int| 0u8))
}

/// The index of the buffer that a pool at index `i` hands out after `k`
/// acquires: each `acquire` moves one buffer on, wrapping after the last.
pub open spec fn index_after(i: int, k: nat) -> int
    decreases k,
{
    if k == 0 {
        i
    } else {
        (index_after(i, (k - 1) as nat) + 1) % (HEADER_POOL_SIZE as int)
    }
}

/// The buffers of a pool at index `i` with contents `slots` after one
/// acquire per entry of `written`, each buffer handed out being filled with
/// that entry.
pub open spec fn slots_after(slots: Seq<Seq<u8>>, i: int, written: Seq<Seq<u8>>) -> Seq<Seq<u8>>
    decreases written.len(),
{
    if written.len() == 0 {
        slots
    } else {
        slots_after(slots, i, written.drop_last()).update(
            index_after(i, (written.len() - 1) as nat),
            written.last(),
        )
    }
}

proof fn lemma_index_after(i: int, k: nat)
    requires
        0 <= i < HEADER_POOL_SIZE,
    ensures
        index_after(i, k) == (i + k) % (HEADER_POOL_SIZE as int),
    decreases k,
{
    if k > 0 {
        lemma_index_after(i, (k - 1) as nat);
        let x = i + k - 1;
        assert((x % 16 + 1) % 16 == (x + 1) % 16) by (nonlinear_arith)
            requires
                x >= 0,
        ;
    }
}

/// Law (round robin): a pool at index `i` hands out buffer `i`, then the
/// next ones, wrapping after the last (each `acquire` moves its index from
/// `index_after(i, a)` to `index_after(i, a + 1)`); any sixteen consecutive
/// acquires hand out sixteen different buffers, and the seventeenth is the
/// first one again.
pub proof fn law_round_robin(i: int, a: nat, b: nat)
    requires
        0 <= i < HEADER_POOL_SIZE,
        a < b <= a + HEADER_POOL_SIZE,
    ensures
        index_after(i, a) == (i + a) % (HEADER_POOL_SIZE as int),
        0 <= index_after(i, a) < HEADER_POOL_SIZE,
        (index_after(i, a) == index_after(i, b)) == (b == a + HEADER_POOL_SIZE),
        index_after(index_after(i, a), 1) == index_after(i, a + 1),
{
    lemma_index_after(i, a);
    assert(index_after(index_after(i, a), 0) == index_after(i, a));
    lemma_index_after(i, b);
    assert(((i + a) % 16 == (i + b) % 16) == (b == a + 16)) by (nonlinear_arith)
        requires
            i >= 0,
            a < b <= a + 16,
    ;
}

/// Law (buffers are not cleared and not shared): what was written into the
/// buffer handed out by an acquire is still there through the next fifteen
/// acquires of the pool, whatever is written into the buffers they hand out.
pub proof fn law_buffer_kept_until_reused(slots: Seq<Seq<u8>>, i: int, written: Seq<Seq<u8>>)
    requires
        slots.len() == HEADER_POOL_SIZE,
        0 <= i < HEADER_POOL_SIZE,
        1 <= written.len() <= HEADER_POOL_SIZE,
    ensures
        slots_after(slots, i, written).len() == HEADER_POOL_SIZE,
        slots_after(slots, i, written)[i] == written[0],
    decreases written.len(),
{
    let n = written.len();
    let init = written.drop_last();
    if n == 1 {
        assert(slots_after(slots, i, init) == slots);
    } else {
        law_buffer_kept_until_reused(slots, i, init);
        law_round_robin(i, 0, (n - 1) as nat);
        assert(init[0] == written[0]);
    }
}

impl HeaderPool {
    /// The contents of the buffers, in pool order.
    pub closed spec fn slots(&self) -> Seq<Seq<u8>> {
        Seq::new(HEADER_POOL_SIZE as nat, |i: int| self.buffers@[i]@)
    }

    /// The index of the buffer that the next `acquire` hands out.
    pub closed spec fn next_index(&self) -> usize {
        self.index
    }

    /// Well-formedness: the index points into the pool.
    pub open spec fn wf(&self) -> bool {
        self.next_index() < HEADER_POOL_SIZE
    }

    /// A pool always has sixteen buffers of eleven bytes each.
    pub proof fn lemma_slots_shape(&self)
        ensures
            self.slots().len() == HEADER_POOL_SIZE,
            forall|j: int| 0 <= j < HEADER_POOL_SIZE ==> #[trigger] self.slots()[j].len() == HEADER_SIZE,
    {
    }

    /// Create a new header pool with zeroed buffers.
    pub fn new() -> (r: Self)
        ensures
            r.wf(),
            r.next_index() == 0,
            r.slots() == zeroed_slots(),
    {
        let r = Self { buffers: [[0u8; 11]; 16], index: 0 };
        assert(r.slots() =~~= zeroed_slots());
        r
    }

    /// Acquire the next buffer from the pool (round-robin).
    ///
    /// Returns a mutable reference to a 11-byte buffer.
    /// The buffer content is NOT cleared - it may contain old data.
    pub fn acquire(&mut self) -> (r: &mut [u8; HEADER_SIZE])
        requires
            old(self).wf(),
        ensures
            (*r)@ == old(self).slots()[old(self).next_index() as int],
            final(self).wf(),
            final(self).next_index() == index_after(old(self).next_index() as int, 1),
            final(self).slots() == old(self).slots().update(
                old(self).next_index() as int,
                (*final(r))@,
            ),
    {
        let i = self.index;
        assert(index_after(i as int, 0) == i);
        assert(index_after(i as int, 1) == (i + 1) % (HEADER_POOL_SIZE as int));
        self.index = (i + 1) % HEADER_POOL_SIZE;
        &mut self.buffers[i]
    }

    /// Acquire and encode a header into a pooled buffer.
    pub fn encode(&mut self, header: &Header) -> (r: &[u8; HEADER_SIZE])
        requires
            old(self).wf(),
        ensures
            (*r)@ == encoded(*header),
            final(self).wf(),
            final(self).next_index() == index_after(old(self).next_index() as int, 1),
            final(self).slots() == old(self).slots().update(
                old(self).next_index() as int,
                encoded(*header),
            ),
    {
        let buf = self.acquire();
        *buf = header.encode();
        buf
    }

    /// Get the current index (for debugging).
    pub fn current_index(&self) -> (r: usize)
        ensures
            r == self.next_index(),
    {
        self.index
    }

    /// Reset the pool index to 0.
    pub fn reset(&mut self)
        ensures
            final(self).wf(),
            final(self).next_index() == 0,
            final(self).slots() == old(self).slots(),
    {
        self.index = 0;
    }
}

impl Default for HeaderPool {
    fn default() -> (r: Self)
        ensures
            r.wf(),
            r.next_index() == 0,
            r.slots() == zeroed_slots(),
    {
        Self::new()
    }
}

} // verus!
