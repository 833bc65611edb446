//! Reusable transmit buffers and the bounded pool that supplies them.
//!
//! A [`Buffer`] is a block of transmit memory with a fixed capacity. A
//! [`PacketBuffer`] keeps a bounded stock of cleared buffers of one size:
//! taking one never waits (an empty pool hands out a fresh buffer), and giving
//! one back never fails (a buffer of another size, or one more than the pool
//! holds, is dropped).

use bytes::BytesMut;
use crossbeam::queue::ArrayQueue;
use vstd::prelude::*;

verus! {

/// The capacity of the buffer that a cache allocates when it has no pool to
/// ask.
pub const DEFAULT_BUFFER_SIZE: usize = 2048;

/// `bytes::BytesMut`, a growable run of bytes. Nothing is known of a value
/// but what `buffer_bytes` names.
#[verifier::external_type_specification]
#[verifier::external_body]
pub struct ExBytesMut(BytesMut);

/// `crossbeam::queue::ArrayQueue`, a bounded first-in, first-out queue.
/// Nothing is known of a value but what `queued_buffers` and `queue_limit`
/// name.
#[verifier::external_type_specification]
#[verifier::external_body]
#[verifier::reject_recursive_types(T)]
pub struct ExArrayQueue<T>(ArrayQueue<T>);

/// The bytes that a `BytesMut` holds, first to last.
pub uninterp spec fn buffer_bytes(b: BytesMut) -> Seq<u8>;

/// The buffers that wait in a queue, oldest first, each by the bytes it holds.
pub uninterp spec fn queued_buffers(q: ArrayQueue<BytesMut>) -> Seq<Seq<u8>>;

/// The number of buffers that a queue was made to hold.
pub uninterp spec fn queue_limit(q: ArrayQueue<BytesMut>) -> nat;

/// `BytesMut::with_capacity`: a new buffer that holds no bytes. The request is
/// kept within `isize::MAX`, above which the allocation panics.
#[verifier::external_body]
fn bytes_with_capacity(capacity: usize) -> (b: BytesMut)
    requires
        capacity <= isize::MAX,
    ensures
        buffer_bytes(b) == Seq::<u8>::empty(),
{
    BytesMut::with_capacity(capacity)
}

/// `BytesMut::len`: the number of bytes held.
#[verifier::external_body]
fn bytes_len(b: &BytesMut) -> (n: usize)
    ensures
        n == buffer_bytes(*b).len(),
{
    b.len()
}

/// `BytesMut::clear`: afterwards the buffer holds no bytes.
#[verifier::external_body]
fn bytes_clear(b: &mut BytesMut)
    ensures
        buffer_bytes(*final(b)) == Seq::<u8>::empty(),
{
    b.clear()
}

/// `BytesMut::extend_from_slice`: appends `data` to the bytes held. The new
/// length is kept within `isize::MAX`, above which growing panics.
#[verifier::external_body]
fn bytes_extend(b: &mut BytesMut, data: &[u8])
    requires
        buffer_bytes(*old(b)).len() + data@.len() <= isize::MAX,
    ensures
        buffer_bytes(*final(b)) == buffer_bytes(*old(b)) + data@,
{
    b.extend_from_slice(data)
}

/// `BytesMut::as_ref`: the bytes held, as a slice.
#[verifier::external_body]
fn bytes_as_slice(b: &BytesMut) -> (s: &[u8])
    ensures
        s@ == buffer_bytes(*b),
{
    b.as_ref()
}

/// `ArrayQueue::new`: an empty queue with room for `limit` buffers. It panics
/// on a limit of zero and on one whose slots cannot be allocated; a slot is a
/// stamp and a `BytesMut`, under 64 bytes.
#[verifier::external_body]
fn queue_new(limit: usize) -> (q: ArrayQueue<BytesMut>)
    requires
        0 < limit,
        limit * 64 <= isize::MAX,
    ensures
        queued_buffers(q) == Seq::<Seq<u8>>::empty(),
        queue_limit(q) == limit,
{
    ArrayQueue::new(limit)
}

/// `ArrayQueue::push_mut`, the push for a queue that is held exclusively:
/// appends the buffer when there is room, and hands it back when the queue is
/// full.
#[verifier::external_body]
fn queue_push(q: &mut ArrayQueue<BytesMut>, b: BytesMut) -> (r: Result<(), BytesMut>)
    ensures
        queue_limit(*final(q)) == queue_limit(*old(q)),
        queued_buffers(*old(q)).len() < queue_limit(*old(q)) ==> r is Ok,
        queued_buffers(*old(q)).len() < queue_limit(*old(q)) ==> queued_buffers(*final(q))
            == queued_buffers(*old(q)).push(buffer_bytes(b)),
        queued_buffers(*old(q)).len() >= queue_limit(*old(q)) ==> r is Err && r->Err_0 == b,
        queued_buffers(*old(q)).len() >= queue_limit(*old(q)) ==> queued_buffers(*final(q))
            == queued_buffers(*old(q)),
{
    q.push_mut(b)
}

/// `ArrayQueue::pop_mut`, the pop for a queue that is held exclusively: takes
/// the oldest buffer, or returns `None` from an empty queue.
#[verifier::external_body]
fn queue_pop(q: &mut ArrayQueue<BytesMut>) -> (r: Option<BytesMut>)
    ensures
        queue_limit(*final(q)) == queue_limit(*old(q)),
        queued_buffers(*old(q)).len() == 0 ==> r is None,
        queued_buffers(*old(q)).len() == 0 ==> queued_buffers(*final(q)) == queued_buffers(
            *old(q),
        ),
        queued_buffers(*old(q)).len() > 0 ==> r is Some && buffer_bytes(r->Some_0)
            == queued_buffers(*old(q)).first(),
        queued_buffers(*old(q)).len() > 0 ==> queued_buffers(*final(q)) == queued_buffers(
            *old(q),
        ).drop_first(),
{
    q.pop_mut()
}

/// `ArrayQueue::len`: the number of buffers that wait in the queue.
#[verifier::external_body]
fn queue_len(q: &ArrayQueue<BytesMut>) -> (n: usize)
    ensures
        n == queued_buffers(*q).len(),
{
    q.len()
}

/// A block of transmit memory: the bytes written so far, and the fixed
/// capacity that they may grow to.
pub struct Buffer {
    bytes: BytesMut,
    capacity: usize,
}

impl View for Buffer {
    type V = Seq<u8>;

    /// The bytes written so far.
    closed spec fn view(&self) -> Seq<u8> {
        buffer_bytes(self.bytes)
    }
}

impl Buffer {
    /// The capacity the buffer was made with.
    pub closed spec fn spec_capacity(&self) -> usize {
        self.capacity
    }

    /// What is written fits the capacity, and the capacity can be allocated.
    pub open spec fn wf(&self) -> bool {
        &&& self@.len() <= self.spec_capacity()
        &&& self.spec_capacity() <= isize::MAX
    }

    /// A fresh, empty buffer of the given capacity.
    pub fn with_capacity(capacity: usize) -> (b: Buffer)
        requires
            capacity <= isize::MAX,
        ensures
            b.wf(),
            b.spec_capacity() == capacity,
            b@ == Seq::<u8>::empty(),
    {
        Buffer { bytes: bytes_with_capacity(capacity), capacity }
    }

    /// The fixed capacity in bytes.
    #[verifier::when_used_as_spec(spec_capacity)]
    pub fn capacity(&self) -> (n: usize)
        ensures
            n == self.spec_capacity(),
    {
        self.capacity
    }

    /// The number of bytes written so far.
    pub fn len(&self) -> (n: usize)
        ensures
            n == self@.len(),
    {
        bytes_len(&self.bytes)
    }

    /// Whether nothing is written.
    pub fn is_empty(&self) -> (e: bool)
        ensures
            e == (self@.len() == 0),
    {
        bytes_len(&self.bytes) == 0
    }

    /// Forgets what is written; the capacity stays.
    pub fn clear(&mut self)
        ensures
            final(self)@ == Seq::<u8>::empty(),
            final(self).spec_capacity() == old(self).spec_capacity(),
            old(self).wf() ==> final(self).wf(),
    {
        bytes_clear(&mut self.bytes);
    }

    /// Appends `data` if it fits in what is left of the capacity, and says
    /// whether it did. A buffer never grows: data that does not fit leaves it
    /// as it was.
    pub fn write(&mut self, data: &[u8]) -> (written: bool)
        requires
            old(self).wf(),
        ensures
            final(self).wf(),
            final(self).spec_capacity() == old(self).spec_capacity(),
            written == (old(self)@.len() + data@.len() <= old(self).spec_capacity()),
            written ==> final(self)@ == old(self)@ + data@,
            !written ==> *final(self) == *old(self),
    {
        let used = bytes_len(&self.bytes);
        if data.len() <= self.capacity - used {
            bytes_extend(&mut self.bytes, data);
            true
        } else {
            false
        }
    }

    /// The bytes written so far.
    pub fn as_slice(&self) -> (s: &[u8])
        ensures
            s@ == self@,
    {
        bytes_as_slice(&self.bytes)
    }
}

/// What a pool reports of itself.
#[derive(Debug, Clone, Copy, PartialEq, Eq, Structural)]
pub struct BufferStats {
    /// Buffers that wait in the pool.
    pub available: usize,
    /// Buffers that the pool was made to hold.
    pub total: usize,
    /// Capacity of each pooled buffer, in bytes.
    pub buffer_size: usize,
}

impl BufferStats {
    /// The share of the pool that is handed out, `(total - available) / total`
    /// in parts per million; zero for a pool of no buffers.
    pub open spec fn spec_utilization_ppm(&self) -> nat {
        if self.total == 0 || self.available > self.total {
            0
        } else {
            ((self.total - self.available) * 1_000_000 / (self.total as int)) as nat
        }
    }

    /// The share of the pool that is handed out, in parts per million.
    pub fn utilization_ppm(&self) -> (ppm: u64)
        ensures
            ppm == self.spec_utilization_ppm(),
            ppm <= 1_000_000,
    {
        if self.total == 0 || self.available > self.total {
            0
        } else {
            let in_use: u128 = (self.total - self.available) as u128;
            let total: u128 = self.total as u128;
            let scaled: u128 = in_use * 1_000_000;
            assert(scaled / total <= 1_000_000) by (nonlinear_arith)
                requires
                    scaled == in_use * 1_000_000,
                    in_use <= total,
                    total > 0,
            ;
            (scaled / total) as u64
        }
    }
}

/// The state of a pool as its contracts speak of it.
pub struct PoolState {
    /// Buffers that wait in the pool.
    pub available: nat,
    /// Buffers that the pool was made to hold.
    pub total: nat,
    /// Capacity of each pooled buffer.
    pub buffer_size: nat,
}

impl PoolState {
    /// The pool holds no more than it was made for.
    pub open spec fn wf(self) -> bool {
        &&& self.available <= self.total
        &&& 0 < self.total
    }

    /// A pool as it is made: full.
    pub open spec fn full(total: nat, buffer_size: nat) -> PoolState {
        PoolState { available: total, total, buffer_size }
    }

    /// The pool after one buffer was taken: one fewer waits, unless none did.
    pub open spec fn after_acquire(self) -> PoolState {
        PoolState {
            available: if self.available > 0 {
                (self.available - 1) as nat
            } else {
                0
            },
            ..self
        }
    }

    /// Whether the pool keeps a returned buffer of the given capacity: it has
    /// the pool's size, and the pool has room.
    pub open spec fn keeps(self, capacity: nat) -> bool {
        capacity == self.buffer_size && self.available < self.total
    }

    /// The pool after a buffer of the given capacity was given back.
    pub open spec fn after_release(self, capacity: nat) -> PoolState {
        PoolState {
            available: if self.keeps(capacity) {
                self.available + 1
            } else {
                self.available
            },
            ..self
        }
    }

    /// The pool after `n` buffers were taken and none given back.
    pub open spec fn after_acquires(self, n: nat) -> PoolState
        decreases n,
    {
        if n == 0 {
            self
        } else {
            self.after_acquire().after_acquires((n - 1) as nat)
        }
    }
}

/// A bounded pool of cleared buffers of one size.
pub struct PacketBuffer {
    pool: ArrayQueue<BytesMut>,
    buffer_size: usize,
    pool_size: usize,
}

impl View for PacketBuffer {
    type V = PoolState;

    closed spec fn view(&self) -> PoolState {
        PoolState {
            available: queued_buffers(self.pool).len(),
            total: self.pool_size as nat,
            buffer_size: self.buffer_size as nat,
        }
    }
}

impl PacketBuffer {
    /// Every pooled buffer is cleared, and the pool is within its bound.
    pub closed spec fn wf(&self) -> bool {
        &&& queue_limit(self.pool) == self.pool_size
        &&& queued_buffers(self.pool).len() <= self.pool_size
        &&& 0 < self.pool_size
        &&& self.buffer_size <= isize::MAX
        &&& forall|i: int|
            0 <= i < queued_buffers(self.pool).len() ==> (#[trigger] queued_buffers(
                self.pool,
            )[i]).len() == 0
    }

    /// A well-formed pool has a well-formed state.
    pub proof fn lemma_wf_view(&self)
        requires
            self.wf(),
        ensures
            self@.wf(),
            self@.buffer_size <= isize::MAX,
    {
    }

    /// A pool of `pool_size` fresh buffers of `buffer_size` bytes each.
    pub fn new(pool_size: usize, buffer_size: usize) -> (p: PacketBuffer)
        requires
            0 < pool_size,
            pool_size * 64 <= isize::MAX,
            buffer_size <= isize::MAX,
        ensures
            p.wf(),
            p@ == PoolState::full(pool_size as nat, buffer_size as nat),
    {
        let mut pool = queue_new(pool_size);
        let mut filled: usize = 0;
        while filled < pool_size
            invariant
                filled <= pool_size,
                buffer_size <= isize::MAX,
                queue_limit(pool) == pool_size,
                queued_buffers(pool).len() == filled,
                forall|i: int|
                    0 <= i < queued_buffers(pool).len() ==> (#[trigger] queued_buffers(
                        pool,
                    )[i]).len() == 0,
            decreases pool_size - filled,
        {
            let _ = queue_push(&mut pool, bytes_with_capacity(buffer_size));
            filled = filled + 1;
        }
        PacketBuffer { pool, buffer_size, pool_size }
    }

    /// Takes a buffer. It never waits and never refuses: a pooled buffer if
    /// one waits, else a fresh one. Either way the buffer is empty and of the
    /// pool's size.
    pub fn acquire(&mut self) -> (r: Option<Buffer>)
        requires
            old(self).wf(),
        ensures
            final(self).wf(),
            final(self)@ == old(self)@.after_acquire(),
            r is Some,
            r->Some_0.wf(),
            r->Some_0.spec_capacity() == old(self)@.buffer_size,
            r->Some_0@ == Seq::<u8>::empty(),
    {
        match queue_pop(&mut self.pool) {
            Some(mut bytes) => {
                proof {
                    let before = queued_buffers(old(self).pool);
                    assert forall|i: int| 0 <= i < before.drop_first().len() implies (
                    #[trigger] before.drop_first()[i]).len() == 0 by {
                        assert(before.drop_first()[i] == before[i + 1]);
                    }
                }
                bytes_clear(&mut bytes);
                Some(Buffer { bytes, capacity: self.buffer_size })
            },
            None => Some(Buffer::with_capacity(self.buffer_size)),
        }
    }

    /// Gives a buffer back. One of the pool's size is cleared and pooled while
    /// there is room; any other is dropped.
    pub fn release(&mut self, buffer: Buffer)
        requires
            old(self).wf(),
        ensures
            final(self).wf(),
            final(self)@ == old(self)@.after_release(buffer.spec_capacity() as nat),
    {
        if buffer.capacity == self.buffer_size {
            let mut bytes = buffer.bytes;
            bytes_clear(&mut bytes);
            let _ = queue_push(&mut self.pool, bytes);
        }
    }

    /// What the pool holds now.
    pub fn stats(&self) -> (s: BufferStats)
        requires
            self.wf(),
        ensures
            s.available == self@.available,
            s.total == self@.total,
            s.buffer_size == self@.buffer_size,
            s.available <= s.total,
    {
        BufferStats {
            available: queue_len(&self.pool),
            total: self.pool_size,
            buffer_size: self.buffer_size,
        }
    }
}

/// Taking more buffers than the pool holds empties it and no more: after as
/// many takes as the pool has buffers, and after every further one, none
/// waits.
pub proof fn lemma_pool_exhaustion(pool: PoolState, extra: nat)
    requires
        pool.wf(),
    ensures
        pool.after_acquires(pool.available + extra).available == 0,
        pool.after_acquires(pool.available + extra).total == pool.total,
        pool.after_acquires(pool.available + extra).buffer_size == pool.buffer_size,
    decreases pool.available + extra,
{
    if pool.available + extra > 0 {
        if pool.available > 0 {
            lemma_pool_exhaustion(pool.after_acquire(), extra);
        } else {
            lemma_pool_exhaustion(pool.after_acquire(), (extra - 1) as nat);
        }
    }
}

/// Taking a buffer from a pool in which one waits and giving it back leaves
/// as many waiting as before.
pub proof fn lemma_pool_round_trip(pool: PoolState)
    requires
        pool.wf(),
        pool.available > 0,
    ensures
        pool.after_acquire().after_release(pool.buffer_size) == pool,
{
}

/// Giving back a buffer of another size changes nothing.
pub proof fn lemma_foreign_buffer_dropped(pool: PoolState, capacity: nat)
    requires
        capacity != pool.buffer_size,
    ensures
        pool.after_release(capacity) == pool,
{
}

/// A worker's own cache of at most one buffer in front of the shared pool.
pub struct ThreadLocalBuffer {
    local_buffer: Option<Buffer>,
}

impl ThreadLocalBuffer {
    /// The buffer that the cache holds, if any.
    pub closed spec fn cached(&self) -> Option<Buffer> {
        self.local_buffer
    }

    /// An empty cache.
    pub fn new() -> (c: ThreadLocalBuffer)
        ensures
            c.cached() is None,
    {
        ThreadLocalBuffer { local_buffer: None }
    }

    /// Takes a buffer: the cached one as it was put, else one from the pool.
    pub fn get(&mut self, pool: &mut PacketBuffer) -> (b: Buffer)
        requires
            old(pool).wf(),
        ensures
            final(pool).wf(),
            final(self).cached() is None,
            old(self).cached() is Some ==> b == old(self).cached()->Some_0 && *final(pool) == *old(pool),
            old(self).cached() is None ==> final(pool)@ == old(pool)@.after_acquire()
                && b.spec_capacity() == old(pool)@.buffer_size && b@ == Seq::<u8>::empty(),
    {
        match self.local_buffer.take() {
            Some(buffer) => buffer,
            None => match pool.acquire() {
                Some(buffer) => buffer,
                None => Buffer::with_capacity(DEFAULT_BUFFER_SIZE),
            },
        }
    }

    /// Gives a buffer back: into the cache if it is empty, else to the pool.
    pub fn put(&mut self, pool: &mut PacketBuffer, buffer: Buffer)
        requires
            old(pool).wf(),
        ensures
            final(pool).wf(),
            old(self).cached() is None ==> final(self).cached() == Some(buffer) && *final(pool)
                == *old(pool),
            old(self).cached() is Some ==> final(self).cached() == old(self).cached() && final(pool)@ == old(pool)@.after_release(buffer.spec_capacity() as nat),
    {
        if self.local_buffer.is_none() {
            self.local_buffer = Some(buffer);
        } else {
            pool.release(buffer);
        }
    }
}

} // verus!
