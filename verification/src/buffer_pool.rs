//! Reusable frame buffers, the bounded buffer pool, and the byte ring that
//! links the producer to the output callback.
use vstd::prelude::*;
use vstd::pervasive::VecAdditionalExecFns;
use std::collections::VecDeque;
use crate::format::AudioFormat;

verus! {

/// A fixed-capacity byte buffer for decoded frames. Its capacity is
/// `frames * format.bytes_per_frame()` and never changes after construction.
pub struct AudioBuffer {
    pub data: Vec<u8>,
    pub format: AudioFormat,
    pub frames: usize,
}

impl AudioBuffer {
    pub open spec fn wf(self) -> bool {
        self.data@.len() == self.frames * self.format.spec_bytes_per_frame()
    }

    pub open spec fn spec_is_zeroed(self) -> bool {
        forall|i: int| 0 <= i < self.data@.len() ==> self.data@[i] == 0u8
    }

    pub fn new(format: AudioFormat, frames: usize) -> (r: Self)
        requires
            frames * format.spec_bytes_per_frame() <= usize::MAX,
        ensures
            r.wf(),
            r.spec_is_zeroed(),
            r.format == format,
            r.frames == frames,
    {
        let size: usize = frames * format.bytes_per_frame();
        let mut data: Vec<u8> = Vec::new();
        while data.len() < size
            invariant
                data@.len() <= size,
                forall|j: int| 0 <= j < data@.len() ==> data@[j] == 0u8,
            decreases size - data@.len(),
        {
            data.push(0u8);
        }
        Self { data, format, frames }
    }

    pub fn data(&self) -> (r: &[u8])
        ensures
            r@ == self.data@,
    {
        self.data.as_slice()
    }

    pub fn data_mut(&mut self) -> (r: &mut Vec<u8>)
        ensures
            *r == old(self).data,
            final(self).data == *final(r),
            final(self).format == old(self).format,
            final(self).frames == old(self).frames,
    {
        &mut self.data
    }

    /// Copy `src` into the front of the buffer, as far as it fits.
    /// Returns the number of bytes stored.
    pub fn store(&mut self, src: &[u8]) -> (stored: usize)
        ensures
            stored == vstd::math::min(src@.len() as int, old(self).data@.len() as int),
            final(self).data@ == src@.take(stored as int) + old(self).data@.skip(stored as int),
            final(self).format == old(self).format,
            final(self).frames == old(self).frames,
    {
        let mut i: usize = 0;
        let limit: usize = if src.len() < self.data.len() { src.len() } else { self.data.len() };
        while i < limit
            invariant
                i <= limit,
                limit == vstd::math::min(src@.len() as int, old(self).data@.len() as int),
                self.data@.len() == old(self).data@.len(),
                self.data@ == src@.take(i as int) + old(self).data@.skip(i as int),
                self.format == old(self).format,
                self.frames == old(self).frames,
            decreases limit - i,
        {
            self.data.set(i, src[i]);
            proof {
                assert(self.data@ =~= src@.take(i as int + 1) + old(self).data@.skip(i as int + 1));
            }
            i = i + 1;
        }
        proof {
            assert(self.data@ =~= src@.take(limit as int) + old(self).data@.skip(limit as int));
        }
        limit
    }

    pub fn format(&self) -> (r: AudioFormat)
        ensures
            r == self.format,
    {
        self.format
    }

    pub fn frames(&self) -> (r: usize)
        ensures
            r == self.frames,
    {
        self.frames
    }

    pub fn capacity(&self) -> (r: usize)
        ensures
            r == self.data@.len(),
    {
        self.data.len()
    }
}

/// Fixed-size free list of reusable buffers. At any instant
/// `available_count() + buffers in flight == total_count()`.
pub struct BufferPool {
    pub free_buffers: Vec<AudioBuffer>,
    pub format: AudioFormat,
    pub buffer_size_frames: usize,
    pub pool_size: usize,
}

/// State change of `acquire`: when a buffer is free, one leaves the pool,
/// sized to the pool's fixed capacity; otherwise nothing changes.
pub open spec fn pool_acquire_post(pre: BufferPool, post: BufferPool, r: Option<AudioBuffer>) -> bool {
    &&& post.format == pre.format
    &&& post.buffer_size_frames == pre.buffer_size_frames
    &&& post.pool_size == pre.pool_size
    &&& if pre.spec_available() > 0 {
        &&& r is Some
        &&& r->Some_0.frames == pre.buffer_size_frames
        &&& r->Some_0.data@.len() == pre.spec_buffer_bytes()
        &&& post.spec_available() == pre.spec_available() - 1
    } else {
        &&& r is None
        &&& post.spec_available() == pre.spec_available()
    }
}

/// State change of `release` for a buffer with the given frame count and
/// byte capacity: the free count grows exactly when the pool accepts it.
pub open spec fn pool_release_post(pre: BufferPool, frames: int, capacity: int, post: BufferPool) -> bool {
    &&& post.format == pre.format
    &&& post.buffer_size_frames == pre.buffer_size_frames
    &&& post.pool_size == pre.pool_size
    &&& post.spec_available() == if pre.spec_accepts(frames, capacity) {
        pre.spec_available() + 1
    } else {
        pre.spec_available()
    }
}

impl BufferPool {
    /// Capacity in bytes of every buffer of this pool.
    pub open spec fn spec_buffer_bytes(self) -> int {
        self.buffer_size_frames * self.format.spec_bytes_per_frame()
    }

    pub open spec fn wf(self) -> bool {
        &&& self.free_buffers@.len() <= self.pool_size
        &&& self.spec_buffer_bytes() <= usize::MAX
        &&& forall|i: int| 0 <= i < self.free_buffers@.len() ==> {
            &&& (#[trigger] self.free_buffers@[i]).wf()
            &&& self.free_buffers@[i].spec_is_zeroed()
            &&& self.free_buffers@[i].format == self.format
            &&& self.free_buffers@[i].frames == self.buffer_size_frames
        }
    }

    pub open spec fn spec_available(self) -> int {
        self.free_buffers@.len() as int
    }

    /// Whether `release` takes a buffer back: its frame count and byte
    /// capacity must match the pool's, and the pool must not be full.
    pub open spec fn spec_accepts(self, frames: int, capacity: int) -> bool {
        &&& frames == self.buffer_size_frames
        &&& capacity == self.spec_buffer_bytes()
        &&& self.spec_available() < self.pool_size
    }

    pub fn new(format: AudioFormat, buffer_size_frames: usize, pool_size: usize) -> (r: Self)
        requires
            buffer_size_frames * format.spec_bytes_per_frame() <= usize::MAX,
        ensures
            r.wf(),
            r.format == format,
            r.buffer_size_frames == buffer_size_frames,
            r.pool_size == pool_size,
            r.spec_available() == pool_size,
    {
        let mut free_buffers: Vec<AudioBuffer> = Vec::new();
        let mut i: usize = 0;
        while i < pool_size
            invariant
                i <= pool_size,
                free_buffers@.len() == i,
                buffer_size_frames * format.spec_bytes_per_frame() <= usize::MAX,
                forall|j: int| 0 <= j < i ==> {
                    &&& (#[trigger] free_buffers@[j]).wf()
                    &&& free_buffers@[j].spec_is_zeroed()
                    &&& free_buffers@[j].format == format
                    &&& free_buffers@[j].frames == buffer_size_frames
                },
            decreases pool_size - i,
        {
            free_buffers.push(AudioBuffer::new(format, buffer_size_frames));
            i = i + 1;
        }
        Self { free_buffers, format, buffer_size_frames, pool_size }
    }

    /// Hand out a free buffer, zero-filled and of the pool's fixed capacity;
    /// nothing when the pool is empty, with the pool unchanged.
    pub fn acquire(&mut self) -> (r: Option<AudioBuffer>)
        requires
            old(self).wf(),
        ensures
            final(self).wf(),
            pool_acquire_post(*old(self), *final(self), r),
            old(self).spec_available() > 0 ==> {
                &&& r is Some
                &&& r->Some_0.wf()
                &&& r->Some_0.spec_is_zeroed()
                &&& r->Some_0.format == old(self).format
                &&& r->Some_0.frames == old(self).buffer_size_frames
                &&& r->Some_0.data@.len() == old(self).spec_buffer_bytes()
                &&& final(self).spec_available() == old(self).spec_available() - 1
            },
            old(self).spec_available() == 0 ==> {
                &&& r is None
                &&& final(self).free_buffers@ == old(self).free_buffers@
            },
    {
        if self.free_buffers.len() == 0 {
            None
        } else {
            self.free_buffers.pop()
        }
    }

    /// Take a buffer back. It is zeroed and returned to the free list exactly
    /// when its frame count and capacity match the pool's and the pool is not
    /// already full; otherwise it is dropped.
    pub fn release(&mut self, buffer: AudioBuffer)
        requires
            old(self).wf(),
        ensures
            final(self).wf(),
            pool_release_post(*old(self), buffer.frames as int, buffer.data@.len() as int, *final(self)),
            !old(self).spec_accepts(buffer.frames as int, buffer.data@.len() as int) ==>
                final(self).free_buffers@ == old(self).free_buffers@,
    {
        let mut buffer = buffer;
        if buffer.frames() == self.buffer_size_frames
            && buffer.capacity() == self.buffer_size_frames * self.format.bytes_per_frame()
            && self.free_buffers.len() < self.pool_size
        {
            zero_bytes(&mut buffer.data);
            buffer.format = self.format;
            self.free_buffers.push(buffer);
        }
    }

    pub fn available_count(&self) -> (r: usize)
        ensures
            r == self.spec_available(),
    {
        self.free_buffers.len()
    }

    pub fn total_count(&self) -> (r: usize)
        ensures
            r == self.pool_size,
    {
        self.pool_size
    }
}

/// Overwrite every byte of `data` with zero, keeping its length.
fn zero_bytes(data: &mut Vec<u8>)
    ensures
        final(data)@.len() == old(data)@.len(),
        forall|i: int| 0 <= i < final(data)@.len() ==> final(data)@[i] == 0u8,
{
    let mut i: usize = 0;
    while i < data.len()
        invariant
            i <= data@.len(),
            data@.len() == old(data)@.len(),
            forall|j: int| 0 <= j < i ==> data@[j] == 0u8,
        decreases data@.len() - i,
    {
        data.set(i, 0u8);
        i = i + 1;
    }
}

/// Law: acquiring a buffer and releasing it right back returns the pool to
/// its prior available count.
pub proof fn lemma_pool_acquire_release_roundtrip(
    p0: BufferPool,
    p1: BufferPool,
    b: AudioBuffer,
    p2: BufferPool,
)
    requires
        p0.wf(),
        p0.spec_available() > 0,
        pool_acquire_post(p0, p1, Some(b)),
        pool_release_post(p1, b.frames as int, b.data@.len() as int, p2),
    ensures
        p2.spec_available() == p0.spec_available(),
{
}

/// Single-producer single-consumer byte queue with a fixed capacity.
/// `write` copies in as many bytes as fit; `read` hands bytes out in the
/// order they were written. The ghost `hist_read` records every byte the
/// reader has taken, so the prefix law below is a direct consequence of
/// the structure.
pub struct AudioRingBuffer {
    pub buffer: VecDeque<u8>,
    pub capacity: usize,
    pub hist_read: Ghost<Seq<u8>>,
}

/// How many bytes a write of `len` bytes transfers into `pre`.
pub open spec fn ring_write_count(pre: AudioRingBuffer, len: int) -> int {
    vstd::math::min(len, pre.capacity - pre.buffer@.len())
}

/// State change of `write`: `n` bytes of `data` are appended, the rest is
/// refused; the read history is untouched.
pub open spec fn ring_write_post(
    pre: AudioRingBuffer,
    data: Seq<u8>,
    post: AudioRingBuffer,
    n: int,
) -> bool {
    &&& n == ring_write_count(pre, data.len() as int)
    &&& post.buffer@ == pre.buffer@ + data.take(n)
    &&& post.capacity == pre.capacity
    &&& post.hist_read == pre.hist_read
}

/// State change of `read` asked for at most `max` bytes: the first `n`
/// queued bytes leave the ring, in order, and join the read history.
pub open spec fn ring_read_post(
    pre: AudioRingBuffer,
    max: int,
    post: AudioRingBuffer,
    out: Seq<u8>,
) -> bool {
    let n = vstd::math::min(max, pre.buffer@.len() as int);
    &&& out == pre.buffer@.take(n)
    &&& post.buffer@ == pre.buffer@.skip(n)
    &&& post.capacity == pre.capacity
    &&& post.hist_read@ == pre.hist_read@ + out
}

impl AudioRingBuffer {
    pub open spec fn wf(self) -> bool {
        self.buffer@.len() <= self.capacity
    }

    /// All bytes the reader has ever received, in order.
    pub open spec fn bytes_read(self) -> Seq<u8> {
        self.hist_read@
    }

    /// All bytes ever accepted by `write` and not discarded by `clear`:
    /// what was read, then what still waits in the ring.
    pub open spec fn written_log(self) -> Seq<u8> {
        self.hist_read@ + self.buffer@
    }

    pub fn new(capacity: usize) -> (r: Self)
        ensures
            r.wf(),
            r.capacity == capacity,
            r.buffer@ == Seq::<u8>::empty(),
            r.bytes_read() == Seq::<u8>::empty(),
    {
        Self {
            buffer: VecDeque::with_capacity(capacity),
            capacity,
            hist_read: Ghost(Seq::empty()),
        }
    }

    /// Copy as many bytes of `data` as fit; never blocks, never fails.
    /// Returns how many were taken (`min(data.len(), free space)`).
    pub fn write(&mut self, data: &[u8]) -> (n: usize)
        requires
            old(self).wf(),
        ensures
            final(self).wf(),
            ring_write_post(*old(self), data@, *final(self), n as int),
    {
        let mut written: usize = 0;
        while written < data.len() && self.buffer.len() < self.capacity
            invariant
                self.wf(),
                written <= data@.len(),
                written <= ring_write_count(*old(self), data@.len() as int),
                written < data@.len() && self.buffer@.len() < self.capacity
                    ==> written < ring_write_count(*old(self), data@.len() as int),
                self.buffer@ == old(self).buffer@ + data@.take(written as int),
                self.capacity == old(self).capacity,
                self.hist_read == old(self).hist_read,
            decreases data@.len() - written,
        {
            self.buffer.push_back(data[written]);
            written = written + 1;
            proof {
                assert(self.buffer@ =~= old(self).buffer@ + data@.take(written as int));
            }
        }
        proof {
            assert(written == ring_write_count(*old(self), data@.len() as int));
        }
        written
    }

    /// Move up to `buf.len()` bytes from the ring into the front of `buf`.
    /// Returns how many were moved (`min(buf.len(), queued bytes)`).
    pub fn read(&mut self, buf: &mut Vec<u8>) -> (n: usize)
        requires
            old(self).wf(),
        ensures
            final(self).wf(),
            ring_read_post(*old(self), old(buf)@.len() as int, *final(self), old(self).buffer@.take(n as int)),
            n == vstd::math::min(old(buf)@.len() as int, old(self).buffer@.len() as int),
            final(buf)@ == old(self).buffer@.take(n as int) + old(buf)@.skip(n as int),
    {
        let ring_len = self.buffer.len();
        let limit: usize = if buf.len() < ring_len { buf.len() } else { ring_len };
        let mut taken: usize = 0;
        while taken < limit
            invariant
                limit == vstd::math::min(old(buf)@.len() as int, old(self).buffer@.len() as int),
                taken <= limit,
                buf@.len() == old(buf)@.len(),
                self.buffer@ == old(self).buffer@.skip(taken as int),
                buf@ == old(self).buffer@.take(taken as int) + old(buf)@.skip(taken as int),
                self.capacity == old(self).capacity,
                self.hist_read@ == old(self).hist_read@ + old(self).buffer@.take(taken as int),
            decreases limit - taken,
        {
            match self.buffer.pop_front() {
                Some(byte) => {
                    proof {
                        assert(old(self).buffer@.skip(taken as int)[0] == old(self).buffer@[taken as int]);
                    }
                    buf.set(taken, byte);
                    self.hist_read = Ghost(self.hist_read@ + seq![byte]);
                    taken = taken + 1;
                    proof {
                        assert(self.buffer@ =~= old(self).buffer@.skip(taken as int));
                        assert(buf@ =~= old(self).buffer@.take(taken as int) + old(buf)@.skip(taken as int));
                        assert(self.hist_read@ =~= old(self).hist_read@ + old(self).buffer@.take(taken as int));
                    }
                }
                None => {
                    // the loop guard guarantees bytes remain
                    return vstd::pervasive::unreached();
                }
            }
        }
        taken
    }

    /// Free space left for the writer.
    pub fn available(&self) -> (r: usize)
        requires
            self.wf(),
        ensures
            r == self.capacity - self.buffer@.len(),
    {
        self.capacity - self.buffer.len()
    }

    /// Bytes queued and not yet read.
    pub fn len(&self) -> (r: usize)
        ensures
            r == self.buffer@.len(),
    {
        self.buffer.len()
    }

    pub fn is_empty(&self) -> (r: bool)
        ensures
            r == (self.buffer@.len() == 0),
    {
        self.buffer.len() == 0
    }

    pub fn is_full(&self) -> (r: bool)
        ensures
            r == (self.buffer@.len() >= self.capacity),
    {
        self.buffer.len() >= self.capacity
    }

    pub fn capacity(&self) -> (r: usize)
        ensures
            r == self.capacity,
    {
        self.capacity
    }

    /// Discard everything queued; what was already read stays read.
    pub fn clear(&mut self)
        ensures
            final(self).buffer@ == Seq::<u8>::empty(),
            final(self).capacity == old(self).capacity,
            final(self).hist_read == old(self).hist_read,
            final(self).wf(),
    {
        self.buffer.clear();
    }
}

/// Law: at every observation the reader has received no more bytes than were
/// written, and exactly a prefix of them, in order.
pub proof fn lemma_reader_stream_is_prefix(r: AudioRingBuffer)
    ensures
        r.bytes_read().len() <= r.written_log().len(),
        r.bytes_read() == r.written_log().take(r.bytes_read().len() as int),
{
    assert(r.bytes_read() =~= r.written_log().take(r.bytes_read().len() as int));
}

/// Law: writing `data` to a fresh ring with `data.len() <= capacity` and then
/// reading `data.len()` bytes yields exactly `data`.
pub proof fn lemma_ring_roundtrip(
    r0: AudioRingBuffer,
    data: Seq<u8>,
    r1: AudioRingBuffer,
    n: int,
    r2: AudioRingBuffer,
    out: Seq<u8>,
)
    requires
        r0.wf(),
        r0.buffer@ == Seq::<u8>::empty(),
        data.len() <= r0.capacity,
        ring_write_post(r0, data, r1, n),
        ring_read_post(r1, data.len() as int, r2, out),
    ensures
        n == data.len(),
        out == data,
        r2.buffer@ == Seq::<u8>::empty(),
{
    assert(r1.buffer@ =~= data);
    assert(out =~= data);
    assert(r2.buffer@ =~= Seq::<u8>::empty());
}

/// Law: a write longer than the free space transfers exactly the free space,
/// and a subsequent read of everything queued drains the ring, delivering
/// what was queued before followed by that accepted prefix.
pub proof fn lemma_ring_write_fills_free_then_drains(
    r0: AudioRingBuffer,
    data: Seq<u8>,
    r1: AudioRingBuffer,
    n: int,
    r2: AudioRingBuffer,
    out: Seq<u8>,
)
    requires
        r0.wf(),
        data.len() > r0.capacity - r0.buffer@.len(),
        ring_write_post(r0, data, r1, n),
        ring_read_post(r1, r1.buffer@.len() as int, r2, out),
    ensures
        n == r0.capacity - r0.buffer@.len(),
        r2.buffer@ == Seq::<u8>::empty(),
        out == r0.buffer@ + data.take(n),
{
    assert(out =~= r1.buffer@);
    assert(r2.buffer@ =~= Seq::<u8>::empty());
}

} // verus!
