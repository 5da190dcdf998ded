use vstd::prelude::*;

pub mod socket_pool;

verus! {

/// The size of the single buffer that a new pool starts with.
pub const INITIAL_BUFFER_SIZE: usize = 64;

/// The abstract state of a [BufferPool]: the contents of every buffer (whose
/// length is the space the buffer holds), how many buffers have been taken
/// and how many of those have been released since the last clear, and the
/// maximum buffer size that the pool was made with.
pub struct PoolView {
    pub buffers: Seq<Seq<u8>>,
    pub taken: nat,
    pub released: nat,
    pub max_buffer_size: nat,
}

/// A buffer of `n` zero bytes.
pub open spec fn zeros(n: nat) -> Seq<u8> {
    Seq::new(n, |i: int| 0u8)
}

/// The buffer `b` grown with zero bytes until it holds at least `n` bytes.
pub open spec fn grown(b: Seq<u8>, n: nat) -> Seq<u8> {
    if b.len() < n { b + zeros((n - b.len()) as nat) } else { b }
}

impl PoolView {
    /// The pool is consistent: every taken buffer exists, and no more
    /// buffers are released than were taken.
    pub open spec fn wf(self) -> bool {
        &&& self.released <= self.taken
        &&& self.taken <= self.buffers.len()
    }

    /// The pool after taking the next buffer for a request of `size` bytes:
    /// the buffer at index `taken`, grown to hold at least `size` bytes.
    pub open spec fn take(self, size: nat) -> PoolView {
        let t = self.taken;
        let buffers = if t < self.buffers.len() {
            self.buffers.update(t as int, grown(self.buffers[t as int], size))
        } else {
            self.buffers.push(zeros(size))
        };
        PoolView { buffers, taken: t + 1, ..self }
    }

    /// The pool after `data` is written to the start of buffer `slot`.
    pub open spec fn fill(self, slot: nat, data: Seq<u8>) -> PoolView {
        let b = self.buffers[slot as int];
        PoolView { buffers: self.buffers.update(slot as int, data + b.skip(data.len() as int)), ..self }
    }

    /// The first `len` bytes of the next buffer to be released.
    pub open spec fn release_bytes(self, len: nat) -> Seq<u8> {
        self.buffers[self.released as int].take(len as int)
    }

    /// The pool after releasing the next buffer.
    pub open spec fn release(self) -> PoolView {
        PoolView { released: self.released + 1, ..self }
    }

    /// The pool after all buffers are handed back; the buffers themselves are
    /// kept so that their space is reused.
    pub open spec fn clear(self) -> PoolView {
        PoolView { taken: 0, released: 0, ..self }
    }
}

/// A pool of I/O buffers.
///
/// Buffers are handed out by [take][BufferPool::take] and reclaimed by
/// [release][BufferPool::release] in FIFO order: the first call to `take`
/// corresponds to the first call of `release`.
pub struct BufferPool {
    buffers: Vec<Vec<u8>>,
    // The number of buffers which are currently busy.
    taken: usize,
    // Buffers taken out of the pool.
    released: usize,
    // The maximum size permitted for a single I/O buffer.
    max_buffer_size: usize,
}

impl View for BufferPool {
    type V = PoolView;

    closed spec fn view(&self) -> PoolView {
        PoolView {
            buffers: self.buffers@.map_values(|b: Vec<u8>| b@),
            taken: self.taken as nat,
            released: self.released as nat,
            max_buffer_size: self.max_buffer_size as nat,
        }
    }
}

impl BufferPool {
    /// Construct a new default I/O pool.
    pub fn new(max_buffer_size: usize) -> (pool: Self)
        ensures
            pool@.wf(),
            pool@.buffers == seq![zeros(INITIAL_BUFFER_SIZE as nat)],
            pool@.taken == 0,
            pool@.released == 0,
            pool@.max_buffer_size == max_buffer_size,
    {
        let first: Vec<u8> = vec![0u8; INITIAL_BUFFER_SIZE];
        let mut buffers: Vec<Vec<u8>> = Vec::new();
        buffers.push(first);
        let pool = Self { buffers, taken: 0, released: 0, max_buffer_size };
        assert(first@ =~= zeros(INITIAL_BUFFER_SIZE as nat));
        assert(pool@.buffers =~= seq![zeros(INITIAL_BUFFER_SIZE as nat)]);
        pool
    }

    /// Get the max buffer size.
    pub fn max_buffer_size(&self) -> (r: usize)
        ensures
            r == self@.max_buffer_size,
    {
        self.max_buffer_size
    }

    /// The number of buffers taken since the last clear.
    pub fn taken(&self) -> (r: usize)
        ensures
            r == self@.taken,
    {
        self.taken
    }

    /// The number of buffers released since the last clear.
    pub fn released(&self) -> (r: usize)
        ensures
            r == self@.released,
    {
        self.released
    }

    /// Take the next I/O buffer that is not busy. Ensures that the returned
    /// buffer can hold at least `size` bytes. Returns the index of the buffer.
    pub fn take(&mut self, size: usize) -> (slot: usize)
        requires
            old(self)@.wf(),
            old(self)@.taken < usize::MAX,
        ensures
            final(self)@.wf(),
            slot == old(self)@.taken,
            final(self)@ == old(self)@.take(size as nat),
            final(self)@.buffers[slot as int].len() >= size,
    {
        let taken = self.taken;
        let ghost old_view = self@;
        let ghost n = size as nat;

        if taken >= self.buffers.len() {
            let fresh: Vec<u8> = vec![0u8; size];
            assert(fresh@ =~= zeros(size as nat));
            self.buffers.push(fresh);
        } else {
            let cur = self.buffers[taken].len();
            if cur < size {
                self.buffers[taken].resize(size, 0u8);
            }
        }
        self.taken = taken + 1;
        proof {
            let expected = old_view.take(size as nat);
            if taken < old_view.buffers.len() {
                assert(self@.buffers[taken as int] =~= grown(old_view.buffers[taken as int], n));
            }
            assert(self@.buffers =~= expected.buffers);
        }
        taken
    }

    /// Write `data` to the start of the buffer at `slot`, which must hold at
    /// least `data.len()` bytes.
    pub fn fill(&mut self, slot: usize, data: &[u8])
        requires
            old(self)@.wf(),
            slot < old(self)@.buffers.len(),
            data@.len() <= old(self)@.buffers[slot as int].len(),
        ensures
            final(self)@.wf(),
            final(self)@ == old(self)@.fill(slot as nat, data@),
    {
        let ghost old_view = self@;
        let ghost old_buf = self@.buffers[slot as int];
        let mut i: usize = 0;
        while i < data.len()
            invariant
                i <= data@.len(),
                slot < self.buffers@.len(),
                self.buffers@.len() == old_view.buffers.len(),
                data@.len() <= old_buf.len(),
                self.buffers@[slot as int]@.len() == old_buf.len(),
                self.buffers@[slot as int]@ =~= data@.take(i as int) + old_buf.skip(i as int),
                forall|j: int| 0 <= j < self.buffers@.len() && j != slot ==> self.buffers@[j]@ == old_view.buffers[j],
                self.taken as nat == old_view.taken,
                self.released as nat == old_view.released,
                self.max_buffer_size as nat == old_view.max_buffer_size,
                self.released <= self.taken,
                self.taken <= self.buffers.len(),
            decreases data@.len() - i,
        {
            let b = data[i];
            self.buffers[slot][i] = b;
            i = i + 1;
            assert(self.buffers@[slot as int]@ =~= data@.take(i as int) + old_buf.skip(i as int));
        }
        proof {
            assert(data@.take(data@.len() as int) =~= data@);
            assert(self@.buffers =~= old_view.fill(slot as nat, data@).buffers);
        }
    }

    /// Access the storage of the buffer at `slot` mutably, so that an
    /// operation can fill it.
    pub fn buffer_mut(&mut self, slot: usize) -> (r: &mut Vec<u8>)
        requires
            slot < old(self)@.buffers.len(),
        ensures
            r@ == old(self)@.buffers[slot as int],
            final(self)@.buffers == old(self)@.buffers.update(slot as int, final(r)@),
            final(self)@.taken == old(self)@.taken,
            final(self)@.released == old(self)@.released,
            final(self)@.max_buffer_size == old(self)@.max_buffer_size,
    {
        &mut self.buffers[slot]
    }
}

impl BufferPool {
    /// Reclaim the next taken buffer, in the order in which buffers were
    /// taken, and return its first `len` bytes: the bytes that an operation
    /// filled it with.
    pub fn release(&mut self, len: usize) -> (filled: Vec<u8>)
        requires
            old(self)@.wf(),
            old(self)@.released < old(self)@.taken,
            len <= old(self)@.buffers[old(self)@.released as int].len(),
        ensures
            final(self)@.wf(),
            final(self)@ == old(self)@.release(),
            filled@ == old(self)@.release_bytes(len as nat),
    {
        let released = self.released;
        self.released = released + 1;
        let buf = &self.buffers[released];
        let mut out: Vec<u8> = Vec::new();
        let mut i: usize = 0;
        while i < len
            invariant
                i <= len,
                len <= buf@.len(),
                out@ =~= buf@.take(i as int),
            decreases len - i,
        {
            out.push(buf[i]);
            i = i + 1;
            assert(out@ =~= buf@.take(i as int));
        }
        proof {
            assert(self@.buffers =~= old(self)@.buffers);
        }
        out
    }

    /// Indicates that there's no pending operations and that this can be safely
    /// reset.
    pub fn clear(&mut self)
        requires
            old(self)@.wf(),
        ensures
            final(self)@.wf(),
            final(self)@ == old(self)@.clear(),
    {
        self.taken = 0;
        self.released = 0;
        proof {
            assert(self@.buffers =~= old(self)@.buffers);
        }
    }
}

/// A buffer that is taken while no other buffer is outstanding, filled with
/// `data` and then released gives back exactly `data`, and leaves no buffer
/// outstanding.
pub proof fn lemma_take_fill_release(p: PoolView, size: nat, data: Seq<u8>)
    requires
        p.wf(),
        p.released == p.taken,
        data.len() <= size,
    ensures
        ({
            let q = p.take(size).fill(p.taken, data);
            &&& q.wf()
            &&& q.released < q.taken
            &&& data.len() <= q.buffers[q.released as int].len()
            &&& q.release_bytes(data.len()) == data
            &&& q.release().released == q.release().taken
        }),
{
    let t = p.take(size);
    let q = t.fill(p.taken, data);
    assert(t.buffers[p.taken as int].len() >= size);
    assert(q.buffers[p.taken as int].take(data.len() as int) =~= data);
}

/// Buffers are reclaimed in FIFO order: of two buffers taken and filled while
/// no other buffer is outstanding, the first release gives back the first
/// buffer's data and the second release the second buffer's data.
pub proof fn lemma_release_fifo(p: PoolView, s1: nat, d1: Seq<u8>, s2: nat, d2: Seq<u8>)
    requires
        p.wf(),
        p.released == p.taken,
        d1.len() <= s1,
        d2.len() <= s2,
    ensures
        ({
            let q = p.take(s1).take(s2).fill(p.taken, d1).fill(p.taken + 1, d2);
            &&& q.wf()
            &&& q.taken == q.released + 2
            &&& d1.len() <= q.buffers[q.released as int].len()
            &&& q.release_bytes(d1.len()) == d1
            &&& d2.len() <= q.release().buffers[q.release().released as int].len()
            &&& q.release().release_bytes(d2.len()) == d2
        }),
{
    let t1 = p.take(s1);
    let t2 = t1.take(s2);
    let f1 = t2.fill(p.taken, d1);
    let q = f1.fill(p.taken + 1, d2);
    assert(t1.buffers[p.taken as int].len() >= s1);
    assert(t2.buffers[p.taken as int] == t1.buffers[p.taken as int]);
    assert(t2.buffers[p.taken + 1int].len() >= s2);
    assert(q.buffers[p.taken as int] == f1.buffers[p.taken as int]);
    assert(q.buffers[p.taken as int].take(d1.len() as int) =~= d1);
    assert(q.buffers[p.taken + 1int].take(d2.len() as int) =~= d2);
}

/// Clearing a pool hands every buffer back without giving up the space the
/// buffers hold, so that the next take reuses the first buffer.
pub proof fn lemma_clear_keeps_buffers(p: PoolView)
    requires
        p.wf(),
    ensures
        p.clear().wf(),
        p.clear().buffers == p.buffers,
        p.clear().taken == 0,
        p.clear().released == 0,
{
}

/// The pool after staging `data` as a write does: taking the next buffer
/// for `data.len()` bytes and copying the data to its start.
pub open spec fn spec_stage(p: PoolView, data: Seq<u8>) -> PoolView {
    p.take(data.len()).fill(p.taken, data)
}

/// The pool after one request of an operation: taking the next buffer for
/// `size` bytes and writing `data` to its start.
pub open spec fn spec_take_fill(p: PoolView, size: nat, data: Seq<u8>) -> PoolView {
    p.take(size).fill(p.taken, data)
}

/// The pool after each of `requests`, a size to take and the data written to
/// the buffer taken, in turn.
pub open spec fn spec_take_fill_all(p: PoolView, requests: Seq<(nat, Seq<u8>)>) -> PoolView
    decreases requests.len(),
{
    if requests.len() == 0 {
        p
    } else {
        let last = requests.last();
        spec_take_fill(spec_take_fill_all(p, requests.drop_last()), last.0, last.1)
    }
}

/// The pool after `n` releases in a row.
pub open spec fn spec_release_n(p: PoolView, n: nat) -> PoolView
    decreases n,
{
    if n == 0 {
        p
    } else {
        spec_release_n(p, (n - 1) as nat).release()
    }
}

/// One request leaves every buffer taken before it as it was, and the buffer
/// it takes starts with the data written to it.
proof fn lemma_take_fill_frame(p: PoolView, size: nat, data: Seq<u8>)
    requires
        p.wf(),
        data.len() <= size,
    ensures
        spec_take_fill(p, size, data).wf(),
        spec_take_fill(p, size, data).taken == p.taken + 1,
        spec_take_fill(p, size, data).released == p.released,
        spec_take_fill(p, size, data).buffers.len() >= p.buffers.len(),
        forall|j: int| 0 <= j < p.taken ==> spec_take_fill(p, size, data).buffers[j] == p.buffers[j],
        data.len() <= spec_take_fill(p, size, data).buffers[p.taken as int].len(),
        spec_take_fill(p, size, data).buffers[p.taken as int].take(data.len() as int) == data,
{
    let t = p.take(size);
    assert(t.buffers[p.taken as int].len() >= size);
    assert(spec_take_fill(p, size, data).buffers[p.taken as int].take(data.len() as int) =~= data);
}

/// After any number of requests made while no buffer is outstanding, the
/// buffer of the `i`-th request starts with the data written to it.
proof fn lemma_take_fill_all(p: PoolView, requests: Seq<(nat, Seq<u8>)>)
    requires
        p.wf(),
        p.released == p.taken,
        forall|i: int| 0 <= i < requests.len() ==> (#[trigger] requests[i]).1.len() <= requests[i].0,
    ensures
        spec_take_fill_all(p, requests).wf(),
        spec_take_fill_all(p, requests).taken == p.taken + requests.len(),
        spec_take_fill_all(p, requests).released == p.released,
        forall|i: int| 0 <= i < requests.len() ==> {
            let b = #[trigger] spec_take_fill_all(p, requests).buffers[p.released + i];
            &&& requests[i].1.len() <= b.len()
            &&& b.take(requests[i].1.len() as int) == requests[i].1
        },
    decreases requests.len(),
{
    if requests.len() > 0 {
        let prefix = requests.drop_last();
        assert forall|i: int| 0 <= i < prefix.len() implies (#[trigger] prefix[i]).1.len() <= prefix[i].0 by {
            assert(prefix[i] == requests[i]);
        }
        lemma_take_fill_all(p, prefix);
        let q = spec_take_fill_all(p, prefix);
        let last = requests.last();
        assert(last == requests[requests.len() - 1]);
        lemma_take_fill_frame(q, last.0, last.1);
        assert forall|i: int| 0 <= i < requests.len() implies {
            let b = #[trigger] spec_take_fill_all(p, requests).buffers[p.released + i];
            &&& requests[i].1.len() <= b.len()
            &&& b.take(requests[i].1.len() as int) == requests[i].1
        } by {
            if i < prefix.len() {
                assert(prefix[i] == requests[i]);
                assert(q.buffers[p.released + i] == spec_take_fill_all(p, requests).buffers[p.released + i]);
            }
        }
    }
}

/// Releasing `n` times in a row counts `n` releases and changes nothing else.
proof fn lemma_release_n(p: PoolView, n: nat)
    ensures
        spec_release_n(p, n) == (PoolView { released: p.released + n, ..p }),
    decreases n,
{
    if n > 0 {
        lemma_release_n(p, (n - 1) as nat);
    }
}

/// Buffers are reclaimed in FIFO order, for any number of buffers taken at
/// any sizes: when, while no buffer is outstanding, each of `requests` takes
/// a buffer for its size and writes its data (no longer than that size) to
/// it, then after `j` releases the next release, of any length `len` up to
/// the length of the `j`-th request's data, gives back the first `len` bytes
/// of that data, and counts `j + 1` releases since then.
pub proof fn lemma_release_in_take_order(p: PoolView, requests: Seq<(nat, Seq<u8>)>, j: nat, len: nat)
    requires
        p.wf(),
        p.released == p.taken,
        forall|i: int| 0 <= i < requests.len() ==> (#[trigger] requests[i]).1.len() <= requests[i].0,
        j < requests.len(),
        len <= requests[j as int].1.len(),
    ensures
        ({
            let r = spec_release_n(spec_take_fill_all(p, requests), j);
            &&& r.wf()
            &&& r.released < r.taken
            &&& len <= r.buffers[r.released as int].len()
            &&& r.release_bytes(len) == requests[j as int].1.take(len as int)
            &&& r.release().released == p.released + j + 1
        }),
{
    let q = spec_take_fill_all(p, requests);
    lemma_take_fill_all(p, requests);
    lemma_release_n(q, j);
    let r = spec_release_n(q, j);
    let b = q.buffers[p.released + j as int];
    let d = requests[j as int].1;
    assert(d.len() <= b.len() && b.take(d.len() as int) == d);
    assert(r.buffers[r.released as int] == b);
    assert(b.take(len as int) =~= d.take(len as int));
}

} // verus!
