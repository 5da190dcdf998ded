use vstd::prelude::*;

verus! {

/// A socket of the pool, by its raw value.
#[derive(Debug, Clone, Copy, PartialEq, Eq, Structural)]
pub struct SocketBuf(pub usize);

impl SocketBuf {
    /// Access the underlying socket.
    pub fn as_raw_socket(&mut self) -> (r: usize)
        ensures
            r == old(self).0,
            *final(self) == *old(self),
    {
        self.0
    }
}

/// The abstract state of a [SocketPool]: the sockets it holds, how many of
/// them have been taken and how many released since the last clear.
pub struct SocketPoolView {
    pub sockets: Seq<usize>,
    pub taken: nat,
    pub released: nat,
}

impl SocketPoolView {
    /// Every socket that was taken exists in the pool.
    pub open spec fn wf(self) -> bool {
        self.taken <= self.sockets.len()
    }

    /// The pool after taking a socket, and the socket taken: the next socket
    /// that was not taken, or else `fresh`, which joins the pool.
    pub open spec fn take(self, fresh: Option<usize>) -> (SocketPoolView, Option<SocketBuf>) {
        if self.taken < self.sockets.len() {
            (SocketPoolView { taken: self.taken + 1, ..self }, Some(SocketBuf(self.sockets[self.taken as int])))
        } else {
            match fresh {
                Some(s) => (
                    SocketPoolView { sockets: self.sockets.push(s), taken: self.taken + 1, ..self },
                    Some(SocketBuf(s)),
                ),
                None => (self, None),
            }
        }
    }

    /// The pool after releasing a socket, and the socket released.
    pub open spec fn release(self) -> (SocketPoolView, SocketBuf) {
        (SocketPoolView { released: self.released + 1, ..self }, SocketBuf(self.sockets[self.released as int]))
    }

    /// The pool after clearing it, and the sockets to close: those taken and
    /// not released.
    pub open spec fn clear(self) -> (SocketPoolView, Seq<usize>) {
        (SocketPoolView { taken: 0, released: 0, ..self }, self.sockets.subrange(self.released as int, self.taken as int))
    }
}

/// A pool of sockets that accept operations hand out, reused between
/// operations. Sockets are taken and released in FIFO order; the caller
/// creates a socket when the pool has none to hand out, and closes the
/// sockets that [clear][SocketPool::clear] hands back.
pub struct SocketPool {
    sockets: Vec<usize>,
    taken: usize,
    released: usize,
}

impl View for SocketPool {
    type V = SocketPoolView;

    closed spec fn view(&self) -> SocketPoolView {
        SocketPoolView { sockets: self.sockets@, taken: self.taken as nat, released: self.released as nat }
    }
}

impl SocketPool {
    /// Construct a new, empty socket pool.
    pub fn new() -> (r: Self)
        ensures
            r@.sockets == Seq::<usize>::empty(),
            r@.taken == 0,
            r@.released == 0,
    {
        Self { sockets: Vec::new(), taken: 0, released: 0 }
    }

    /// Whether taking a socket needs a new socket, because every socket in
    /// the pool has been taken.
    pub fn needs_socket(&self) -> (r: bool)
        ensures
            r == (self@.sockets.len() <= self@.taken),
    {
        self.sockets.len() <= self.taken
    }

    /// Whether there is a socket to release: one that was handed out after
    /// the sockets already released.
    pub fn can_release(&self) -> (r: bool)
        ensures
            r == (self@.released < self@.sockets.len()),
    {
        self.released < self.sockets.len()
    }

    /// Whether no more sockets were released than taken, so that the pool can
    /// be cleared.
    pub fn can_clear(&self) -> (r: bool)
        ensures
            r == (self@.released <= self@.taken),
    {
        self.released <= self.taken
    }

    /// Take a socket from the pool: the next socket that was not taken, or,
    /// when every socket has been taken, the new socket `fresh`, which joins
    /// the pool. Without a socket to hand out nothing changes and `None` is
    /// returned.
    pub fn take(&mut self, fresh: Option<usize>) -> (r: Option<SocketBuf>)
        requires
            old(self)@.wf(),
            old(self)@.taken < usize::MAX,
        ensures
            final(self)@.wf(),
            (final(self)@, r) == old(self)@.take(fresh),
            old(self)@.taken < old(self)@.sockets.len() ==> r == Some(SocketBuf(old(self)@.sockets[old(self)@.taken as int])),
            final(self)@.released == old(self)@.released,
    {
        if self.sockets.len() <= self.taken {
            match fresh {
                Some(s) => self.sockets.push(s),
                None => return None,
            }
        }
        let taken = self.taken;
        self.taken = taken + 1;
        Some(SocketBuf(self.sockets[taken]))
    }

    /// Release the next socket from the pool, in the order in which sockets
    /// were taken, without freeing it.
    pub fn release(&mut self) -> (r: SocketBuf)
        requires
            old(self)@.wf(),
            old(self)@.released < old(self)@.sockets.len(),
        ensures
            final(self)@.wf(),
            (final(self)@, r) == old(self)@.release(),
    {
        let released = self.released;
        let n = self.sockets.len();
        let s = self.sockets[released];
        self.released = released + 1;
        SocketBuf(s)
    }

    /// Reset the pool, handing back the sockets that were taken and not
    /// released, which the caller closes.
    ///
    /// Note that the sockets handed back stay in the pool at their places:
    /// later calls to [take][SocketPool::take] hand them out again, closed,
    /// since a fresh socket joins the pool only once every pooled one has
    /// been taken.
    pub fn clear(&mut self) -> (to_close: Vec<usize>)
        requires
            old(self)@.wf(),
            old(self)@.released <= old(self)@.taken,
        ensures
            final(self)@.wf(),
            (final(self)@, to_close@) == old(self)@.clear(),
    {
        let mut to_close: Vec<usize> = Vec::new();
        let mut i = self.released;
        while i < self.taken
            invariant
                self.released <= i <= self.taken,
                self.taken <= self.sockets@.len(),
                to_close@ =~= self.sockets@.subrange(self.released as int, i as int),
            decreases self.taken - i,
        {
            to_close.push(self.sockets[i]);
            i = i + 1;
            assert(to_close@ =~= self.sockets@.subrange(self.released as int, i as int));
        }
        self.released = 0;
        self.taken = 0;
        to_close
    }
}

/// Sockets are released in the order in which they were taken: a socket
/// taken while no other socket is outstanding is the next socket released.
pub proof fn lemma_socket_fifo(p: SocketPoolView, fresh: Option<usize>)
    requires
        p.wf(),
        p.released == p.taken,
        p.take(fresh).1 is Some,
    ensures
        p.take(fresh).0.wf(),
        p.take(fresh).0.released < p.take(fresh).0.sockets.len(),
        p.take(fresh).0.release().1 == p.take(fresh).1.unwrap(),
        p.take(fresh).0.release().0.released == p.take(fresh).0.release().0.taken,
{
}

/// Clearing the pool hands back, for closing, exactly the sockets that were
/// taken and not released, and keeps every socket in the pool.
pub proof fn lemma_socket_clear(p: SocketPoolView)
    requires
        p.wf(),
        p.released <= p.taken,
    ensures
        p.clear().1.len() == p.taken - p.released,
        forall|i: int| 0 <= i < p.taken - p.released ==> p.clear().1[i] == p.sockets[p.released + i],
        p.clear().0.sockets == p.sockets,
        p.clear().0.taken == 0 && p.clear().0.released == 0,
{
}

/// The pool after `n` takes in a row, each offered the new socket `fresh`.
pub open spec fn spec_take_n(p: SocketPoolView, fresh: Option<usize>, n: nat) -> SocketPoolView
    decreases n,
{
    if n == 0 {
        p
    } else {
        spec_take_n(p, fresh, (n - 1) as nat).take(fresh).0
    }
}

/// While the pool has sockets that were not taken, each take counts one
/// more socket taken and changes nothing else.
proof fn lemma_take_n_counts(p: SocketPoolView, fresh: Option<usize>, n: nat)
    requires
        p.taken + n <= p.sockets.len(),
    ensures
        spec_take_n(p, fresh, n) == (SocketPoolView { taken: p.taken + n, ..p }),
    decreases n,
{
    if n > 0 {
        lemma_take_n_counts(p, fresh, (n - 1) as nat);
    }
}

/// Takes hand out the pooled sockets in order, whatever was released: the
/// `i`-th of `n` takes, while the pool holds enough sockets that were not
/// taken, hands out the socket `i` places after the ones already taken and
/// leaves the released count alone; so after a clear the `i`-th take hands
/// out the `i`-th pooled socket. When the pool holds no socket twice, the
/// socket handed out is none of those still outstanding.
pub proof fn lemma_takes_in_pool_order(p: SocketPoolView, fresh: Option<usize>, n: nat, i: nat)
    requires
        p.wf(),
        p.taken + n <= p.sockets.len(),
        i < n,
    ensures
        spec_take_n(p, fresh, n).taken == p.taken + n,
        spec_take_n(p, fresh, n).released == p.released,
        spec_take_n(p, fresh, n).sockets == p.sockets,
        spec_take_n(p, fresh, i).take(fresh).1 == Some(SocketBuf(p.sockets[p.taken + i as int])),
        p.sockets.no_duplicates() ==> forall|m: int| p.released <= m < p.taken + i ==>
            p.sockets[m] != spec_take_n(p, fresh, i).take(fresh).1.unwrap().0,
{
    lemma_take_n_counts(p, fresh, n);
    lemma_take_n_counts(p, fresh, i);
}

} // verus!
