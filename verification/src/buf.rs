use vstd::prelude::*;

verus! {

/// The abstract state of a [Buf]: the bytes of its whole storage, whose
/// length is its capacity, and the length of its filled part.
pub struct BufView {
    pub storage: Seq<u8>,
    pub len: nat,
}

impl BufView {
    /// The filled part lies within the storage.
    pub open spec fn wf(self) -> bool {
        self.len <= self.storage.len()
    }

    /// The filled part of the buffer.
    pub open spec fn contents(self) -> Seq<u8> {
        self.storage.take(self.len as int)
    }
}

/// A buffer that is owned, ready to be submitted through one of the
/// overlapped APIs: storage of a fixed capacity, whose bytes are always
/// initialized, and the length of the part of it that is filled.
#[derive(Debug)]
pub struct Buf {
    data: Vec<u8>,
    len: usize,
}

impl View for Buf {
    type V = BufView;

    closed spec fn view(&self) -> BufView {
        BufView { storage: self.data@, len: self.len as nat }
    }
}

impl Buf {
    /// Construct a new empty buffer suitable for submitting to I/O Completion
    /// Ports: nothing of it is filled yet, and its zeroed storage holds `cap`
    /// bytes.
    pub fn new(cap: usize) -> (r: Self)
        ensures
            r@.wf(),
            r@.storage == Seq::new(cap as nat, |i: int| 0u8),
            r@.len == 0,
    {
        let data: Vec<u8> = vec![0u8; cap];
        assert(data@ =~= Seq::new(cap as nat, |i: int| 0u8));
        Self { data, len: 0 }
    }

    /// The current length of the buffer.
    pub fn len(&self) -> (r: usize)
        ensures
            r == self@.len,
    {
        self.len
    }

    /// The capacity of the buffer.
    pub fn capacity(&self) -> (r: usize)
        ensures
            r == self@.storage.len(),
    {
        self.data.len()
    }

    /// Set the written to length. Note that setting the length beyond something
    /// that has been written results in cluttered bytes being made visible.
    ///
    /// But they will never be uninitialized, so it's not unsafe. The length
    /// cannot exceed the capacity.
    pub fn set_len(&mut self, len: usize)
        requires
            len <= old(self)@.storage.len(),
        ensures
            final(self)@.wf(),
            final(self)@ == (BufView { len: len as nat, ..old(self)@ }),
    {
        self.len = len;
    }

    /// Access the whole storage of the buffer, which an operation reads from.
    pub fn as_ptr(&self) -> (r: &[u8])
        ensures
            r@ == self@.storage,
    {
        self.data.as_slice()
    }

    /// Access the whole storage of the buffer mutably, which an operation
    /// writes to.
    pub fn as_mut_ptr(&mut self) -> (r: &mut [u8])
        ensures
            r@ == old(self)@.storage,
            final(self)@.storage == final(r)@,
            final(self)@.len == old(self)@.len,
    {
        self.data.as_mut_slice()
    }

    /// Access the filled part of the buffer.
    pub fn as_ref(&self) -> (r: &[u8])
        requires
            self@.wf(),
        ensures
            r@ == self@.contents(),
    {
        &self.data.as_slice()[0..self.len]
    }

    /// Copy from the specified bytes into the current buffer, which must have
    /// the capacity for them; they become the buffer's filled part.
    pub fn copy_from(&mut self, from: &[u8])
        requires
            from@.len() <= old(self)@.storage.len(),
        ensures
            final(self)@.wf(),
            final(self)@.storage == from@ + old(self)@.storage.skip(from@.len() as int),
            final(self)@.len == from@.len(),
            final(self)@.contents() == from@,
    {
        let ghost old_storage = self.data@;
        let mut i: usize = 0;
        while i < from.len()
            invariant
                i <= from@.len(),
                from@.len() <= old_storage.len(),
                self.data@.len() == old_storage.len(),
                self.data@ =~= from@.take(i as int) + old_storage.skip(i as int),
            decreases from@.len() - i,
        {
            self.data[i] = from[i];
            i = i + 1;
            assert(self.data@ =~= from@.take(i as int) + old_storage.skip(i as int));
        }
        self.len = from.len();
        proof {
            assert(from@.take(from@.len() as int) =~= from@);
            assert(self@.contents() =~= from@);
        }
    }

    /// Zero the current buffer up until its given length and zero its length.
    pub fn zero(&mut self)
        requires
            old(self)@.wf(),
        ensures
            final(self)@.wf(),
            final(self)@.storage == Seq::new(old(self)@.len, |i: int| 0u8) + old(self)@.storage.skip(old(self)@.len as int),
            final(self)@.len == 0,
    {
        let ghost old_storage = self.data@;
        let len = self.len;
        let mut i: usize = 0;
        while i < len
            invariant
                i <= len,
                len <= old_storage.len(),
                self.data@.len() == old_storage.len(),
                self.data@ =~= Seq::new(i as nat, |j: int| 0u8) + old_storage.skip(i as int),
            decreases len - i,
        {
            self.data[i] = 0u8;
            i = i + 1;
            assert(self.data@ =~= Seq::new(i as nat, |j: int| 0u8) + old_storage.skip(i as int));
        }
        self.len = 0;
    }

    /// Get a copy of the current buffer.
    pub fn copy(&self) -> (r: Self)
        ensures
            r@ == self@,
    {
        Self { data: self.data.clone(), len: self.len }
    }

    /// Set the length of the buffer to `len`, growing its storage with zero
    /// bytes if it cannot hold that many, and return a copy of it.
    pub fn read(&mut self, len: usize) -> (r: Self)
        ensures
            final(self)@.wf(),
            final(self)@.len == len,
            final(self)@.storage == (if old(self)@.storage.len() < len {
                old(self)@.storage + Seq::new((len - old(self)@.storage.len()) as nat, |i: int| 0u8)
            } else {
                old(self)@.storage
            }),
            r@ == final(self)@,
    {
        let cap = self.data.len();
        if cap < len {
            let ghost old_storage = self.data@;
            self.data.resize(len, 0u8);
            assert(self.data@ =~= old_storage + Seq::new((len - old_storage.len()) as nat, |i: int| 0u8));
        }
        self.len = len;
        self.copy()
    }
}

} // verus!
