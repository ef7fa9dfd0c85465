use vstd::prelude::*;

verus! {

/// A contiguous block of memory handed out by a successful allocation.
///
/// The region is identified by its starting address and owns its backing
/// bytes. Its view is the sequence of those bytes. The caller owns the
/// region exclusively until it is passed back to the backend's `free` or
/// `reallocate` operation.
pub struct Region {
    addr: usize,
    bytes: Vec<u8>,
}

impl View for Region {
    type V = Seq<u8>;

    closed spec fn view(&self) -> Seq<u8> {
        self.bytes@
    }
}

impl Region {
    /// The starting address of the region.
    pub closed spec fn spec_addr(&self) -> usize {
        self.addr
    }

    /// Assemble a region from a starting address and its backing bytes.
    pub fn new(addr: usize, bytes: Vec<u8>) -> (r: Region)
        ensures
            r.spec_addr() == addr,
            r@ == bytes@,
    {
        Region { addr, bytes }
    }

    /// Build a region of `len` bytes at `addr`, every byte set to `fill`.
    pub fn new_filled(addr: usize, len: usize, fill: u8) -> (r: Region)
        ensures
            r.spec_addr() == addr,
            r@.len() == len,
            forall|i: int| 0 <= i < len ==> r@[i] == fill,
    {
        let mut bytes: Vec<u8> = Vec::new();
        while bytes.len() < len
            invariant
                bytes@.len() <= len,
                forall|i: int| 0 <= i < bytes@.len() ==> bytes@[i] == fill,
            decreases len - bytes@.len(),
        {
            bytes.push(fill);
        }
        Region { addr, bytes }
    }

    /// The starting address of the region.
    pub fn addr(&self) -> (a: usize)
        ensures
            a == self.spec_addr(),
    {
        self.addr
    }

    /// The number of bytes the region holds.
    pub fn len(&self) -> (n: usize)
        ensures
            n == self@.len(),
    {
        self.bytes.len()
    }

    /// Read the byte at offset `i`.
    pub fn read_byte(&self, i: usize) -> (b: u8)
        requires
            i < self@.len(),
        ensures
            b == self@[i as int],
    {
        self.bytes[i]
    }

    /// Write `b` at offset `i`, leaving every other byte and the address
    /// unchanged.
    pub fn write_byte(&mut self, i: usize, b: u8)
        requires
            i < old(self)@.len(),
        ensures
            final(self).spec_addr() == old(self).spec_addr(),
            final(self)@ == old(self)@.update(i as int, b),
    {
        self.bytes.set(i, b);
    }
}

/// Copy the first `n` bytes of `src` into the front of `dst`, leaving the
/// rest of `dst` and its address unchanged.
pub fn copy_prefix(dst: &mut Region, src: &Region, n: usize)
    requires
        n <= old(dst)@.len(),
        n <= src@.len(),
    ensures
        final(dst).spec_addr() == old(dst).spec_addr(),
        final(dst)@.len() == old(dst)@.len(),
        forall|i: int| 0 <= i < n ==> final(dst)@[i] == src@[i],
        forall|i: int| n <= i < final(dst)@.len() ==> final(dst)@[i] == old(dst)@[i],
{
    let mut i: usize = 0;
    let ghost orig = *dst;
    while i < n
        invariant
            i <= n,
            n <= dst@.len(),
            n <= src@.len(),
            dst@.len() == orig@.len(),
            dst.spec_addr() == orig.spec_addr(),
            forall|j: int| 0 <= j < i ==> dst@[j] == src@[j],
            forall|j: int| i <= j < dst@.len() ==> dst@[j] == orig@[j],
        decreases n - i,
    {
        let b = src.read_byte(i);
        dst.write_byte(i, b);
        i = i + 1;
    }
}

} // verus!
