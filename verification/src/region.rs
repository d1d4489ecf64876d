//! Executable memory regions under a write-xor-execute discipline.
//!
//! A region that is being populated is writable and nothing else; a
//! region holding finished machine code is readable and executable and
//! nothing else. The two states are two distinct owning types, and the
//! only way from one to the other consumes the writable view, so no
//! region is ever writable and executable at the same time.

use vstd::prelude::*;

verus! {

/// A freshly mapped region with read and write permission, in the
/// process of being populated. It cannot be executed; it must be sealed
/// first, which gives up the right to write.
pub struct WritableRegion {
    bytes: Vec<u8>,
}

/// A sealed region with read and execute permission, holding finished
/// machine code. Its content can be read — duplication copies it byte
/// for byte — and run, but never changed: no operation writes to a
/// sealed region.
pub struct ExecutableRegion {
    bytes: Vec<u8>,
}

impl WritableRegion {
    /// The region's content, byte for byte.
    pub closed spec fn view(&self) -> Seq<u8> {
        self.bytes@
    }

    /// Map a fresh anonymous region of `size` bytes with read and write
    /// permission. Anonymous mappings start zero-filled.
    pub fn allocate(size: usize) -> (r: WritableRegion)
        ensures
            r@.len() == size,
            forall|i: int| 0 <= i < size ==> r@[i] == 0,
    {
        let mut bytes: Vec<u8> = Vec::new();
        let mut i: usize = 0;
        while i < size
            invariant
                i <= size,
                bytes@.len() == i,
                forall|j: int| 0 <= j < i ==> bytes@[j] == 0,
            decreases size - i,
        {
            bytes.push(0u8);
            i += 1;
        }
        WritableRegion { bytes }
    }

    /// Size in bytes of the mapping.
    pub fn len(&self) -> (r: usize)
        ensures
            r == self@.len(),
    {
        self.bytes.len()
    }

    /// Copy `src` into the region, byte for byte. The region must have
    /// been mapped with exactly the source's size.
    pub fn fill(&mut self, src: &Vec<u8>)
        requires
            old(self)@.len() == src@.len(),
        ensures
            final(self)@ == src@,
    {
        let n = src.len();
        let mut i: usize = 0;
        while i < n
            invariant
                i <= n,
                n == src@.len(),
                self.bytes@.len() == n,
                forall|j: int| 0 <= j < i ==> self.bytes@[j] == src@[j],
            decreases n - i,
        {
            let b = src[i];
            self.bytes.set(i, b);
            i += 1;
        }
        proof {
            assert(self.bytes@ =~= src@);
        }
    }

    /// Drop write permission and grant execute permission, in that
    /// order and atomically from the owner's point of view: the
    /// writable view is consumed, so no write can follow, and nothing
    /// could execute the region before this call.
    pub fn seal(self) -> (r: ExecutableRegion)
        ensures
            r@ == self@,
    {
        ExecutableRegion { bytes: self.bytes }
    }
}

impl ExecutableRegion {
    /// The machine code the region holds, byte for byte.
    pub closed spec fn view(&self) -> Seq<u8> {
        self.bytes@
    }

    /// Take ownership of a region the native compiler populated and
    /// sealed itself; `code` is its content, byte for byte. From here
    /// on the region is the caller's sole property.
    pub fn adopt(code: Vec<u8>) -> (r: ExecutableRegion)
        ensures
            r@ == code@,
    {
        ExecutableRegion { bytes: code }
    }

    /// Size in bytes of the mapping.
    pub fn len(&self) -> (r: usize)
        ensures
            r == self@.len(),
    {
        self.bytes.len()
    }

    /// The region's content, copied out. This is the read that
    /// duplication performs; it never exposes the mapping itself.
    pub fn contents(&self) -> (r: Vec<u8>)
        ensures
            r@ == self@,
    {
        let mut out: Vec<u8> = Vec::new();
        let n = self.bytes.len();
        let mut i: usize = 0;
        while i < n
            invariant
                i <= n,
                n == self.bytes@.len(),
                out@ == self.bytes@.take(i as int),
            decreases n - i,
        {
            let b = self.bytes[i];
            proof {
                assert(self.bytes@.take(i + 1) =~= self.bytes@.take(i as int).push(self.bytes@[i as int]));
            }
            out.push(b);
            i += 1;
        }
        proof {
            assert(self.bytes@.take(n as int) =~= self.bytes@);
        }
        out
    }

    /// Duplicate the region under the write-xor-execute protocol,
    /// strictly in this order: map a fresh region writable, copy the
    /// machine code into it byte for byte, then seal it read+execute.
    /// The copy is a fully independent mapping of the same size.
    pub fn duplicate(&self) -> (r: ExecutableRegion)
        ensures
            r@ == self@,
    {
        let mut fresh = WritableRegion::allocate(self.bytes.len());
        fresh.fill(&self.bytes);
        fresh.seal()
    }

    /// Unmap the region, returning its memory to the operating system,
    /// and report how many bytes were freed. Releasing takes the region
    /// by value: a region can be released at most once, and never read,
    /// run or duplicated afterwards.
    pub fn release(self) -> (freed: usize)
        ensures
            freed == self@.len(),
    {
        self.bytes.len()
    }
}

} // verus!
