//! Byte-buffer and identity-hashing primitives shared across the VM's
//! crates: a cursor buffer that frames the bytes passed over the proving
//! boundary, and a hasher that uses a 32-bit key's own bits as its hash,
//! since addresses are already well-distributed.

use vstd::prelude::*;

verus! {

/// Which stage of the recursion tower a program belongs to.
#[derive(Debug, Clone, Copy)]
pub enum RecursionProgramType {
    /// A core (leaf) program.
    Core,
    /// A deferred-proofs program.
    Deferred,
    /// A compress-stage program.
    Compress,
    /// A shrink-stage program.
    Shrink,
    /// A wrap-stage program.
    Wrap,
}

/// A byte buffer with a read cursor. `data` holds the framed bytes; `ptr` is
/// the position the next read starts from. Writes append at the end and
/// leave the cursor alone.
#[derive(Debug, Clone)]
pub struct Buffer {
    /// The buffered bytes.
    pub data: Vec<u8>,
    /// The read cursor.
    pub ptr: usize,
}

impl Buffer {
    /// An empty buffer with the cursor at the start.
    pub fn new() -> (r: Buffer)
        ensures
            r.data@ == Seq::<u8>::empty(),
            r.ptr == 0,
    {
        Buffer { data: Vec::new(), ptr: 0 }
    }

    /// A buffer holding a copy of `data`, with the cursor at the start.
    pub fn from(data: &[u8]) -> (r: Buffer)
        ensures
            r.data@ == data@,
            r.ptr == 0,
    {
        let mut copied: Vec<u8> = Vec::new();
        let mut i: usize = 0;
        while i < data.len()
            invariant
                i <= data@.len(),
                copied@ == data@.subrange(0, i as int),
            decreases data@.len() - i,
        {
            copied.push(data[i]);
            proof {
                assert(copied@ =~= data@.subrange(0, (i + 1) as int));
            }
            i += 1;
        }
        proof {
            assert(copied@ =~= data@);
        }
        Buffer { data: copied, ptr: 0 }
    }

    /// Set the position ptr to the beginning of the buffer.
    pub fn head(&mut self)
        ensures
            final(self).ptr == 0,
            final(self).data == old(self).data,
    {
        self.ptr = 0;
    }

    /// Fill `slice` with the next `slice.len()` bytes from the cursor and
    /// advance the cursor past them.
    pub fn read_slice(&mut self, slice: &mut Vec<u8>)
        requires
            old(self).ptr + old(slice)@.len() <= old(self).data@.len(),
        ensures
            final(slice)@.len() == old(slice)@.len(),
            final(slice)@ == old(self).data@.subrange(
                old(self).ptr as int,
                old(self).ptr + old(slice)@.len(),
            ),
            final(self).data == old(self).data,
            final(self).ptr == old(self).ptr + old(slice)@.len(),
    {
        let n = slice.len();
        let available = self.data.len();
        let mut i: usize = 0;
        while i < n
            invariant
                i <= n,
                n == old(slice)@.len(),
                slice@.len() == n,
                self.ptr + n <= available,
                available == self.data@.len(),
                *self == *old(self),
                forall|j: int| 0 <= j < i ==> slice@[j] == self.data@[self.ptr + j],
            decreases n - i,
        {
            let byte = self.data[self.ptr + i];
            slice.set(i, byte);
            i += 1;
        }
        proof {
            assert(slice@ =~= old(self).data@.subrange(
                old(self).ptr as int,
                old(self).ptr + old(slice)@.len(),
            ));
        }
        self.ptr = self.ptr + n;
    }

    /// Write the slice of bytes to the end of the buffer.
    pub fn write_slice(&mut self, slice: &[u8])
        ensures
            final(self).data@ == old(self).data@ + slice@,
            final(self).ptr == old(self).ptr,
    {
        let mut i: usize = 0;
        while i < slice.len()
            invariant
                i <= slice@.len(),
                self.ptr == old(self).ptr,
                self.data@ == old(self).data@ + slice@.subrange(0, i as int),
            decreases slice@.len() - i,
        {
            self.data.push(slice[i]);
            proof {
                assert(old(self).data@ + slice@.subrange(0, (i + 1) as int) =~= (old(self).data@
                    + slice@.subrange(0, i as int)).push(slice@[i as int]));
            }
            i += 1;
        }
        proof {
            assert(old(self).data@ + slice@.subrange(0, slice@.len() as int) =~= old(self).data@
                + slice@);
        }
    }
}

impl Default for Buffer {
    /// Same as `Buffer::new`: empty, cursor at the start.
    fn default() -> (r: Buffer)
        ensures
            r.data@ == Seq::<u8>::empty(),
            r.ptr == 0,
    {
        Buffer::new()
    }
}

/// The little-endian 32-bit word spelled by four bytes.
pub open spec fn word_of_bytes(bytes: Seq<u8>) -> int {
    bytes[0] + 256 * bytes[1] + 65536 * bytes[2] + 16777216 * bytes[3]
}

/// A hasher for 32-bit keys that uses the key's own bits as the hash, with
/// no further mixing: memory addresses are already well-distributed.
pub struct IdentityHasher {
    /// The word written so far; the finished hash.
    pub hash: u64,
}

impl IdentityHasher {
    /// A hasher that has seen no bytes.
    pub fn new() -> (r: IdentityHasher)
        ensures
            r.hash == 0,
    {
        IdentityHasher { hash: 0 }
    }

    /// Absorb the four bytes of one 32-bit key, little-endian.
    pub fn write(&mut self, bytes: &[u8])
        requires
            bytes@.len() == 4,
        ensures
            final(self).hash == word_of_bytes(bytes@),
    {
        self.hash = (bytes[0] as u64) + 256 * (bytes[1] as u64) + 65536 * (bytes[2] as u64)
            + 16777216 * (bytes[3] as u64);
    }

    /// The finished hash.
    pub fn finish(&self) -> (r: u64)
        ensures
            r == self.hash,
    {
        self.hash
    }
}

impl Default for IdentityHasher {
    /// Same as `IdentityHasher::new`.
    fn default() -> (r: IdentityHasher)
        ensures
            r.hash == 0,
    {
        IdentityHasher::new()
    }
}

/// Builds [`IdentityHasher`]s; carries no state of its own.
#[derive(Clone)]
pub struct IdentityBuildHasher;

impl IdentityBuildHasher {
    /// A fresh identity hasher.
    pub fn build_hasher(&self) -> (r: IdentityHasher)
        ensures
            r.hash == 0,
    {
        IdentityHasher::new()
    }
}

impl Default for IdentityBuildHasher {
    /// The builder is stateless.
    fn default() -> (r: IdentityBuildHasher)
        ensures
            true,
    {
        IdentityBuildHasher
    }
}

} // verus!
