//! Reusable byte buffers that receive decoded payloads, and the copy out of
//! them into memory the caller owns.
use vstd::prelude::*;

verus! {

/// A growable byte buffer that holds the most recently decoded payload.
///
/// Clearing keeps its capacity, so repeated decodes do not allocate anew.
pub struct BinseqBuffer {
    pub(crate) buffer: Vec<u8>,
}

impl View for BinseqBuffer {
    type V = Seq<u8>;

    closed spec fn view(&self) -> Seq<u8> {
        self.buffer@
    }
}

/// A new, empty buffer.
pub fn new_binseq_buffer() -> (r: BinseqBuffer)
    ensures
        r@.len() == 0,
{
    BinseqBuffer { buffer: Vec::new() }
}

/// Whether `r` is what a buffer holding `contents` exposes: its bytes, or
/// nothing when it is empty.
pub open spec fn exposes(contents: Seq<u8>, r: Option<&[u8]>) -> bool {
    match r {
        Some(s) => contents.len() > 0 && s@ == contents,
        None => contents.len() == 0,
    }
}

/// The number of bytes that a copy of `len` bytes into room for `capacity` moves.
pub open spec fn copy_count(len: nat, capacity: nat) -> nat {
    if len < capacity {
        len
    } else {
        capacity
    }
}

/// Whether `after` is `before` with its first `k` bytes taken from `src`.
pub open spec fn copied_prefix(before: Seq<u8>, after: Seq<u8>, src: Seq<u8>, k: nat) -> bool {
    &&& after.len() == before.len()
    &&& after.subrange(0, k as int) == src.subrange(0, k as int)
    &&& after.subrange(k as int, after.len() as int) == before.subrange(
        k as int,
        before.len() as int,
    )
}

/// Copies as much of `src` as fits into `dest` and returns how many bytes
/// that was. Nothing past that count is touched.
pub fn copy_into(src: &[u8], dest: &mut [u8]) -> (r: usize)
    ensures
        r == copy_count(src@.len(), old(dest)@.len()),
        copied_prefix(old(dest)@, final(dest)@, src@, r as nat),
{
    let k: usize = if src.len() < dest.len() {
        src.len()
    } else {
        dest.len()
    };
    let mut i: usize = 0;
    while i < k
        invariant
            k == copy_count(src@.len(), old(dest)@.len()),
            i <= k,
            dest@.len() == old(dest)@.len(),
            forall|j: int| 0 <= j < i ==> dest@[j] == src@[j],
            forall|j: int| i <= j < dest@.len() ==> dest@[j] == old(dest)@[j],
        decreases k - i,
    {
        dest[i] = src[i];
        i = i + 1;
    }
    assert(dest@.subrange(0, k as int) =~= src@.subrange(0, k as int));
    assert(dest@.subrange(k as int, dest@.len() as int) =~= old(dest)@.subrange(
        k as int,
        old(dest)@.len() as int,
    ));
    k
}

impl BinseqBuffer {
    /// The decoded bytes.
    pub fn data(&self) -> (r: &[u8])
        ensures
            r@ == self@,
    {
        self.buffer.as_slice()
    }

    /// The decoded bytes, open to change in place; what is written through
    /// the slice is the buffer's new contents.
    pub fn data_mut(&mut self) -> (r: &mut [u8])
        ensures
            r@ == old(self)@,
            final(self)@ == final(r)@,
    {
        self.buffer.as_mut_slice()
    }

    /// The number of decoded bytes.
    pub fn len(&self) -> (r: usize)
        ensures
            r == self@.len(),
    {
        self.buffer.len()
    }

    /// The decoded bytes, or nothing when the buffer is empty.
    pub fn contents(&self) -> (r: Option<&[u8]>)
        ensures
            exposes(self@, r),
    {
        if self.buffer.len() == 0 {
            None
        } else {
            Some(self.buffer.as_slice())
        }
    }

    /// Empties the buffer, keeping its capacity.
    pub fn clear(&mut self)
        ensures
            final(self)@.len() == 0,
    {
        self.buffer.clear();
    }

    /// Copies as much of the buffer as fits into `dest`; see `copy_into`.
    pub fn copy_to(&self, dest: &mut [u8]) -> (r: usize)
        ensures
            r == copy_count(self@.len(), old(dest)@.len()),
            copied_prefix(old(dest)@, final(dest)@, self@, r as nat),
    {
        copy_into(self.buffer.as_slice(), dest)
    }
}

/// A decoding session: one buffer for the primary payload and one for the
/// extended payload, so that decoding both of a record keeps both.
pub struct BinseqContext {
    pub sbuf: BinseqBuffer,
    pub xbuf: BinseqBuffer,
}

/// A new session with two empty buffers.
pub fn binseq_context_new() -> (r: BinseqContext)
    ensures
        r.sbuf@.len() == 0,
        r.xbuf@.len() == 0,
{
    BinseqContext { sbuf: new_binseq_buffer(), xbuf: new_binseq_buffer() }
}

} // verus!
