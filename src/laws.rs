//! Properties that relate several operations, stated over the views that
//! their contracts use.
use vstd::prelude::*;

use crate::buffer::{copied_prefix, copy_count, exposes, BinseqBuffer};
use crate::error::{BridgeError, ErrorKind};
use crate::reader::{lookup_outcome, BinseqReader};
use crate::record::{decode_outcome, RecordInfo};

verus! {

/// A lookup succeeds exactly for an index below the record count, and then
/// the slot is populated with that record; at or past the count it fails as
/// out of range and the slot reads as empty.
pub proof fn lookup_populates_exactly_in_range(
    reader: &BinseqReader,
    index: usize,
    r: Result<(), BridgeError>,
    after: Option<RecordInfo>,
)
    requires
        lookup_outcome(reader, index, r, after),
    ensures
        r is Ok <==> index < reader.record_count(),
        r is Ok <==> after is Some,
        r is Ok ==> after.unwrap().index == index,
        r matches Err(e) ==> e.kind == ErrorKind::IndexOutOfRange,
{
}

/// A lookup into a slot leaves nothing of what the slot held before: two slots
/// that receive the same record of the same reader agree on everything but
/// the flag word, which is read from the file.
pub proof fn lookup_leaves_no_residue(
    reader: &BinseqReader,
    index: usize,
    r1: Result<(), BridgeError>,
    after1: Option<RecordInfo>,
    r2: Result<(), BridgeError>,
    after2: Option<RecordInfo>,
)
    requires
        lookup_outcome(reader, index, r1, after1),
        lookup_outcome(reader, index, r2, after2),
    ensures
        r1 is Ok <==> r2 is Ok,
        after1 is Some <==> after2 is Some,
        after1 is Some ==> after1.unwrap().index == after2.unwrap().index && after1.unwrap().slen
            == after2.unwrap().slen && after1.unwrap().xlen == after2.unwrap().xlen,
{
}

/// Decoding the same payload of the same record twice gives the same outcome
/// class and the same length both times, whatever the buffer held before.
pub proof fn repeated_decode_same_length(
    v: Option<RecordInfo>,
    extended: bool,
    r1: Result<usize, BridgeError>,
    out1: Seq<u8>,
    r2: Result<usize, BridgeError>,
    out2: Seq<u8>,
)
    requires
        decode_outcome(v, extended, r1, out1),
        decode_outcome(v, extended, r2, out2),
    ensures
        r1 is Ok <==> r2 is Ok,
        out1.len() == out2.len(),
        r1 matches Ok(n1) ==> r2 matches Ok(n2) && n1 == n2,
{
}

/// A copy into room for `capacity` bytes moves at most `capacity` bytes and
/// at most the source's length, and leaves every byte at or past the count
/// as it was, so nothing is written past the room given.
pub proof fn copy_stays_within_capacity(
    src: Seq<u8>,
    before: Seq<u8>,
    after: Seq<u8>,
    r: nat,
)
    requires
        r == copy_count(src.len(), before.len()),
        copied_prefix(before, after, src, r),
    ensures
        r <= before.len(),
        r <= src.len(),
        r == src.len() || r == before.len(),
        after.len() == before.len(),
        forall|i: int| r <= i < before.len() ==> after[i] == before[i],
        forall|i: int| 0 <= i < r ==> after[i] == src[i],
{
    assert forall|i: int| r <= i < before.len() implies after[i] == before[i] by {
        assert(after.subrange(r as int, after.len() as int)[i - r] == after[i]);
        assert(before.subrange(r as int, before.len() as int)[i - r] == before[i]);
    }
    assert forall|i: int| 0 <= i < r implies after[i] == src[i] by {
        assert(after.subrange(0, r as int)[i] == after[i]);
        assert(src.subrange(0, r as int)[i] == src[i]);
    }
}

/// Once a buffer is cleared its length is zero and it exposes no bytes, until
/// the next decode fills it.
pub proof fn cleared_buffer_is_empty(cleared: BinseqBuffer, len: usize, r: Option<&[u8]>)
    requires
        cleared@.len() == 0,
        len == cleared@.len(),
        exposes(cleared@, r),
    ensures
        len == 0,
        r is None,
{
}

} // verus!
