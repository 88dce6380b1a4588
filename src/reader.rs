//! The reader handle: owns the mapped file and is the source of every record.
use vstd::prelude::*;

use crate::error::{bridge_error, prefixed_error, BridgeError, ErrorKind};
use crate::mapped::{error_text, is_io_error, map_file};
use crate::record::{BinseqRecord, RecordInfo};

verus! {

/// What the header of an open file says of its records.
#[derive(Clone, Copy, Debug, PartialEq, Eq, Structural)]
pub struct BinseqHeaderInfo {
    /// Length of the primary payload, in bases.
    pub slen: u32,
    /// Length of the extended payload, in bases; zero in an unpaired file.
    pub xlen: u32,
    /// Version of the file format.
    pub format_version: u8,
}

/// An open, memory-mapped sequence file.
///
/// Every record view taken from it borrows it, so it cannot be dropped while
/// one of them is alive.
pub struct BinseqReader {
    inner: binseq::MmapReader,
    records: usize,
    info: BinseqHeaderInfo,
}

/// The message prefix of a failed open.
pub const OPEN_FAILED: &'static str = "Failed to open file: ";

/// The message of a lookup past the last record.
pub const OUT_OF_RANGE: &'static str = "Failed to get record: record index is out of range";

/// Whether record `index` exists in a file of `count` records.
pub open spec fn index_in_range(index: int, count: int) -> bool {
    0 <= index < count
}

/// Whether `r` is, when a failure, one of an open: an `IoFailure` or a
/// `FormatInvalid` whose message starts with `OPEN_FAILED`.
pub open spec fn open_outcome<T>(r: Result<T, BridgeError>) -> bool {
    match r {
        Ok(_) => true,
        Err(e) => (e.kind == ErrorKind::IoFailure || e.kind == ErrorKind::FormatInvalid)
            && crate::error::starts_with(e.message@, OPEN_FAILED@),
    }
}

/// What a lookup of record `index` in `reader` returns and leaves in the
/// slot: the record when the index is below the record count, and otherwise
/// an `IndexOutOfRange` failure with an empty slot.
pub open spec fn lookup_outcome(
    reader: &BinseqReader,
    index: usize,
    r: Result<(), BridgeError>,
    after: Option<RecordInfo>,
) -> bool {
    if index_in_range(index as int, reader.record_count() as int) {
        r is Ok && reader.holds_record(after, index)
    } else {
        r matches Err(e) && e.kind == ErrorKind::IndexOutOfRange && e.message@ == OUT_OF_RANGE@
            && after is None
    }
}

impl BinseqReader {
    /// The number of records in the file.
    pub closed spec fn record_count(&self) -> nat {
        self.records as nat
    }

    /// The header of the file.
    pub closed spec fn header_spec(&self) -> BinseqHeaderInfo {
        self.info
    }

    /// Whether `info` describes record `index` of this file: its index, and
    /// the payload lengths that the header gives every record. Its flag is
    /// read from the file.
    pub open spec fn describes(&self, info: RecordInfo, index: usize) -> bool {
        &&& info.index == index
        &&& info.slen == self.header_spec().slen
        &&& info.xlen == self.header_spec().xlen
    }

    /// Whether slot contents `v` are record `index` of this file.
    pub open spec fn holds_record(&self, v: Option<RecordInfo>, index: usize) -> bool {
        match v {
            Some(info) => self.describes(info, index),
            None => false,
        }
    }

    /// Wraps a freshly opened mapping, reading its record count and header once.
    fn from_mapping(inner: binseq::MmapReader) -> (r: BinseqReader) {
        let records = inner.num_records();
        let header = inner.header();
        BinseqReader {
            inner,
            records,
            info: BinseqHeaderInfo {
                slen: header.slen,
                xlen: header.xlen,
                format_version: header.format,
            },
        }
    }

    /// Takes over what the underlying reader returned for an open: a mapping
    /// becomes a reader, and a failure is reported with the reader's own text
    /// after the prefix `OPEN_FAILED`.
    pub fn from_open_result(opened: Result<binseq::MmapReader, binseq::Error>) -> (r: Result<
        BinseqReader,
        BridgeError,
    >)
        ensures
            r is Ok <==> opened is Ok,
            open_outcome(r),
    {
        match opened {
            Ok(inner) => Ok(BinseqReader::from_mapping(inner)),
            Err(e) => {
                let detail = error_text(&e);
                let kind = if is_io_error(&e) {
                    ErrorKind::IoFailure
                } else {
                    ErrorKind::FormatInvalid
                };
                let r = prefixed_error(kind, OPEN_FAILED, detail.as_str());
                assert(r.message@.subrange(0, OPEN_FAILED@.len() as int) =~= OPEN_FAILED@);
                Err(r)
            },
        }
    }

    /// Opens and maps the file at `path`. Whether that succeeds is up to the
    /// file system and the file; a failure is an `IoFailure` or a
    /// `FormatInvalid` whose message starts with `OPEN_FAILED`.
    pub fn open(path: &str) -> (r: Result<BinseqReader, BridgeError>)
        ensures
            open_outcome(r),
    {
        BinseqReader::from_open_result(map_file(path))
    }

    /// The number of records in the file.
    pub fn num_records(&self) -> (r: usize)
        ensures
            r == self.record_count(),
    {
        self.records
    }

    /// The lengths and format version from the file's header.
    pub fn header_info(&self) -> (r: BinseqHeaderInfo)
        ensures
            r == self.header_spec(),
    {
        self.info
    }

    /// The record view at `index`, for an index below the record count.
    fn view_at<'a>(&'a self, index: usize) -> (r: binseq::RefRecord<'a>)
        requires
            index < self.record_count(),
    {
        record_of(self, index).unwrap()
    }

    /// Looks up record `index` into `slot`, replacing what it held. An index at
    /// or past the record count fails with `IndexOutOfRange` and leaves the
    /// slot empty.
    pub fn lookup_into<'a>(&'a self, index: usize, slot: &mut BinseqRecord<'a>) -> (r: Result<
        (),
        BridgeError,
    >)
        ensures
            lookup_outcome(self, index, r, final(slot)@),
    {
        if index >= self.records {
            slot.clear();
            return Err(bridge_error(ErrorKind::IndexOutOfRange, OUT_OF_RANGE));
        }
        let view = self.view_at(index);
        slot.set(view, index, self.info.slen, self.info.xlen);
        Ok(())
    }

    /// Looks up record `index` into a new slot of its own.
    pub fn get_record<'a>(&'a self, index: usize) -> (r: Result<BinseqRecord<'a>, BridgeError>)
        ensures
            r is Ok <==> index_in_range(index as int, self.record_count() as int),
            r matches Ok(rec) ==> self.holds_record(rec@, index),
            r matches Err(e) ==> e.kind == ErrorKind::IndexOutOfRange && e.message@
                == OUT_OF_RANGE@,
    {
        let mut slot = BinseqRecord::new();
        match self.lookup_into(index, &mut slot) {
            Ok(()) => Ok(slot),
            Err(e) => Err(e),
        }
    }
}

/// Relies on `MmapReader::get`: for an index below `num_records()` it slices
/// that record out of the mapping and returns it. `records` holds what
/// `num_records()` returned for this same reader, which is never changed after
/// open. (At `num_records()` itself the source would slice past the mapping and
/// panic, hence the bound.)
#[verifier::external_body]
fn record_of<'a>(reader: &'a BinseqReader, index: usize) -> (r: Result<
    binseq::RefRecord<'a>,
    binseq::Error,
>)
    requires
        index < reader.record_count(),
    ensures
        r is Ok,
{
    reader.inner.get(index)
}

/// Opens the file at `path`.
pub fn new_binseq_reader(path: &str) -> (r: Result<BinseqReader, BridgeError>)
    ensures
        open_outcome(r),
{
    BinseqReader::open(path)
}

} // verus!
