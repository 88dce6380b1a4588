//! The record slot: a reusable container that holds at most one record view.
use vstd::prelude::*;

use crate::buffer::BinseqBuffer;
use crate::error::{bridge_error, prefixed_error, BridgeError, ErrorKind};
use crate::mapped::error_text;

verus! {

/// What a populated slot holds, as plain values.
#[derive(Clone, Copy, Debug, PartialEq, Eq, Structural)]
pub struct RecordInfo {
    /// The record's position in the file.
    pub index: usize,
    /// The record's flag word.
    pub flag: u64,
    /// Length of the primary payload, in bases.
    pub slen: u32,
    /// Length of the extended payload, in bases.
    pub xlen: u32,
}

/// A record view together with what was read of it when it was looked up.
pub(crate) struct RecordEntry<'a> {
    pub(crate) view: binseq::RefRecord<'a>,
    pub(crate) info: RecordInfo,
}

/// A slot that holds no record or one record of a reader that outlives it.
///
/// A lookup replaces the contents whole; a failed lookup empties it.
pub struct BinseqRecord<'a> {
    record: Option<RecordEntry<'a>>,
}

impl<'a> View for BinseqRecord<'a> {
    type V = Option<RecordInfo>;

    closed spec fn view(&self) -> Option<RecordInfo> {
        match self.record {
            Some(entry) => Some(entry.info),
            None => None,
        }
    }
}

/// Whether byte `b` is one of the letters A, C, G, T.
pub open spec fn is_base(b: u8) -> bool {
    b == 65u8 || b == 67u8 || b == 71u8 || b == 84u8
}

/// Whether every byte of `s` is a base letter.
pub open spec fn all_bases(s: Seq<u8>) -> bool {
    forall|i: int| 0 <= i < s.len() ==> is_base(#[trigger] s[i])
}

/// The length in bases of the payload that a decode asks for.
pub open spec fn payload_len(info: RecordInfo, extended: bool) -> nat {
    if extended {
        info.xlen as nat
    } else {
        info.slen as nat
    }
}

/// The message of a decode on an empty slot.
pub const EMPTY_RECORD: &'static str = "Empty record";

/// The message prefix of a failed primary decode.
pub const PRIMARY_FAILED: &'static str = "Failed to decode sequence: ";

/// The message prefix of a failed extended decode.
pub const EXTENDED_FAILED: &'static str = "Failed to decode paired sequence: ";

/// What is said of a payload of no bases.
pub const NO_BASES: &'static str = "the record has no bases in this payload";

/// The message prefix of a failed decode of the given payload.
pub open spec fn failure_prefix(extended: bool) -> Seq<char> {
    if extended {
        EXTENDED_FAILED@
    } else {
        PRIMARY_FAILED@
    }
}

/// What a decode of slot contents `v` returns and leaves in the buffer:
/// an empty slot fails with `EmptyView`, a payload of no bases with
/// `DecodeFailure`, and any other yields its length in base letters. A failure
/// leaves the buffer empty.
pub open spec fn decode_outcome(
    v: Option<RecordInfo>,
    extended: bool,
    r: Result<usize, BridgeError>,
    out: Seq<u8>,
) -> bool {
    match v {
        None => r matches Err(e) && e.kind == ErrorKind::EmptyView && e.message@ == EMPTY_RECORD@
            && out.len() == 0,
        Some(info) => if payload_len(info, extended) == 0 {
            r matches Err(e) && e.kind == ErrorKind::DecodeFailure && e.message@
                == failure_prefix(extended) + NO_BASES@ && out.len() == 0
        } else {
            r matches Ok(n) && n == payload_len(info, extended) && out.len() == n && all_bases(out)
        },
    }
}

/// Relies on `RefRecord::decode_s`, which hands the record's primary words and
/// the header's `slen` (kept here as `info.slen`) to `bitnuc::decode`. Into an
/// empty buffer each of its code paths writes exactly `slen` bytes, each one
/// of A, C, G, T, and succeeds; at zero bases the portable path underflows.
#[verifier::external_body]
fn decode_primary_payload(entry: &RecordEntry, buf: &mut BinseqBuffer) -> (r: Result<(), binseq::Error>)
    requires
        entry.info.slen > 0,
        old(buf)@.len() == 0,
    ensures
        r is Ok,
        final(buf)@.len() == entry.info.slen,
        all_bases(final(buf)@),
{
    entry.view.decode_s(&mut buf.buffer)
}

/// Relies on `RefRecord::decode_x`, as `decode_primary_payload` does on
/// `decode_s`, with the extended words and the header's `xlen`.
#[verifier::external_body]
fn decode_extended_payload(entry: &RecordEntry, buf: &mut BinseqBuffer) -> (r: Result<(), binseq::Error>)
    requires
        entry.info.xlen > 0,
        old(buf)@.len() == 0,
    ensures
        r is Ok,
        final(buf)@.len() == entry.info.xlen,
        all_bases(final(buf)@),
{
    entry.view.decode_x(&mut buf.buffer)
}

/// Whether a record with extended length `xlen` is paired: the record layout
/// of the underlying reader has an extended payload exactly when the header's
/// `xlen` is not zero.
pub open spec fn paired(xlen: u32) -> bool {
    xlen > 0
}

impl<'a> BinseqRecord<'a> {
    /// An empty slot.
    pub fn new() -> (r: BinseqRecord<'a>)
        ensures
            r@ is None,
    {
        BinseqRecord { record: None }
    }

    /// Fills the slot with `view`, record `index` of a file whose records
    /// have payload lengths `slen` and `xlen`.
    pub(crate) fn set(&mut self, view: binseq::RefRecord<'a>, index: usize, slen: u32, xlen: u32)
        ensures
            final(self)@ matches Some(info) && info.index == index && info.slen == slen
                && info.xlen == xlen,
    {
        let flag = view.flag();
        self.record = Some(RecordEntry { view, info: RecordInfo { index, flag, slen, xlen } });
    }

    /// The entry held, if any.
    pub(crate) fn as_ref(&self) -> (r: Option<&RecordEntry<'a>>)
        ensures
            match r {
                Some(entry) => self@ == Some(entry.info),
                None => self@ is None,
            },
    {
        self.record.as_ref()
    }

    /// Whether the slot holds no record.
    pub fn is_empty(&self) -> (r: bool)
        ensures
            r == self@ is None,
    {
        self.record.is_none()
    }

    /// Empties the slot; it can be filled again by the next lookup.
    pub fn clear(&mut self)
        ensures
            final(self)@ is None,
    {
        self.record = None;
    }

    /// The record's flag word; zero for an empty slot.
    pub fn flag(&self) -> (r: u64)
        ensures
            r == match self@ {
                Some(info) => info.flag,
                None => 0,
            },
    {
        match &self.record {
            Some(entry) => entry.info.flag,
            None => 0,
        }
    }

    /// Whether the record carries an extended payload; false for an empty slot.
    pub fn is_paired(&self) -> (r: bool)
        ensures
            r == match self@ {
                Some(info) => paired(info.xlen),
                None => false,
            },
    {
        match &self.record {
            Some(entry) => entry.info.xlen > 0,
            None => false,
        }
    }

    /// Decodes the primary (`extended == false`) or extended payload into
    /// `buffer`, which is emptied first.
    fn decode_payload(&self, extended: bool, buffer: &mut BinseqBuffer) -> (r: Result<
        usize,
        BridgeError,
    >)
        ensures
            decode_outcome(self@, extended, r, final(buffer)@),
    {
        buffer.clear();
        let entry = match self.as_ref() {
            Some(entry) => entry,
            None => {
                return Err(bridge_error(ErrorKind::EmptyView, EMPTY_RECORD));
            },
        };
        let prefix = if extended {
            EXTENDED_FAILED
        } else {
            PRIMARY_FAILED
        };
        let n: u32 = if extended {
            entry.info.xlen
        } else {
            entry.info.slen
        };
        if n == 0 {
            return Err(prefixed_error(ErrorKind::DecodeFailure, prefix, NO_BASES));
        }
        let result = if extended {
            decode_extended_payload(entry, buffer)
        } else {
            decode_primary_payload(entry, buffer)
        };
        match result {
            Ok(()) => Ok(buffer.len()),
            Err(e) => {
                let detail = error_text(&e);
                buffer.clear();
                Err(prefixed_error(ErrorKind::DecodeFailure, prefix, detail.as_str()))
            },
        }
    }

    /// Decodes the primary payload into `buffer`, replacing its contents, and
    /// returns its length.
    pub fn decode_primary(&self, buffer: &mut BinseqBuffer) -> (r: Result<usize, BridgeError>)
        ensures
            decode_outcome(self@, false, r, final(buffer)@),
    {
        self.decode_payload(false, buffer)
    }

    /// Decodes the extended payload into `buffer`, replacing its contents, and
    /// returns its length. An unpaired record has none: that is a
    /// `DecodeFailure`.
    pub fn decode_extended(&self, buffer: &mut BinseqBuffer) -> (r: Result<usize, BridgeError>)
        ensures
            decode_outcome(self@, true, r, final(buffer)@),
    {
        self.decode_payload(true, buffer)
    }

    /// The record's position in the file; zero for an empty slot.
    pub fn id(&self) -> (r: usize)
        ensures
            r == match self@ {
                Some(info) => info.index,
                None => 0,
            },
    {
        match &self.record {
            Some(entry) => entry.info.index,
            None => 0,
        }
    }
}

} // verus!
