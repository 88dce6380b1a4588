//! The operations handed to foreign callers. A missing handle is `None`, a
//! missing result is a zero, `false` or `None`, and every failure comes back
//! as a value.
use vstd::prelude::*;

use crate::buffer::{copied_prefix, copy_count, BinseqContext};
use crate::error::{bridge_error, BridgeError, ErrorKind, ErrorSlot};
use crate::mapped::{text_of, utf8_valid};
use crate::reader::{lookup_outcome, open_outcome, BinseqReader};
use crate::record::{decode_outcome, paired, BinseqRecord};

verus! {

/// The message when no path is given.
pub const NULL_PATH: &'static str = "Null path provided";

/// The message when the path is not UTF-8.
pub const BAD_PATH: &'static str = "Invalid UTF-8 in path";

/// The message when no reader is given.
pub const NULL_READER: &'static str = "Null reader";

/// The message when no record slot is given.
pub const NULL_RECORD: &'static str = "Null record container";

/// The message when no record or no decoding context is given.
pub const NULL_DECODE_ARGUMENT: &'static str = "Null record or context";

/// A failure of class `kind` with message `m`.
pub open spec fn is_failure<T>(r: Result<T, BridgeError>, kind: ErrorKind, m: Seq<char>) -> bool {
    r matches Err(e) && e.kind == kind && e.message@ == m
}

/// Opens the file whose path is the bytes `path`, a C string without its
/// terminating NUL.
pub fn binseq_reader_open(path: Option<&[u8]>) -> (r: Result<BinseqReader, BridgeError>)
    ensures
        path is None ==> is_failure(r, ErrorKind::NullArgument, NULL_PATH@),
        path matches Some(b) && !utf8_valid(b@) ==> is_failure(
            r,
            ErrorKind::EncodingInvalid,
            BAD_PATH@,
        ),
        path matches Some(b) && utf8_valid(b@) ==> open_outcome(r),
{
    let bytes = match path {
        Some(bytes) => bytes,
        None => {
            return Err(bridge_error(ErrorKind::NullArgument, NULL_PATH));
        },
    };
    match text_of(bytes) {
        Some(text) => BinseqReader::open(text),
        None => Err(bridge_error(ErrorKind::EncodingInvalid, BAD_PATH)),
    }
}

/// The number of records; zero without a reader.
pub fn binseq_reader_num_records(reader: Option<&BinseqReader>) -> (r: usize)
    ensures
        r == match reader {
            Some(rd) => rd.record_count(),
            None => 0,
        },
{
    match reader {
        Some(rd) => rd.num_records(),
        None => 0,
    }
}

/// The primary payload length; zero without a reader.
pub fn binseq_reader_slen(reader: Option<&BinseqReader>) -> (r: u32)
    ensures
        r == match reader {
            Some(rd) => rd.header_spec().slen,
            None => 0,
        },
{
    match reader {
        Some(rd) => rd.header_info().slen,
        None => 0,
    }
}

/// The extended payload length; zero without a reader.
pub fn binseq_reader_xlen(reader: Option<&BinseqReader>) -> (r: u32)
    ensures
        r == match reader {
            Some(rd) => rd.header_spec().xlen,
            None => 0,
        },
{
    match reader {
        Some(rd) => rd.header_info().xlen,
        None => 0,
    }
}

/// A new, empty record slot.
pub fn binseq_record_new<'a>() -> (r: BinseqRecord<'a>)
    ensures
        r@ is None,
{
    BinseqRecord::new()
}

/// Looks up record `idx` of `reader` into `record`, replacing what it held.
/// Past the last record the slot is emptied.
pub fn binseq_reader_get_record<'a>(
    reader: Option<&'a BinseqReader>,
    idx: usize,
    record: Option<&mut BinseqRecord<'a>>,
) -> (r: Result<(), BridgeError>)
    ensures
        reader is None ==> is_failure(r, ErrorKind::NullArgument, NULL_READER@),
        reader is Some && record is None ==> is_failure(
            r,
            ErrorKind::NullArgument,
            NULL_RECORD@,
        ),
        reader is Some && record is Some ==> lookup_outcome(
            reader.unwrap(),
            idx,
            r,
            final(record.unwrap())@,
        ),
{
    let reader = match reader {
        Some(reader) => reader,
        None => {
            return Err(bridge_error(ErrorKind::NullArgument, NULL_READER));
        },
    };
    match record {
        Some(slot) => reader.lookup_into(idx, slot),
        None => Err(bridge_error(ErrorKind::NullArgument, NULL_RECORD)),
    }
}

/// Empties `record`; nothing happens without one.
pub fn binseq_record_clear(record: Option<&mut BinseqRecord>)
    ensures
        record is Some ==> final(record.unwrap())@ is None,
{
    match record {
        Some(slot) => slot.clear(),
        None => {},
    }
}

/// Whether `record` holds no record; true without one.
pub fn binseq_record_is_empty(record: Option<&BinseqRecord>) -> (r: bool)
    ensures
        r == match record {
            Some(slot) => slot@ is None,
            None => true,
        },
{
    match record {
        Some(slot) => slot.is_empty(),
        None => true,
    }
}

/// The record's flag word; zero without a record.
pub fn binseq_record_flag(record: Option<&BinseqRecord>) -> (r: u64)
    ensures
        r == match record {
            Some(slot) => match slot@ {
                Some(info) => info.flag,
                None => 0,
            },
            None => 0,
        },
{
    match record {
        Some(slot) => slot.flag(),
        None => 0,
    }
}

/// Whether the record is paired; false without a record.
pub fn binseq_record_is_paired(record: Option<&BinseqRecord>) -> (r: bool)
    ensures
        r == match record {
            Some(slot) => match slot@ {
                Some(info) => paired(info.xlen),
                None => false,
            },
            None => false,
        },
{
    match record {
        Some(slot) => slot.is_paired(),
        None => false,
    }
}

/// Decodes the record's primary payload into the context's primary buffer
/// and returns its length.
pub fn binseq_record_decode_primary(
    record: Option<&BinseqRecord>,
    context: Option<&mut BinseqContext>,
) -> (r: Result<usize, BridgeError>)
    ensures
        record is None || context is None ==> is_failure(
            r,
            ErrorKind::NullArgument,
            NULL_DECODE_ARGUMENT@,
        ),
        record is Some && context is Some ==> decode_outcome(
            record.unwrap()@,
            false,
            r,
            final(context.unwrap()).sbuf@,
        ) && final(context.unwrap()).xbuf@ == old(context.unwrap()).xbuf@,
{
    match (record, context) {
        (Some(slot), Some(ctx)) => slot.decode_primary(&mut ctx.sbuf),
        _ => Err(bridge_error(ErrorKind::NullArgument, NULL_DECODE_ARGUMENT)),
    }
}

/// Decodes the record's extended payload into the context's extended buffer
/// and returns its length.
pub fn binseq_record_decode_extended(
    record: Option<&BinseqRecord>,
    context: Option<&mut BinseqContext>,
) -> (r: Result<usize, BridgeError>)
    ensures
        record is None || context is None ==> is_failure(
            r,
            ErrorKind::NullArgument,
            NULL_DECODE_ARGUMENT@,
        ),
        record is Some && context is Some ==> decode_outcome(
            record.unwrap()@,
            true,
            r,
            final(context.unwrap()).xbuf@,
        ) && final(context.unwrap()).sbuf@ == old(context.unwrap()).sbuf@,
{
    match (record, context) {
        (Some(slot), Some(ctx)) => slot.decode_extended(&mut ctx.xbuf),
        _ => Err(bridge_error(ErrorKind::NullArgument, NULL_DECODE_ARGUMENT)),
    }
}

/// The bytes of `buffer` when a context is given and the buffer is not empty.
pub open spec fn exposed(context: Option<&BinseqContext>, buffer: Seq<u8>, r: Option<&[u8]>) -> bool {
    match r {
        Some(s) => context is Some && buffer.len() > 0 && s@ == buffer,
        None => context is None || buffer.len() == 0,
    }
}

/// The decoded primary payload; nothing without a context or when it is
/// empty. Valid until the next primary decode.
pub fn binseq_context_primary_ptr(context: Option<&BinseqContext>) -> (r: Option<&[u8]>)
    ensures
        exposed(context, buffer_of(context, false), r),
{
    match context {
        Some(ctx) => ctx.sbuf.contents(),
        None => None,
    }
}

/// The length of the decoded primary payload; zero without a context.
pub fn binseq_context_primary_len(context: Option<&BinseqContext>) -> (r: usize)
    ensures
        r == buffer_of(context, false).len(),
{
    match context {
        Some(ctx) => ctx.sbuf.len(),
        None => 0,
    }
}

/// The decoded extended payload; nothing without a context or when it is
/// empty. Valid until the next extended decode.
pub fn binseq_context_extended_ptr(context: Option<&BinseqContext>) -> (r: Option<&[u8]>)
    ensures
        exposed(context, buffer_of(context, true), r),
{
    match context {
        Some(ctx) => ctx.xbuf.contents(),
        None => None,
    }
}

/// The length of the decoded extended payload; zero without a context.
pub fn binseq_context_extended_len(context: Option<&BinseqContext>) -> (r: usize)
    ensures
        r == buffer_of(context, true).len(),
{
    match context {
        Some(ctx) => ctx.xbuf.len(),
        None => 0,
    }
}

/// The contents of the primary or extended buffer of `context`; empty
/// without a context.
pub open spec fn buffer_of(context: Option<&BinseqContext>, extended: bool) -> Seq<u8> {
    match context {
        Some(ctx) => if extended {
            ctx.xbuf@
        } else {
            ctx.sbuf@
        },
        None => Seq::empty(),
    }
}

/// Copies what fits of the primary or extended payload into `dest` and
/// returns the count; zero, with nothing written, without a context or a
/// destination.
fn copy_out(context: Option<&BinseqContext>, extended: bool, dest: Option<&mut [u8]>) -> (r: usize)
    ensures
        context is None || dest is None ==> r == 0,
        context is Some && dest is Some ==> r == copy_count(
            buffer_of(context, extended).len(),
            old(dest.unwrap())@.len(),
        ) && copied_prefix(
            old(dest.unwrap())@,
            final(dest.unwrap())@,
            buffer_of(context, extended),
            r as nat,
        ),
{
    match (context, dest) {
        (Some(ctx), Some(d)) => if extended {
            ctx.xbuf.copy_to(d)
        } else {
            ctx.sbuf.copy_to(d)
        },
        _ => 0,
    }
}

/// Copies what fits of the decoded primary payload into `buffer`, whose
/// length is the room the caller has, and returns how many bytes that was.
pub fn binseq_context_copy_primary(context: Option<&BinseqContext>, buffer: Option<&mut [u8]>) -> (r: usize)
    ensures
        context is None || buffer is None ==> r == 0,
        context is Some && buffer is Some ==> r == copy_count(
            buffer_of(context, false).len(),
            old(buffer.unwrap())@.len(),
        ) && copied_prefix(
            old(buffer.unwrap())@,
            final(buffer.unwrap())@,
            buffer_of(context, false),
            r as nat,
        ),
{
    copy_out(context, false, buffer)
}

/// Copies what fits of the decoded extended payload into `buffer`, whose
/// length is the room the caller has, and returns how many bytes that was.
pub fn binseq_context_copy_extended(context: Option<&BinseqContext>, buffer: Option<&mut [u8]>) -> (r: usize)
    ensures
        context is None || buffer is None ==> r == 0,
        context is Some && buffer is Some ==> r == copy_count(
            buffer_of(context, true).len(),
            old(buffer.unwrap())@.len(),
        ) && copied_prefix(
            old(buffer.unwrap())@,
            final(buffer.unwrap())@,
            buffer_of(context, true),
            r as nat,
        ),
{
    copy_out(context, true, buffer)
}

/// The most recent failure message kept in `errors`, if any.
pub fn binseq_last_error(errors: &ErrorSlot) -> (r: Option<&String>)
    ensures
        match r {
            Some(m) => errors@ == Some(m@),
            None => errors@ is None,
        },
{
    errors.last_error()
}

} // verus!
