use std::io::Write;

use binseq::{BinseqHeader, BinseqWriterBuilder};
use binseq_bridge::buffer::{binseq_context_new, copy_into, new_binseq_buffer};
use binseq_bridge::error::{BridgeError, ErrorKind, ErrorSlot};
use binseq_bridge::reader::{new_binseq_reader, BinseqReader};
use binseq_bridge::record::BinseqRecord;
use binseq_bridge::surface::{
    binseq_context_copy_extended, binseq_context_copy_primary, binseq_context_extended_len,
    binseq_context_extended_ptr, binseq_context_primary_len, binseq_context_primary_ptr,
    binseq_last_error, binseq_reader_get_record, binseq_reader_num_records, binseq_reader_open,
    binseq_reader_slen, binseq_reader_xlen, binseq_record_clear, binseq_record_decode_extended,
    binseq_record_decode_primary, binseq_record_flag, binseq_record_is_empty,
    binseq_record_is_paired, binseq_record_new,
};
use tempfile::NamedTempFile;

fn unpaired_file(slen: u32, records: &[(u64, &[u8])]) -> NamedTempFile {
    let file = NamedTempFile::new().unwrap();
    let mut writer = BinseqWriterBuilder::default()
        .header(BinseqHeader::new(slen))
        .build(file)
        .unwrap();
    for (flag, seq) in records {
        assert!(writer.write_nucleotides(*flag, seq).unwrap());
    }
    writer.flush().unwrap();
    writer.into_inner()
}

fn paired_file(slen: u32, xlen: u32, records: &[(u64, &[u8], &[u8])]) -> NamedTempFile {
    let file = NamedTempFile::new().unwrap();
    let mut writer = BinseqWriterBuilder::default()
        .header(BinseqHeader::new_extended(slen, xlen))
        .build(file)
        .unwrap();
    for (flag, s, x) in records {
        assert!(writer.write_paired(*flag, s, x).unwrap());
    }
    writer.flush().unwrap();
    writer.into_inner()
}

fn open(file: &NamedTempFile) -> BinseqReader {
    BinseqReader::open(file.path().to_str().unwrap()).unwrap()
}

fn three_unpaired() -> NamedTempFile {
    unpaired_file(
        10,
        &[(7, b"ACGTACGTAC"), (9, b"TTTTGGGGCC"), (11, b"CACACACACA")],
    )
}

fn error_of<T>(r: Result<T, BridgeError>) -> BridgeError {
    match r {
        Ok(_) => panic!("expected a failure"),
        Err(e) => e,
    }
}

#[test]
fn three_records_unpaired_scenario() {
    let file = three_unpaired();
    let reader = open(&file);
    assert_eq!(reader.num_records(), 3);
    let info = reader.header_info();
    assert_eq!(info.slen, 10);
    assert_eq!(info.xlen, 0);
    assert_eq!(info.format_version, 1);

    let mut slot = binseq_record_new();
    assert!(binseq_reader_get_record(Some(&reader), 0, Some(&mut slot)).is_ok());
    assert!(!binseq_record_is_paired(Some(&slot)));

    let mut ctx = binseq_context_new();
    let e = error_of(binseq_record_decode_extended(Some(&slot), Some(&mut ctx)));
    assert_eq!(e.kind, ErrorKind::DecodeFailure);
    assert!(e.message.starts_with("Failed to decode paired sequence: "));
    assert_eq!(binseq_context_extended_len(Some(&ctx)), 0);
    assert!(binseq_context_extended_ptr(Some(&ctx)).is_none());
}

#[test]
fn open_missing_file_reports_open_failure() {
    let r = binseq_reader_open(Some(b"/no/such/directory/records.bq".as_slice()));
    let e = error_of(r);
    assert_eq!(e.kind, ErrorKind::IoFailure);
    let mut errors = ErrorSlot::new();
    errors.record(&e);
    assert!(binseq_last_error(&errors).unwrap().contains("Failed to open file"));

    let e = error_of(new_binseq_reader("/no/such/directory/records.bq"));
    assert!(e.message.starts_with("Failed to open file: "));
}

#[test]
fn reused_slot_is_overwritten_whole() {
    let file = three_unpaired();
    let reader = open(&file);
    let mut slot = binseq_record_new();
    assert!(binseq_reader_get_record(Some(&reader), 0, Some(&mut slot)).is_ok());
    assert_eq!(binseq_record_flag(Some(&slot)), 7);
    assert_eq!(slot.id(), 0);
    assert!(binseq_reader_get_record(Some(&reader), 1, Some(&mut slot)).is_ok());
    assert_eq!(binseq_record_flag(Some(&slot)), 9);
    assert_eq!(slot.id(), 1);
    let mut ctx = binseq_context_new();
    assert_eq!(binseq_record_decode_primary(Some(&slot), Some(&mut ctx)).unwrap(), 10);
    assert_eq!(binseq_context_primary_ptr(Some(&ctx)).unwrap(), b"TTTTGGGGCC");
}

#[test]
fn lookup_in_range_populates_and_past_range_clears() {
    let file = three_unpaired();
    let reader = open(&file);
    let mut slot = binseq_record_new();
    for idx in 0..3 {
        assert!(binseq_reader_get_record(Some(&reader), idx, Some(&mut slot)).is_ok());
        assert!(!binseq_record_is_empty(Some(&slot)));
        assert_eq!(slot.id(), idx);
    }
    for idx in [3usize, 4, 100, usize::MAX] {
        let e = error_of(binseq_reader_get_record(Some(&reader), idx, Some(&mut slot)));
        assert_eq!(e.kind, ErrorKind::IndexOutOfRange);
        assert!(e.message.starts_with("Failed to get record"));
        assert!(binseq_record_is_empty(Some(&slot)));
        assert_eq!(binseq_record_flag(Some(&slot)), 0);
    }
}

#[test]
fn owned_lookup_gives_a_populated_record() {
    let file = three_unpaired();
    let reader = open(&file);
    let rec = reader.get_record(2).unwrap();
    assert_eq!(rec.flag(), 11);
    assert_eq!(rec.id(), 2);
    assert!(!rec.is_paired());
    let mut buf = new_binseq_buffer();
    assert_eq!(rec.decode_primary(&mut buf).unwrap(), 10);
    assert_eq!(buf.data(), b"CACACACACA");
    assert_eq!(error_of(reader.get_record(3)).kind, ErrorKind::IndexOutOfRange);
}

#[test]
fn decoding_twice_gives_identical_bytes() {
    let file = three_unpaired();
    let reader = open(&file);
    let rec = reader.get_record(0).unwrap();
    let mut buf = new_binseq_buffer();
    let first_len = rec.decode_primary(&mut buf).unwrap();
    let first = buf.data().to_vec();
    let second_len = rec.decode_primary(&mut buf).unwrap();
    assert_eq!(first_len, second_len);
    assert_eq!(first, buf.data().to_vec());
    assert_eq!(first, b"ACGTACGTAC".to_vec());
}

#[test]
fn copy_never_exceeds_capacity() {
    let file = three_unpaired();
    let reader = open(&file);
    let mut slot = binseq_record_new();
    binseq_reader_get_record(Some(&reader), 0, Some(&mut slot)).unwrap();
    let mut ctx = binseq_context_new();
    binseq_record_decode_primary(Some(&slot), Some(&mut ctx)).unwrap();
    for capacity in [0usize, 1, 4, 9, 10, 11, 32] {
        let mut dest = vec![0xEEu8; capacity + 4];
        let n = binseq_context_copy_primary(Some(&ctx), Some(&mut dest[..capacity]));
        assert_eq!(n, capacity.min(10));
        assert_eq!(&dest[..n], &b"ACGTACGTAC"[..n]);
        assert!(dest[n..].iter().all(|b| *b == 0xEE));
    }
    let mut dest = [0u8; 4];
    assert_eq!(binseq_context_copy_primary(None, Some(&mut dest)), 0);
    assert_eq!(binseq_context_copy_primary(Some(&ctx), None), 0);
    assert_eq!(binseq_context_copy_extended(Some(&ctx), Some(&mut dest)), 0);
    assert_eq!(dest, [0u8; 4]);
}

#[test]
fn copy_into_takes_the_shorter_length() {
    let mut small = [1u8, 2];
    assert_eq!(copy_into(b"xyz", &mut small), 2);
    assert_eq!(small, *b"xy");
    let mut large = [0u8; 5];
    assert_eq!(copy_into(b"xyz", &mut large), 3);
    assert_eq!(large, [b'x', b'y', b'z', 0, 0]);
    let mut empty: [u8; 0] = [];
    assert_eq!(copy_into(b"xyz", &mut empty), 0);
}

#[test]
fn cleared_buffer_has_no_contents() {
    let file = three_unpaired();
    let reader = open(&file);
    let rec = reader.get_record(1).unwrap();
    let mut ctx = binseq_context_new();
    rec.decode_primary(&mut ctx.sbuf).unwrap();
    assert_eq!(binseq_context_primary_len(Some(&ctx)), 10);
    assert!(binseq_context_primary_ptr(Some(&ctx)).is_some());
    ctx.sbuf.clear();
    assert_eq!(binseq_context_primary_len(Some(&ctx)), 0);
    assert!(binseq_context_primary_ptr(Some(&ctx)).is_none());
    assert_eq!(ctx.sbuf.len(), 0);
    assert!(ctx.sbuf.contents().is_none());
}

#[test]
fn paired_record_decodes_both_payloads_into_separate_buffers() {
    let file = paired_file(6, 4, &[(3, b"ACGTTG", b"GGCA"), (5, b"TTTTTT", b"AAAA")]);
    let reader = open(&file);
    assert_eq!(binseq_reader_num_records(Some(&reader)), 2);
    assert_eq!(binseq_reader_slen(Some(&reader)), 6);
    assert_eq!(binseq_reader_xlen(Some(&reader)), 4);
    let mut slot = binseq_record_new();
    binseq_reader_get_record(Some(&reader), 1, Some(&mut slot)).unwrap();
    assert!(binseq_record_is_paired(Some(&slot)));
    let mut ctx = binseq_context_new();
    assert_eq!(binseq_record_decode_primary(Some(&slot), Some(&mut ctx)).unwrap(), 6);
    assert_eq!(binseq_record_decode_extended(Some(&slot), Some(&mut ctx)).unwrap(), 4);
    assert_eq!(binseq_context_primary_ptr(Some(&ctx)).unwrap(), b"TTTTTT");
    assert_eq!(binseq_context_extended_ptr(Some(&ctx)).unwrap(), b"AAAA");
    let mut dest = [0u8; 3];
    assert_eq!(binseq_context_copy_extended(Some(&ctx), Some(&mut dest)), 3);
    assert_eq!(dest, *b"AAA");
}

#[test]
fn empty_slot_decode_reports_empty_view_and_clears() {
    let file = three_unpaired();
    let reader = open(&file);
    let mut slot = binseq_record_new();
    binseq_reader_get_record(Some(&reader), 0, Some(&mut slot)).unwrap();
    let mut ctx = binseq_context_new();
    binseq_record_decode_primary(Some(&slot), Some(&mut ctx)).unwrap();
    binseq_record_clear(Some(&mut slot));
    assert!(binseq_record_is_empty(Some(&slot)));
    let e = error_of(binseq_record_decode_primary(Some(&slot), Some(&mut ctx)));
    assert_eq!(e.kind, ErrorKind::EmptyView);
    assert_eq!(e.message, "Empty record");
    assert_eq!(binseq_context_primary_len(Some(&ctx)), 0);
    let empty: BinseqRecord = BinseqRecord::new();
    assert_eq!(error_of(empty.decode_extended(&mut ctx.xbuf)).kind, ErrorKind::EmptyView);
}

#[test]
fn missing_handles_give_neutral_results() {
    assert_eq!(binseq_reader_num_records(None), 0);
    assert_eq!(binseq_reader_slen(None), 0);
    assert_eq!(binseq_reader_xlen(None), 0);
    assert!(binseq_record_is_empty(None));
    assert_eq!(binseq_record_flag(None), 0);
    assert!(!binseq_record_is_paired(None));
    binseq_record_clear(None);
    assert_eq!(binseq_context_primary_len(None), 0);
    assert!(binseq_context_primary_ptr(None).is_none());
    let mut slot = binseq_record_new();
    let e = error_of(binseq_reader_get_record(None, 0, Some(&mut slot)));
    assert_eq!((e.kind, e.message.as_str()), (ErrorKind::NullArgument, "Null reader"));
    let file = three_unpaired();
    let reader = open(&file);
    let e = error_of(binseq_reader_get_record(Some(&reader), 0, None));
    assert_eq!(e.message, "Null record container");
    let mut ctx = binseq_context_new();
    let e = error_of(binseq_record_decode_primary(None, Some(&mut ctx)));
    assert_eq!(e.kind, ErrorKind::NullArgument);
    let e = error_of(binseq_record_decode_extended(Some(&slot), None));
    assert_eq!(e.kind, ErrorKind::NullArgument);
}

#[test]
fn open_checks_the_path_text() {
    let e = error_of(binseq_reader_open(None));
    assert_eq!((e.kind, e.message.as_str()), (ErrorKind::NullArgument, "Null path provided"));
    let e = error_of(binseq_reader_open(Some(&[0x66, 0xff, 0x6f][..])));
    assert_eq!((e.kind, e.message.as_str()), (ErrorKind::EncodingInvalid, "Invalid UTF-8 in path"));
    let file = three_unpaired();
    let path = file.path().to_str().unwrap().as_bytes().to_vec();
    let reader = binseq_reader_open(Some(&path)).unwrap();
    assert_eq!(binseq_reader_num_records(Some(&reader)), 3);
}

#[test]
fn open_rejects_a_malformed_file() {
    let mut file = NamedTempFile::new().unwrap();
    file.write_all(&[0u8; 40]).unwrap();
    file.flush().unwrap();
    let e = error_of(BinseqReader::open(file.path().to_str().unwrap()));
    assert_eq!(e.kind, ErrorKind::FormatInvalid);
    assert!(e.message.starts_with("Failed to open file: "));
    assert!(e.message.len() > "Failed to open file: ".len());
}

#[test]
fn error_slot_keeps_the_last_whole_message() {
    let mut errors = ErrorSlot::new();
    assert!(errors.last_error().is_none());
    errors.set_last_error("first");
    errors.set_last_error("second");
    assert_eq!(errors.last_error().unwrap(), "second");
    errors.set_last_error("bad\0text");
    assert_eq!(errors.last_error().unwrap(), "Error message contains invalid UTF-8");
}

#[test]
fn buffer_contents_can_be_changed_in_place() {
    let file = three_unpaired();
    let reader = open(&file);
    let rec = reader.get_record(0).unwrap();
    let mut buf = new_binseq_buffer();
    assert!(buf.data().is_empty());
    rec.decode_primary(&mut buf).unwrap();
    buf.data_mut()[0] = b'N';
    assert_eq!(buf.data(), b"NCGTACGTAC");
    buf.clear();
    assert!(buf.data_mut().is_empty());
}

#[test]
fn open_failures_are_classified_by_their_cause() {
    let not_regular = binseq::Error::from(binseq::ReadError::IncompatibleFile);
    let e = error_of(BinseqReader::from_open_result(Err(not_regular)));
    assert_eq!(e.kind, ErrorKind::FormatInvalid);
    assert_eq!(e.message, "Failed to open file: File is not regular");

    let missing = binseq::Error::from(std::io::Error::new(std::io::ErrorKind::NotFound, "gone"));
    let e = error_of(BinseqReader::from_open_result(Err(missing)));
    assert_eq!(e.kind, ErrorKind::IoFailure);
    assert_eq!(e.message, "Failed to open file: gone");

    let e = error_of(binseq_reader_open(Some("/no/such/dïr/records.bq".as_bytes())));
    assert_eq!(e.kind, ErrorKind::IoFailure);
}
