//! What this library takes from the `binseq` crate: its reader, its record
//! view, its header and its error, and the few calls made on them.
use vstd::prelude::*;
use vstd::string::*;

verus! {

#[verifier::external_type_specification]
#[verifier::external_body]
pub struct ExMmapReader(binseq::MmapReader);

#[verifier::external_type_specification]
#[verifier::external_body]
pub struct ExRefRecord<'a>(binseq::RefRecord<'a>);

#[verifier::external_type_specification]
#[verifier::external_body]
pub struct ExBinseqError(binseq::Error);

#[verifier::external_type_specification]
pub struct ExBinseqHeader(binseq::BinseqHeader);

/// Relies on `MmapReader::new`: opens and maps the file at `path`, then checks
/// its header and its size. What comes back depends on the file system, so
/// nothing is promised of it.
#[verifier::external_body]
pub(crate) fn map_file(path: &str) -> (r: Result<binseq::MmapReader, binseq::Error>) {
    binseq::MmapReader::new(path)
}

/// Relies on `MmapReader::num_records`: the number of whole records after the
/// header of the mapped file.
pub assume_specification[ binseq::MmapReader::num_records ](reader: &binseq::MmapReader) -> usize;

/// Relies on `MmapReader::header`: a copy of the header read at open.
pub assume_specification[ binseq::MmapReader::header ](
    reader: &binseq::MmapReader,
) -> binseq::BinseqHeader;

/// Relies on `RefRecord::flag`: the first word of the record, read from the
/// mapped file.
pub assume_specification<'a>[ binseq::RefRecord::<'a>::flag ](
    record: &binseq::RefRecord<'a>,
) -> u64;

/// Whether `bytes` are well-formed UTF-8, as `std::str::from_utf8` decides it.
pub uninterp spec fn utf8_valid(bytes: Seq<u8>) -> bool;

/// Relies on `std::str::from_utf8`: it accepts exactly the well-formed UTF-8
/// byte strings, and the text it returns is made of those same bytes.
#[verifier::external_body]
pub(crate) fn text_of(bytes: &[u8]) -> (r: Option<&str>)
    ensures
        r is Some <==> utf8_valid(bytes@),
        r matches Some(s) ==> s.spec_bytes() == bytes@,
{
    std::str::from_utf8(bytes).ok()
}

/// Relies on the variants of `binseq::Error`: whether the failure came from the
/// operating system rather than from the file's contents.
#[verifier::external_body]
pub(crate) fn is_io_error(e: &binseq::Error) -> (r: bool) {
    match e {
        binseq::Error::IoError(_) => true,
        _ => false,
    }
}

/// Relies on the `Display` text of `binseq::Error`; its wording is the
/// crate's own, so nothing is promised of it.
#[verifier::external_body]
pub(crate) fn error_text(e: &binseq::Error) -> (r: String) {
    e.to_string()
}

} // verus!
