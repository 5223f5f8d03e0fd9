use vstd::prelude::*;

use seq_io::fastq::Record;

verus! {

/// One record as the source hands it out: the three fields as raw bytes,
/// before any text decoding.
pub struct RawRecord {
    pub metadata: Vec<u8>,
    pub sequence: Vec<u8>,
    pub quality: Vec<u8>,
}

impl View for RawRecord {
    type V = (Seq<u8>, Seq<u8>, Seq<u8>);

    open spec fn view(&self) -> (Seq<u8>, Seq<u8>, Seq<u8>) {
        (self.metadata@, self.sequence@, self.quality@)
    }
}

/// The record source for one scan: the open file (or in-memory buffer)
/// together with the decoder that turns it into records, consumed
/// sequentially, front to back, exactly once. The underlying reader cannot
/// be declared to the verifier (its type names the opened file), so it is
/// held opaquely and reached only through the trusted functions below.
#[verifier::external_body]
pub struct RecordSource {
    pull: Box<dyn Iterator<Item = Result<seq_io::fastq::OwnedRecord, seq_io::fastq::Error>> + Send>,
}

/// The records this source has still to yield, in order. The source reads an
/// unmodified file sequentially, so the value of the source determines them.
pub uninterp spec fn source_records(s: RecordSource) -> Seq<(Seq<u8>, Seq<u8>, Seq<u8>)>;

/// Whether this source, after yielding its remaining records, stops with a
/// decode failure instead of a clean end of input.
pub uninterp spec fn source_error(s: RecordSource) -> bool;

/// The records that decoding an in-memory buffer yields, in order: a
/// function of the bytes alone.
pub uninterp spec fn records_of(data: Seq<u8>) -> Seq<(Seq<u8>, Seq<u8>, Seq<u8>)>;

/// Whether an in-memory buffer ends in a malformed record, so that decoding
/// it fails after yielding the records of `records_of`.
pub uninterp spec fn parse_error_of(data: Seq<u8>) -> bool;

/// Relies on seq_io::fastq::Reader::from_path, which opens the named file
/// for record decoding. Whether opening succeeds depends on the file system,
/// so nothing is promised of the outcome.
#[verifier::external_body]
pub(crate) fn open_path(filename: &String) -> (r: Result<RecordSource, String>) {
    match seq_io::fastq::Reader::from_path(filename.as_str()) {
        Ok(rd) => Ok(RecordSource { pull: Box::new(rd.into_records()) }),
        Err(e) => Err(format!("{}", e)),
    }
}

/// Relies on seq_io::fastq::Reader::new over an in-memory buffer: decoding a
/// buffer is a function of its bytes alone, so the source built here yields
/// exactly the records of the buffer and fails exactly when the buffer ends
/// in a malformed record.
#[verifier::external_body]
pub(crate) fn open_bytes(data: Vec<u8>) -> (s: RecordSource)
    ensures
        source_records(s) == records_of(data@),
        source_error(s) == parse_error_of(data@),
{
    let rd = seq_io::fastq::Reader::new(std::io::Cursor::new(data));
    RecordSource { pull: Box::new(rd.into_records()) }
}

/// Relies on seq_io::fastq::Reader::next (through the records iterator): it
/// yields the source's next record, or a decode failure, or nothing at end
/// of input; the metadata field is the record's id, the header up to the
/// first space.
#[verifier::external_body]
pub(crate) fn source_next(src: &mut RecordSource) -> (r: Option<Result<RawRecord, String>>)
    ensures
        match r {
            None => {
                &&& source_records(*old(src)).len() == 0
                &&& !source_error(*old(src))
                &&& source_records(*final(src)).len() == 0
                &&& !source_error(*final(src))
            },
            Some(res) => match res {
                Ok(rec) => {
                    &&& source_records(*old(src)).len() > 0
                    &&& rec@ == source_records(*old(src))[0]
                    &&& source_records(*final(src)) == source_records(*old(src)).drop_first()
                    &&& source_error(*final(src)) == source_error(*old(src))
                },
                Err(m) => {
                    &&& source_records(*old(src)).len() == 0
                    &&& source_error(*old(src))
                },
            },
        },
{
    match src.pull.next() {
        None => None,
        Some(Ok(rec)) => Some(Ok(RawRecord {
            metadata: rec.id_bytes().to_vec(),
            sequence: rec.seq().to_vec(),
            quality: rec.qual().to_vec(),
        })),
        Some(Err(e)) => Some(Err(format!("{}", e))),
    }
}

/// What lossy text decoding makes of a byte field: a function of the bytes
/// alone, with invalid sequences replaced, never rejected.
pub uninterp spec fn lossy_of(b: Seq<u8>) -> Seq<char>;

/// Relies on String::from_utf8_lossy: the result is a function of the bytes
/// alone; invalid byte sequences are replaced, never rejected.
#[verifier::external_body]
pub(crate) fn lossy_utf8(bytes: &Vec<u8>) -> (r: String)
    ensures
        r@ == lossy_of(bytes@),
{
    String::from_utf8_lossy(bytes).to_string()
}

} // verus!
