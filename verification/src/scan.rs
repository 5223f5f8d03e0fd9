use vstd::prelude::*;

use crate::errors::FqError;
use crate::model::{ScanModel, step_batch, step_fails, step_state};
use crate::schema::ScanParams;
use crate::source::{
    lossy_of, lossy_utf8, open_bytes, open_path, parse_error_of, records_of, source_error,
    source_next, source_records, RecordSource,
};

verus! {

/// The per-scan resource: the record source, owned exclusively for the
/// duration of each producer invocation (the producer takes the handle by
/// exclusive reference, so access is serialized by ownership), plus the
/// exhaustion flag, which transitions once from false to true and never
/// back.
pub struct ResourceHandle {
    pub source: RecordSource,
    pub exhausted: bool,
}

impl View for ResourceHandle {
    type V = ScanModel;

    open spec fn view(&self) -> ScanModel {
        ScanModel {
            records: source_records(self.source),
            failing: source_error(self.source),
            exhausted: self.exhausted,
        }
    }
}

/// One bounded batch of output rows, as three text columns of equal length:
/// row `i` of the output is the triple of the columns' entries at `i`.
pub struct RecordBatch {
    pub metadata: Vec<String>,
    pub sequence: Vec<String>,
    pub quality: Vec<String>,
}

impl RecordBatch {
    /// The columns hold one entry each per written row.
    pub open spec fn wf(self) -> bool {
        &&& self.sequence@.len() == self.metadata@.len()
        &&& self.quality@.len() == self.metadata@.len()
    }

    /// How many rows the batch holds, mathematically.
    pub open spec fn num_rows_spec(self) -> nat {
        self.metadata@.len()
    }

    /// Row `i` as its (metadata, sequence, quality) text triple.
    pub open spec fn row(self, i: int) -> (Seq<char>, Seq<char>, Seq<char>) {
        (self.metadata@[i]@, self.sequence@[i]@, self.quality@[i]@)
    }

    /// How many rows the batch holds: the number the invocation reports.
    pub fn num_rows(&self) -> (n: usize)
        ensures
            n == self.num_rows_spec(),
    {
        self.metadata.len()
    }
}

/// The text triple a raw record contributes to a batch: each field decoded
/// lossily, with invalid byte sequences replaced, never rejected.
pub open spec fn decoded_row(rec: (Seq<u8>, Seq<u8>, Seq<u8>)) -> (Seq<char>, Seq<char>, Seq<char>) {
    (lossy_of(rec.0), lossy_of(rec.1), lossy_of(rec.2))
}

/// Whether batch `b` carries exactly the raw records `rows`, decoded, in
/// order.
pub open spec fn batch_matches(b: RecordBatch, rows: Seq<(Seq<u8>, Seq<u8>, Seq<u8>)>) -> bool {
    &&& b.wf()
    &&& b.num_rows_spec() == rows.len()
    &&& forall|i: int| 0 <= i < rows.len() ==> #[trigger] b.row(i) == decoded_row(rows[i])
}

/// Opens the named file as the scan's record source. This is the single
/// point where the scan's expensive setup happens; it runs once per scan. A
/// file that cannot be opened is an i/o failure, and the scan never starts;
/// on success the handle starts with the exhaustion flag clear.
pub fn init(params: &ScanParams) -> (r: Result<ResourceHandle, FqError>)
    ensures
        match r {
            Ok(h) => !h@.exhausted,
            Err(e) => e is Io,
        },
{
    match open_path(&params.filename) {
        Ok(src) => Ok(ResourceHandle { source: src, exhausted: false }),
        Err(m) => Err(FqError::Io(m)),
    }
}

/// Builds the scan's record source from an in-memory buffer holding the
/// same on-disk byte format. The handle starts with the exhaustion flag
/// clear, and its records are exactly what decoding the buffer yields.
pub fn init_from_bytes(data: Vec<u8>) -> (h: ResourceHandle)
    ensures
        !h@.exhausted,
        h@.records == records_of(data@),
        h@.failing == parse_error_of(data@),
{
    ResourceHandle { source: open_bytes(data), exhausted: false }
}

/// One producer invocation: drains the record source into a batch of at
/// most `capacity` rows and returns it; the rows written are the batch's
/// length. Once the handle is exhausted the source is not touched again and
/// the batch is empty. If the source meets a malformed record before the
/// batch fills, the whole invocation fails with a format error and no rows
/// are handed out. The exhaustion flag is set exactly when the drain ended
/// because the source ran out rather than because the batch filled.
#[verifier::loop_isolation(false)]
pub fn produce(handle: &mut ResourceHandle, capacity: usize) -> (r: Result<RecordBatch, FqError>)
    ensures
        match r {
            Ok(batch) => {
                &&& !step_fails(old(handle)@, capacity as nat)
                &&& (*final(handle))@ =~= step_state(old(handle)@, capacity as nat)
                &&& batch_matches(batch, step_batch(old(handle)@, capacity as nat))
            },
            Err(e) => {
                &&& step_fails(old(handle)@, capacity as nat)
                &&& e is Format
            },
        },
{
    if handle.exhausted {
        return Ok(RecordBatch { metadata: Vec::new(), sequence: Vec::new(), quality: Vec::new() });
    }

    let ghost m0 = (*handle)@;
    let mut metadata: Vec<String> = Vec::new();
    let mut sequence: Vec<String> = Vec::new();
    let mut quality: Vec<String> = Vec::new();
    let mut n: usize = 0;
    let mut saw_end: bool = false;

    while n < capacity && !saw_end
        invariant
            n <= capacity,
            n as nat <= m0.records.len(),
            handle.exhausted == false,
            metadata@.len() == n && sequence@.len() == n && quality@.len() == n,
            forall|i: int| 0 <= i < n ==> (RecordBatch {
                metadata: metadata,
                sequence: sequence,
                quality: quality,
            }).row(i) == decoded_row(#[trigger] m0.records[i]),
            !saw_end ==> source_records(handle.source) =~= m0.records.skip(n as int),
            !saw_end ==> source_error(handle.source) == m0.failing,
            saw_end ==> n as nat == m0.records.len() && !m0.failing && n < capacity,
            saw_end ==> source_records(handle.source).len() == 0 && !source_error(handle.source),
        decreases capacity - n + (if saw_end { 0int } else { 1int }),
    {
        match source_next(&mut handle.source) {
            None => {
                saw_end = true;
            },
            Some(res) => match res {
                Ok(rec) => {
                    metadata.push(lossy_utf8(&rec.metadata));
                    sequence.push(lossy_utf8(&rec.sequence));
                    quality.push(lossy_utf8(&rec.quality));
                    n = n + 1;
                },
                Err(m) => {
                    return Err(FqError::Format(m));
                },
            },
        }
    }

    if saw_end {
        handle.exhausted = true;
    }
    Ok(RecordBatch { metadata, sequence, quality })
}

} // verus!
