use vstd::prelude::*;

verus! {

/// The mathematical state of one scan: the raw records the source has still
/// to yield (each a metadata, sequence, quality byte triple), whether a
/// malformed record follows them, and whether the exhaustion flag is set.
#[verifier::ext_equal]
pub ghost struct ScanModel {
    pub records: Seq<(Seq<u8>, Seq<u8>, Seq<u8>)>,
    pub failing: bool,
    pub exhausted: bool,
}

/// How many rows one producer invocation reports from state `m` with batch
/// capacity `cap`: none once exhausted, otherwise as many records as remain,
/// but at most `cap`.
pub open spec fn step_rows(m: ScanModel, cap: nat) -> nat {
    if m.exhausted {
        0
    } else if m.records.len() >= cap {
        cap
    } else {
        m.records.len()
    }
}

/// The raw records one producer invocation writes into its batch, in source
/// order.
pub open spec fn step_batch(m: ScanModel, cap: nat) -> Seq<(Seq<u8>, Seq<u8>, Seq<u8>)> {
    if m.exhausted {
        Seq::empty()
    } else {
        m.records.take(step_rows(m, cap) as int)
    }
}

/// Whether the invocation fails: exactly when the drain is not already
/// short-circuited, runs past the last intact record before the batch
/// fills, and meets the malformed one.
pub open spec fn step_fails(m: ScanModel, cap: nat) -> bool {
    &&& !m.exhausted
    &&& m.records.len() < cap
    &&& m.failing
}

/// The scan state after one successful invocation: the written records are
/// gone from the front, and the exhaustion flag is set exactly when the
/// drain ended because the source ran out rather than because the batch
/// filled.
pub open spec fn step_state(m: ScanModel, cap: nat) -> ScanModel {
    if m.exhausted {
        m
    } else {
        ScanModel {
            records: m.records.skip(step_rows(m, cap) as int),
            failing: m.failing,
            exhausted: m.records.len() < cap,
        }
    }
}

/// The row counts of all successive invocations of a scan, summed until the
/// exhaustion flag stops it.
pub open spec fn scan_total(m: ScanModel, cap: nat) -> nat
    decreases m.records.len(), (if m.exhausted { 0int } else { 1int }),
{
    if m.exhausted || cap < 1 {
        0
    } else {
        step_rows(m, cap) + scan_total(step_state(m, cap), cap)
    }
}

/// Every raw record the successive invocations of a scan write, concatenated
/// in call order.
pub open spec fn scan_rows(m: ScanModel, cap: nat) -> Seq<(Seq<u8>, Seq<u8>, Seq<u8>)>
    decreases m.records.len(), (if m.exhausted { 0int } else { 1int }),
{
    if m.exhausted || cap < 1 {
        Seq::empty()
    } else {
        step_batch(m, cap) + scan_rows(step_state(m, cap), cap)
    }
}

} // verus!
