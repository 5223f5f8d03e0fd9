use vstd::prelude::*;

use crate::model::{scan_rows, scan_total, step_fails, step_rows, step_state, ScanModel};

verus! {

/// Per-invocation row counts for a live scan: a call that still finds
/// records reports between 1 and `cap` rows; a call that finds none reports
/// 0, and it is the one that sets the exhaustion flag.
pub proof fn lemma_step_counts(m: ScanModel, cap: nat)
    requires
        cap >= 1,
        !m.exhausted,
    ensures
        step_rows(m, cap) == if m.records.len() >= cap { cap } else { m.records.len() },
        m.records.len() > 0 ==> 1 <= step_rows(m, cap) <= cap,
        m.records.len() == 0 ==> step_rows(m, cap) == 0 && step_state(m, cap).exhausted,
{
}

/// Idempotent exhaustion: once the flag is set, every further invocation
/// succeeds, reports no rows and leaves the scan state untouched, so the
/// whole remainder of the scan contributes nothing.
pub proof fn lemma_exhausted_idempotent(m: ScanModel, cap: nat)
    requires
        m.exhausted,
    ensures
        !step_fails(m, cap),
        step_rows(m, cap) == 0,
        step_state(m, cap) == m,
        scan_total(m, cap) == 0,
        scan_rows(m, cap) == Seq::<(Seq<u8>, Seq<u8>, Seq<u8>)>::empty(),
{
}

/// A clean scan (no malformed record ahead) never fails, and its successive
/// invocations report, summed, exactly as many rows as the source holds.
pub proof fn lemma_scan_total(m: ScanModel, cap: nat)
    requires
        cap >= 1,
        !m.failing,
    ensures
        !step_fails(m, cap),
        scan_total(m, cap) == if m.exhausted { 0nat } else { m.records.len() },
    decreases m.records.len(), (if m.exhausted { 0int } else { 1int }),
{
    if !m.exhausted {
        lemma_scan_total(step_state(m, cap), cap);
    }
}

/// A clean scan writes the source's records exactly, in order: the batches
/// of its successive invocations concatenate to the record sequence itself,
/// whatever the capacity. Each output row is a function of its raw record
/// alone, so re-running the same scan on the same records yields the same
/// rows in the same order.
pub proof fn lemma_scan_faithful(m: ScanModel, cap: nat)
    requires
        cap >= 1,
        !m.failing,
        !m.exhausted,
    ensures
        scan_rows(m, cap) =~= m.records,
    decreases m.records.len(),
{
    let next = step_state(m, cap);
    if next.exhausted {
        assert(scan_rows(next, cap) == Seq::<(Seq<u8>, Seq<u8>, Seq<u8>)>::empty());
        assert(scan_rows(m, cap) =~= m.records);
    } else {
        lemma_scan_faithful(next, cap);
    }
}

} // verus!
