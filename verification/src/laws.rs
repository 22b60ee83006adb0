use vstd::prelude::*;
use crate::cells::{Cell, SourceCell, TargetColumn, TargetRow};
use crate::errors::FdwError;
use crate::parse::spec_parse;
use crate::scan::map_row;

verus! {

/// The scan-relevant part of a connector instance: the fetched row set and the
/// cursor position over it.
pub struct ScanState {
    pub rows: Seq<Seq<SourceCell>>,
    pub idx: int,
}

/// What one iteration step reports to the host.
pub enum ScanOutcome {
    Produced(Seq<Option<Cell>>),
    Finished,
    Failed(FdwError),
}

/// The outcome a concrete iteration result stands for.
pub open spec fn outcome_of(r: Result<Option<TargetRow>, FdwError>) -> ScanOutcome {
    match r {
        Ok(o) => match o {
            Some(tr) => ScanOutcome::Produced(tr@),
            None => ScanOutcome::Finished,
        },
        Err(e) => ScanOutcome::Failed(e),
    }
}

/// One iteration step of the cursor: past the last row it reports the end and
/// stands still; otherwise it maps the current row, and either advances by one
/// or fails in place.
pub open spec fn scan_step(s: ScanState, cols: Seq<TargetColumn>) -> (ScanState, ScanOutcome) {
    if s.idx >= s.rows.len() {
        (s, ScanOutcome::Finished)
    } else {
        match map_row(s.rows[s.idx], cols) {
            Ok(m) => (ScanState { rows: s.rows, idx: s.idx + 1 }, ScanOutcome::Produced(m)),
            Err(e) => (s, ScanOutcome::Failed(e)),
        }
    }
}

/// The state after `k` iteration steps.
pub open spec fn scan_run(s: ScanState, cols: Seq<TargetColumn>, k: nat) -> ScanState
    decreases k,
{
    if k == 0 {
        s
    } else {
        scan_step(scan_run(s, cols, (k - 1) as nat), cols).0
    }
}

/// The state `end_scan` leaves behind: no rows, cursor at the start.
pub open spec fn end_state(s: ScanState) -> ScanState {
    ScanState { rows: Seq::empty(), idx: 0 }
}

/// The state completing a scan over a fetched body leaves behind: the rows the
/// body decodes to with the cursor rewound, or the old state when parsing
/// fails.
pub open spec fn load_state(s: ScanState, body: Seq<u8>) -> ScanState {
    match spec_parse(body) {
        Ok(m) => ScanState { rows: m, idx: 0 },
        Err(_) => s,
    }
}

/// Law: over a response of `n` rows each of which maps cleanly onto the
/// columns, a scan started at the first row makes exactly `n` producing steps:
/// after `k` steps the cursor stands at row `k` with the row set untouched,
/// the step taken there (while `k < n`) produces exactly row `k`'s mapping,
/// and the step taken at `k == n` reports the end and changes nothing.
pub proof fn lemma_scan_counts(s0: ScanState, cols: Seq<TargetColumn>, k: nat)
    requires
        s0.idx == 0,
        forall|i: int|
            0 <= i < s0.rows.len() ==> (#[trigger] map_row(s0.rows[i], cols)) is Ok,
        k <= s0.rows.len(),
    ensures
        scan_run(s0, cols, k).rows == s0.rows,
        scan_run(s0, cols, k).idx == k,
        k < s0.rows.len() ==> scan_step(scan_run(s0, cols, k), cols) == (
            ScanState { rows: s0.rows, idx: k as int + 1 },
            ScanOutcome::Produced(map_row(s0.rows[k as int], cols)->Ok_0),
        ),
        k == s0.rows.len() ==> scan_step(scan_run(s0, cols, k), cols) == (
            scan_run(s0, cols, k),
            ScanOutcome::Finished,
        ),
    decreases k,
{
    if k > 0 {
        lemma_scan_counts(s0, cols, (k - 1) as nat);
    }
}

/// Law: ending one scan and completing the next installs exactly the rows the
/// new body decodes to, with the cursor at the first row — whatever rows and
/// cursor position either earlier state held, nothing of them leaks into the
/// new scan.
pub proof fn lemma_fresh_scan_no_leak(s1: ScanState, s2: ScanState, body: Seq<u8>)
    requires
        spec_parse(body) is Ok,
    ensures
        load_state(end_state(s1), body) == load_state(end_state(s2), body),
        load_state(end_state(s1), body).rows == spec_parse(body)->Ok_0,
        load_state(end_state(s1), body).idx == 0,
{
}

} // verus!
