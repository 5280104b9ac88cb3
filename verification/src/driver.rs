//! A complete benchmark run against the store model: the same pipeline the
//! live driver follows — build the dataset, open the (here: always
//! available) store, run the set pass, then the get pass — with the
//! accounting proved end to end. Failures can be injected into either pass
//! to exercise the abort paths without a remote service.

use vstd::prelude::*;

use crate::harness::{Harness, OpKind, Phase, ReportLine};
use crate::ops::{lemma_set_then_get_finds_all, run_get, run_set};
use crate::store::ModelStore;

verus! {

/// Whether an injected failure point is out of a pass over `n` sub-operations:
/// such a pass completes untouched.
pub open spec fn spec_no_failure(fail_before: Option<usize>, n: nat) -> bool {
    match fail_before {
        Some(k) => k >= n,
        None => true,
    }
}

/// One full benchmark run of dataset size `n` against an initially-empty
/// model store. Without injected failures the run completes: the set pass
/// counts `n`, the get pass finds all `n` keys again, the cumulative total is
/// `2 * n`, and exactly two report lines stand. A failure injected into the
/// set pass ends the run with no report line and a zero total; one injected
/// into the get pass leaves only the set pass's line and count.
pub fn model_benchmark(n: usize, fail_set: Option<usize>, fail_get: Option<usize>) -> (h: Harness)
    requires
        n <= usize::MAX / 2,
    ensures
        h.wf(),
        spec_no_failure(fail_set, n as nat) && spec_no_failure(fail_get, n as nat) ==> {
            &&& h.spec_phase() == Phase::Done
            &&& h.spec_total() == 2 * n
            &&& h.spec_reports() == seq![
                (ReportLine { op: OpKind::BulkSet, ops: n, cumulative: n }),
                (ReportLine { op: OpKind::BulkGet, ops: n, cumulative: (2 * n) as usize }),
            ]
        },
        !spec_no_failure(fail_set, n as nat) ==> {
            &&& h.spec_phase() == Phase::Failed
            &&& h.spec_total() == 0
            &&& h.spec_reports() == Seq::<ReportLine>::empty()
        },
        spec_no_failure(fail_set, n as nat) && !spec_no_failure(fail_get, n as nat) ==> {
            &&& h.spec_phase() == Phase::Failed
            &&& h.spec_total() == n
            &&& h.spec_reports() == seq![
                (ReportLine { op: OpKind::BulkSet, ops: n, cumulative: n }),
            ]
        },
{
    let mut harness = Harness::new();
    let data = harness.build_dataset(n);
    let mut store = ModelStore::new();
    harness.connection_result(true);

    let set_result = run_set(&data, &mut store, fail_set);
    harness.record_set(&set_result);
    match set_result {
        Ok(_) => {},
        Err(_) => {
            return harness;
        },
    }

    let get_result = run_get(&data, &store, fail_get);
    proof {
        lemma_set_then_get_finds_all(Map::empty(), data@);
    }
    harness.record_get(&get_result);
    proof {
        if spec_no_failure(fail_get, n as nat) {
            assert(harness.spec_reports() =~= seq![
                (ReportLine { op: OpKind::BulkSet, ops: n, cumulative: n }),
                (ReportLine { op: OpKind::BulkGet, ops: n, cumulative: (2 * n) as usize }),
            ]);
        }
    }
    harness
}

} // verus!
