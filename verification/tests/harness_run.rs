use kvbench::harness::{Harness, OpKind, Phase, ReportLine};
use kvbench::ops::{run_get, run_set, StoreError};
use kvbench::store::ModelStore;

#[test]
fn full_run_with_three_entries() {
    let mut harness = Harness::new();
    assert_eq!(harness.phase(), Phase::Start);

    let data = harness.build_dataset(3);
    assert_eq!(harness.phase(), Phase::DatasetBuilt);
    assert_eq!(data.len(), 3);
    assert_eq!(data.entry(0).0, "key0");
    assert_eq!(data.entry(1).0, "key1");
    assert_eq!(data.entry(2).0, "key2");
    assert_eq!(data.entry(0).1, "val0".repeat(100));
    assert_eq!(data.entry(1).1, "val1".repeat(100));
    assert_eq!(data.entry(2).1, "val2".repeat(100));

    let mut store = ModelStore::new();
    harness.connection_result(true);
    assert_eq!(harness.phase(), Phase::ConnectionOpen);

    let set_result = run_set(&data, &mut store, None);
    assert_eq!(set_result, Ok(3));
    harness.record_set(&set_result);
    assert_eq!(harness.phase(), Phase::RanSet);
    assert_eq!(harness.total_ops(), 3);

    let get_result = run_get(&data, &store, None);
    assert_eq!(get_result, Ok(3));
    harness.record_get(&get_result);
    assert_eq!(harness.phase(), Phase::Done);
    assert_eq!(harness.total_ops(), 6);

    let reports = harness.reports();
    assert_eq!(reports.len(), 2);
    assert_eq!(reports[0], ReportLine { op: OpKind::BulkSet, ops: 3, cumulative: 3 });
    assert_eq!(reports[1], ReportLine { op: OpKind::BulkGet, ops: 3, cumulative: 6 });
}

#[test]
fn connection_failure_stops_the_run_before_any_operation() {
    let mut harness = Harness::new();
    let _data = harness.build_dataset(2);
    harness.connection_result(false);
    assert_eq!(harness.phase(), Phase::Failed);
    assert_eq!(harness.total_ops(), 0);
    assert!(harness.reports().is_empty());
}

#[test]
fn set_failure_contributes_no_partial_count() {
    let mut harness = Harness::new();
    let data = harness.build_dataset(3);
    let mut store = ModelStore::new();
    harness.connection_result(true);

    let set_result = run_set(&data, &mut store, Some(1));
    assert_eq!(set_result, Err(StoreError));
    harness.record_set(&set_result);
    assert_eq!(harness.phase(), Phase::Failed);
    assert_eq!(harness.total_ops(), 0);
    assert!(harness.reports().is_empty());
}

#[test]
fn get_failure_keeps_only_the_completed_set_count() {
    let mut harness = Harness::new();
    let data = harness.build_dataset(4);
    let mut store = ModelStore::new();
    harness.connection_result(true);

    let set_result = run_set(&data, &mut store, None);
    harness.record_set(&set_result);
    assert_eq!(harness.total_ops(), 4);

    let get_result = run_get(&data, &store, Some(2));
    assert_eq!(get_result, Err(StoreError));
    harness.record_get(&get_result);
    assert_eq!(harness.phase(), Phase::Failed);
    assert_eq!(harness.total_ops(), 4);
    assert_eq!(harness.reports().len(), 1);
    assert_eq!(harness.reports()[0], ReportLine { op: OpKind::BulkSet, ops: 4, cumulative: 4 });
}

#[test]
fn empty_run_reports_zero_counts() {
    let mut harness = Harness::new();
    let data = harness.build_dataset(0);
    let mut store = ModelStore::new();
    harness.connection_result(true);
    let set_result = run_set(&data, &mut store, None);
    harness.record_set(&set_result);
    let get_result = run_get(&data, &store, None);
    harness.record_get(&get_result);
    assert_eq!(harness.phase(), Phase::Done);
    assert_eq!(harness.total_ops(), 0);
    assert_eq!(harness.reports().len(), 2);
    assert_eq!(harness.reports()[0], ReportLine { op: OpKind::BulkSet, ops: 0, cumulative: 0 });
    assert_eq!(harness.reports()[1], ReportLine { op: OpKind::BulkGet, ops: 0, cumulative: 0 });
}

#[test]
fn model_benchmark_full_run() {
    let harness = kvbench::driver::model_benchmark(3, None, None);
    assert_eq!(harness.phase(), Phase::Done);
    assert_eq!(harness.total_ops(), 6);
    let reports = harness.reports();
    assert_eq!(reports.len(), 2);
    assert_eq!(reports[0], ReportLine { op: OpKind::BulkSet, ops: 3, cumulative: 3 });
    assert_eq!(reports[1], ReportLine { op: OpKind::BulkGet, ops: 3, cumulative: 6 });
}

#[test]
fn model_benchmark_set_failure() {
    let harness = kvbench::driver::model_benchmark(5, Some(2), None);
    assert_eq!(harness.phase(), Phase::Failed);
    assert_eq!(harness.total_ops(), 0);
    assert!(harness.reports().is_empty());
}

#[test]
fn model_benchmark_get_failure() {
    let harness = kvbench::driver::model_benchmark(5, None, Some(0));
    assert_eq!(harness.phase(), Phase::Failed);
    assert_eq!(harness.total_ops(), 5);
    assert_eq!(harness.reports().len(), 1);
    assert_eq!(harness.reports()[0], ReportLine { op: OpKind::BulkSet, ops: 5, cumulative: 5 });
}
