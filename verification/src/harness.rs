//! The harness driver's accounting: a linear state machine over the phases of
//! one benchmark run, the report lines it emits, and the running cumulative
//! count of completed sub-operations. The driver builds the dataset, reports
//! whether its one connection opened, then records the outcome of the set
//! pass and of the get pass in that order; the first failure is terminal.

use vstd::prelude::*;

use crate::dataset::{Dataset, dataset_is_generated, generate_dataset};

verus! {

/// The phases of one run, in the order a fault-free run passes through them.
/// Any failure moves the run to the terminal `Failed` phase.
#[derive(Clone, Copy, Debug, PartialEq, Eq, Structural)]
pub enum Phase {
    Start,
    DatasetBuilt,
    ConnectionOpen,
    RanSet,
    Done,
    Failed,
}

/// Which of the two timed operations a report line is about.
#[derive(Clone, Copy, Debug, PartialEq, Eq, Structural)]
pub enum OpKind {
    BulkSet,
    BulkGet,
}

/// One report line: the operation it is about, the sub-operations it
/// completed, and the cumulative total across the run so far. The elapsed
/// time and the derived rate are measured and rendered by the caller.
#[derive(Clone, Copy, Debug, PartialEq, Eq, Structural)]
pub struct ReportLine {
    pub op: OpKind,
    pub ops: usize,
    pub cumulative: usize,
}

/// The harness: owns the run's phase, the report lines emitted so far, and
/// the cumulative operation count. An operation that fails contributes
/// nothing to either.
pub struct Harness {
    phase: Phase,
    total_ops: usize,
    lines: Vec<ReportLine>,
}

impl Harness {
    /// The current phase.
    pub closed spec fn spec_phase(&self) -> Phase {
        self.phase
    }

    /// The cumulative count of completed sub-operations.
    pub closed spec fn spec_total(&self) -> nat {
        self.total_ops as nat
    }

    /// The report lines emitted so far.
    pub closed spec fn spec_reports(&self) -> Seq<ReportLine> {
        self.lines@
    }

    /// What every reachable harness satisfies: before any operation has run
    /// no report line exists and the total is zero, and afterwards the lines
    /// on hand match the phase.
    pub closed spec fn wf(&self) -> bool {
        &&& (self.phase == Phase::Start || self.phase == Phase::DatasetBuilt || self.phase
            == Phase::ConnectionOpen) ==> self.lines@.len() == 0 && self.total_ops == 0
        &&& self.phase == Phase::RanSet ==> self.lines@.len() == 1
        &&& self.phase == Phase::Done ==> self.lines@.len() == 2
    }

    /// A fresh harness: phase `Start`, no report lines, total zero.
    pub fn new() -> (h: Harness)
        ensures
            h.wf(),
            h.spec_phase() == Phase::Start,
            h.spec_total() == 0,
            h.spec_reports() == Seq::<ReportLine>::empty(),
    {
        let h = Harness { phase: Phase::Start, total_ops: 0, lines: Vec::new() };
        proof {
            assert(h.spec_reports() =~= Seq::<ReportLine>::empty());
        }
        h
    }

    /// Builds the run's dataset of size `n` and moves to `DatasetBuilt`.
    /// Emits nothing: report lines come only from operations.
    pub fn build_dataset(&mut self, n: usize) -> (d: Dataset)
        requires
            old(self).wf(),
            old(self).spec_phase() == Phase::Start,
        ensures
            final(self).wf(),
            final(self).spec_phase() == Phase::DatasetBuilt,
            final(self).spec_total() == 0,
            final(self).spec_reports() == Seq::<ReportLine>::empty(),
            d@.len() == n,
            dataset_is_generated(d@),
    {
        self.phase = Phase::DatasetBuilt;
        proof {
            assert(self.spec_reports() =~= Seq::<ReportLine>::empty());
        }
        generate_dataset(n)
    }

    /// Records whether the run's one connection could be opened. On failure
    /// the run is over before any operation: the phase is terminally
    /// `Failed`, no report line exists, and the total is zero.
    pub fn connection_result(&mut self, opened: bool)
        requires
            old(self).wf(),
            old(self).spec_phase() == Phase::DatasetBuilt,
        ensures
            final(self).wf(),
            final(self).spec_total() == 0,
            final(self).spec_reports() == Seq::<ReportLine>::empty(),
            opened ==> final(self).spec_phase() == Phase::ConnectionOpen,
            !opened ==> final(self).spec_phase() == Phase::Failed,
    {
        if opened {
            self.phase = Phase::ConnectionOpen;
        } else {
            self.phase = Phase::Failed;
        }
        proof {
            assert(self.spec_reports() =~= Seq::<ReportLine>::empty());
        }
    }

    /// Records the outcome of the set pass, the first operation of the run.
    /// A completed pass adds its count to the total and emits its report
    /// line; a failed pass is terminal and leaves both untouched, so the
    /// total never includes a partial count for a failing operation.
    pub fn record_set<E>(&mut self, r: &Result<usize, E>)
        requires
            old(self).wf(),
            old(self).spec_phase() == Phase::ConnectionOpen,
            r matches Ok(c) ==> *c <= usize::MAX - old(self).spec_total(),
        ensures
            final(self).wf(),
            match r {
                Ok(c) => {
                    &&& final(self).spec_phase() == Phase::RanSet
                    &&& final(self).spec_total() == old(self).spec_total() + *c
                    &&& final(self).spec_reports() == old(self).spec_reports().push(
                        (ReportLine { op: OpKind::BulkSet, ops: *c, cumulative: *c }),
                    )
                },
                Err(_) => {
                    &&& final(self).spec_phase() == Phase::Failed
                    &&& final(self).spec_total() == old(self).spec_total()
                    &&& final(self).spec_reports() == old(self).spec_reports()
                },
            },
    {
        match r {
            Ok(c) => {
                self.total_ops = self.total_ops + *c;
                self.lines.push(ReportLine { op: OpKind::BulkSet, ops: *c, cumulative: self.total_ops });
                self.phase = Phase::RanSet;
            },
            Err(_) => {
                self.phase = Phase::Failed;
            },
        }
    }

    /// Records the outcome of the get pass, the second and last operation.
    /// As with the set pass, only a completed pass contributes its count and
    /// its report line; a failure is terminal and contributes nothing.
    pub fn record_get<E>(&mut self, r: &Result<usize, E>)
        requires
            old(self).wf(),
            old(self).spec_phase() == Phase::RanSet,
            r matches Ok(c) ==> *c <= usize::MAX - old(self).spec_total(),
        ensures
            final(self).wf(),
            match r {
                Ok(c) => {
                    &&& final(self).spec_phase() == Phase::Done
                    &&& final(self).spec_total() == old(self).spec_total() + *c
                    &&& final(self).spec_reports() == old(self).spec_reports().push(
                        (ReportLine {
                            op: OpKind::BulkGet,
                            ops: *c,
                            cumulative: (old(self).spec_total() + *c) as usize,
                        }),
                    )
                },
                Err(_) => {
                    &&& final(self).spec_phase() == Phase::Failed
                    &&& final(self).spec_total() == old(self).spec_total()
                    &&& final(self).spec_reports() == old(self).spec_reports()
                },
            },
    {
        match r {
            Ok(c) => {
                self.total_ops = self.total_ops + *c;
                self.lines.push(ReportLine { op: OpKind::BulkGet, ops: *c, cumulative: self.total_ops });
                self.phase = Phase::Done;
            },
            Err(_) => {
                self.phase = Phase::Failed;
            },
        }
    }

    /// The current phase.
    pub fn phase(&self) -> (p: Phase)
        ensures
            p == self.spec_phase(),
    {
        self.phase
    }

    /// The cumulative count of completed sub-operations.
    pub fn total_ops(&self) -> (t: usize)
        ensures
            t == self.spec_total(),
    {
        self.total_ops
    }

    /// The report lines emitted so far.
    pub fn reports(&self) -> (r: &Vec<ReportLine>)
        ensures
            r@ == self.spec_reports(),
    {
        &self.lines
    }
}

} // verus!
