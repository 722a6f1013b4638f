//! Batch orchestration: the failure-isolation policy over one batch.
//!
//! A batch whose extraction fails is fatal as a whole and no record of it
//! is processed. Once extraction has succeeded, the records are attempted
//! one at a time in arrival order, a failed record is recorded as skipped
//! with its cause, and its siblings are still attempted: per-record
//! failures never flip the batch result to fatal.

use crate::record::{extract_records, extracted_from, raw_record_ok, ExtractError, RawRecord, Record};
use crate::transcode::TranscodeError;
use vstd::prelude::*;

verus! {

/// What became of one record.
#[derive(Debug)]
pub enum RecordOutcome {
    Success,
    Skipped { error: TranscodeError },
}

/// The outcome of one record's transcode run, as an outcome to record.
pub open spec fn outcome_of(r: Result<(), TranscodeError>) -> RecordOutcome {
    match r {
        Ok(_) => RecordOutcome::Success,
        Err(e) => RecordOutcome::Skipped { error: e },
    }
}

/// The batch's overall result: the per-record outcomes in arrival order,
/// and whether the batch as a whole failed.
#[derive(Debug)]
pub struct BatchResult {
    pub outcomes: Vec<RecordOutcome>,
    pub fatal: bool,
}

/// Walks the records of an extracted batch in arrival order, collecting
/// one outcome per record.
#[derive(Debug)]
pub struct BatchRun {
    records: Vec<Record>,
    outcomes: Vec<RecordOutcome>,
}

impl BatchRun {
    /// The records of the batch, in arrival order.
    pub closed spec fn records(&self) -> Seq<Record> {
        self.records@
    }

    /// The outcomes recorded so far, in arrival order.
    pub closed spec fn outcomes(&self) -> Seq<RecordOutcome> {
        self.outcomes@
    }

    pub open spec fn wf(&self) -> bool {
        self.outcomes().len() <= self.records().len()
    }

    /// Every record has an outcome.
    pub open spec fn done(&self) -> bool {
        self.outcomes().len() == self.records().len()
    }

    /// Start a run over `records` with no outcome recorded yet.
    pub fn new(records: Vec<Record>) -> (b: BatchRun)
        ensures
            b.wf(),
            b.records() == records@,
            b.outcomes().len() == 0,
    {
        BatchRun { records, outcomes: Vec::new() }
    }

    /// The record to attempt next, `None` once every record has an
    /// outcome. Records are attempted in arrival order.
    pub fn next_record(&self) -> (r: Option<&Record>)
        requires
            self.wf(),
        ensures
            r is Some <==> !self.done(),
            r matches Some(rec) ==> *rec == self.records()[self.outcomes().len() as int],
    {
        if self.outcomes.len() < self.records.len() {
            Some(&self.records[self.outcomes.len()])
        } else {
            None
        }
    }

    /// Record the current record's result and move on to the next one: a
    /// failure is recorded as skipped with its cause, never ending the
    /// run, and no earlier outcome changes.
    pub fn record_result(&mut self, result: Result<(), TranscodeError>)
        requires
            old(self).wf(),
            !old(self).done(),
        ensures
            final(self).wf(),
            final(self).records() == old(self).records(),
            final(self).outcomes() == old(self).outcomes().push(outcome_of(result)),
    {
        match result {
            Ok(_) => self.outcomes.push(RecordOutcome::Success),
            Err(e) => self.outcomes.push(RecordOutcome::Skipped { error: e }),
        }
    }

    /// Whether every record has an outcome.
    pub fn is_done(&self) -> (b: bool)
        ensures
            b == self.done(),
    {
        self.outcomes.len() == self.records.len()
    }

    /// Close the run. A run that extraction admitted is never fatal,
    /// whatever the individual outcomes were.
    pub fn finish(self) -> (r: BatchResult)
        requires
            self.wf(),
            self.done(),
        ensures
            r.fatal == false,
            r.outcomes@ == self.outcomes(),
    {
        BatchResult { outcomes: self.outcomes, fatal: false }
    }
}

/// Open a batch: extract its records and start the per-record walk.
///
/// Extraction failure is batch-fatal: the result is the fatal batch
/// result with no outcome, and no record — valid entries included — is
/// handed out for processing. Otherwise the run starts over the extracted
/// records in arrival order.
pub fn begin_batch(batch: &Vec<RawRecord>) -> (r: Result<BatchRun, BatchResult>)
    ensures
        r is Ok <==> (forall|i: int| 0 <= i < batch@.len() ==> raw_record_ok(#[trigger] batch@[i])),
        r matches Ok(run) ==> {
            &&& run.wf()
            &&& run.outcomes().len() == 0
            &&& extracted_from(batch@, run.records())
        },
        r matches Err(res) ==> {
            &&& res.fatal
            &&& res.outcomes@.len() == 0
            &&& exists|i: int| 0 <= i < batch@.len() && !raw_record_ok(#[trigger] batch@[i])
        },
{
    match extract_records(batch) {
        Ok(recs) => Ok(BatchRun::new(recs)),
        Err(ExtractError::MalformedRecord { index }) => {
            proof {
                assert(0 <= index < batch@.len() && !raw_record_ok(batch@[index as int]));
            }
            Err(BatchResult { outcomes: Vec::new(), fatal: true })
        },
    }
}

} // verus!
