use webp_transcoder::batch::{begin_batch, RecordOutcome};
use webp_transcoder::record::RawRecord;
use webp_transcoder::transcode::{TranscodeError, Transcoder};

fn raw(container: &str, key: &str) -> RawRecord {
    RawRecord { container: Some(container.to_string()), source_key: Some(key.to_string()) }
}

// Drive one record's transcode, pretending every blob-store and codec step
// succeeds.
fn run_success(rec: &webp_transcoder::record::Record) -> Result<(), TranscodeError> {
    let mut t = Transcoder::new(rec);
    t.step_ok();
    t.step_ok();
    t.step_ok();
    t.step_ok();
    t.into_result()
}

// Drive one record's transcode whose fetch step fails.
fn run_fetch_failure(rec: &webp_transcoder::record::Record) -> Result<(), TranscodeError> {
    let mut t = Transcoder::new(rec);
    t.step_failed("timed out".to_string());
    t.into_result()
}

#[test]
fn second_record_failure_spares_siblings() {
    let batch = vec![raw("b", "one.png"), raw("b", "two.png"), raw("b", "three.png")];
    let mut run = begin_batch(&batch).unwrap();
    let mut index = 0usize;
    while let Some(rec) = run.next_record() {
        let rec = rec.clone();
        let result = if index == 1 { run_fetch_failure(&rec) } else { run_success(&rec) };
        run.record_result(result);
        index += 1;
    }
    assert!(run.is_done());
    let result = run.finish();
    assert!(!result.fatal);
    assert_eq!(result.outcomes.len(), 3);
    assert!(matches!(result.outcomes[0], RecordOutcome::Success));
    assert!(matches!(
        &result.outcomes[1],
        RecordOutcome::Skipped { error: TranscodeError::FetchFailed { .. } }
    ));
    assert!(matches!(result.outcomes[2], RecordOutcome::Success));
}

#[test]
fn malformed_entry_is_batch_fatal() {
    let batch = vec![raw("b", "one.png"), raw("b", ""), raw("b", "three.png")];
    let result = begin_batch(&batch).unwrap_err();
    assert!(result.fatal);
    // No record, the otherwise-valid ones included, was handed out.
    assert!(result.outcomes.is_empty());
}

#[test]
fn empty_batch_finishes_non_fatal() {
    let batch: Vec<RawRecord> = Vec::new();
    let run = begin_batch(&batch).unwrap();
    assert!(run.is_done());
    let result = run.finish();
    assert!(!result.fatal);
    assert!(result.outcomes.is_empty());
}

#[test]
fn outcomes_keep_arrival_order() {
    let batch = vec![raw("b", "a.png"), raw("b", "b.png")];
    let mut run = begin_batch(&batch).unwrap();
    let first = run.next_record().unwrap().clone();
    assert_eq!(first.source_key, "a.png");
    run.record_result(run_fetch_failure(&first));
    let second = run.next_record().unwrap().clone();
    assert_eq!(second.source_key, "b.png");
    run.record_result(run_success(&second));
    let result = run.finish();
    assert!(matches!(&result.outcomes[0], RecordOutcome::Skipped { .. }));
    assert!(matches!(result.outcomes[1], RecordOutcome::Success));
}
