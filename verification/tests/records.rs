use webp_transcoder::record::{extract_records, ExtractError, RawRecord};

fn raw(container: Option<&str>, key: Option<&str>) -> RawRecord {
    RawRecord {
        container: container.map(|s| s.to_string()),
        source_key: key.map(|s| s.to_string()),
    }
}

#[test]
fn extract_two_records_in_order() {
    let batch = vec![raw(Some("bucket"), Some("a/one.png")), raw(Some("bucket"), Some("two.jpg"))];
    let recs = extract_records(&batch).unwrap();
    assert_eq!(recs.len(), 2);
    assert_eq!(recs[0].container, "bucket");
    assert_eq!(recs[0].source_key, "a/one.png");
    assert_eq!(recs[1].container, "bucket");
    assert_eq!(recs[1].source_key, "two.jpg");
}

#[test]
fn extract_empty_batch() {
    let batch: Vec<RawRecord> = Vec::new();
    let recs = extract_records(&batch).unwrap();
    assert!(recs.is_empty());
}

#[test]
fn extract_missing_container() {
    let batch = vec![raw(None, Some("a.png"))];
    let err = extract_records(&batch).unwrap_err();
    assert!(matches!(err, ExtractError::MalformedRecord { index: 0 }));
}

#[test]
fn extract_missing_key() {
    let batch = vec![raw(Some("bucket"), None)];
    let err = extract_records(&batch).unwrap_err();
    assert!(matches!(err, ExtractError::MalformedRecord { index: 0 }));
}

#[test]
fn extract_empty_key() {
    let batch = vec![raw(Some("bucket"), Some(""))];
    let err = extract_records(&batch).unwrap_err();
    assert!(matches!(err, ExtractError::MalformedRecord { index: 0 }));
}

#[test]
fn extract_empty_container() {
    let batch = vec![raw(Some(""), Some("a.png"))];
    let err = extract_records(&batch).unwrap_err();
    assert!(matches!(err, ExtractError::MalformedRecord { index: 0 }));
}

#[test]
fn extract_reports_first_malformed() {
    let batch = vec![
        raw(Some("bucket"), Some("ok.png")),
        raw(Some("bucket"), None),
        raw(Some("bucket"), Some("also-ok.png")),
    ];
    let err = extract_records(&batch).unwrap_err();
    assert!(matches!(err, ExtractError::MalformedRecord { index: 1 }));
}
