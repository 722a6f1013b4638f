//! Record extraction: turning one notification batch into an ordered
//! sequence of (container, source key) records.
//!
//! A raw entry must carry a non-empty container identifier and a non-empty
//! object key; an entry missing either is malformed, and a malformed entry
//! fails the extraction of the whole batch (a structural error in the
//! event, as opposed to a per-record processing failure).

use vstd::prelude::*;

verus! {

/// One raw entry of a notification batch, as the platform delivers it:
/// either field may be absent.
pub struct RawRecord {
    pub container: Option<String>,
    pub source_key: Option<String>,
}

/// One well-formed record: the object at `source_key` inside `container`
/// was created and its derivative is to be produced.
#[derive(Clone, Debug)]
pub struct Record {
    pub container: String,
    pub source_key: String,
}

/// Why a batch could not be extracted.
#[derive(Clone, Debug)]
pub enum ExtractError {
    /// The entry at `index` lacks a container identifier or an object key.
    MalformedRecord { index: usize },
}

/// A raw entry is well formed when both fields are present and non-empty.
pub open spec fn raw_record_ok(r: RawRecord) -> bool {
    &&& r.container matches Some(c) && c@.len() > 0
    &&& r.source_key matches Some(k) && k@.len() > 0
}

/// `recs` is the record sequence extracted from `batch`: same length, same
/// order, each record holding the entry's container and key.
pub open spec fn extracted_from(batch: Seq<RawRecord>, recs: Seq<Record>) -> bool {
    &&& recs.len() == batch.len()
    &&& forall|i: int|
        0 <= i < batch.len() ==> {
            &&& (#[trigger] recs[i]).container@ == batch[i].container.unwrap()@
            &&& recs[i].source_key@ == batch[i].source_key.unwrap()@
        }
}

/// Extract the ordered record sequence of a notification batch.
///
/// Succeeds exactly when every entry is well formed; otherwise reports the
/// first malformed entry, and no record of the batch is handed out.
pub fn extract_records(batch: &Vec<RawRecord>) -> (r: Result<Vec<Record>, ExtractError>)
    ensures
        r matches Ok(recs) ==> {
            &&& forall|i: int| 0 <= i < batch@.len() ==> raw_record_ok(#[trigger] batch@[i])
            &&& extracted_from(batch@, recs@)
        },
        r matches Err(e) ==> {
            &&& e matches ExtractError::MalformedRecord { index }
            &&& 0 <= index < batch@.len()
            &&& !raw_record_ok(batch@[index as int])
            &&& forall|j: int| 0 <= j < index ==> raw_record_ok(#[trigger] batch@[j])
        },
{
    let mut recs: Vec<Record> = Vec::new();
    let mut i: usize = 0;
    while i < batch.len()
        invariant
            i <= batch@.len(),
            recs@.len() == i,
            forall|j: int| 0 <= j < i ==> raw_record_ok(#[trigger] batch@[j]),
            forall|j: int|
                0 <= j < i ==> {
                    &&& (#[trigger] recs@[j]).container@ == batch@[j].container.unwrap()@
                    &&& recs@[j].source_key@ == batch@[j].source_key.unwrap()@
                },
        decreases batch@.len() - i,
    {
        let entry = &batch[i];
        match (&entry.container, &entry.source_key) {
            (Some(c), Some(k)) => {
                if c.as_str().is_empty() || k.as_str().is_empty() {
                    return Err(ExtractError::MalformedRecord { index: i });
                }
                recs.push(Record { container: c.clone(), source_key: k.clone() });
            },
            _ => {
                return Err(ExtractError::MalformedRecord { index: i });
            },
        }
        i = i + 1;
    }
    Ok(recs)
}

} // verus!
