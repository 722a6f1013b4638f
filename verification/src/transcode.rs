//! Per-record transcoding: the ordered fetch → decode → encode → store
//! pipeline for a single record, with its error boundary.
//!
//! A `Transcoder` walks one record through the four steps in order. The
//! first failing step ends the run with an error tagged by that step and
//! an underlying cause; every later step is short-circuited. The blob
//! store traffic and the quality-driven encoder live outside the library;
//! the machine fixes which step may run next, what the encode quality is,
//! and where the store step must write.

use crate::codec::{decode_accepts, load_image};
use crate::keys::{derive_key, spec_derived_key};
use crate::record::Record;
use vstd::prelude::*;
use vstd::string::*;

verus! {

/// Encode quality on the 0–100 scale used when none is chosen explicitly.
pub const DEFAULT_QUALITY: u8 = 75;

/// The four sub-operations of one record's transcode, in pipeline order.
#[derive(Clone, Copy, Debug, PartialEq, Eq, Structural)]
pub enum TranscodeStep {
    Fetch,
    Decode,
    Encode,
    Store,
}

/// A per-record failure, tagged with the step where it arose and the
/// underlying cause.
#[derive(Clone, Debug)]
pub enum TranscodeError {
    FetchFailed { cause: String },
    DecodeFailed { cause: String },
    EncodeFailed { cause: String },
    StoreFailed { cause: String },
}

impl TranscodeError {
    /// The step at which the failure arose.
    pub open spec fn step(&self) -> TranscodeStep {
        match self {
            TranscodeError::FetchFailed { .. } => TranscodeStep::Fetch,
            TranscodeError::DecodeFailed { .. } => TranscodeStep::Decode,
            TranscodeError::EncodeFailed { .. } => TranscodeStep::Encode,
            TranscodeError::StoreFailed { .. } => TranscodeStep::Store,
        }
    }

    /// The underlying cause, as text.
    pub open spec fn cause(&self) -> Seq<char> {
        match self {
            TranscodeError::FetchFailed { cause } => cause@,
            TranscodeError::DecodeFailed { cause } => cause@,
            TranscodeError::EncodeFailed { cause } => cause@,
            TranscodeError::StoreFailed { cause } => cause@,
        }
    }
}

/// Where one record's run stands.
#[derive(Clone, Copy, Debug, PartialEq, Eq, Structural)]
pub enum TranscodePhase {
    Fetching,
    Decoding,
    Encoding,
    Storing,
    Succeeded,
    Failed,
}

/// The phase a run in phase `p` reaches when its pending step completes.
pub open spec fn next_phase(p: TranscodePhase) -> TranscodePhase {
    match p {
        TranscodePhase::Fetching => TranscodePhase::Decoding,
        TranscodePhase::Decoding => TranscodePhase::Encoding,
        TranscodePhase::Encoding => TranscodePhase::Storing,
        TranscodePhase::Storing => TranscodePhase::Succeeded,
        TranscodePhase::Succeeded => TranscodePhase::Succeeded,
        TranscodePhase::Failed => TranscodePhase::Failed,
    }
}

/// The step pending in phase `p`.
pub open spec fn step_of_phase(p: TranscodePhase) -> TranscodeStep
    recommends
        p != TranscodePhase::Succeeded && p != TranscodePhase::Failed,
{
    match p {
        TranscodePhase::Fetching => TranscodeStep::Fetch,
        TranscodePhase::Decoding => TranscodeStep::Decode,
        TranscodePhase::Encoding => TranscodeStep::Encode,
        _ => TranscodeStep::Store,
    }
}

/// Where the store step writes the encoded derivative.
pub struct StoreTarget {
    pub container: String,
    pub key: String,
    pub content_type: String,
}

/// Sequencer for one record's transcode. It pins the step order, the
/// quality handed to the encoder, and the store step's target, and it
/// turns the first step failure into the record's terminal error.
pub struct Transcoder {
    container: String,
    source_key: String,
    quality: u8,
    phase: TranscodePhase,
    error: Option<TranscodeError>,
}

impl Transcoder {
    /// The container the source object lives in.
    pub closed spec fn container_view(&self) -> Seq<char> {
        self.container@
    }

    /// The key of the source object.
    pub closed spec fn key_view(&self) -> Seq<char> {
        self.source_key@
    }

    /// The quality the encode step is to use.
    pub closed spec fn quality_value(&self) -> u8 {
        self.quality
    }

    /// The phase the run stands in.
    pub closed spec fn phase(&self) -> TranscodePhase {
        self.phase
    }

    /// The terminal error, once a step has failed.
    pub closed spec fn error(&self) -> Option<TranscodeError> {
        self.error
    }

    pub open spec fn wf(&self) -> bool {
        &&& self.quality_value() <= 100
        &&& (self.phase() == TranscodePhase::Failed <==> self.error() is Some)
    }

    /// The run still has a step to perform.
    pub open spec fn in_progress(&self) -> bool {
        self.phase() != TranscodePhase::Succeeded && self.phase() != TranscodePhase::Failed
    }

    /// The step the run is waiting on, `None` once it has finished.
    pub open spec fn spec_current_step(&self) -> Option<TranscodeStep> {
        if self.in_progress() {
            Some(step_of_phase(self.phase()))
        } else {
            None
        }
    }

    /// Both runs are over the same record with the same quality.
    pub open spec fn same_job(&self, other: &Transcoder) -> bool {
        &&& self.container_view() == other.container_view()
        &&& self.key_view() == other.key_view()
        &&& self.quality_value() == other.quality_value()
    }

    /// Start a run for `r`, waiting on the fetch step.
    pub fn new(r: &Record) -> (t: Transcoder)
        ensures
            t.wf(),
            t.phase() == TranscodePhase::Fetching,
            t.container_view() == r.container@,
            t.key_view() == r.source_key@,
            t.quality_value() == DEFAULT_QUALITY,
    {
        Transcoder {
            container: r.container.clone(),
            source_key: r.source_key.clone(),
            quality: DEFAULT_QUALITY,
            phase: TranscodePhase::Fetching,
            error: None,
        }
    }

    /// Choose the encode quality (0–100 scale).
    pub fn set_quality(&mut self, q: u8)
        requires
            old(self).wf(),
            q <= 100,
        ensures
            final(self).wf(),
            final(self).quality_value() == q,
            final(self).container_view() == old(self).container_view(),
            final(self).key_view() == old(self).key_view(),
            final(self).phase() == old(self).phase(),
            final(self).error() == old(self).error(),
    {
        self.quality = q;
    }

    /// The step the run is waiting on, `None` once it has finished.
    pub fn current_step(&self) -> (s: Option<TranscodeStep>)
        ensures
            s == self.spec_current_step(),
    {
        match self.phase {
            TranscodePhase::Fetching => Some(TranscodeStep::Fetch),
            TranscodePhase::Decoding => Some(TranscodeStep::Decode),
            TranscodePhase::Encoding => Some(TranscodeStep::Encode),
            TranscodePhase::Storing => Some(TranscodeStep::Store),
            TranscodePhase::Succeeded => None,
            TranscodePhase::Failed => None,
        }
    }

    /// Container and key the fetch step reads from.
    pub fn fetch_source(&self) -> (r: (&String, &String))
        ensures
            r.0@ == self.container_view(),
            r.1@ == self.key_view(),
    {
        (&self.container, &self.source_key)
    }

    /// The quality the encode step is to use.
    pub fn quality(&self) -> (q: u8)
        ensures
            q == self.quality_value(),
    {
        self.quality
    }

    /// Record that the pending step completed: the run advances to the
    /// next step in fetch → decode → encode → store order.
    pub fn step_ok(&mut self)
        requires
            old(self).wf(),
            old(self).in_progress(),
        ensures
            final(self).wf(),
            old(self).same_job(final(self)),
            final(self).phase() == next_phase(old(self).phase()),
            final(self).error() is None,
    {
        self.phase = match self.phase {
            TranscodePhase::Fetching => TranscodePhase::Decoding,
            TranscodePhase::Decoding => TranscodePhase::Encoding,
            TranscodePhase::Encoding => TranscodePhase::Storing,
            TranscodePhase::Storing => TranscodePhase::Succeeded,
            TranscodePhase::Succeeded => TranscodePhase::Succeeded,
            TranscodePhase::Failed => TranscodePhase::Failed,
        };
    }

    /// Record that the pending step failed: the run ends with an error
    /// tagged by that step and carrying `cause`, and no later step runs.
    pub fn step_failed(&mut self, cause: String)
        requires
            old(self).wf(),
            old(self).in_progress(),
        ensures
            final(self).wf(),
            old(self).same_job(final(self)),
            final(self).phase() == TranscodePhase::Failed,
            final(self).error() matches Some(e) && e.step() == step_of_phase(
                old(self).phase(),
            ) && e.cause() == cause@,
    {
        let e = match self.phase {
            TranscodePhase::Fetching => TranscodeError::FetchFailed { cause },
            TranscodePhase::Decoding => TranscodeError::DecodeFailed { cause },
            TranscodePhase::Encoding => TranscodeError::EncodeFailed { cause },
            TranscodePhase::Storing => TranscodeError::StoreFailed { cause },
            TranscodePhase::Succeeded => TranscodeError::StoreFailed { cause },
            TranscodePhase::Failed => TranscodeError::StoreFailed { cause },
        };
        self.phase = TranscodePhase::Failed;
        self.error = Some(e);
    }

    /// Run the decode step on the fetched bytes through the codec. On
    /// success the run waits on the encode step and the pixel buffer is
    /// handed back for it; otherwise the run ends as a decode failure.
    pub fn decode_step(&mut self, bytes: &[u8]) -> (r: Option<image::DynamicImage>)
        requires
            old(self).wf(),
            old(self).phase() == TranscodePhase::Decoding,
        ensures
            final(self).wf(),
            old(self).same_job(final(self)),
            r is Some <==> decode_accepts(bytes@),
            decode_accepts(bytes@) ==> final(self).phase() == TranscodePhase::Encoding,
            !decode_accepts(bytes@) ==> final(self).phase() == TranscodePhase::Failed && (
            final(self).error() matches Some(e) && e.step() == TranscodeStep::Decode),
    {
        match load_image(bytes) {
            Ok(img) => {
                self.step_ok();
                Some(img)
            },
            Err(cause) => {
                self.step_failed(cause);
                None
            },
        }
    }

    /// The store step's target: the derived key beside the source, with
    /// the derivative's media type. The key is a pure function of the
    /// source key, so a repeated run writes to the same location.
    pub fn store_target(&self) -> (t: StoreTarget)
        ensures
            t.container@ == self.container_view(),
            t.key@ == spec_derived_key(self.key_view()),
            t.content_type@ == "image/webp"@,
    {
        StoreTarget {
            container: self.container.clone(),
            key: derive_key(self.source_key.as_str()),
            content_type: String::from_str("image/webp"),
        }
    }

    /// The outcome of a finished run.
    pub fn into_result(self) -> (r: Result<(), TranscodeError>)
        requires
            self.wf(),
            !self.in_progress(),
        ensures
            self.phase() == TranscodePhase::Succeeded ==> r is Ok,
            self.phase() == TranscodePhase::Failed ==> (r matches Err(e) && Some(e)
                == self.error()),
    {
        match self.error {
            Some(e) => Err(e),
            None => Ok(()),
        }
    }
}

/// Idempotent write target: two runs over the same record derive the same
/// storage key, so the second run overwrites the first derivative rather
/// than creating an object at a new location.
pub proof fn lemma_idempotent_store_target(a: Transcoder, b: Transcoder)
    requires
        a.key_view() == b.key_view(),
    ensures
        spec_derived_key(a.key_view()) == spec_derived_key(b.key_view()),
{
}

} // verus!
