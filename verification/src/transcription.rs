//! The transcription-provider contract: options, results and the closed
//! error taxonomy that every backend maps its failures into.

use vstd::prelude::*;

use crate::text::normalized_spec;
use crate::text::normalize_transcript_text;

verus! {

/// Hints handed to a provider along with the audio. The incremental-delta
/// callback of the surrounding application is not part of the core contract;
/// callers receive the final normalized text from the provider call itself.
#[derive(Debug)]
pub struct TranscriptionOptions {
    pub language: Option<String>,
    pub prompt: Option<String>,
    pub context_hint: Option<String>,
}

impl Default for TranscriptionOptions {
    fn default() -> (r: TranscriptionOptions)
        ensures
            r.language is None,
            r.prompt is None,
            r.context_hint is None,
    {
        TranscriptionOptions { language: Option::None, prompt: Option::None, context_hint: Option::None }
    }
}

/// A finished transcription. Returned by value from a provider call and not
/// mutated afterwards. The optional duration is carried in milliseconds and
/// the optional confidence in permille, so both are plain integers.
#[derive(Debug)]
pub struct TranscriptionResult {
    pub text: String,
    pub language: Option<String>,
    pub duration_millis: Option<u64>,
    pub confidence_permille: Option<u64>,
}

/// The closed error taxonomy. Every provider failure is one of these; the
/// carried string is a human-readable message.
#[derive(Debug)]
pub enum TranscriptionError {
    /// Re-login required.
    Authentication(String),
    /// Backoff and retry is the caller's responsibility.
    RateLimited(String),
    /// Transient transport failure or timeout.
    Network(String),
    /// Malformed payload from the provider or the bridge.
    InvalidResponse(String),
    /// Backend-reported failure that fits no other kind.
    Provider(String),
}

impl TranscriptionError {
    pub open spec fn message_spec(&self) -> Seq<char> {
        match self {
            TranscriptionError::Authentication(m) => m@,
            TranscriptionError::RateLimited(m) => m@,
            TranscriptionError::Network(m) => m@,
            TranscriptionError::InvalidResponse(m) => m@,
            TranscriptionError::Provider(m) => m@,
        }
    }

    /// The human-readable message carried by any error kind.
    pub fn message(&self) -> (m: &String)
        ensures
            m@ == self.message_spec(),
    {
        match self {
            TranscriptionError::Authentication(m) => m,
            TranscriptionError::RateLimited(m) => m,
            TranscriptionError::Network(m) => m,
            TranscriptionError::InvalidResponse(m) => m,
            TranscriptionError::Provider(m) => m,
        }
    }

    pub open spec fn same_kind_spec(&self, other: &TranscriptionError) -> bool {
        match (self, other) {
            (TranscriptionError::Authentication(_), TranscriptionError::Authentication(_)) => true,
            (TranscriptionError::RateLimited(_), TranscriptionError::RateLimited(_)) => true,
            (TranscriptionError::Network(_), TranscriptionError::Network(_)) => true,
            (TranscriptionError::InvalidResponse(_), TranscriptionError::InvalidResponse(_)) => true,
            (TranscriptionError::Provider(_), TranscriptionError::Provider(_)) => true,
            _ => false,
        }
    }
}

impl vstd::std_specs::cmp::PartialEqSpecImpl for TranscriptionError {
    open spec fn obeys_eq_spec() -> bool {
        true
    }

    open spec fn eq_spec(&self, other: &TranscriptionError) -> bool {
        self.same_kind_spec(other) && self.message_spec() == other.message_spec()
    }
}

impl PartialEq for TranscriptionError {
    fn eq(&self, other: &TranscriptionError) -> (r: bool) {
        let kinds_match = match (self, other) {
            (TranscriptionError::Authentication(_), TranscriptionError::Authentication(_)) => true,
            (TranscriptionError::RateLimited(_), TranscriptionError::RateLimited(_)) => true,
            (TranscriptionError::Network(_), TranscriptionError::Network(_)) => true,
            (TranscriptionError::InvalidResponse(_), TranscriptionError::InvalidResponse(_)) => true,
            (TranscriptionError::Provider(_), TranscriptionError::Provider(_)) => true,
            _ => false,
        };
        kinds_match && self.message().eq(other.message())
    }
}

/// Builds the result a provider returns for raw backend text: the text is
/// normalized (trimmed, internal whitespace collapsed) and no optional
/// metadata is claimed.
pub fn transcription_result_from_raw_text(raw: &str) -> (r: TranscriptionResult)
    ensures
        r.text@ == normalized_spec(raw@),
        r.language is None,
        r.duration_millis is None,
        r.confidence_permille is None,
{
    TranscriptionResult {
        text: normalize_transcript_text(raw),
        language: Option::None,
        duration_millis: Option::None,
        confidence_permille: Option::None,
    }
}

} // verus!
