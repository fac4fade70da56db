//! The session-bound provider's shared logic: its configuration, the exact
//! mapping from HTTP outcomes to the error taxonomy, extraction of the
//! backend's error message from a response body, parsing of a successful
//! transcription response, and the base64 audio encoding both variants
//! upload.

use vstd::prelude::*;

use base64::Engine;

use crate::jsonval::json_error_message_of;
use crate::jsonval::json_error_string_of;
use crate::jsonval::json_is_valid;
use crate::jsonval::json_message_of;
use crate::jsonval::json_text_is_valid;
use crate::jsonval::json_text_of;
use crate::jsonval::read_error_message;
use crate::jsonval::read_error_string;
use crate::jsonval::read_message;
use crate::jsonval::read_text_member;
use crate::text::all_digits;
use crate::text::dec_digits_part;
use crate::text::dec_string;
use crate::text::dec_value;
use crate::text::normalize_optional_string;
use crate::text::normalized_spec;
use crate::text::parse_u64;
use crate::text::truncated_spec;
use crate::text::trim_str;
use crate::text::trimmed_spec;
use crate::text::truncate_response_body;
use crate::text::u64_to_string;
use crate::transcription::TranscriptionError;
use crate::transcription::TranscriptionResult;
use crate::transcription::transcription_result_from_raw_text;

verus! {

/// The default request timeout of the direct variant, in seconds.
pub const DEFAULT_REQUEST_TIMEOUT_SECS: u64 = 180;

pub open spec fn default_endpoint_spec() -> Seq<char> {
    "https://chatgpt.com/backend-api/transcribe"@
}

/// The backend endpoint both provider variants upload to.
pub fn default_endpoint() -> (r: &'static str)
    ensures
        r@ == default_endpoint_spec(),
{
    "https://chatgpt.com/backend-api/transcribe"
}

/// Where transcription requests go and how long the direct variant waits.
#[derive(Debug)]
pub struct ChatGptTranscriptionConfig {
    pub endpoint: String,
    pub request_timeout_secs: u64,
}

impl Default for ChatGptTranscriptionConfig {
    fn default() -> (r: ChatGptTranscriptionConfig)
        ensures
            r.endpoint@ == default_endpoint_spec(),
            r.request_timeout_secs == DEFAULT_REQUEST_TIMEOUT_SECS,
    {
        ChatGptTranscriptionConfig {
            endpoint: String::from_str(default_endpoint()),
            request_timeout_secs: DEFAULT_REQUEST_TIMEOUT_SECS,
        }
    }
}

impl ChatGptTranscriptionConfig {
    /// Builds the configuration from raw override strings (as read from the
    /// environment by the surrounding application): a blank or absent
    /// endpoint falls back to the default, and the timeout falls back to the
    /// default unless the override is a decimal number, which is raised to
    /// at least one second.
    pub fn from_overrides(endpoint: Option<String>, timeout_secs: Option<String>) -> (r:
        ChatGptTranscriptionConfig)
        ensures
            match endpoint {
                Option::Some(e) => if trimmed_spec(e@).len() > 0 {
                    r.endpoint@ == trimmed_spec(e@)
                } else {
                    r.endpoint@ == default_endpoint_spec()
                },
                Option::None => r.endpoint@ == default_endpoint_spec(),
            },
            match timeout_secs {
                Option::Some(t) => {
                    let tt = dec_digits_part(trimmed_spec(t@));
                    if tt.len() > 0 && all_digits(tt) && dec_value(tt) <= u64::MAX {
                        r.request_timeout_secs == if dec_value(tt) >= 1 {
                            dec_value(tt)
                        } else {
                            1nat
                        }
                    } else {
                        r.request_timeout_secs == DEFAULT_REQUEST_TIMEOUT_SECS
                    }
                },
                Option::None => r.request_timeout_secs == DEFAULT_REQUEST_TIMEOUT_SECS,
            },
    {
        let endpoint_value = match normalize_optional_string(endpoint) {
            Option::Some(e) => e,
            Option::None => String::from_str(default_endpoint()),
        };
        let timeout_value = match timeout_secs {
            Option::Some(t) => {
                let trimmed = trim_str(t.as_str());
                match parse_u64(trimmed.as_str()) {
                    Option::Some(v) => if v >= 1 {
                        v
                    } else {
                        1
                    },
                    Option::None => DEFAULT_REQUEST_TIMEOUT_SECS,
                }
            },
            Option::None => DEFAULT_REQUEST_TIMEOUT_SECS,
        };
        ChatGptTranscriptionConfig {
            endpoint: endpoint_value,
            request_timeout_secs: timeout_value,
        }
    }
}

/// The kind of a `TranscriptionError`, without its message.
#[derive(Clone, Copy, PartialEq, Eq, Structural, Debug)]
pub enum ErrorKind {
    Authentication,
    RateLimited,
    Network,
    InvalidResponse,
    Provider,
}

pub open spec fn error_kind_of(e: &TranscriptionError) -> ErrorKind {
    match e {
        TranscriptionError::Authentication(_) => ErrorKind::Authentication,
        TranscriptionError::RateLimited(_) => ErrorKind::RateLimited,
        TranscriptionError::Network(_) => ErrorKind::Network,
        TranscriptionError::InvalidResponse(_) => ErrorKind::InvalidResponse,
        TranscriptionError::Provider(_) => ErrorKind::Provider,
    }
}

/// The exact mapping from a failed HTTP status to an error kind:
/// 401 and 403 mean the login is no longer honored, 429 is rate limiting,
/// 408 and every server error are transient, and anything else is a
/// backend-reported failure.
pub open spec fn status_kind_spec(status: u16) -> ErrorKind {
    if status == 401 || status == 403 {
        ErrorKind::Authentication
    } else if status == 429 {
        ErrorKind::RateLimited
    } else if status == 408 || status >= 500 {
        ErrorKind::Network
    } else {
        ErrorKind::Provider
    }
}

pub fn classify_status(status: u16) -> (k: ErrorKind)
    ensures
        k == status_kind_spec(status),
{
    if status == 401 || status == 403 {
        ErrorKind::Authentication
    } else if status == 429 {
        ErrorKind::RateLimited
    } else if status == 408 || status >= 500 {
        ErrorKind::Network
    } else {
        ErrorKind::Provider
    }
}

/// Wraps a message in the error of the given kind.
pub fn make_error(kind: ErrorKind, message: String) -> (e: TranscriptionError)
    ensures
        error_kind_of(&e) == kind,
        e.message_spec() == message@,
{
    match kind {
        ErrorKind::Authentication => TranscriptionError::Authentication(message),
        ErrorKind::RateLimited => TranscriptionError::RateLimited(message),
        ErrorKind::Network => TranscriptionError::Network(message),
        ErrorKind::InvalidResponse => TranscriptionError::InvalidResponse(message),
        ErrorKind::Provider => TranscriptionError::Provider(message),
    }
}

/// Law: the status-to-error-kind mapping is exact. 401 and 403 map to
/// `Authentication`, 429 to `RateLimited`, 408 and all statuses of 500 and
/// above to `Network`, and every other status to `Provider`.
pub proof fn lemma_status_mapping_exact(status: u16)
    ensures
        status_kind_spec(status) == ErrorKind::Authentication <==> (status == 401 || status
            == 403),
        status_kind_spec(status) == ErrorKind::RateLimited <==> status == 429,
        status_kind_spec(status) == ErrorKind::Network <==> (status == 408 || status >= 500),
        status_kind_spec(status) == ErrorKind::Provider <==> !(status == 401 || status == 403
            || status == 429 || status == 408 || status >= 500),
{
}

/// A candidate message survives when it is non-blank; what survives is its
/// trimmed text.
pub open spec fn nonblank_trimmed(candidate: Option<Seq<char>>) -> Option<Seq<char>> {
    match candidate {
        Option::Some(s) => if trimmed_spec(s).len() > 0 {
            Option::Some(trimmed_spec(s))
        } else {
            Option::None
        },
        Option::None => Option::None,
    }
}

/// Which message a failed response body yields: nothing unless the body is
/// JSON; then the first non-blank of the `error` member itself (when a
/// string) or `error.message`, then the top-level `message`, and finally
/// the truncated raw-body excerpt.
pub open spec fn error_message_spec(raw: Seq<char>) -> Option<Seq<char>> {
    if !json_is_valid(raw) {
        Option::None
    } else {
        let from_error = match json_error_string_of(raw) {
            Option::Some(s) => Option::Some(s),
            Option::None => json_error_message_of(raw),
        };
        match nonblank_trimmed(from_error) {
            Option::Some(m) => Option::Some(m),
            Option::None => match nonblank_trimmed(json_message_of(raw)) {
                Option::Some(m) => Option::Some(m),
                Option::None => nonblank_trimmed(Option::Some(truncated_spec(raw))),
            },
        }
    }
}

/// Looks for the backend's error message in a response body: `error.message`,
/// `error` itself when it is a string, or `message`; otherwise a truncated
/// excerpt of the raw body. `None` when the body is not JSON or nothing
/// non-blank was found.
pub fn parse_chatgpt_error_message(raw: &str) -> (r: Option<String>)
    ensures
        match r {
            Option::Some(m) => error_message_spec(raw@) == Option::Some(m@),
            Option::None => error_message_spec(raw@) is None,
        },
        r matches Option::Some(m) ==> m@.len() > 0,
{
    if !json_text_is_valid(raw) {
        return Option::None;
    }
    let picked = match read_error_string(raw) {
        Option::Some(s) => Option::Some(s),
        Option::None => read_error_message(raw),
    };
    if let Option::Some(m) = normalize_optional_string(picked) {
        return Option::Some(m);
    }
    if let Option::Some(m) = normalize_optional_string(read_message(raw)) {
        return Option::Some(m);
    }
    normalize_optional_string(Option::Some(truncate_response_body(raw)))
}

fn status_fallback_message(status: u16) -> (r: String)
    ensures
        r@ == "ChatGPT request failed with status "@ + dec_string(status as nat),
{
    let mut out = String::from_str("ChatGPT request failed with status ");
    let digits = u64_to_string(status as u64);
    out.append(digits.as_str());
    out
}

/// The message a failed call carries: the backend's own message from the
/// body when one is there, otherwise a fallback naming the status, or the
/// fixed bridge text when the callback carried no status at all.
pub open spec fn failure_message_spec(status: Option<u16>, body_text: Seq<char>) -> Seq<char> {
    match error_message_spec(body_text) {
        Option::Some(m) => m,
        Option::None => match status {
            Option::Some(s) => "ChatGPT request failed with status "@ + dec_string(s as nat),
            Option::None => "ChatGPT request failed in webview bridge"@,
        },
    }
}

/// Maps a failed response of the direct variant: the kind comes exactly from
/// the status, the message exactly from the body's backend message with the
/// status-naming fallback.
pub fn map_http_failure(status: u16, body: &str) -> (e: TranscriptionError)
    ensures
        error_kind_of(&e) == status_kind_spec(status),
        e.message_spec() == failure_message_spec(Option::Some(status), body@),
{
    let message = match parse_chatgpt_error_message(body) {
        Option::Some(m) => m,
        Option::None => status_fallback_message(status),
    };
    make_error(classify_status(status), message)
}

/// The body text a bridged outcome is read from: the carried body, or the
/// empty string when it carried none.
pub open spec fn bridge_body_text(body: Option<&str>) -> Seq<char> {
    match body {
        Option::Some(b) => b@,
        Option::None => ""@,
    }
}

/// Maps a bridged outcome that was not ok. A transport-level error string
/// reported by the injected script means the call never produced an HTTP
/// outcome and maps to `Network`; otherwise the kind comes exactly from the
/// status (`Provider` when the callback carried none), and the message
/// exactly from the body's backend message with the fallback texts.
pub fn map_bridge_http_error(status: Option<u16>, body: Option<&str>, bridge_error: Option<
    &str,
>) -> (e: TranscriptionError)
    ensures
        match bridge_error {
            Option::Some(be) => if trimmed_spec(be@).len() > 0 {
                error_kind_of(&e) == ErrorKind::Network && e.message_spec() == trimmed_spec(be@)
            } else {
                error_kind_of(&e) == match status {
                    Option::Some(s) => status_kind_spec(s),
                    Option::None => ErrorKind::Provider,
                } && e.message_spec() == failure_message_spec(status, bridge_body_text(body))
            },
            Option::None => error_kind_of(&e) == match status {
                Option::Some(s) => status_kind_spec(s),
                Option::None => ErrorKind::Provider,
            } && e.message_spec() == failure_message_spec(status, bridge_body_text(body)),
        },
{
    if let Option::Some(be) = bridge_error {
        let trimmed = trim_str(be);
        if trimmed.as_str().unicode_len() > 0 {
            return TranscriptionError::Network(trimmed);
        }
    }
    let body_text = match body {
        Option::Some(b) => b,
        Option::None => "",
    };
    let message = match parse_chatgpt_error_message(body_text) {
        Option::Some(m) => m,
        Option::None => match status {
            Option::Some(s) => status_fallback_message(s),
            Option::None => String::from_str("ChatGPT request failed in webview bridge"),
        },
    };
    match status {
        Option::Some(s) => make_error(classify_status(s), message),
        Option::None => TranscriptionError::Provider(message),
    }
}

/// Maps a transport-level failure of the direct variant: timeouts and
/// connection failures are `Network`, anything else is `Provider`. The
/// surrounding application extracts the two flags from its HTTP client's
/// error value.
pub fn classify_transport(is_timeout: bool, is_connect: bool, message: String) -> (e:
    TranscriptionError)
    ensures
        (is_timeout || is_connect) ==> (error_kind_of(&e) == ErrorKind::Network
            && e.message_spec() == message@),
        !(is_timeout || is_connect) ==> (error_kind_of(&e) == ErrorKind::Provider
            && e.message_spec() == message@),
{
    if is_timeout || is_connect {
        TranscriptionError::Network(message)
    } else {
        TranscriptionError::Provider(message)
    }
}

/// Reads the raw transcript text out of a successful response body:
/// succeeds exactly when the body is a JSON object with a string `text`
/// member, and returns exactly that string.
pub fn parse_transcription_body(body: &str) -> (r: Result<String, TranscriptionError>)
    ensures
        r is Ok <==> json_text_of(body@) is Some,
        r matches Result::Ok(s) ==> json_text_of(body@) == Option::Some(s@),
        r matches Result::Err(e) ==> error_kind_of(&e) == ErrorKind::InvalidResponse,
{
    match read_text_member(body) {
        Option::Some(s) => Result::Ok(s),
        Option::None => {
            if json_text_is_valid(body) {
                Result::Err(
                    TranscriptionError::InvalidResponse(
                        String::from_str("ChatGPT transcription response held no text"),
                    ),
                )
            } else {
                Result::Err(
                    TranscriptionError::InvalidResponse(
                        String::from_str("Unable to parse ChatGPT transcription response"),
                    ),
                )
            }
        },
    }
}

/// Builds the final result from a successful response body: it succeeds
/// exactly when the body carries a string `text` member, whose normalized
/// text is delivered; no optional metadata is claimed.
pub fn transcription_from_body(body: &str) -> (r: Result<TranscriptionResult, TranscriptionError>)
    ensures
        r is Ok <==> json_text_of(body@) is Some,
        r matches Result::Ok(t) ==> (json_text_of(body@) matches Option::Some(raw) && t.text@
            == normalized_spec(raw)),
        r matches Result::Err(e) ==> error_kind_of(&e) == ErrorKind::InvalidResponse,
        r matches Result::Ok(t) ==> t.language is None && t.duration_millis is None
            && t.confidence_permille is None,
{
    match parse_transcription_body(body) {
        Result::Ok(raw) => Result::Ok(transcription_result_from_raw_text(raw.as_str())),
        Result::Err(e) => Result::Err(e),
    }
}

/// What base64's standard engine produces for a byte string.
pub uninterp spec fn base64_of(bytes: Seq<u8>) -> Seq<char>;

/// Relies on base64's `general_purpose::STANDARD` engine (Engine::encode):
/// the standard alphabet with padding, a function of the input bytes alone,
/// four output characters for every three input bytes begun.
#[verifier::external_body]
pub fn encode_base64(bytes: &Vec<u8>) -> (r: String)
    ensures
        r@ == base64_of(bytes@),
        r@.len() == 4 * ((bytes@.len() + 2) / 3),
{
    base64::engine::general_purpose::STANDARD.encode(bytes.as_slice())
}

} // verus!
