//! The browser-bridge callback protocol: a fresh request id per call, a
//! loopback callback URL carrying it, a script payload whose JSON is built
//! and escaped here, and the listener-side decision that accepts exactly the
//! callback whose request id matches the one outstanding, at most once.
//!
//! The canonical order of a call is: generate the id, bind the listener,
//! finalize the callback URL from the bound port, build the script, inject.
//! Building the URL only after the listener is bound rules out the race
//! where the script fires before anything listens.

use vstd::prelude::*;

use crate::httpmsg::HttpRequest;
use crate::text::dec_string;
use crate::text::digit_char;
use crate::text::string_from_utf8;
use crate::text::string_from_utf8_lossy;
use crate::text::u64_to_string;
use crate::transcription::TranscriptionError;
use crate::urlenc::bytes_eq;
use crate::urlenc::query_param;
use crate::urlenc::split_target;
use crate::urlenc::target_path;
use crate::urlenc::target_query;
use crate::urlenc::query_param_spec;
use vstd::string::StringSliceAdditionalSpecFns;

verus! {

/// The fixed path of the loopback callback endpoint.
pub fn callback_path() -> (r: &'static str)
    ensures
        r@ == "/voice/chatgpt-transcribe-callback"@,
{
    "/voice/chatgpt-transcribe-callback"
}

/// Relies on uuid's Uuid::new_v4 and its hyphenated Display form: a random
/// version-4 UUID. The value is random, so only its shape is assumed:
/// 36 characters.
#[verifier::external_body]
pub fn fresh_request_id() -> (r: String)
    ensures
        r@.len() == 36,
{
    uuid::Uuid::new_v4().to_string()
}

pub open spec fn callback_url_spec(port: u16, request_id: Seq<char>) -> Seq<char> {
    "http://127.0.0.1:"@ + dec_string(port as nat) + "/voice/chatgpt-transcribe-callback"@
        + "?requestId="@ + request_id
}

/// The callback URL the injected script reports to, built from the bound
/// listener port and the outstanding request id.
pub fn build_callback_url(port: u16, request_id: &str) -> (r: String)
    ensures
        r@ == callback_url_spec(port, request_id@),
{
    let mut out = String::from_str("http://127.0.0.1:");
    let digits = u64_to_string(port as u64);
    out.append(digits.as_str());
    out.append(callback_path());
    out.append("?requestId=");
    out.append(request_id);
    out
}

/// The payload handed to the injected script: everything it needs to decode
/// the audio, perform the authenticated call from inside the browser
/// context, and report the outcome to the callback URL.
#[derive(Debug)]
pub struct BridgeRequest {
    pub request_id: String,
    pub endpoint: String,
    pub callback_url: String,
    pub audio_base64: String,
    pub access_token: String,
    pub account_id: String,
}

pub open spec fn hex_char(d: nat) -> char {
    if d < 10 {
        digit_char(d)
    } else if d == 10 {
        'a'
    } else if d == 11 {
        'b'
    } else if d == 12 {
        'c'
    } else if d == 13 {
        'd'
    } else if d == 14 {
        'e'
    } else {
        'f'
    }
}

/// How one character is written inside a JSON string literal.
pub open spec fn json_escaped_char(c: char) -> Seq<char> {
    if c == '"' {
        seq!['\\', '"']
    } else if c == '\\' {
        seq!['\\', '\\']
    } else if c == '\n' {
        seq!['\\', 'n']
    } else if c == '\r' {
        seq!['\\', 'r']
    } else if c == '\t' {
        seq!['\\', 't']
    } else if (c as u32) < 32 {
        seq!['\\', 'u', '0', '0', hex_char(((c as u32) / 16) as nat), hex_char(
            ((c as u32) % 16) as nat,
        )]
    } else {
        seq![c]
    }
}

/// A string escaped for use inside a JSON string literal.
pub open spec fn json_escaped(s: Seq<char>) -> Seq<char>
    decreases s.len(),
{
    if s.len() == 0 {
        Seq::empty()
    } else {
        json_escaped_char(s[0]) + json_escaped(s.drop_first())
    }
}

fn hex_to_char(d: u32) -> (c: char)
    requires
        d < 16,
    ensures
        c == hex_char(d as nat),
{
    if d == 0 {
        '0'
    } else if d == 1 {
        '1'
    } else if d == 2 {
        '2'
    } else if d == 3 {
        '3'
    } else if d == 4 {
        '4'
    } else if d == 5 {
        '5'
    } else if d == 6 {
        '6'
    } else if d == 7 {
        '7'
    } else if d == 8 {
        '8'
    } else if d == 9 {
        '9'
    } else if d == 10 {
        'a'
    } else if d == 11 {
        'b'
    } else if d == 12 {
        'c'
    } else if d == 13 {
        'd'
    } else if d == 14 {
        'e'
    } else {
        'f'
    }
}

/// Appends `value` to `out` in JSON string escaping.
fn append_json_escaped(out: &mut String, value: &str)
    ensures
        final(out)@ == old(out)@ + json_escaped(value@),
{
    let len = value.unicode_len();
    let mut i: usize = 0;
    proof {
        assert(value@.skip(0) == value@);
    }
    while i < len
        invariant
            len == value@.len(),
            0 <= i <= len,
            old(out)@ + json_escaped(value@) == out@ + json_escaped(value@.skip(i as int)),
        decreases len - i,
    {
        let ghost rest = value@.skip(i as int);
        proof {
            assert(rest[0] == value@[i as int]);
            assert(rest.drop_first() == value@.skip(i + 1));
        }
        let c = value.get_char(i);
        if c == '"' {
            crate::text::push_char(out, '\\');
            crate::text::push_char(out, '"');
        } else if c == '\\' {
            crate::text::push_char(out, '\\');
            crate::text::push_char(out, '\\');
        } else if c == '\n' {
            crate::text::push_char(out, '\\');
            crate::text::push_char(out, 'n');
        } else if c == '\r' {
            crate::text::push_char(out, '\\');
            crate::text::push_char(out, 'r');
        } else if c == '\t' {
            crate::text::push_char(out, '\\');
            crate::text::push_char(out, 't');
        } else if (c as u32) < 32 {
            let code = c as u32;
            crate::text::push_char(out, '\\');
            crate::text::push_char(out, 'u');
            crate::text::push_char(out, '0');
            crate::text::push_char(out, '0');
            crate::text::push_char(out, hex_to_char(code / 16));
            crate::text::push_char(out, hex_to_char(code % 16));
        } else {
            crate::text::push_char(out, c);
        }
        i += 1;
    }
    proof {
        assert(json_escaped(value@.skip(len as int)) =~= Seq::<char>::empty());
    }
}

/// One `"key":"escaped value"` member of a JSON object.
pub open spec fn json_member(key: Seq<char>, value: Seq<char>) -> Seq<char> {
    seq!['"'] + key + seq!['"', ':', '"'] + json_escaped(value) + seq!['"']
}

fn append_json_member(out: &mut String, key: &str, value: &str)
    ensures
        final(out)@ == old(out)@ + json_member(key@, value@),
{
    crate::text::push_char(out, '"');
    out.append(key);
    crate::text::push_char(out, '"');
    crate::text::push_char(out, ':');
    crate::text::push_char(out, '"');
    append_json_escaped(out, value);
    crate::text::push_char(out, '"');
    proof {
        assert(out@ =~= old(out)@ + json_member(key@, value@));
    }
}

/// The JSON object the injected script receives, members in the order the
/// script reads them.
pub open spec fn bridge_request_json_spec(r: &BridgeRequest) -> Seq<char> {
    seq!['{'] + json_member("requestId"@, r.request_id@) + seq![','] + json_member(
        "endpoint"@,
        r.endpoint@,
    ) + seq![','] + json_member("callbackUrl"@, r.callback_url@) + seq![','] + json_member(
        "audioBase64"@,
        r.audio_base64@,
    ) + seq![','] + json_member("accessToken"@, r.access_token@) + seq![','] + json_member(
        "accountId"@,
        r.account_id@,
    ) + seq!['}']
}

/// Writes the script payload as JSON.
pub fn bridge_request_json(r: &BridgeRequest) -> (out: String)
    ensures
        out@ == bridge_request_json_spec(r),
{
    let mut out = String::new();
    crate::text::push_char(&mut out, '{');
    append_json_member(&mut out, "requestId", r.request_id.as_str());
    crate::text::push_char(&mut out, ',');
    append_json_member(&mut out, "endpoint", r.endpoint.as_str());
    crate::text::push_char(&mut out, ',');
    append_json_member(&mut out, "callbackUrl", r.callback_url.as_str());
    crate::text::push_char(&mut out, ',');
    append_json_member(&mut out, "audioBase64", r.audio_base64.as_str());
    crate::text::push_char(&mut out, ',');
    append_json_member(&mut out, "accessToken", r.access_token.as_str());
    crate::text::push_char(&mut out, ',');
    append_json_member(&mut out, "accountId", r.account_id.as_str());
    crate::text::push_char(&mut out, '}');
    proof {
        assert(out@ =~= bridge_request_json_spec(r));
    }
    out
}

pub open spec fn script_prefix_spec() -> Seq<char> {
    "(async () => {\n  const payload = "@
}

pub open spec fn script_suffix_spec() -> Seq<char> {
    ";\n  const reportResult = (result) => {\n    const serialized = encodeURIComponent(JSON.stringify(result));\n    window.location.assign(`${payload.callbackUrl}&payload=${serialized}`);\n  };\n\n  try {\n    const binary = atob(payload.audioBase64);\n    const bytes = new Uint8Array(binary.length);\n    for (let i = 0; i < binary.length; i += 1) {\n      bytes[i] = binary.charCodeAt(i);\n    }\n\n    const form = new FormData();\n    form.append(\"file\", new Blob([bytes], { type: \"audio/wav\" }), \"audio.wav\");\n\n    const response = await fetch(payload.endpoint, {\n      method: \"POST\",\n      credentials: \"include\",\n      headers: {\n        \"Authorization\": `Bearer ${payload.accessToken}`,\n        \"ChatGPT-Account-Id\": payload.accountId,\n        \"X-Codex-Base64\": \"1\"\n      },\n      body: form\n    });\n\n    const text = await response.text();\n    reportResult({\n      requestId: payload.requestId,\n      ok: response.ok,\n      status: response.status,\n      body: text.slice(0, 2000)\n    });\n  } catch (error) {\n    reportResult({\n      requestId: payload.requestId,\n      ok: false,\n      error: error instanceof Error ? error.message : String(error)\n    });\n  }\n})();"@
}

/// The script injected into the browser context: it decodes the base64
/// audio, performs the authenticated upload from inside that context, and
/// reports the outcome (ok flag, HTTP status, response body cut to 2000
/// characters, or an error string) by navigating to the callback URL with
/// the JSON result URL-encoded as a query parameter.
pub fn build_bridge_script(request: &BridgeRequest) -> (r: String)
    ensures
        r@ == script_prefix_spec() + bridge_request_json_spec(request) + script_suffix_spec(),
{
    let mut out = String::from_str("(async () => {\n  const payload = ");
    let payload_json = bridge_request_json(request);
    out.append(payload_json.as_str());
    out.append(
        ";\n  const reportResult = (result) => {\n    const serialized = encodeURIComponent(JSON.stringify(result));\n    window.location.assign(`${payload.callbackUrl}&payload=${serialized}`);\n  };\n\n  try {\n    const binary = atob(payload.audioBase64);\n    const bytes = new Uint8Array(binary.length);\n    for (let i = 0; i < binary.length; i += 1) {\n      bytes[i] = binary.charCodeAt(i);\n    }\n\n    const form = new FormData();\n    form.append(\"file\", new Blob([bytes], { type: \"audio/wav\" }), \"audio.wav\");\n\n    const response = await fetch(payload.endpoint, {\n      method: \"POST\",\n      credentials: \"include\",\n      headers: {\n        \"Authorization\": `Bearer ${payload.accessToken}`,\n        \"ChatGPT-Account-Id\": payload.accountId,\n        \"X-Codex-Base64\": \"1\"\n      },\n      body: form\n    });\n\n    const text = await response.text();\n    reportResult({\n      requestId: payload.requestId,\n      ok: response.ok,\n      status: response.status,\n      body: text.slice(0, 2000)\n    });\n  } catch (error) {\n    reportResult({\n      requestId: payload.requestId,\n      ok: false,\n      error: error instanceof Error ? error.message : String(error)\n    });\n  }\n})();",
    );
    out
}

/// What the injected script reported back: the outcome of the upload it
/// performed, correlated to the outstanding call by the request id.
#[derive(Debug)]
pub struct BridgeCallback {
    pub request_id: String,
    pub ok: bool,
    pub status: Option<u16>,
    pub body: Option<String>,
    pub error: Option<String>,
}

/// The string `requestId` member of a callback payload; `None` when the
/// payload is not a JSON object with one.
pub uninterp spec fn callback_request_id_of(p: Seq<char>) -> Option<Seq<char>>;

/// The boolean `ok` member; `None` when the payload is not a JSON object
/// with one.
pub uninterp spec fn callback_ok_of(p: Seq<char>) -> Option<bool>;

/// The `status` member: the outer `None` when the payload is not JSON or
/// the member is not an unsigned integer; `Some(None)` when it is absent or
/// null.
pub uninterp spec fn callback_status_of(p: Seq<char>) -> Option<Option<u64>>;

/// The `body` member: the outer `None` when the payload is not JSON or the
/// member is neither a string nor null; `Some(None)` when absent or null.
pub uninterp spec fn callback_body_of(p: Seq<char>) -> Option<Option<Seq<char>>>;

/// The `error` member, read like `body`.
pub uninterp spec fn callback_error_of(p: Seq<char>) -> Option<Option<Seq<char>>>;

/// Relies on serde_json's from_str, Value::get and Value::as_str: the
/// string `requestId` member, a function of the payload text alone.
#[verifier::external_body]
fn read_callback_request_id(p: &str) -> (r: Option<String>)
    ensures
        match r {
            Option::Some(s) => callback_request_id_of(p@) == Option::Some(s@),
            Option::None => callback_request_id_of(p@) is None,
        },
{
    let parsed: serde_json::Value = serde_json::from_str(p).ok()?;
    Some(parsed.get("requestId")?.as_str()?.to_string())
}

/// Relies on serde_json's from_str, Value::get and Value::as_bool: the
/// boolean `ok` member, a function of the payload text alone.
#[verifier::external_body]
fn read_callback_ok(p: &str) -> (r: Option<bool>)
    ensures
        r == callback_ok_of(p@),
{
    let parsed: serde_json::Value = serde_json::from_str(p).ok()?;
    parsed.get("ok")?.as_bool()
}

/// Relies on serde_json's from_str, Value::get, Value::is_null and
/// Value::as_u64: the `status` member, a function of the payload text
/// alone; absent and null are distinguished from malformed.
#[verifier::external_body]
fn read_callback_status(p: &str) -> (r: Option<Option<u64>>)
    ensures
        r == callback_status_of(p@),
{
    let parsed: serde_json::Value = match serde_json::from_str(p) {
        Ok(v) => v,
        Err(_) => return None,
    };
    match parsed.get("status") {
        None => Some(None),
        Some(v) => if v.is_null() {
            Some(None)
        } else {
            match v.as_u64() {
                Some(n) => Some(Some(n)),
                None => None,
            }
        },
    }
}

/// Relies on serde_json's from_str, Value::get, Value::is_null and
/// Value::as_str: the `body` member, a function of the payload text alone;
/// absent and null are distinguished from malformed.
#[verifier::external_body]
fn read_callback_body(p: &str) -> (r: Option<Option<String>>)
    ensures
        match r {
            Option::Some(Option::Some(s)) => callback_body_of(p@) == Option::Some(
                Option::Some(s@),
            ),
            Option::Some(Option::None) => callback_body_of(p@) == Option::Some(
                Option::None::<Seq<char>>,
            ),
            Option::None => callback_body_of(p@) is None,
        },
{
    let parsed: serde_json::Value = match serde_json::from_str(p) {
        Ok(v) => v,
        Err(_) => return None,
    };
    match parsed.get("body") {
        None => Some(None),
        Some(v) => if v.is_null() {
            Some(None)
        } else {
            match v.as_str() {
                Some(content) => Some(Some(content.to_string())),
                None => None,
            }
        },
    }
}

/// Relies on serde_json's from_str, Value::get, Value::is_null and
/// Value::as_str: the `error` member, read exactly like `body`.
#[verifier::external_body]
fn read_callback_error(p: &str) -> (r: Option<Option<String>>)
    ensures
        match r {
            Option::Some(Option::Some(s)) => callback_error_of(p@) == Option::Some(
                Option::Some(s@),
            ),
            Option::Some(Option::None) => callback_error_of(p@) == Option::Some(
                Option::None::<Seq<char>>,
            ),
            Option::None => callback_error_of(p@) is None,
        },
{
    let parsed: serde_json::Value = match serde_json::from_str(p) {
        Ok(v) => v,
        Err(_) => return None,
    };
    match parsed.get("error") {
        None => Some(None),
        Some(v) => if v.is_null() {
            Some(None)
        } else {
            match v.as_str() {
                Some(content) => Some(Some(content.to_string())),
                None => None,
            }
        },
    }
}

/// Whether a payload has the callback shape: a string `requestId`, a
/// boolean `ok`, a `status` that is absent, null or an unsigned integer
/// fitting sixteen bits, and `body` and `error` that are absent, null or
/// strings.
pub open spec fn callback_shape_ok(p: Seq<char>) -> bool {
    &&& callback_request_id_of(p) is Some
    &&& callback_ok_of(p) is Some
    &&& match callback_status_of(p) {
        Option::Some(Option::Some(n)) => n <= 65535,
        Option::Some(Option::None) => true,
        Option::None => false,
    }
    &&& callback_body_of(p) is Some
    &&& callback_error_of(p) is Some
}

/// What a well-shaped payload denotes: each field of the callback equals
/// the named value of the payload text.
pub open spec fn callback_fields_match(p: Seq<char>, cb: &BridgeCallback) -> bool {
    &&& callback_request_id_of(p) == Option::Some(cb.request_id@)
    &&& callback_ok_of(p) == Option::Some(cb.ok)
    &&& match callback_status_of(p) {
        Option::Some(Option::Some(n)) => cb.status matches Option::Some(s) && s as u64 == n,
        Option::Some(Option::None) => cb.status is None,
        Option::None => false,
    }
    &&& match callback_body_of(p) {
        Option::Some(Option::Some(s)) => cb.body matches Option::Some(b) && b@ == s,
        Option::Some(Option::None) => cb.body is None,
        Option::None => false,
    }
    &&& match callback_error_of(p) {
        Option::Some(Option::Some(s)) => cb.error matches Option::Some(e) && e@ == s,
        Option::Some(Option::None) => cb.error is None,
        Option::None => false,
    }
}

/// Reads a callback payload: succeeds exactly when the payload has the
/// callback shape, and then every field equals the named value of the
/// payload text.
pub fn parse_bridge_callback(payload: &str) -> (r: Option<BridgeCallback>)
    ensures
        r is Some <==> callback_shape_ok(payload@),
        r matches Option::Some(cb) ==> callback_fields_match(payload@, &cb),
{
    let request_id = match read_callback_request_id(payload) {
        Option::Some(s) => s,
        Option::None => {
            return Option::None;
        },
    };
    let ok = match read_callback_ok(payload) {
        Option::Some(b) => b,
        Option::None => {
            return Option::None;
        },
    };
    let status: Option<u16> = match read_callback_status(payload) {
        Option::Some(Option::Some(n)) => {
            if n > 65535 {
                return Option::None;
            }
            Option::Some(n as u16)
        },
        Option::Some(Option::None) => Option::None,
        Option::None => {
            return Option::None;
        },
    };
    let body = match read_callback_body(payload) {
        Option::Some(b) => b,
        Option::None => {
            return Option::None;
        },
    };
    let error = match read_callback_error(payload) {
        Option::Some(e) => e,
        Option::None => {
            return Option::None;
        },
    };
    Option::Some(BridgeCallback { request_id, ok, status, body, error })
}

/// Whether a callback belongs to the outstanding call.
pub open spec fn callback_matches(expected: Seq<char>, cb: &BridgeCallback) -> bool {
    cb.request_id@ == expected
}

/// The correlation decision: a callback is accepted exactly when its request
/// id equals the outstanding one; any other callback is handed back as
/// rejected, never resolving the call.
pub fn correlate_callback(expected_id: &str, cb: BridgeCallback) -> (r: Option<BridgeCallback>)
    ensures
        r is Some <==> callback_matches(expected_id@, &cb),
        r matches Option::Some(out) ==> out == cb,
{
    let expected = String::from_str(expected_id);
    if cb.request_id.eq(&expected) {
        Option::Some(cb)
    } else {
        Option::None
    }
}

/// How the listener disposes of one callback request.
#[derive(Debug)]
pub enum CallbackOutcome {
    /// Neither GET nor POST: answered 405 and ignored.
    WrongMethod,
    /// Not the callback path: answered 404 and ignored.
    WrongPath,
    /// No payload in query or body: answered 400 and ignored.
    MissingPayload,
    /// A well-formed callback for a different request id: answered 202 and
    /// ignored, absorbing duplicate or late navigations.
    Superseded,
    /// The first callback whose id matches: answered 204; its payload is the
    /// result.
    Resolved(BridgeCallback),
}

pub open spec fn method_allowed(m: Seq<u8>) -> bool {
    m == "GET".spec_bytes() || m == "POST".spec_bytes()
}

pub open spec fn callback_path_bytes() -> Seq<u8> {
    "/voice/chatgpt-transcribe-callback".spec_bytes()
}

/// Whether the payload of a callback request is empty: the decoded `payload`
/// query parameter when present, the trimmed body otherwise.
pub open spec fn payload_empty_spec(target: Seq<u8>, body: Seq<u8>) -> bool {
    match query_param_spec(target_query(target), "payload".spec_bytes()) {
        Option::Some(v) => v.len() == 0,
        Option::None => crate::text::trimmed_spec(vstd::utf8::decode_utf8(body)).len() == 0,
    }
}

/// The payload text a callback request denotes, where it can be stated: the
/// UTF-8 decoding of the `payload` query parameter when one is present (a
/// parameter that is not valid UTF-8 is decoded lossily, of which nothing
/// is claimed), otherwise the trimmed body text.
pub open spec fn payload_text_spec(target: Seq<u8>, body: Seq<u8>) -> Option<Seq<char>> {
    match query_param_spec(target_query(target), "payload".spec_bytes()) {
        Option::Some(v) => if vstd::utf8::valid_utf8(v) {
            Option::Some(vstd::utf8::decode_utf8(v))
        } else {
            Option::None
        },
        Option::None => Option::Some(crate::text::trimmed_spec(vstd::utf8::decode_utf8(body))),
    }
}

/// Decides one callback request against the outstanding request id. Only an
/// exact id match resolves; everything else is answered and ignored. The
/// call fails with `InvalidResponse` only when the body is not UTF-8 or a
/// non-empty payload is not a well-formed callback.
pub fn handle_callback_request(expected_id: &str, request: HttpRequest) -> (r: Result<
    CallbackOutcome,
    TranscriptionError,
>)
    ensures
        !vstd::utf8::valid_utf8(request.body@) ==> r is Err,
        match r {
            Result::Ok(outcome) => {
                &&& (outcome is WrongMethod <==> !method_allowed(request.method@))
                &&& (outcome is WrongPath <==> method_allowed(request.method@) && target_path(
                    request.target@,
                ) != callback_path_bytes())
                &&& (outcome is MissingPayload <==> method_allowed(request.method@)
                    && target_path(request.target@) == callback_path_bytes()
                    && payload_empty_spec(request.target@, request.body@))
                &&& (outcome matches CallbackOutcome::Resolved(cb) ==> callback_matches(
                    expected_id@,
                    &cb,
                ) && (match payload_text_spec(request.target@, request.body@) {
                    Option::Some(p) => callback_shape_ok(p) && callback_fields_match(p, &cb),
                    Option::None => true,
                }))
                &&& (outcome is Superseded ==> method_allowed(request.method@) && target_path(
                    request.target@,
                ) == callback_path_bytes() && !payload_empty_spec(request.target@, request.body@)
                    && (match payload_text_spec(request.target@, request.body@) {
                    Option::Some(p) => callback_shape_ok(p) && (
                    callback_request_id_of(p) matches Option::Some(rid) && rid != expected_id@),
                    Option::None => true,
                }))
            },
            Result::Err(e) => crate::chatgpt::error_kind_of(&e)
                == crate::chatgpt::ErrorKind::InvalidResponse && (!vstd::utf8::valid_utf8(
                request.body@,
            ) || (method_allowed(request.method@) && target_path(request.target@)
                == callback_path_bytes() && !payload_empty_spec(request.target@, request.body@)
                && (match payload_text_spec(request.target@, request.body@) {
                Option::Some(p) => !callback_shape_ok(p),
                Option::None => true,
            }))),
        },
{
    let HttpRequest { method, target, body } = request;
    let body_string = match string_from_utf8(body) {
        Option::Some(s) => s,
        Option::None => {
            return Result::Err(
                TranscriptionError::InvalidResponse(
                    String::from_str("Webview bridge callback body was not UTF-8"),
                ),
            );
        },
    };
    let method_ok = bytes_eq(method.as_slice(), "GET".as_bytes()) || bytes_eq(
        method.as_slice(),
        "POST".as_bytes(),
    );
    if !method_ok {
        return Result::Ok(CallbackOutcome::WrongMethod);
    }
    let (path, query) = split_target(target.as_slice());
    if !bytes_eq(path.as_slice(), callback_path().as_bytes()) {
        return Result::Ok(CallbackOutcome::WrongPath);
    }
    let payload_string = match query_param(query.as_slice(), "payload".as_bytes()) {
        Option::Some(raw) => {
            if raw.len() == 0 {
                return Result::Ok(CallbackOutcome::MissingPayload);
            }
            string_from_utf8_lossy(raw.as_slice())
        },
        Option::None => {
            let trimmed = crate::text::trim_str(body_string.as_str());
            if trimmed.as_str().unicode_len() == 0 {
                return Result::Ok(CallbackOutcome::MissingPayload);
            }
            trimmed
        },
    };
    let callback = match parse_bridge_callback(payload_string.as_str()) {
        Option::Some(cb) => cb,
        Option::None => {
            return Result::Err(
                TranscriptionError::InvalidResponse(
                    String::from_str("Webview bridge callback payload was invalid JSON"),
                ),
            );
        },
    };
    match correlate_callback(expected_id, callback) {
        Option::Some(accepted) => Result::Ok(CallbackOutcome::Resolved(accepted)),
        Option::None => Result::Ok(CallbackOutcome::Superseded),
    }
}

/// The response written for one callback request.
#[derive(Clone, Copy, PartialEq, Eq, Structural, Debug)]
pub enum CallbackResponse {
    MethodNotAllowed,
    NotFound,
    BadRequest,
    Ignored,
    Accepted,
}

/// The status line and body the listener writes for each disposition.
pub fn response_parts(response: CallbackResponse) -> (r: (&'static str, &'static str))
    ensures
        match response {
            CallbackResponse::MethodNotAllowed => r.0@ == "405 Method Not Allowed"@ && r.1@
                == "Method not allowed"@,
            CallbackResponse::NotFound => r.0@ == "404 Not Found"@ && r.1@ == "Not found"@,
            CallbackResponse::BadRequest => r.0@ == "400 Bad Request"@ && r.1@
                == "Missing payload"@,
            CallbackResponse::Ignored => r.0@ == "202 Accepted"@ && r.1@ == "Ignored"@,
            CallbackResponse::Accepted => r.0@ == "204 No Content"@ && r.1@ == ""@,
        },
{
    match response {
        CallbackResponse::MethodNotAllowed => ("405 Method Not Allowed", "Method not allowed"),
        CallbackResponse::NotFound => ("404 Not Found", "Not found"),
        CallbackResponse::BadRequest => ("400 Bad Request", "Missing payload"),
        CallbackResponse::Ignored => ("202 Accepted", "Ignored"),
        CallbackResponse::Accepted => ("204 No Content", ""),
    }
}

/// One bridged call's listener state: the outstanding request id and the
/// result, once the matching callback has arrived. The exchange resolves at
/// most once: `on_request` may only be called while unresolved, and only a
/// matching callback resolves it.
pub struct BridgeExchange {
    expected_id: String,
    resolved: Option<BridgeCallback>,
}

impl BridgeExchange {
    pub closed spec fn expected_spec(&self) -> Seq<char> {
        self.expected_id@
    }

    pub closed spec fn resolved_spec(&self) -> Option<BridgeCallback> {
        self.resolved
    }

    pub fn new(expected_id: String) -> (r: BridgeExchange)
        ensures
            r.expected_spec() == expected_id@,
            r.resolved_spec() is None,
    {
        BridgeExchange { expected_id, resolved: Option::None }
    }

    pub fn is_resolved(&self) -> (r: bool)
        ensures
            r == (self.resolved_spec() is Some),
    {
        self.resolved.is_some()
    }

    /// Hands out the result once the exchange is over.
    pub fn take_resolved(self) -> (r: Option<BridgeCallback>)
        ensures
            r == self.resolved_spec(),
    {
        self.resolved
    }

    /// Handles one connection's request while the call is outstanding, and
    /// says which response to write. `Accepted` is returned exactly when
    /// this request resolved the exchange, and only a callback whose id
    /// equals the outstanding one does so; every other request is answered
    /// by the response its disposition calls for. The call fails only when
    /// the body is not UTF-8 or a non-empty payload is not a well-formed
    /// callback.
    pub fn on_request(&mut self, request: HttpRequest) -> (r: Result<
        CallbackResponse,
        TranscriptionError,
    >)
        requires
            old(self).resolved_spec() is None,
        ensures
            final(self).expected_spec() == old(self).expected_spec(),
            match r {
                Result::Ok(response) => {
                    &&& (response == CallbackResponse::Accepted <==> final(self).resolved_spec()
                        is Some)
                    &&& (final(self).resolved_spec() matches Option::Some(cb) ==> callback_matches(
                        old(self).expected_spec(),
                        &cb,
                    ))
                    &&& (response == CallbackResponse::MethodNotAllowed <==> !method_allowed(
                        request.method@,
                    ))
                    &&& (response == CallbackResponse::NotFound <==> method_allowed(
                        request.method@,
                    ) && target_path(request.target@) != callback_path_bytes())
                    &&& (response == CallbackResponse::BadRequest <==> method_allowed(
                        request.method@,
                    ) && target_path(request.target@) == callback_path_bytes()
                        && payload_empty_spec(request.target@, request.body@))
                    &&& (response == CallbackResponse::Ignored ==> method_allowed(request.method@)
                        && target_path(request.target@) == callback_path_bytes()
                        && !payload_empty_spec(request.target@, request.body@) && (
                    match payload_text_spec(request.target@, request.body@) {
                        Option::Some(p) => callback_shape_ok(p) && (
                        callback_request_id_of(p) matches Option::Some(rid) && rid != old(
                            self,
                        ).expected_spec()),
                        Option::None => true,
                    }))
                },
                Result::Err(e) => final(self).resolved_spec() is None
                    && crate::chatgpt::error_kind_of(&e)
                    == crate::chatgpt::ErrorKind::InvalidResponse && (!vstd::utf8::valid_utf8(
                    request.body@,
                ) || (method_allowed(request.method@) && target_path(request.target@)
                    == callback_path_bytes() && !payload_empty_spec(
                    request.target@,
                    request.body@,
                ) && (match payload_text_spec(request.target@, request.body@) {
                    Option::Some(p) => !callback_shape_ok(p),
                    Option::None => true,
                }))),
            },
    {
        let outcome = match handle_callback_request(self.expected_id.as_str(), request) {
            Result::Ok(outcome) => outcome,
            Result::Err(e) => {
                return Result::Err(e);
            },
        };
        match outcome {
            CallbackOutcome::WrongMethod => Result::Ok(CallbackResponse::MethodNotAllowed),
            CallbackOutcome::WrongPath => Result::Ok(CallbackResponse::NotFound),
            CallbackOutcome::MissingPayload => Result::Ok(CallbackResponse::BadRequest),
            CallbackOutcome::Superseded => Result::Ok(CallbackResponse::Ignored),
            CallbackOutcome::Resolved(cb) => {
                self.resolved = Option::Some(cb);
                Result::Ok(CallbackResponse::Accepted)
            },
        }
    }
}

/// The body text a callback failure is read from: the carried body, or the
/// empty string when it carried none.
pub open spec fn callback_body_text(cb: &BridgeCallback) -> Seq<char> {
    match &cb.body {
        Option::Some(b) => b@,
        Option::None => ""@,
    }
}

/// Maps a bridged outcome that was not ok into the error taxonomy, handing
/// the callback's parts to the shared status mapping.
pub fn map_bridge_callback_failure(cb: &BridgeCallback) -> (e: TranscriptionError)
    ensures
        match &cb.error {
            Option::Some(be) => if crate::text::trimmed_spec(be@).len() > 0 {
                crate::chatgpt::error_kind_of(&e) == crate::chatgpt::ErrorKind::Network
                    && e.message_spec() == crate::text::trimmed_spec(be@)
            } else {
                crate::chatgpt::error_kind_of(&e) == match cb.status {
                    Option::Some(s) => crate::chatgpt::status_kind_spec(s),
                    Option::None => crate::chatgpt::ErrorKind::Provider,
                } && e.message_spec() == crate::chatgpt::failure_message_spec(
                    cb.status,
                    callback_body_text(cb),
                )
            },
            Option::None => crate::chatgpt::error_kind_of(&e) == match cb.status {
                Option::Some(s) => crate::chatgpt::status_kind_spec(s),
                Option::None => crate::chatgpt::ErrorKind::Provider,
            } && e.message_spec() == crate::chatgpt::failure_message_spec(
                cb.status,
                callback_body_text(cb),
            ),
        },
{
    let body = match &cb.body {
        Option::Some(b) => Option::Some(b.as_str()),
        Option::None => Option::None,
    };
    let bridge_error = match &cb.error {
        Option::Some(e) => Option::Some(e.as_str()),
        Option::None => Option::None,
    };
    crate::chatgpt::map_bridge_http_error(cb.status, body, bridge_error)
}

/// The fixed floor of the bridge's overall timeout, in seconds.
pub const BRIDGE_REQUEST_TIMEOUT_SECS: u64 = 180;

/// The overall bound on one bridged exchange: the larger of the configured
/// request timeout and the fixed floor, so slow challenge or navigation
/// delays do not spuriously fail fast calls.
pub fn bridge_timeout_secs(request_timeout_secs: u64) -> (r: u64)
    ensures
        r == if request_timeout_secs >= BRIDGE_REQUEST_TIMEOUT_SECS {
            request_timeout_secs
        } else {
            BRIDGE_REQUEST_TIMEOUT_SECS
        },
{
    if request_timeout_secs >= BRIDGE_REQUEST_TIMEOUT_SECS {
        request_timeout_secs
    } else {
        BRIDGE_REQUEST_TIMEOUT_SECS
    }
}

/// The error a bridged call fails with when no matching callback arrives
/// within the bound: a `Network` timeout.
pub fn bridge_timeout_error() -> (e: TranscriptionError)
    ensures
        crate::chatgpt::error_kind_of(&e) == crate::chatgpt::ErrorKind::Network,
        e.message_spec() == "Timed out waiting for ChatGPT webview transcription response"@,
{
    TranscriptionError::Network(
        String::from_str("Timed out waiting for ChatGPT webview transcription response"),
    )
}

} // verus!
