//! Response envelope builder: turns a business result or an error into the
//! wire response. Success payloads travel as `base64(gzip(json))` inside a
//! 200 envelope; only `ReturnInternalServerError` and `ReturnUnauthorized`
//! bypass the envelope with a non-200 status.

use vstd::prelude::*;

use base64::Engine as _;
use std::io::Write as _;

use crate::errors::ErrorBehavior;
use crate::errors::ServerError;

verus! {

/// What flate2's `GzEncoder` produces at the default compression level for
/// the given input. flate2 pins the stream's timestamp and OS header fields,
/// so the stream depends on the input bytes alone.
pub uninterp spec fn gzip_of(b: Seq<u8>) -> Seq<u8>;

/// What base64's standard-alphabet padded engine encodes the given bytes to.
pub uninterp spec fn base64_of(b: Seq<u8>) -> Seq<char>;

/// Relies on flate2's `GzEncoder` (default compression) writing into an
/// in-memory buffer, which afterwards holds the gzip stream of the input.
/// The encoder's error paths need a sink that fails or writes zero bytes,
/// or a corrupt compressor state; a `Vec` sink and a fresh compressor fed
/// the plain write-then-finish sequence can produce neither, so the call
/// always returns the stream.
#[verifier::external_body]
fn gzip_bytes(input: &[u8]) -> (r: Vec<u8>)
    ensures
        r@ == gzip_of(input@),
{
    let mut enc = flate2::write::GzEncoder::new(Vec::new(), flate2::Compression::default());
    enc.write_all(input).expect("a Vec sink does not fail");
    enc.finish().expect("a Vec sink does not fail")
}

/// Relies on base64's `STANDARD` engine: encodes with the standard alphabet
/// and padding.
#[verifier::external_body]
fn base64_encode(input: &[u8]) -> (r: String)
    ensures
        r@ == base64_of(input@),
{
    base64::engine::general_purpose::STANDARD.encode(input)
}

/// Compresses and then encodes: the payload encoding used for every `data`
/// field.
pub fn gzip_base64(input: &[u8]) -> (r: String)
    ensures
        r@ == base64_of(gzip_of(input@)),
{
    let gz = gzip_bytes(input);
    base64_encode(gz.as_slice())
}

/// One hexadecimal digit, lower case.
pub open spec fn spec_hex_digit(v: int) -> char {
    if v == 0 {
        '0'
    } else if v == 1 {
        '1'
    } else if v == 2 {
        '2'
    } else if v == 3 {
        '3'
    } else if v == 4 {
        '4'
    } else if v == 5 {
        '5'
    } else if v == 6 {
        '6'
    } else if v == 7 {
        '7'
    } else if v == 8 {
        '8'
    } else if v == 9 {
        '9'
    } else if v == 10 {
        'a'
    } else if v == 11 {
        'b'
    } else if v == 12 {
        'c'
    } else if v == 13 {
        'd'
    } else if v == 14 {
        'e'
    } else {
        'f'
    }
}

/// How one character is written inside a JSON string literal: quote and
/// backslash escaped, the named control escapes, `\u00..` for the remaining
/// control characters, everything else verbatim.
pub open spec fn spec_escape_char(c: char) -> Seq<char> {
    if c == '"' {
        seq!['\\', '"']
    } else if c == '\\' {
        seq!['\\', '\\']
    } else if c == '\u{8}' {
        seq!['\\', 'b']
    } else if c == '\u{c}' {
        seq!['\\', 'f']
    } else if c == '\n' {
        seq!['\\', 'n']
    } else if c == '\r' {
        seq!['\\', 'r']
    } else if c == '\t' {
        seq!['\\', 't']
    } else if (c as u32) < 32 {
        seq!['\\', 'u', '0', '0', spec_hex_digit(c as u32 as int / 16), spec_hex_digit(
            c as u32 as int % 16,
        )]
    } else {
        seq![c]
    }
}

/// A string as written inside a JSON string literal.
pub open spec fn spec_escape_json(s: Seq<char>) -> Seq<char>
    decreases s.len(),
{
    if s.len() == 0 {
        Seq::<char>::empty()
    } else {
        spec_escape_json(s.drop_last()) + spec_escape_char(s.last())
    }
}

fn hex_digit(v: u32) -> (c: char)
    requires
        v < 16,
    ensures
        c == spec_hex_digit(v as int),
{
    match v {
        0 => '0',
        1 => '1',
        2 => '2',
        3 => '3',
        4 => '4',
        5 => '5',
        6 => '6',
        7 => '7',
        8 => '8',
        9 => '9',
        10 => 'a',
        11 => 'b',
        12 => 'c',
        13 => 'd',
        14 => 'e',
        _ => 'f',
    }
}

/// Appends the JSON escape of one character.
fn push_escaped(out: &mut String, c: char)
    ensures
        final(out)@ == old(out)@ + spec_escape_char(c),
{
    if c == '"' {
        out.push('\\');
        out.push('"');
    } else if c == '\\' {
        out.push('\\');
        out.push('\\');
    } else if c == '\u{8}' {
        out.push('\\');
        out.push('b');
    } else if c == '\u{c}' {
        out.push('\\');
        out.push('f');
    } else if c == '\n' {
        out.push('\\');
        out.push('n');
    } else if c == '\r' {
        out.push('\\');
        out.push('r');
    } else if c == '\t' {
        out.push('\\');
        out.push('t');
    } else if (c as u32) < 32 {
        let v = c as u32;
        out.push('\\');
        out.push('u');
        out.push('0');
        out.push('0');
        out.push(hex_digit(v / 16));
        out.push(hex_digit(v % 16));
    } else {
        out.push(c);
    }
    proof {
        assert(final(out)@ =~= old(out)@ + spec_escape_char(c));
    }
}

/// Appends the JSON escape of a whole string.
fn append_escaped(out: &mut String, s: &str)
    ensures
        final(out)@ == old(out)@ + spec_escape_json(s@),
{
    let n = s.unicode_len();
    let mut i: usize = 0;
    proof {
        assert(s@.subrange(0, 0) =~= Seq::<char>::empty());
        assert(out@ =~= old(out)@ + spec_escape_json(s@.subrange(0, 0)));
    }
    while i < n
        invariant
            0 <= i <= n,
            n == s@.len(),
            out@ == old(out)@ + spec_escape_json(s@.subrange(0, i as int)),
        decreases n - i,
    {
        let c = s.get_char(i);
        proof {
            assert(s@.subrange(0, i + 1).drop_last() =~= s@.subrange(0, i as int));
            assert(s@.subrange(0, i + 1).last() == s@[i as int]);
        }
        push_escaped(out, c);
        i = i + 1;
    }
    proof {
        assert(s@.subrange(0, n as int) =~= s@);
    }
}

/// The envelope body: `ok` always present, `data` and `error` only when
/// given, both written as JSON string literals.
pub open spec fn spec_envelope_json(
    ok: bool,
    data: Option<Seq<char>>,
    error: Option<Seq<char>>,
) -> Seq<char> {
    "{\"ok\":"@ + (if ok {
        "true"@
    } else {
        "false"@
    }) + (match data {
        Some(d) => ",\"data\":\""@ + spec_escape_json(d) + "\""@,
        None => Seq::<char>::empty(),
    }) + (match error {
        Some(e) => ",\"error\":\""@ + spec_escape_json(e) + "\""@,
        None => Seq::<char>::empty(),
    }) + "}"@
}

/// Builds the envelope body text.
fn envelope_body(ok: bool, data: Option<&String>, error: Option<&String>) -> (r: String)
    ensures
        r@ == spec_envelope_json(
            ok,
            match data {
                Some(d) => Some(d@),
                None => None,
            },
            match error {
                Some(e) => Some(e@),
                None => None,
            },
        ),
{
    let mut out = String::from_str("{\"ok\":");
    if ok {
        out.append("true");
    } else {
        out.append("false");
    }
    if let Some(d) = data {
        out.append(",\"data\":\"");
        append_escaped(&mut out, d.as_str());
        out.append("\"");
    }
    if let Some(e) = error {
        out.append(",\"error\":\"");
        append_escaped(&mut out, e.as_str());
        out.append("\"");
    }
    out.append("}");
    out
}

/// A response body: text, or raw binary that the transport must carry
/// base64-encoded.
pub enum ResponseBody {
    Text(String),
    Binary(Vec<u8>),
}

/// The wire response: status, headers in order, body, and whether the body
/// is binary (so the transport base64-encodes it).
pub struct Response {
    pub status_code: i64,
    pub headers: Vec<(String, String)>,
    pub body: ResponseBody,
    pub is_base64_encoded: bool,
}

/// Content type of a response.
pub enum ContentType {
    Json,
    Text,
}

/// The fixed header set: content type plus the CORS headers attached to
/// every response.
pub open spec fn spec_headers(ct: ContentType) -> Seq<(Seq<char>, Seq<char>)> {
    seq![
        (
            "content-type"@,
            match ct {
                ContentType::Json => "application/json; charset=utf-8"@,
                ContentType::Text => "text/plain; charset=utf-8"@,
            },
        ),
        ("access-control-allow-origin"@, "https://fractic.io"@),
        (
            "access-control-allow-headers"@,
            "Content-Type,X-Amz-Date,Authorization,X-Api-Key,X-Amz-Security-Token,X-Amz-User-Agent"@,
        ),
        ("access-control-allow-methods"@, "GET, POST, PUT, DELETE"@),
        ("access-control-allow-credentials"@, "true"@),
    ]
}

/// Builds the fixed header set.
pub fn build_headers(content_type: ContentType) -> (r: Vec<(String, String)>)
    ensures
        r.deep_view() =~~= spec_headers(content_type),
{
    let mut headers: Vec<(String, String)> = Vec::new();
    let ct_value = match content_type {
        ContentType::Json => String::from_str("application/json; charset=utf-8"),
        ContentType::Text => String::from_str("text/plain; charset=utf-8"),
    };
    headers.push((String::from_str("content-type"), ct_value));
    headers.push((
        String::from_str("access-control-allow-origin"),
        String::from_str("https://fractic.io"),
    ));
    headers.push((
        String::from_str("access-control-allow-headers"),
        String::from_str(
            "Content-Type,X-Amz-Date,Authorization,X-Api-Key,X-Amz-Security-Token,X-Amz-User-Agent",
        ),
    ));
    headers.push((
        String::from_str("access-control-allow-methods"),
        String::from_str("GET, POST, PUT, DELETE"),
    ));
    headers.push((
        String::from_str("access-control-allow-credentials"),
        String::from_str("true"),
    ));
    headers
}

/// A raw 200 response that bypasses the envelope: plain text or a binary
/// body delivered base64-encoded.
pub fn build_simple(body: ResponseBody) -> (r: Response)
    ensures
        r.status_code == 200,
        r.headers.deep_view() =~~= spec_headers(ContentType::Text),
        r.is_base64_encoded == (body is Binary),
        r.body == body,
{
    let is_b64 = match &body {
        ResponseBody::Binary(_) => true,
        ResponseBody::Text(_) => false,
    };
    Response {
        status_code: 200,
        headers: build_headers(ContentType::Text),
        body,
        is_base64_encoded: is_b64,
    }
}

/// The success envelope for an already-serialized JSON payload: the payload
/// is compressed, base64-encoded and wrapped with `ok: true`; the status is
/// always 200.
pub fn build_ok(payload_json: &[u8]) -> (r: Response)
    ensures
        r.status_code == 200,
        r.headers.deep_view() =~~= spec_headers(ContentType::Json),
        !r.is_base64_encoded,
        (r.body matches ResponseBody::Text(b) && b@ == spec_envelope_json(
            true,
            Some(base64_of(gzip_of(payload_json@))),
            None,
        )),
{
    let payload = gzip_base64(payload_json);
    let body = envelope_body(true, Some(&payload), None);
    Response {
        status_code: 200,
        headers: build_headers(ContentType::Json),
        body: ResponseBody::Text(body),
        is_base64_encoded: false,
    }
}

/// The status an error's behavior tag dictates.
pub open spec fn spec_err_status(b: ErrorBehavior) -> int {
    match b {
        ErrorBehavior::ReturnInternalServerError => 500,
        ErrorBehavior::ReturnUnauthorized => 401,
        _ => 200,
    }
}

/// The body an error surfaces with: the envelope with the original or the
/// substituted message for the forwarded classes, a fixed generic text for
/// the two non-200 classes.
pub open spec fn spec_err_body(e: ServerError) -> Seq<char> {
    match e.behavior {
        ErrorBehavior::ForwardToClient => spec_envelope_json(false, None, Some(e.message@)),
        ErrorBehavior::LogWarningForwardToClient => spec_envelope_json(
            false,
            None,
            Some(e.message@),
        ),
        ErrorBehavior::LogErrorForwardToClient => spec_envelope_json(false, None, Some(e.message@)),
        ErrorBehavior::LogWarningSendFixedMsgToClient(fixed) => spec_envelope_json(
            false,
            None,
            Some(fixed@),
        ),
        ErrorBehavior::LogErrorSendFixedMsgToClient(fixed) => spec_envelope_json(
            false,
            None,
            Some(fixed@),
        ),
        ErrorBehavior::ReturnInternalServerError => "Internal server error."@,
        ErrorBehavior::ReturnUnauthorized => "Unauthorized."@,
    }
}

/// Whether the error is surfaced inside the envelope (status 200) rather
/// than as a bare non-200 response.
pub open spec fn spec_err_enveloped(b: ErrorBehavior) -> bool {
    spec_err_status(b) == 200
}

/// Turns an error into its wire response: the behavior tag fixed at the
/// error's origin alone decides status, body and what the client may see.
pub fn build_err(error: &ServerError) -> (r: Response)
    ensures
        r.status_code == spec_err_status(error.behavior),
        r.headers.deep_view() =~~= spec_headers(
            if spec_err_enveloped(error.behavior) {
                ContentType::Json
            } else {
                ContentType::Text
            },
        ),
        !r.is_base64_encoded,
        (r.body matches ResponseBody::Text(b) && b@ == spec_err_body(*error)),
{
    match &error.behavior {
        ErrorBehavior::ForwardToClient => forward_to_client(&error.message),
        ErrorBehavior::LogWarningForwardToClient => forward_to_client(&error.message),
        ErrorBehavior::LogErrorForwardToClient => forward_to_client(&error.message),
        ErrorBehavior::LogWarningSendFixedMsgToClient(fixed) => forward_to_client(fixed),
        ErrorBehavior::LogErrorSendFixedMsgToClient(fixed) => forward_to_client(fixed),
        ErrorBehavior::ReturnInternalServerError => error_response(
            500,
            "Internal server error.",
        ),
        ErrorBehavior::ReturnUnauthorized => error_response(401, "Unauthorized."),
    }
}

/// Maps a handler outcome to the wire: the 200 success envelope for a
/// payload already serialized to JSON, or the error's own wire form.
pub fn build_result(outcome: Result<Vec<u8>, ServerError>) -> (r: Response)
    ensures
        outcome matches Ok(payload) ==> {
            &&& r.status_code == 200
            &&& r.headers.deep_view() =~~= spec_headers(ContentType::Json)
            &&& !r.is_base64_encoded
            &&& r.body matches ResponseBody::Text(b) && b@ == spec_envelope_json(
                true,
                Some(base64_of(gzip_of(payload@))),
                None,
            )
        },
        outcome matches Err(e) ==> {
            &&& r.status_code == spec_err_status(e.behavior)
            &&& r.headers.deep_view() =~~= spec_headers(
                if spec_err_enveloped(e.behavior) {
                    ContentType::Json
                } else {
                    ContentType::Text
                },
            )
            &&& !r.is_base64_encoded
            &&& r.body matches ResponseBody::Text(b) && b@ == spec_err_body(e)
        },
{
    match outcome {
        Ok(payload) => build_ok(payload.as_slice()),
        Err(e) => build_err(&e),
    }
}

/// Wraps a client-visible error message in a 200 envelope with `ok: false`.
fn forward_to_client(public_msg: &String) -> (r: Response)
    ensures
        r.status_code == 200,
        r.headers.deep_view() =~~= spec_headers(ContentType::Json),
        !r.is_base64_encoded,
        (r.body matches ResponseBody::Text(b) && b@ == spec_envelope_json(
            false,
            None,
            Some(public_msg@),
        )),
{
    let body = envelope_body(false, None, Some(public_msg));
    Response {
        status_code: 200,
        headers: build_headers(ContentType::Json),
        body: ResponseBody::Text(body),
        is_base64_encoded: false,
    }
}

/// A bare non-200 response with a generic text; nothing of the error leaks.
fn error_response(error_code: i64, public_msg: &str) -> (r: Response)
    ensures
        r.status_code == error_code,
        r.headers.deep_view() =~~= spec_headers(ContentType::Text),
        !r.is_base64_encoded,
        (r.body matches ResponseBody::Text(b) && b@ == public_msg@),
{
    Response {
        status_code: error_code,
        headers: build_headers(ContentType::Text),
        body: ResponseBody::Text(public_msg.to_owned()),
        is_base64_encoded: false,
    }
}

} // verus!
