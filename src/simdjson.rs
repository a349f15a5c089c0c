//! A JSON body extractor decoded by simd-json: the content-type test, and the
//! sorting of decode failures into rejections.
use vstd::prelude::*;

verus! {

#[verifier::external_type_specification]
#[verifier::external_body]
pub struct ExSimdJsonError(simd_json::Error);

#[verifier::external_type_specification]
#[verifier::external_body]
pub struct ExBytesRejection(axum_core::extract::rejection::BytesRejection);

/// Relies on simd_json's `Error::is_syntax`; nothing is stated of its answer.
pub assume_specification[ simd_json::Error::is_syntax ](e: &simd_json::Error) -> bool;

/// Relies on simd_json's `Error::is_eof`; nothing is stated of its answer.
pub assume_specification[ simd_json::Error::is_eof ](e: &simd_json::Error) -> bool;

/// Relies on simd_json's `Error::is_data`; nothing is stated of its answer.
pub assume_specification[ simd_json::Error::is_data ](e: &simd_json::Error) -> bool;

/// A value read from, or written as, a JSON body.
pub struct SimdJson<T>(pub T);

impl<T> From<T> for SimdJson<T> {
    fn from(inner: T) -> Self {
        SimdJson(inner)
    }
}

impl<T> vstd::std_specs::convert::FromSpecImpl<T> for SimdJson<T> {
    open spec fn obeys_from_spec() -> bool {
        true
    }

    open spec fn from_spec(v: T) -> Self {
        SimdJson(v)
    }
}

/// Why a body could not be turned into a value.
#[derive(Debug)]
pub enum SimdJsonRejection {
    JsonDataError(simd_json::Error),
    JsonSyntaxError(simd_json::Error),
    MissingJsonContentType,
    BytesRejection(axum_core::extract::rejection::BytesRejection),
}

impl From<axum_core::extract::rejection::BytesRejection> for SimdJsonRejection {
    fn from(err: axum_core::extract::rejection::BytesRejection) -> Self {
        SimdJsonRejection::BytesRejection(err)
    }
}

impl vstd::std_specs::convert::FromSpecImpl<axum_core::extract::rejection::BytesRejection> for SimdJsonRejection {
    open spec fn obeys_from_spec() -> bool {
        true
    }

    open spec fn from_spec(v: axum_core::extract::rejection::BytesRejection) -> Self {
        SimdJsonRejection::BytesRejection(v)
    }
}

impl SimdJsonRejection {
    /// The HTTP status of the response, where this library chooses it; a
    /// failure to read the body carries its own response.
    pub fn status(&self) -> (r: Option<u16>)
        ensures
            r == match self {
                SimdJsonRejection::MissingJsonContentType => Some(415u16),
                SimdJsonRejection::JsonDataError(_) => Some(400u16),
                SimdJsonRejection::JsonSyntaxError(_) => Some(400u16),
                SimdJsonRejection::BytesRejection(_) => None,
            },
    {
        match self {
            SimdJsonRejection::MissingJsonContentType => Some(415),
            SimdJsonRejection::JsonDataError(_) => Some(400),
            SimdJsonRejection::JsonSyntaxError(_) => Some(400),
            SimdJsonRejection::BytesRejection(_) => None,
        }
    }
}

/// How a decode failure is reported.
#[derive(Clone, Copy, Debug, PartialEq, Eq)]
pub enum DecodeErrorKind {
    Syntax,
    Data,
}

pub open spec fn spec_decode_error_kind(is_syntax: bool, is_eof: bool, is_data: bool) -> DecodeErrorKind {
    if is_syntax || is_eof {
        DecodeErrorKind::Syntax
    } else if is_data {
        DecodeErrorKind::Data
    } else {
        DecodeErrorKind::Syntax
    }
}

/// Sorts a decode failure by what the decoder says of it: a syntax error or an
/// early end is a syntax error, a shape error is a data error, and anything
/// else counts as syntax.
pub fn decode_error_kind(is_syntax: bool, is_eof: bool, is_data: bool) -> (r: DecodeErrorKind)
    ensures
        r == spec_decode_error_kind(is_syntax, is_eof, is_data),
{
    if is_syntax || is_eof {
        DecodeErrorKind::Syntax
    } else if is_data {
        DecodeErrorKind::Data
    } else {
        DecodeErrorKind::Syntax
    }
}

/// The rejection for a decode failure, given what the decoder says of it; it
/// keeps the failure.
pub fn rejection_for(err: simd_json::Error, is_syntax: bool, is_eof: bool, is_data: bool) -> (r: SimdJsonRejection)
    ensures
        r == match spec_decode_error_kind(is_syntax, is_eof, is_data) {
            DecodeErrorKind::Syntax => SimdJsonRejection::JsonSyntaxError(err),
            DecodeErrorKind::Data => SimdJsonRejection::JsonDataError(err),
        },
{
    let kind = decode_error_kind(is_syntax, is_eof, is_data);
    match kind {
        DecodeErrorKind::Syntax => SimdJsonRejection::JsonSyntaxError(err),
        DecodeErrorKind::Data => SimdJsonRejection::JsonDataError(err),
    }
}

/// Relies on simd_json's `from_slice`, run on a copy of the bytes since it
/// rewrites its buffer; nothing is stated of what it reads.
#[verifier::external_body]
fn decode_json<T: serde::de::DeserializeOwned>(bytes: &[u8]) -> (r: Result<T, simd_json::Error>) {
    let mut owned = bytes.to_vec();
    simd_json::from_slice::<T>(&mut owned)
}

impl<T: serde::de::DeserializeOwned> SimdJson<T> {
    /// Reads a value from a JSON body; a failure is a syntax or a data error.
    pub fn from_bytes(bytes: &[u8]) -> (r: Result<Self, SimdJsonRejection>)
        ensures
            r is Err ==> (r->Err_0 is JsonSyntaxError || r->Err_0 is JsonDataError),
    {
        match decode_json::<T>(bytes) {
            Ok(v) => Ok(SimdJson(v)),
            Err(e) => {
                let is_syntax = e.is_syntax();
                let is_eof = e.is_eof();
                let is_data = e.is_data();
                Err(rejection_for(e, is_syntax, is_eof, is_data))
            },
        }
    }
}

/// The type, subtype and `+suffix` of a media type, as the parser reads them.
pub uninterp spec fn media_type_parts(s: Seq<char>) -> Option<(Seq<char>, Seq<char>, Option<Seq<char>>)>;

/// Relies on mime's parser (`str::parse::<mime::Mime>`) and its `type_`,
/// `subtype` and `suffix` accessors: the parts depend on the text alone.
#[verifier::external_body]
fn parse_media_type(s: &str) -> (r: Option<(String, String, Option<String>)>)
    ensures
        match r {
            Some((t, st, suf)) => media_type_parts(s@) == Some((t@, st@, crate::gateway::opt_view(suf))),
            None => media_type_parts(s@) is None,
        },
{
    match s.parse::<mime::Mime>() {
        Ok(m) => {
            let suffix = match m.suffix() {
                Some(x) => Some(x.as_str().to_string()),
                None => None,
            };
            Some((m.type_().as_str().to_string(), m.subtype().as_str().to_string(), suffix))
        },
        Err(_) => None,
    }
}

pub open spec fn spec_is_json_media_type(t: Seq<char>, st: Seq<char>, suffix: Option<Seq<char>>) -> bool {
    t == "application"@ && (st == "json"@ || suffix == Some("json"@))
}

/// Whether a parsed media type is JSON: `application/json`, or an
/// `application/...+json` type.
pub fn is_json_media_type(type_: &str, subtype: &str, suffix: Option<&str>) -> (r: bool)
    ensures
        r == spec_is_json_media_type(type_@, subtype@, match suffix { Some(s) => Some(s@), None => None }),
{
    if !crate::gateway::same_text(type_, "application") {
        return false;
    }
    if crate::gateway::same_text(subtype, "json") {
        return true;
    }
    match suffix {
        Some(s) => crate::gateway::same_text(s, "json"),
        None => false,
    }
}

/// Whether a request's `Content-Type` value announces JSON; `None` stands for
/// a missing header or one that is not visible ASCII.
pub fn json_content_type(content_type: Option<&str>) -> (r: bool)
    ensures
        r == match content_type {
            None => false,
            Some(s) => match media_type_parts(s@) {
                None => false,
                Some(p) => spec_is_json_media_type(p.0, p.1, p.2),
            },
        },
{
    match content_type {
        None => false,
        Some(s) => match parse_media_type(s) {
            None => false,
            Some((t, st, suf)) => {
                let suffix = match &suf {
                    Some(x) => Some(x.as_str()),
                    None => None,
                };
                is_json_media_type(t.as_str(), st.as_str(), suffix)
            },
        },
    }
}

/// What an optional JSON extractor does with a request.
#[derive(Clone, Copy, Debug, PartialEq, Eq)]
pub enum BodyAction {
    /// No `Content-Type` header: there is no value.
    Absent,
    /// A `Content-Type` that is not JSON.
    Reject,
    /// Read the body and decode it.
    Decode,
}

/// The action of an optional JSON extractor: without a `Content-Type` header
/// there is no value; with a JSON one the body is decoded; with any other it
/// is rejected. `content_type` is `None` where the header is absent or not
/// visible ASCII.
pub fn optional_body_action(has_content_type: bool, content_type: Option<&str>) -> (r: BodyAction)
    ensures
        r == if !has_content_type {
            BodyAction::Absent
        } else if match content_type {
            None => false,
            Some(s) => match media_type_parts(s@) {
                None => false,
                Some(p) => spec_is_json_media_type(p.0, p.1, p.2),
            },
        } {
            BodyAction::Decode
        } else {
            BodyAction::Reject
        },
{
    if !has_content_type {
        BodyAction::Absent
    } else if json_content_type(content_type) {
        BodyAction::Decode
    } else {
        BodyAction::Reject
    }
}

/// The HTTP status of a JSON response: 200 with the encoded body, 500 where
/// the value could not be encoded.
pub fn response_status(encoded: bool) -> (r: u16)
    ensures
        r == if encoded { 200u16 } else { 500u16 },
{
    if encoded {
        200
    } else {
        500
    }
}

} // verus!
