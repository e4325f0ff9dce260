pub mod alias;
pub mod assertions;
pub mod command;
pub mod convenience;
pub mod find;
pub mod json;
pub mod query;
pub mod snap;

use vstd::prelude::*;

use json::{field, str_field, text_eq, JsonValue, ParseError};

verus! {

/// Whether the daemon answered at once or started a change that runs on.
#[derive(Debug, PartialEq, Eq, Clone, Copy)]
pub enum SnapdType {
    Sync,
    Async,
}

/// The envelope around every answer of the daemon: its kind, its status code and the result.
#[derive(Debug, PartialEq)]
pub struct SnapdResponse<T> {
    pub typ: SnapdType,
    pub status_code: u16,
    pub result: T,
}

/// The raw contents of an answer, which can be read into what the call asked for. Reading does
/// not consume the contents and may be done again.
pub trait Payload: From<Vec<u8>> {
    type Parsed;

    fn parse(&self) -> Self::Parsed;
}

/// A description of one call to the daemon: the path and query string it asks for.
pub trait Get {
    /// The path and query string, to be resolved against the base URL.
    spec fn reference_spec(&self) -> Seq<char>;

    fn reference(&self) -> (r: String)
        ensures
            r@ == self.reference_spec(),
    ;

    /// The headers the call adds to the request, each a name and a value.
    spec fn headers_spec(&self) -> Seq<(Seq<char>, Seq<char>)>;

    fn headers(&self) -> (r: Vec<(String, String)>)
        ensures
            header_texts(r@) == self.headers_spec(),
    ;
}

/// Headers as plain values.
pub open spec fn header_texts(h: Seq<(String, String)>) -> Seq<(Seq<char>, Seq<char>)> {
    h.map_values(|x: (String, String)| (x.0@, x.1@))
}

/// The header of a call whose answer is JSON.
pub open spec fn json_headers_spec() -> Seq<(Seq<char>, Seq<char>)> {
    seq![("content-type"@, crate::client::JSON_CONTENT@)]
}

/// The header of a call whose answer is JSON.
pub fn json_headers() -> (r: Vec<(String, String)>)
    ensures
        header_texts(r@) == json_headers_spec(),
{
    let mut r: Vec<(String, String)> = Vec::new();
    r.push((String::from_str("content-type"), String::from_str(crate::client::JSON_CONTENT)));
    assert(header_texts(r@) =~= json_headers_spec());
    r
}

/// A type that can be read from the `result` of an answer.
pub trait FromJson: Sized + View {
    /// What `v` reads as, if it has the shape of this type.
    spec fn decoded(v: JsonValue) -> Option<Self::V>;

    fn from_json(v: &JsonValue) -> (r: Result<Self, ParseError>)
        ensures
            match Self::decoded(*v) {
                Some(m) => r matches Ok(x) && x@ == m,
                None => r == Err::<Self, ParseError>(ParseError::Shape),
            },
    ;
}

/// The kind named by the text of the envelope's `type` member.
pub open spec fn snapd_type_of(t: Seq<char>) -> Option<SnapdType> {
    if t == "sync"@ {
        Some(SnapdType::Sync)
    } else if t == "async"@ {
        Some(SnapdType::Async)
    } else {
        None
    }
}

/// What the envelope `v` holds: its kind, its status code (a valid HTTP status code,
/// `100..=999`) and its result, if it has that shape.
pub open spec fn envelope(v: JsonValue) -> Option<(SnapdType, u16, JsonValue)> {
    match (str_field(v, "type"@), field(v, "status-code"@), field(v, "result"@)) {
        (Some(t), Some(JsonValue::Integer(c)), Some(result)) => {
            if snapd_type_of(t).is_some() && 100 <= c <= 999 {
                Some((snapd_type_of(t)->Some_0, c as u16, result))
            } else {
                None
            }
        },
        _ => None,
    }
}

/// Whether `code` reports success.
pub open spec fn is_success(code: u16) -> bool {
    200 <= code <= 299
}

/// Reads the envelope of an answer. The result is borrowed from `v`.
pub fn decode_envelope(v: &JsonValue) -> (r: Result<SnapdResponse<&JsonValue>, ParseError>)
    ensures
        match envelope(*v) {
            Some((t, c, res)) => r matches Ok(e) && e.typ == t && e.status_code == c && *e.result
                == res,
            None => r == Err::<SnapdResponse<&JsonValue>, ParseError>(ParseError::Shape),
        },
{
    let typ = match v.get_str("type") {
        Some(t) => {
            if text_eq(t.as_str(), "sync") {
                SnapdType::Sync
            } else if text_eq(t.as_str(), "async") {
                SnapdType::Async
            } else {
                return Err(ParseError::Shape);
            }
        },
        None => {
            return Err(ParseError::Shape);
        },
    };
    let status_code: u16 = match v.get("status-code") {
        Some(JsonValue::Integer(c)) => {
            if 100 <= *c && *c <= 999 {
                *c as u16
            } else {
                return Err(ParseError::Shape);
            }
        },
        _ => {
            return Err(ParseError::Shape);
        },
    };
    match v.get("result") {
        Some(result) => Ok(SnapdResponse { typ, status_code, result }),
        None => Err(ParseError::Shape),
    }
}

/// The result of an envelope, where its status code reports success.
///
/// The daemon answers an error with a result of another shape than that of a success, so a
/// status code outside `200..=299` is reported as such rather than read as a result.
pub fn into_result<T>(response: SnapdResponse<T>) -> (r: Result<T, ParseError>)
    ensures
        is_success(response.status_code) ==> r == Ok::<T, ParseError>(response.result),
        !is_success(response.status_code) ==> r == Err::<T, ParseError>(
            ParseError::Status(response.status_code),
        ),
{
    if 200 <= response.status_code && response.status_code <= 299 {
        Ok(response.result)
    } else {
        Err(ParseError::Status(response.status_code))
    }
}

/// What an answer reads as: the result of its envelope read as an `R`, where the envelope has
/// its shape and reports success.
pub open spec fn answer<R: FromJson>(v: JsonValue) -> Result<R::V, ParseError> {
    match envelope(v) {
        None => Err(ParseError::Shape),
        Some((_, c, res)) => {
            if !is_success(c) {
                Err(ParseError::Status(c))
            } else {
                match R::decoded(res) {
                    Some(m) => Ok(m),
                    None => Err(ParseError::Shape),
                }
            }
        },
    }
}

/// Reads an answer of the daemon: checks its envelope and reads the result as an `R`.
pub fn parse_answer<R: FromJson>(v: &JsonValue) -> (r: Result<R, ParseError>)
    ensures
        match answer::<R>(*v) {
            Ok(m) => r matches Ok(x) && x@ == m,
            Err(e) => r matches Err(f) && f == e,
        },
{
    let envelope = decode_envelope(v)?;
    let result = into_result(envelope)?;
    R::from_json(result)
}

} // verus!
