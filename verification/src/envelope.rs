//! The envelope: identity metadata attached to every inbound invocation.
//!
//! An envelope arrives as a JSON object, either as a command-line string or
//! as an undecoded byte chunk.  Each field may be written under a canonical
//! snake-case key or a camel-case alias; an envelope that gives the same
//! field under both keys is rejected as ambiguous, as is one that misses a
//! required field or is not a JSON object at all.

use vstd::prelude::*;
use vstd::string::StrSliceExecFns;
use vstd::utf8::encode_utf8;

verus! {

/// Why an envelope could not be parsed.
#[derive(Clone, Copy, Debug, PartialEq, Eq)]
pub enum ParseError {
    /// The input is not valid JSON, or its top-level value is not an object.
    NotAnObject,
    /// Neither `message_id` nor `messageId` holds a string.
    MissingMessageId,
    /// Neither `trace_id` nor `traceId` holds a string.
    MissingTraceId,
    /// One field is given under both its canonical key and its alias.
    DuplicateField,
}

/// Identity metadata of one delivery.
#[derive(Clone, Debug, PartialEq, Eq)]
pub struct Envelope {
    /// Id of this particular message.  Not globally unique: the same message
    /// can be delivered on several queue partitions, and only the pair of
    /// partition and message id is unique.
    pub message_id: String,
    /// Id shared by every message descending from the same origin, used for
    /// correlation.
    pub trace_id: String,
    /// Id of the originating client session, when the chain started from
    /// one.  Rotated occasionally but stable within a session's lifetime.
    pub session_id: Option<String>,
}

/// The mathematical value of an [`Envelope`].
pub ghost struct EnvelopeView {
    pub message_id: Seq<char>,
    pub trace_id: Seq<char>,
    pub session_id: Option<Seq<char>>,
}

impl View for Envelope {
    type V = EnvelopeView;

    open spec fn view(&self) -> EnvelopeView {
        EnvelopeView {
            message_id: self.message_id@,
            trace_id: self.trace_id@,
            session_id: match self.session_id {
                Some(s) => Some(s@),
                None => None,
            },
        }
    }
}

#[verifier::external_type_specification]
#[verifier::external_body]
pub struct ExJsonValue(serde_json::Value);

#[verifier::external_type_specification]
#[verifier::external_body]
#[verifier::reject_recursive_types(K)]
#[verifier::reject_recursive_types(V)]
pub struct ExJsonMap<K, V>(serde_json::Map<K, V>);

/// The fields of a JSON object that hold JSON strings, as a map from key to
/// the string held.
pub uninterp spec fn obj_string_fields(m: serde_json::Map<String, serde_json::Value>) -> Map<
    Seq<char>,
    Seq<char>,
>;

/// The string fields of the JSON object that the given bytes parse as, or
/// `None` when the bytes are not valid JSON with an object at top level.
pub uninterp spec fn json_string_fields_of(b: Seq<u8>) -> Option<Map<Seq<char>, Seq<char>>>;

/// Relies on `serde_json::from_slice`: parsing is a function of the input
/// bytes alone, and it yields `Value::Object` exactly when the bytes are
/// valid JSON whose top-level value is an object.
#[verifier::external_body]
fn parse_json_object(bytes: &[u8]) -> (r: Option<serde_json::Map<String, serde_json::Value>>)
    ensures
        r matches Some(m) ==> json_string_fields_of(bytes@) == Some(obj_string_fields(m)),
        r is None ==> json_string_fields_of(bytes@) is None,
{
    match serde_json::from_slice::<serde_json::Value>(bytes) {
        Ok(serde_json::Value::Object(m)) => Some(m),
        _ => None,
    }
}

/// Relies on `serde_json::Map::get`: it returns the value stored under the
/// key, or `None` when the key is absent.
#[verifier::external_body]
fn get_string_field(m: &serde_json::Map<String, serde_json::Value>, key: &str) -> (r: Option<
    String,
>)
    ensures
        r matches Some(s) ==> obj_string_fields(*m).dom().contains(key@) && obj_string_fields(
            *m,
        )[key@] == s@,
        r is None ==> !obj_string_fields(*m).dom().contains(key@),
{
    match m.get(key) {
        Some(serde_json::Value::String(s)) => Some(s.clone()),
        _ => None,
    }
}

/// The string field stored under `canonical` or under `alias`: an error when
/// both keys are present, the stored string when exactly one is, `None` when
/// neither is.
pub open spec fn spec_lookup_field(
    fields: Map<Seq<char>, Seq<char>>,
    canonical: Seq<char>,
    alias: Seq<char>,
) -> Result<Option<Seq<char>>, ParseError> {
    if fields.dom().contains(canonical) && fields.dom().contains(alias) {
        Err(ParseError::DuplicateField)
    } else if fields.dom().contains(canonical) {
        Ok(Some(fields[canonical]))
    } else if fields.dom().contains(alias) {
        Ok(Some(fields[alias]))
    } else {
        Ok(None)
    }
}

fn lookup_field(
    obj: &serde_json::Map<String, serde_json::Value>,
    canonical: &str,
    alias: &str,
) -> (r: Result<Option<String>, ParseError>)
    ensures
        match r {
            Ok(Some(s)) => spec_lookup_field(obj_string_fields(*obj), canonical@, alias@) == Ok::<
                Option<Seq<char>>,
                ParseError,
            >(Some(s@)),
            Ok(None) => spec_lookup_field(obj_string_fields(*obj), canonical@, alias@) == Ok::<
                Option<Seq<char>>,
                ParseError,
            >(None),
            Err(e) => spec_lookup_field(obj_string_fields(*obj), canonical@, alias@) == Err::<
                Option<Seq<char>>,
                ParseError,
            >(e),
        },
{
    let c = get_string_field(obj, canonical);
    let a = get_string_field(obj, alias);
    match (c, a) {
        (Some(_), Some(_)) => Err(ParseError::DuplicateField),
        (Some(s), None) => Ok(Some(s)),
        (None, Some(s)) => Ok(Some(s)),
        (None, None) => Ok(None),
    }
}

/// The envelope that the given bytes describe, or the reason they describe
/// none: the bytes must parse as a JSON object holding string fields
/// `message_id` (or `messageId`) and `trace_id` (or `traceId`), with
/// `session_id` (or `sessionId`) optional.
pub open spec fn spec_parse_envelope(b: Seq<u8>) -> Result<EnvelopeView, ParseError> {
    match json_string_fields_of(b) {
        None => Err(ParseError::NotAnObject),
        Some(fields) => match spec_lookup_field(fields, "message_id"@, "messageId"@) {
            Err(e) => Err(e),
            Ok(None) => Err(ParseError::MissingMessageId),
            Ok(Some(message_id)) => match spec_lookup_field(fields, "trace_id"@, "traceId"@) {
                Err(e) => Err(e),
                Ok(None) => Err(ParseError::MissingTraceId),
                Ok(Some(trace_id)) => match spec_lookup_field(fields, "session_id"@, "sessionId"@) {
                    Err(e) => Err(e),
                    Ok(session_id) => Ok(EnvelopeView { message_id, trace_id, session_id }),
                },
            },
        },
    }
}

impl Envelope {
    /// Parse an envelope from a raw byte buffer, as delivered by the framed
    /// transport.
    pub fn from_bytes(bytes: &[u8]) -> (r: Result<Envelope, ParseError>)
        ensures
            match r {
                Ok(env) => spec_parse_envelope(bytes@) == Ok::<EnvelopeView, ParseError>(env@),
                Err(e) => spec_parse_envelope(bytes@) == Err::<EnvelopeView, ParseError>(e),
            },
    {
        let obj = match parse_json_object(bytes) {
            Some(m) => m,
            None => {
                return Err(ParseError::NotAnObject);
            },
        };
        let message_id = match lookup_field(&obj, "message_id", "messageId") {
            Ok(Some(s)) => s,
            Ok(None) => {
                return Err(ParseError::MissingMessageId);
            },
            Err(e) => {
                return Err(e);
            },
        };
        let trace_id = match lookup_field(&obj, "trace_id", "traceId") {
            Ok(Some(s)) => s,
            Ok(None) => {
                return Err(ParseError::MissingTraceId);
            },
            Err(e) => {
                return Err(e);
            },
        };
        let session_id = match lookup_field(&obj, "session_id", "sessionId") {
            Ok(s) => s,
            Err(e) => {
                return Err(e);
            },
        };
        Ok(Envelope { message_id, trace_id, session_id })
    }

    /// Parse an envelope from a JSON string, as delivered on the command
    /// line.
    pub fn from_str(s: &str) -> (r: Result<Envelope, ParseError>)
        ensures
            match r {
                Ok(env) => spec_parse_envelope(encode_utf8(s@)) == Ok::<EnvelopeView, ParseError>(
                    env@,
                ),
                Err(e) => spec_parse_envelope(encode_utf8(s@)) == Err::<EnvelopeView, ParseError>(
                    e,
                ),
            },
    {
        let bytes = s.as_bytes_vec();
        Envelope::from_bytes(bytes.as_slice())
    }
}

} // verus!
