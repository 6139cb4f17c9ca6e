//! The closed error taxonomy of the library. Every failure a decoder or the
//! response classifier can meet is one of these values; all carry plain text
//! so that callers can report them without further context.

use crate::strutil::{push_u32_dec, spec_u32_dec};
use vstd::prelude::*;

verus! {

/// Everything that can go wrong between issuing a request and handing back
/// decoded records.
#[derive(PartialEq, Debug)]
pub enum RParifError {
    /// The transport itself failed; carries the underlying cause's text.
    RequestError(String),
    /// The response body was not well-formed JSON; carries the parser
    /// diagnostic.
    JsonError(String),
    /// An absolute date string failed `dd/mm/yyyy` parsing; carries the
    /// parser diagnostic.
    DateParseError(String),
    /// A string mapped to none of the values of a closed enumeration;
    /// carries the unrecognized token.
    UnknownEnumValue(String),
    /// A JSON value was present but of the wrong shape.
    WrongJsonType {
        /// The shape that was expected (`array`, `number`, `string`, ...).
        expected: String,
        /// The compact writing of the value found instead.
        json: String,
    },
    /// A relative-day token was neither `hier`, `jour` nor `demain`; carries
    /// the offending value, written as JSON when it came from JSON.
    UnexpectedDate(String),
    /// The HTTP call completed with a status outside the 2xx range.
    CallError {
        /// The URL that was called.
        url: String,
        /// The compact writing of the response body.
        body: String,
        /// The HTTP status code.
        status: u16,
    },
    /// A required key was absent from a JSON object.
    MissingJsonKey {
        /// The missing key.
        key: String,
        /// The compact writing of the object examined.
        json: String,
    },
}

/// The mathematical shape of an `RParifError`.
pub ghost enum ErrModel {
    RequestError(Seq<char>),
    JsonError(Seq<char>),
    DateParseError(Seq<char>),
    UnknownEnumValue(Seq<char>),
    WrongJsonType { expected: Seq<char>, json: Seq<char> },
    UnexpectedDate(Seq<char>),
    CallError { url: Seq<char>, body: Seq<char>, status: u16 },
    MissingJsonKey { key: Seq<char>, json: Seq<char> },
}

impl RParifError {
    /// The model of this error.
    pub open spec fn model(self) -> ErrModel {
        match self {
            RParifError::RequestError(e) => ErrModel::RequestError(e@),
            RParifError::JsonError(e) => ErrModel::JsonError(e@),
            RParifError::DateParseError(e) => ErrModel::DateParseError(e@),
            RParifError::UnknownEnumValue(t) => ErrModel::UnknownEnumValue(t@),
            RParifError::WrongJsonType { expected, json } => ErrModel::WrongJsonType {
                expected: expected@,
                json: json@,
            },
            RParifError::UnexpectedDate(v) => ErrModel::UnexpectedDate(v@),
            RParifError::CallError { url, body, status } => ErrModel::CallError {
                url: url@,
                body: body@,
                status,
            },
            RParifError::MissingJsonKey { key, json } => ErrModel::MissingJsonKey {
                key: key@,
                json: json@,
            },
        }
    }
}

/// The one-line report of an error.
pub open spec fn spec_message(m: ErrModel) -> Seq<char> {
    match m {
        ErrModel::RequestError(e) => e,
        ErrModel::JsonError(e) => e,
        ErrModel::DateParseError(e) => e,
        ErrModel::UnknownEnumValue(t) => "Error parsing enum value : unexpected value "@ + t,
        ErrModel::WrongJsonType { expected, json } =>
            "Unexpected type value in JSON : expected an "@ + expected + " but got "@ + json,
        ErrModel::UnexpectedDate(v) =>
            "Wrong date : expected one of 'hier', 'jour', 'demain' but got "@ + v,
        ErrModel::CallError { url, body, status } => "Unexpected HTTP response : url="@ + url
            + ", status="@ + spec_u32_dec(status as int) + ", body="@ + body,
        ErrModel::MissingJsonKey { key, json } => "Missing key "@ + key + " in "@ + json,
    }
}

impl RParifError {
    /// The one-line report of this error.
    pub fn message(&self) -> (r: String)
        ensures
            r@ == spec_message(self.model()),
    {
        let mut out = String::new();
        match self {
            RParifError::RequestError(e) => out.append(e.as_str()),
            RParifError::JsonError(e) => out.append(e.as_str()),
            RParifError::DateParseError(e) => out.append(e.as_str()),
            RParifError::UnknownEnumValue(t) => {
                out.append("Error parsing enum value : unexpected value ");
                out.append(t.as_str());
            },
            RParifError::WrongJsonType { expected, json } => {
                out.append("Unexpected type value in JSON : expected an ");
                out.append(expected.as_str());
                out.append(" but got ");
                out.append(json.as_str());
            },
            RParifError::UnexpectedDate(v) => {
                out.append("Wrong date : expected one of 'hier', 'jour', 'demain' but got ");
                out.append(v.as_str());
            },
            RParifError::CallError { url, body, status } => {
                out.append("Unexpected HTTP response : url=");
                out.append(url.as_str());
                out.append(", status=");
                push_u32_dec(&mut out, *status as u32);
                out.append(", body=");
                out.append(body.as_str());
            },
            RParifError::MissingJsonKey { key, json } => {
                out.append("Missing key ");
                out.append(key.as_str());
                out.append(" in ");
                out.append(json.as_str());
            },
        }
        proof {
            assert(out@ =~= spec_message(self.model()));
        }
        out
    }

    /// A short, fixed description of the kind of this error.
    pub fn description(&self) -> (r: &'static str)
        ensures
            match self {
                RParifError::RequestError(..) => r@ == "Error calling HTTP API"@,
                RParifError::JsonError(..) => r@ == "Error parsing JSON response"@,
                RParifError::DateParseError(..) => r@ == "Error parsing date"@,
                RParifError::UnknownEnumValue(..) => r@ == "Error parsing enum value"@,
                RParifError::WrongJsonType { .. } => r@ == "Unexpected type value in JSON"@,
                RParifError::UnexpectedDate(..) => r@
                    == "Wrong date : expected one of 'hier', 'jour', 'demain'"@,
                RParifError::CallError { .. } => r@ == "Unexpected HTTP response"@,
                RParifError::MissingJsonKey { .. } => r@ == "Missing key in json"@,
            },
    {
        match self {
            RParifError::RequestError(..) => "Error calling HTTP API",
            RParifError::JsonError(..) => "Error parsing JSON response",
            RParifError::DateParseError(..) => "Error parsing date",
            RParifError::UnknownEnumValue(..) => "Error parsing enum value",
            RParifError::WrongJsonType { .. } => "Unexpected type value in JSON",
            RParifError::UnexpectedDate(..) => "Wrong date : expected one of 'hier', 'jour', 'demain'",
            RParifError::CallError { .. } => "Unexpected HTTP response",
            RParifError::MissingJsonKey { .. } => "Missing key in json",
        }
    }
}

} // verus!
