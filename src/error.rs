//! The closed set of failures a request can end in.

use vstd::prelude::*;
use vstd::string::StringExecFns;
use crate::text::push_decimal;

verus! {

#[verifier::external_type_specification]
#[verifier::external_body]
pub struct ExReqwestError(reqwest::Error);

#[verifier::external_type_specification]
#[verifier::external_body]
pub struct ExJsonError(serde_json::Error);

/// The server answered, but with a failure status or a body that could not
/// be read as the expected type.
#[derive(Debug)]
pub struct ApiError {
    pub status: u16,
    pub message: String,
}

/// A failed request.
#[derive(Debug)]
pub enum OctopustError {
    /// The server's answer, classified.
    Api(ApiError),
    /// The request could not be completed (connection, TLS, DNS).
    Reqwest(reqwest::Error),
    /// A JSON value could not be read outside the response path.
    Serde(serde_json::Error),
}

/// `e` is an API error with this status and message text.
pub open spec fn is_api_error(e: OctopustError, status: u16, message: Seq<char>) -> bool {
    e matches OctopustError::Api(a) && a.status == status && a.message@ == message
}

/// Relies on the `Display` of reqwest's `Error`: its text.
#[verifier::external_body]
fn transport_error_text(e: &reqwest::Error) -> String {
    e.to_string()
}

/// Relies on the `Display` of serde_json's `Error`: its text.
#[verifier::external_body]
fn json_error_text(e: &serde_json::Error) -> String {
    e.to_string()
}

impl OctopustError {
    /// The API error for a status and message.
    pub fn api(status: u16, message: String) -> (r: OctopustError)
        ensures
            is_api_error(r, status, message@),
    {
        OctopustError::Api(ApiError { status, message })
    }

    /// A one-line description: the status and message of an API error, or the
    /// text of the underlying error.
    pub fn describe(&self) -> (r: String)
        ensures
            self matches OctopustError::Api(a) ==> r@ == "API Error ("@ + crate::text::decimal(a.status as nat) + "): "@ + a.message@,
    {
        match self {
            OctopustError::Api(a) => {
                let mut r = String::from_str("API Error (");
                push_decimal(a.status as u32, &mut r);
                r.append("): ");
                r.append(a.message.as_str());
                r
            },
            OctopustError::Reqwest(e) => {
                let mut r = String::from_str("Request error: ");
                r.append(transport_error_text(e).as_str());
                r
            },
            OctopustError::Serde(e) => {
                let mut r = String::from_str("Serialization error: ");
                r.append(json_error_text(e).as_str());
                r
            },
        }
    }
}

impl From<reqwest::Error> for OctopustError {
    fn from(e: reqwest::Error) -> (r: OctopustError)
        ensures
            r == OctopustError::Reqwest(e),
    {
        OctopustError::Reqwest(e)
    }
}

impl vstd::std_specs::convert::FromSpecImpl<reqwest::Error> for OctopustError {
    open spec fn obeys_from_spec() -> bool {
        true
    }

    open spec fn from_spec(v: reqwest::Error) -> OctopustError {
        OctopustError::Reqwest(v)
    }
}

impl From<serde_json::Error> for OctopustError {
    fn from(e: serde_json::Error) -> (r: OctopustError)
        ensures
            r == OctopustError::Serde(e),
    {
        OctopustError::Serde(e)
    }
}

impl vstd::std_specs::convert::FromSpecImpl<serde_json::Error> for OctopustError {
    open spec fn obeys_from_spec() -> bool {
        true
    }

    open spec fn from_spec(v: serde_json::Error) -> OctopustError {
        OctopustError::Serde(v)
    }
}

} // verus!
