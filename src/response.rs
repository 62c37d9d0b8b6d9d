//! Classifying a response: its status first, then its body against the
//! endpoint's record type.

use vstd::prelude::*;
use vstd::string::StringExecFns;
use vstd::utf8::{decode_utf8, valid_utf8};
use crate::decode::{
    decode_meter_point, decode_products, decode_supply_point_page, meter_point_ok,
    meter_point_read, products_ok, products_read, supply_point_page_ok, supply_point_page_read,
};
use crate::error::{is_api_error, ApiError, OctopustError};
use crate::json::{field, get_field, json_document, parse_json, Json};
use crate::models::{GridSupplyPointsResponse, MpanInfo, Product};

verus! {

/// A status in the success range.
pub open spec fn is_success_status(status: u16) -> bool {
    200 <= status < 300
}

pub fn is_success(status: u16) -> (r: bool)
    ensures
        r == is_success_status(status),
{
    200 <= status && status < 300
}

/// The text of a body, with each invalid UTF-8 sequence replaced by U+FFFD.
pub uninterp spec fn lossy_text(bytes: Seq<u8>) -> Seq<char>;

/// Relies on `String::from_utf8_lossy`: a function of the bytes alone,
/// which returns valid UTF-8 unchanged.
#[verifier::external_body]
pub(crate) fn body_text(bytes: &[u8]) -> (r: String)
    ensures
        r@ == lossy_text(bytes@),
        valid_utf8(bytes@) ==> r@ == decode_utf8(bytes@),
{
    String::from_utf8_lossy(bytes).into_owned()
}

/// The message for a success response whose body is not the expected type.
pub open spec fn decode_failure_message(context: Seq<char>, detail: Seq<char>, body: Seq<char>) -> Seq<char> {
    "Failed to parse "@ + context + " JSON: "@ + detail + ". Response body: "@ + body
}

/// `e` is a decode failure for this body, whatever the failure's description.
pub open spec fn is_decode_failure(e: OctopustError, status: u16, context: Seq<char>, body: Seq<char>) -> bool {
    exists|detail: Seq<char>| is_api_error(e, status, decode_failure_message(context, detail, body))
}

/// The message for a product list whose `results` array could not be read.
pub open spec fn products_array_message(detail: Seq<char>, body: Seq<char>) -> Seq<char> {
    "Failed to parse products array: "@ + detail + ". Response body: "@ + body
}

/// The message for a product list without a `results` array.
pub open spec fn malformed_products_message(body: Seq<char>) -> Seq<char> {
    "Malformed products response: "@ + body
}

/// What a product list document gives: the products of its `results`
/// array, or the error for an array whose elements are not all products,
/// or for a document without such an array.
pub open spec fn products_outcome(r: Result<Vec<Product>, OctopustError>, status: u16, j: Json, text: Seq<char>) -> bool {
    match field(j, "results"@) {
        Some(Json::Array(items)) => if products_ok(items@) {
            r matches Ok(ps) && products_read(items@, ps@)
        } else {
            r matches Err(e) && exists|d: Seq<char>| is_api_error(e, status, products_array_message(d, text))
        },
        _ => r matches Err(e) && is_api_error(e, status, malformed_products_message(text)),
    }
}

/// The error for a success response whose body is not the expected type.
pub fn decode_failure(status: u16, context: &str, detail: &str, body: &str) -> (e: OctopustError)
    ensures
        is_api_error(e, status, decode_failure_message(context@, detail@, body@)),
{
    let mut message = String::from_str("Failed to parse ");
    message.append(context);
    message.append(" JSON: ");
    message.append(detail);
    message.append(". Response body: ");
    message.append(body);
    proof {
        assert(message@ =~= decode_failure_message(context@, detail@, body@));
    }
    OctopustError::Api(ApiError { status, message })
}

/// Fails with the body as the message unless the status is a success.
pub fn check_status(status: u16, body: &str) -> (r: Result<(), OctopustError>)
    ensures
        r is Ok <==> is_success_status(status),
        r matches Err(e) ==> is_api_error(e, status, body@),
{
    if is_success(status) {
        Ok(())
    } else {
        Err(OctopustError::Api(ApiError { status, message: body.to_owned() }))
    }
}

/// The body's text for a success status; for any other status, an API error
/// whose message is that text.
pub fn check_response(status: u16, body: &[u8]) -> (r: Result<String, OctopustError>)
    ensures
        is_success_status(status) ==> (r matches Ok(t) && t@ == lossy_text(body@)),
        !is_success_status(status) ==> (r matches Err(e) && is_api_error(e, status, lossy_text(body@))),
        valid_utf8(body@) ==> match r {
            Ok(t) => t@ == decode_utf8(body@),
            Err(e) => is_api_error(e, status, decode_utf8(body@)),
        },
{
    let text = body_text(body);
    match check_status(status, text.as_str()) {
        Ok(()) => Ok(text),
        Err(e) => Err(e),
    }
}

/// The products of a parsed product list: the `results` array of the
/// envelope, each element read as a product.
pub fn products_from_document(status: u16, parsed: &Result<Json, String>, text: &str) -> (r: Result<Vec<Product>, OctopustError>)
    ensures
        match parsed {
            Err(d) => r matches Err(e) && is_api_error(e, status, decode_failure_message("products"@, d@, text@)),
            Ok(j) => products_outcome(r, status, *j, text@),
        },
{
    match parsed {
        Err(d) => Err(decode_failure(status, "products", d.as_str(), text)),
        Ok(j) => match get_field(j, "results") {
            Some(Json::Array(items)) => match decode_products(items) {
                Ok(ps) => Ok(ps),
                Err(d) => {
                    let mut message = String::from_str("Failed to parse products array: ");
                    message.append(d.as_str());
                    message.append(". Response body: ");
                    message.append(text);
                    proof {
                        assert(message@ =~= products_array_message(d@, text@));
                    }
                    Err(OctopustError::Api(ApiError { status, message }))
                },
            },
            _ => {
                let mut message = String::from_str("Malformed products response: ");
                message.append(text);
                Err(OctopustError::Api(ApiError { status, message }))
            },
        },
    }
}

/// Reads a product list response.
pub fn read_products(status: u16, body: &[u8]) -> (r: Result<Vec<Product>, OctopustError>)
    ensures
        !is_success_status(status) ==> (r matches Err(e) && is_api_error(e, status, lossy_text(body@))),
        is_success_status(status) ==> match json_document(body@) {
            None => r matches Err(e) && is_decode_failure(e, status, "products"@, lossy_text(body@)),
            Some(j) => products_outcome(r, status, j, lossy_text(body@)),
        },
{
    let text = check_response(status, body)?;
    let parsed = parse_json(body);
    products_from_document(status, &parsed, text.as_str())
}

/// The meter point of a parsed response.
pub fn meter_point_from_document(status: u16, parsed: &Result<Json, String>, text: &str) -> (r: Result<MpanInfo, OctopustError>)
    ensures
        match parsed {
            Err(d) => r matches Err(e) && is_api_error(e, status, decode_failure_message("mpan info"@, d@, text@)),
            Ok(j) => if meter_point_ok(*j) {
                r matches Ok(m) && meter_point_read(*j, m)
            } else {
                r matches Err(e) && is_decode_failure(e, status, "mpan info"@, text@)
            },
        },
{
    match parsed {
        Err(d) => Err(decode_failure(status, "mpan info", d.as_str(), text)),
        Ok(j) => match decode_meter_point(j) {
            Ok(m) => Ok(m),
            Err(d) => Err(decode_failure(status, "mpan info", d.as_str(), text)),
        },
    }
}

/// Reads a meter point response.
pub fn read_meter_point(status: u16, body: &[u8]) -> (r: Result<MpanInfo, OctopustError>)
    ensures
        !is_success_status(status) ==> (r matches Err(e) && is_api_error(e, status, lossy_text(body@))),
        is_success_status(status) ==> match json_document(body@) {
            None => r matches Err(e) && is_decode_failure(e, status, "mpan info"@, lossy_text(body@)),
            Some(j) => if meter_point_ok(j) {
                r matches Ok(m) && meter_point_read(j, m)
            } else {
                r matches Err(e) && is_decode_failure(e, status, "mpan info"@, lossy_text(body@))
            },
        },
{
    let text = check_response(status, body)?;
    let parsed = parse_json(body);
    meter_point_from_document(status, &parsed, text.as_str())
}

/// The grid supply points of a parsed response.
pub fn supply_points_from_document(status: u16, parsed: &Result<Json, String>, text: &str) -> (r: Result<GridSupplyPointsResponse, OctopustError>)
    ensures
        match parsed {
            Err(d) => r matches Err(e) && is_api_error(e, status, decode_failure_message("industry grid supply"@, d@, text@)),
            Ok(j) => if supply_point_page_ok(*j) {
                r matches Ok(g) && supply_point_page_read(*j, g)
            } else {
                r matches Err(e) && is_decode_failure(e, status, "industry grid supply"@, text@)
            },
        },
{
    match parsed {
        Err(d) => Err(decode_failure(status, "industry grid supply", d.as_str(), text)),
        Ok(j) => match decode_supply_point_page(j) {
            Ok(g) => Ok(g),
            Err(d) => Err(decode_failure(status, "industry grid supply", d.as_str(), text)),
        },
    }
}

/// Reads a grid supply points response.
pub fn read_supply_points(status: u16, body: &[u8]) -> (r: Result<GridSupplyPointsResponse, OctopustError>)
    ensures
        !is_success_status(status) ==> (r matches Err(e) && is_api_error(e, status, lossy_text(body@))),
        is_success_status(status) ==> match json_document(body@) {
            None => r matches Err(e) && is_decode_failure(e, status, "industry grid supply"@, lossy_text(body@)),
            Some(j) => if supply_point_page_ok(j) {
                r matches Ok(g) && supply_point_page_read(j, g)
            } else {
                r matches Err(e) && is_decode_failure(e, status, "industry grid supply"@, lossy_text(body@))
            },
        },
{
    let text = check_response(status, body)?;
    let parsed = parse_json(body);
    supply_points_from_document(status, &parsed, text.as_str())
}

/// `needle` occurs in `hay` as a contiguous run.
pub open spec fn contains_text(hay: Seq<char>, needle: Seq<char>) -> bool {
    exists|i: int| 0 <= i && i + needle.len() <= hay.len() && #[trigger] hay.subrange(i, i + needle.len()) == needle
}

proof fn lemma_parts_occur(pre: Seq<char>, mid: Seq<char>, post: Seq<char>)
    ensures
        contains_text(pre + mid + post, mid),
{
    let hay = pre + mid + post;
    assert(hay.subrange(pre.len() as int, (pre.len() + mid.len()) as int) =~= mid);
}

/// A decode failure's message holds both the description of the failure
/// and the raw body.
pub proof fn lemma_decode_failure_shows_cause_and_body(e: OctopustError, status: u16, context: Seq<char>, detail: Seq<char>, body: Seq<char>)
    requires
        is_api_error(e, status, decode_failure_message(context, detail, body)),
    ensures
        e matches OctopustError::Api(a) && contains_text(a.message@, detail) && contains_text(a.message@, body),
{
    let pre = "Failed to parse "@ + context + " JSON: "@;
    let post = ". Response body: "@ + body;
    assert(decode_failure_message(context, detail, body) =~= pre + detail + post);
    lemma_parts_occur(pre, detail, post);
    let pre2 = "Failed to parse "@ + context + " JSON: "@ + detail + ". Response body: "@;
    assert(decode_failure_message(context, detail, body) =~= pre2 + body + Seq::<char>::empty());
    lemma_parts_occur(pre2, body, Seq::<char>::empty());
}

/// The message for a product list whose elements are not all products holds
/// both the description of the failure and the raw body.
pub proof fn lemma_products_array_failure_shows_cause_and_body(e: OctopustError, status: u16, detail: Seq<char>, body: Seq<char>)
    requires
        is_api_error(e, status, products_array_message(detail, body)),
    ensures
        e matches OctopustError::Api(a) && contains_text(a.message@, detail) && contains_text(a.message@, body),
{
    let pre = "Failed to parse products array: "@;
    let post = ". Response body: "@ + body;
    assert(products_array_message(detail, body) =~= pre + detail + post);
    lemma_parts_occur(pre, detail, post);
    let pre2 = "Failed to parse products array: "@ + detail + ". Response body: "@;
    assert(products_array_message(detail, body) =~= pre2 + body + Seq::<char>::empty());
    lemma_parts_occur(pre2, body, Seq::<char>::empty());
}

} // verus!
