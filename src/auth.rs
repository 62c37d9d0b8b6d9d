//! The `Authorization` header sent with every request.

use base64::Engine;
use vstd::prelude::*;
use vstd::slice::slice_to_vec;
use vstd::string::{StringExecFns, StringSliceAdditionalSpecFns};

verus! {

/// The standard, padded base64 text of a byte string (RFC 4648 alphabet).
pub uninterp spec fn base64_standard(bytes: Seq<u8>) -> Seq<char>;

/// Relies on base64's `general_purpose::STANDARD.encode`: the padded base64
/// text of the bytes, a function of the bytes alone. It panics only where the
/// output length overflows `usize`, which the bound excludes.
#[verifier::external_body]
fn encode_base64(bytes: &[u8]) -> (r: String)
    requires
        bytes@.len() / 3 * 4 + 4 <= usize::MAX,
    ensures
        r@ == base64_standard(bytes@),
{
    base64::engine::general_purpose::STANDARD.encode(bytes)
}

/// HTTP Basic credentials for an API key: the key is the user name and the
/// password is empty, so the encoded text is `key:`.
pub open spec fn authorization_value(api_key: Seq<u8>) -> Seq<char> {
    "Basic "@ + base64_standard(api_key.push(58u8))
}

/// The header value for already-encoded credentials.
pub fn basic_credentials(encoded: &str) -> (r: String)
    ensures
        r@ == "Basic "@ + encoded@,
{
    let mut r = String::from_str("Basic ");
    r.append(encoded);
    r
}

/// The `Authorization` header value for an API key.
pub fn authorization_header(api_key: &str) -> (r: String)
    requires
        (api_key.spec_bytes().len() + 1) / 3 * 4 + 4 <= usize::MAX,
    ensures
        r@ == authorization_value(api_key.spec_bytes()),
{
    let mut credentials = slice_to_vec(api_key.as_bytes());
    credentials.push(58u8);
    let encoded = encode_base64(credentials.as_slice());
    basic_credentials(encoded.as_str())
}

} // verus!
