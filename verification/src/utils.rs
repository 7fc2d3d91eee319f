//! Request plumbing helpers: the service's base URL and the basic
//! authentication header derived from a personal access token.

use base64::Engine;
use vstd::prelude::*;
use vstd::string::StringExecFns;
use vstd::utf8::encode_utf8;

verus! {

/// The base64 encoding of `bytes` with the standard alphabet and padding.
/// The encoding depends on the bytes alone, so the result carries a name
/// that contracts share.
pub uninterp spec fn base64_standard_of(bytes: Seq<u8>) -> Seq<char>;

/// Relies on base64's STANDARD engine encode: the standard-alphabet,
/// padded encoding of the input bytes, a pure function of them. A slice
/// never exceeds isize::MAX bytes, for which the encoded length fits in
/// usize, so the call cannot fail.
#[verifier::external_body]
fn encode_base64(bytes: &[u8]) -> (r: String)
    ensures
        r@ == base64_standard_of(bytes@),
{
    base64::engine::general_purpose::STANDARD.encode(bytes)
}

/// The basic authentication header value for a personal access token:
/// `Basic` followed by the base64 encoding of the token prefixed with a
/// colon (an empty user name).
pub fn basic_auth_header(pat: &str) -> (r: String)
    ensures
        r@ == "Basic "@ + base64_standard_of(encode_utf8(":"@ + pat@)),
{
    let mut with_user: String = ":".to_owned();
    with_user.append(pat);
    let encoded = encode_base64(with_user.as_str().as_bytes());
    let mut header: String = "Basic ".to_owned();
    header.append(encoded.as_str());
    header
}

/// The base URL for calls against the remote service, for the stored
/// organization.
pub fn get_base_url(credentials: &crate::auth::Credentials) -> (r: String)
    ensures
        r@ == "https://dev.azure.com/"@ + credentials.organization@,
{
    let mut url: String = "https://dev.azure.com/".to_owned();
    url.append(credentials.organization.as_str());
    url
}

} // verus!
