//! The shared network client.
//!
//! The workspace owns one HTTP client, built once at initialization and
//! carrying the configured user agent as a default header on every
//! request. The client itself is an outside value: this module declares
//! its type and wraps its construction; everything the crate states about
//! it is stated here.

use vstd::prelude::*;

verus! {

/// The blocking HTTP client of the reqwest crate, declared opaque: the
/// workspace stores one and hands it out, stating nothing of its insides.
#[verifier::external_type_specification]
#[verifier::external_body]
pub struct ExClient(reqwest::blocking::Client);

/// True for characters an HTTP header value may hold: horizontal tab or
/// anything from space upwards except DEL (bytes above ASCII are allowed
/// as obs-text, and every such character encodes to such bytes).
pub open spec fn is_header_value_char(c: char) -> bool {
    c == '\t' || (c >= ' ' && c != '\u{7f}')
}

/// A string usable as an HTTP header value.
pub open spec fn is_valid_header_value(s: Seq<char>) -> bool {
    forall|i: int| 0 <= i < s.len() ==> is_header_value_char(#[trigger] s[i])
}

/// Build the blocking HTTP client that sends `user_agent` as its
/// User-Agent header on every request.
///
/// Relies on `reqwest::blocking::ClientBuilder::user_agent` and `::build`:
/// the user-agent string is parsed as a header value (rejecting control
/// characters and DEL), a parse failure is stored in the builder, and
/// `build` returns any stored error. Construction may also fail for
/// reasons of its own, so only the failure direction is stated; the
/// outside error is mapped to the crate's init error here.
#[verifier::external_body]
pub(crate) fn build_http_client(user_agent: &str) -> (r: Result<
    reqwest::blocking::Client,
    crate::errors::Error,
>)
    ensures
        !is_valid_header_value(user_agent@) ==> r is Err,
        r matches Err(e) ==> e matches crate::errors::Error::Init {
            step: crate::errors::InitFailure::HttpClient,
        },
{
    reqwest::blocking::Client::builder().user_agent(user_agent).build().map_err(
        |_| crate::errors::Error::Init { step: crate::errors::InitFailure::HttpClient },
    )
}

} // verus!
