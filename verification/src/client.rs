//! The lookup pipeline: request URI construction, HTTP status
//! classification, and translation of the decoded payload into the
//! caller-facing outcome.

use crate::error::Error;
use crate::model::first_address;
use crate::model::first_record;
use crate::model::Address;
use crate::model::Response;
use vstd::prelude::*;
use vstd::string::StringExecFns;

verus! {

/// Base URL of the lookup service.  Fixed at compile time; the service has
/// no other endpoint and no runtime configuration.
pub const ENDPOINT: &'static str = "https://zipcloud.ibsnet.co.jp/api/search";

/// The request URI for one postal-code lookup: the endpoint with the code
/// and a result limit of one as query parameters.  The code is passed
/// through verbatim; postal codes are URL-safe and the service expects them
/// unescaped.
pub open spec fn lookup_uri(zipcode: Seq<char>) -> Seq<char> {
    ENDPOINT@ + "?zipcode="@ + zipcode + "&limit=1"@
}

/// Builds the request URI for the given postal code.
pub fn build_uri(zipcode: &str) -> (uri: String)
    ensures
        uri@ == lookup_uri(zipcode@),
{
    let mut uri = String::new();
    uri.append(ENDPOINT);
    uri.append("?zipcode=");
    uri.append(zipcode);
    uri.append("&limit=1");
    proof {
        assert(uri@ =~= lookup_uri(zipcode@));
    }
    uri
}

/// The one HTTP status code on which the response body is decoded.
pub const STATUS_OK: u16 = 200;

/// Classification of a raw HTTP response: on status 200 the body is handed
/// on for decoding, on any other status the lookup fails with a gateway
/// error carrying exactly that status and the verbatim body.
pub open spec fn status_result(status: u16, body: String) -> Result<String, Error> {
    if status == STATUS_OK {
        Ok(body)
    } else {
        Err(Error::Gateway { status_code: status, reason: body })
    }
}

/// Branches on the HTTP status of a response.  Only a 200 response may go
/// on to the JSON decoder; every other status is a gateway failure whose
/// body is kept as opaque diagnostic text, never decoded.
pub fn classify_status(status: u16, body: String) -> (r: Result<String, Error>)
    ensures
        r == status_result(status, body),
{
    if status == STATUS_OK {
        Ok(body)
    } else {
        Err(Error::Gateway { status_code: status, reason: body })
    }
}

/// The caller-facing outcome of a decoded 200 response: the first record
/// (or a confirmed absence) on a decoder success, a decode error carrying
/// the decoder's diagnostic on a decoder failure.
pub open spec fn decode_result(decoded: Result<Response, String>) -> Result<
    Option<Address>,
    Error,
> {
    match decoded {
        Ok(response) => Ok(first_record(response.results)),
        Err(reason) => Err(Error::Decode { reason }),
    }
}

/// Turns the JSON decoder's verdict on a 200 body into the lookup outcome.
/// A decoded payload yields its first record, or `None` when the record
/// sequence is absent or empty — never an error.  A decoder failure is a
/// decode error, never mistaken for "no results".
pub fn decoded_outcome(decoded: Result<Response, String>) -> (r: Result<Option<Address>, Error>)
    ensures
        r == decode_result(decoded),
{
    match decoded {
        Ok(response) => Ok(first_address(&response)),
        Err(reason) => Err(Error::Decode { reason }),
    }
}

/// The whole pipeline after the transport handed back a response: status
/// classification first, then — only for a 200 status — the decoder's
/// verdict.  `decoded` stands for what the JSON decoder would say of the
/// body; a non-200 status never consults it.
pub open spec fn lookup_result(status: u16, body: String, decoded: Result<Response, String>) -> Result<
    Option<Address>,
    Error,
> {
    match status_result(status, body) {
        Ok(_) => decode_result(decoded),
        Err(e) => Err(e),
    }
}

} // verus!
