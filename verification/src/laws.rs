//! The guarantees of the lookup pipeline, stated once over the whole
//! pipeline rather than per function.

use crate::client::lookup_result;
use crate::client::STATUS_OK;
use crate::error::Error;
use crate::model::Address;
use crate::model::Response;
use vstd::prelude::*;

verus! {

/// A 200 response whose decoded payload holds at least one record yields
/// `Some` of exactly the first record: field for field, including empty
/// strings.
pub proof fn lemma_found_record_is_first(status: u16, body: String, decoded: Result<
    Response,
    String,
>)
    requires
        status == STATUS_OK,
        decoded matches Ok(response) && response.results matches Some(records) && records@.len()
            > 0,
    ensures
        lookup_result(status, body, decoded) matches Ok(Some(found)) && found
            == decoded->Ok_0.results->Some_0@[0],
{
}

/// A 200 response whose decoded payload holds no records — the record
/// sequence absent or present but empty — yields a confirmed absence,
/// never an error.
pub proof fn lemma_empty_results_is_not_an_error(status: u16, body: String, decoded: Result<
    Response,
    String,
>)
    requires
        status == STATUS_OK,
        decoded matches Ok(response) && (response.results is None
            || response.results->Some_0@.len() == 0),
    ensures
        lookup_result(status, body, decoded) == Ok::<Option<Address>, Error>(None),
{
}

/// Any status other than 200 fails with a gateway error carrying exactly
/// that status code and the verbatim response body, whatever the body
/// holds and whatever a decoder would have said of it.
pub proof fn lemma_non_ok_status_is_gateway_error(status: u16, body: String, decoded: Result<
    Response,
    String,
>)
    requires
        status != STATUS_OK,
    ensures
        lookup_result(status, body, decoded) == Err::<Option<Address>, Error>(
            Error::Gateway { status_code: status, reason: body },
        ),
{
}

/// A 200 response whose body the decoder rejects fails with a decode error
/// carrying the decoder's diagnostic — it is never reported as "no
/// results" and never replaced by a default value.
pub proof fn lemma_undecodable_body_is_decode_error(status: u16, body: String, decoded: Result<
    Response,
    String,
>)
    requires
        status == STATUS_OK,
        decoded is Err,
    ensures
        lookup_result(status, body, decoded) == Err::<Option<Address>, Error>(
            Error::Decode { reason: decoded->Err_0 },
        ),
{
}

/// Two decoder verdicts agree when both accept payloads with the same
/// content or both reject with the same diagnostic.
pub open spec fn decoder_verdicts_agree(a: Result<Response, String>, b: Result<
    Response,
    String,
>) -> bool {
    match (a, b) {
        (Ok(x), Ok(y)) => x.deep_view() == y.deep_view(),
        (Err(x), Err(y)) => x@ == y@,
        _ => false,
    }
}

/// Two lookup outcomes agree when they have the same classification —
/// found, absent, or the same error — and the same field contents.
pub open spec fn outcomes_agree(a: Result<Option<Address>, Error>, b: Result<
    Option<Address>,
    Error,
>) -> bool {
    match (a, b) {
        (Ok(x), Ok(y)) => x.deep_view() == y.deep_view(),
        (Err(x), Err(y)) => x.deep_view() == y.deep_view(),
        _ => false,
    }
}

/// The pipeline holds no state between calls: two lookups that see the
/// same HTTP status, the same body text, and agreeing decoder verdicts
/// produce agreeing outcomes.  Against an unchanged service — same
/// response, same decoder — repeating a lookup therefore repeats its
/// outcome.
pub proof fn lemma_lookup_idempotent(
    status1: u16,
    body1: String,
    decoded1: Result<Response, String>,
    status2: u16,
    body2: String,
    decoded2: Result<Response, String>,
)
    requires
        status1 == status2,
        body1@ == body2@,
        decoder_verdicts_agree(decoded1, decoded2),
    ensures
        outcomes_agree(
            lookup_result(status1, body1, decoded1),
            lookup_result(status2, body2, decoded2),
        ),
{
    if status1 == STATUS_OK {
        match (decoded1, decoded2) {
            (Ok(x), Ok(y)) => {
                match (x.results, y.results) {
                    (Some(rx), Some(ry)) => {
                        assert(rx.deep_view() =~= ry.deep_view());
                        assert(rx@.len() == ry@.len());
                        if rx@.len() > 0 {
                            assert(rx@[0].deep_view() == rx.deep_view()[0]);
                            assert(ry@[0].deep_view() == ry.deep_view()[0]);
                        }
                    },
                    _ => {},
                }
            },
            _ => {},
        }
    }
}

} // verus!
