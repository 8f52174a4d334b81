//! The error taxonomy of the client, and the mapper that turns a
//! service-reported error code into a domain error value.

use vstd::prelude::*;

verus! {

/// Every way a fetch can fail, as a typed error value. Transport-level
/// failures carry no payload here; the service-reported failures carry the
/// human-readable reason chosen by the error mapper.
#[derive(Debug)]
#[non_exhaustive]
pub enum NewsAPIError {
    /// Transport or network error on the synchronous path.
    RequestFailed,
    /// The response body could not be read as text.
    ResponseToStringFailed,
    /// The response body could not be decoded into the expected shape.
    ArticlesParsingFailed,
    /// The base URL or the constructed URL is not a valid URL.
    UrlParseFailed,
    /// The service reported a non-"ok" status; the payload is the reason
    /// selected by the error mapper's lookup table.
    BadRequest(&'static str),
    /// Any failure specific to the asynchronous path.
    AsyncRequestFailed,
}

/// The reason string that the error mapper selects for a service-reported
/// error code: a finite lookup table with a default branch.
pub open spec fn reason_for(code: Option<Seq<char>>) -> Seq<char> {
    match code {
        Some(c) => if c == "apiKeyDisabled"@ {
            "Your API Key was disabled"@
        } else {
            "Unknown error"@
        },
        None => "Unknown error"@,
    }
}

/// Law: the error mapper is total. Every error code, including an absent or
/// unrecognized one, maps to a non-empty reason string.
pub proof fn lemma_error_mapper_total(code: Option<Seq<char>>)
    ensures
        reason_for(code).len() > 0,
{
    reveal_strlit("Your API Key was disabled");
    reveal_strlit("Unknown error");
}

/// Converts the optional error code of a non-"ok" response into the domain
/// error value. Always produces a `BadRequest` with a non-empty reason.
pub fn map_response_err(code: Option<String>) -> (r: NewsAPIError)
    ensures
        r matches NewsAPIError::BadRequest(reason) && reason@ == reason_for(
            code.deep_view(),
        ) && reason@.len() > 0,
{
    proof {
        lemma_error_mapper_total(code.deep_view());
    }
    match code {
        Some(c) => {
            if c == "apiKeyDisabled".to_owned() {
                NewsAPIError::BadRequest("Your API Key was disabled")
            } else {
                NewsAPIError::BadRequest("Unknown error")
            }
        },
        None => NewsAPIError::BadRequest("Unknown error"),
    }
}

} // verus!
