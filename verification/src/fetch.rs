//! Normalizes what the wire handed back into a fetch outcome, and maps
//! outcomes into the stable error taxonomy the asset pipeline consumes.
//! No partial responses exist here: a fetch ends in either a complete byte
//! buffer or exactly one error variant.

use vstd::prelude::*;

verus! {

/// What one network call produced, before classification. The dispatcher
/// that performs the call is the embedding application's concern; it hands
/// the raw result back here.
pub enum HttpResponse {
    /// The server answered: the literal status code and the complete body.
    Status(u16, Vec<u8>),
    /// No HTTP response exists — a connection, DNS or protocol-level
    /// failure — with a human-readable reason.
    Transport(String),
}

/// The normalized outcome of one fetch.
pub enum FetchOutcome {
    /// A 2xx answer with the full response body materialized in memory.
    Success(Vec<u8>),
    /// HTTP 404 for this URI: a first-class, expected outcome, e.g. when
    /// probing for optional metadata.
    NotFound(String),
    /// The origin policy rejected the target before any call was made.
    AccessDenied,
    /// Any other non-2xx status, with the literal numeric code preserved
    /// for diagnostics.
    HttpStatus(u16),
    /// A transport-level failure, wrapping a message that names the
    /// original target for debuggability.
    TransportError(String),
}

/// The error taxonomy surfaced to the asset pipeline.
#[derive(Debug)]
pub enum AssetReaderError {
    /// The resource does not exist remotely, or a directory listing was
    /// requested of a remote source.
    NotFound(String),
    /// The origin policy rejected the target.
    AccessDenied,
    /// A non-success HTTP status other than 404.
    HttpError(u16),
    /// A transport failure or a local I/O failure.
    Io(String),
}

/// The message a transport failure carries: it names the asset that was
/// being loaded.
pub open spec fn spec_transport_message(uri: Seq<char>, detail: Seq<char>) -> Seq<char> {
    "unexpected error while loading asset "@ + uri + ": "@ + detail
}

fn transport_message(uri: &str, detail: &str) -> (r: String)
    ensures
        r@ == spec_transport_message(uri@, detail@),
{
    let mut s = String::from_str("unexpected error while loading asset ");
    s.append(uri);
    s.append(": ");
    s.append(detail);
    s
}

/// How a status-line answer is classified: a 2xx status is the success
/// carrying the whole body; 404 is the expected "absent" outcome, carrying
/// the URI; every other status keeps its literal code.
pub open spec fn spec_status_outcome(uri: Seq<char>, code: u16, body: Seq<u8>, r: FetchOutcome) -> bool {
    if 200 <= code < 300 {
        r matches FetchOutcome::Success(b) && b@ == body
    } else if code == 404 {
        r matches FetchOutcome::NotFound(u) && u@ == uri
    } else {
        r == FetchOutcome::HttpStatus(code)
    }
}

/// Classifies one raw response for the URI it answered.
pub fn classify_response(uri: &str, response: HttpResponse) -> (r: FetchOutcome)
    ensures
        response matches HttpResponse::Status(code, body) ==> spec_status_outcome(
            uri@,
            code,
            body@,
            r,
        ),
        response matches HttpResponse::Transport(detail) ==> r
            matches FetchOutcome::TransportError(m) && m@ == spec_transport_message(uri@, detail@),
{
    match response {
        HttpResponse::Status(code, body) => {
            if 200 <= code && code < 300 {
                FetchOutcome::Success(body)
            } else if code == 404 {
                FetchOutcome::NotFound(String::from_str(uri))
            } else {
                FetchOutcome::HttpStatus(code)
            }
        },
        HttpResponse::Transport(detail) => {
            FetchOutcome::TransportError(transport_message(uri, detail.as_str()))
        },
    }
}

/// Converts a fetch outcome into the taxonomy the pipeline consumes:
/// success keeps the whole buffer, every failure becomes exactly one error
/// variant.
pub fn outcome_to_error(outcome: FetchOutcome) -> (r: Result<Vec<u8>, AssetReaderError>)
    ensures
        outcome matches FetchOutcome::Success(body) ==> r matches Ok(b) && b == body,
        outcome matches FetchOutcome::NotFound(u) ==> r matches Err(e) && e
            matches AssetReaderError::NotFound(u2) && u2 == u,
        outcome matches FetchOutcome::AccessDenied ==> r == Result::<Vec<u8>, AssetReaderError>::Err(
            AssetReaderError::AccessDenied,
        ),
        outcome matches FetchOutcome::HttpStatus(code) ==> r == Result::<
            Vec<u8>,
            AssetReaderError,
        >::Err(AssetReaderError::HttpError(code)),
        outcome matches FetchOutcome::TransportError(m) ==> r matches Err(e) && e
            matches AssetReaderError::Io(m2) && m2 == m,
{
    match outcome {
        FetchOutcome::Success(body) => Ok(body),
        FetchOutcome::NotFound(u) => Err(AssetReaderError::NotFound(u)),
        FetchOutcome::AccessDenied => Err(AssetReaderError::AccessDenied),
        FetchOutcome::HttpStatus(code) => Err(AssetReaderError::HttpError(code)),
        FetchOutcome::TransportError(m) => Err(AssetReaderError::Io(m)),
    }
}

} // verus!
