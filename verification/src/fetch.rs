//! The metadata fetcher's decisions.  One fetch is: check the URL, let the
//! surrounding application perform the GET, then interpret what came back.
//! The two decisions — which URLs are requestable at all, and what a
//! finished GET means — are verified; the GET itself is not made here.

use vstd::prelude::*;
use crate::comic::ComicInfo;
use crate::decode::comic_matches_body;
use crate::decode::decoded_comic_ok;
use crate::decode::parse_comic_info;
use crate::errors::FetchError;

verus! {

/// How one HTTP GET ended, as the unverified surroundings report it.
pub enum FetchOutcome {
    /// The endpoint answered; this is the response body, verbatim.
    Body(String),
    /// The request failed in transit (DNS, connection refused, TLS, ...);
    /// this is the description of the failure.
    TransportFailure(String),
}

/// The fetcher's judgement of a finished metadata GET: a transport failure
/// is surfaced as such, and a body that arrived decodes into a comic record
/// exactly when its named fields form one — anything else is a decode
/// failure.
pub fn interpret_metadata_response(outcome: FetchOutcome) -> (r: Result<ComicInfo, FetchError>)
    ensures
        outcome matches FetchOutcome::TransportFailure(m) ==> (r matches Err(e)
            && e matches FetchError::TransportError(mm) && mm == m),
        outcome matches FetchOutcome::Body(b) ==> match r {
            Ok(c) => c.wf() && decoded_comic_ok(b@) && comic_matches_body(c, b@),
            Err(e) => e is DecodeError && !decoded_comic_ok(b@),
        },
{
    match outcome {
        FetchOutcome::TransportFailure(m) => Err(FetchError::TransportError(m)),
        FetchOutcome::Body(b) => parse_comic_info(b.as_str()),
    }
}

} // verus!
