//! The metadata endpoints of the remote comic site.

use vstd::prelude::*;
use vstd::string::StringExecFns;
use crate::errors::FetchError;
use crate::numfmt::dec_rep;
use crate::numfmt::u32_to_dec;

verus! {

/// What the URL parser of the outside crate makes of `s`: `None` when `s`
/// is a well-formed absolute URL, otherwise the description of what is
/// wrong with it.  The parser is a function of the characters alone, the
/// same in every process and on every machine.
pub uninterp spec fn url_parse_error(s: Seq<char>) -> Option<Seq<char>>;

/// Relies on `url::Url::parse`: it accepts exactly the well-formed absolute
/// URLs, and its error value describes the defect (for instance, a relative
/// URL given without a base).
#[verifier::external_body]
fn try_parse_url(s: &str) -> (r: Option<String>)
    ensures
        r is None <==> url_parse_error(s@) is None,
        r matches Some(m) ==> m@ == url_parse_error(s@)->0,
{
    match url::Url::parse(s) {
        Ok(_) => None,
        Err(e) => Some(e.to_string()),
    }
}

/// Checks that a URL can be requested at all, before any network work is
/// attempted for it.  Fails with `InvalidUrl`, carrying the parser's
/// description, exactly when the URL is malformed; this keeps malformed
/// URLs distinguishable from transport failures.
pub fn validate_url(s: &str) -> (r: Result<(), FetchError>)
    ensures
        r is Ok <==> url_parse_error(s@) is None,
        r matches Err(e) ==> e matches FetchError::InvalidUrl(m) && Some(m@) == url_parse_error(
            s@,
        ),
{
    match try_parse_url(s) {
        None => Ok(()),
        Some(m) => Err(FetchError::InvalidUrl(m)),
    }
}

/// The endpoint that describes the latest published comic.
pub fn latest_info_url() -> (s: String)
    ensures
        s@ == "https://xkcd.com/info.0.json"@,
{
    String::from_str("https://xkcd.com/info.0.json")
}

/// The endpoint that describes the comic with identifier `id`.
pub fn comic_info_url(id: u32) -> (s: String)
    requires
        id >= 1,
    ensures
        s@ == "https://xkcd.com/"@ + dec_rep(id as nat) + "/info.0.json"@,
{
    let mut s = String::from_str("https://xkcd.com/");
    let digits = u32_to_dec(id);
    s.append(digits.as_str());
    s.append("/info.0.json");
    s
}

} // verus!
