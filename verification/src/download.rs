//! The downloader's verdict on an image response.  The transfer itself is
//! outside work; what counts as a failed download is decided here.

use vstd::prelude::*;
use vstd::string::StringExecFns;
use crate::errors::DownloadError;
use crate::numfmt::dec_rep;
use crate::numfmt::u32_to_dec;

verus! {

/// Whether an HTTP status code reports success: the `2xx` class.
pub open spec fn status_is_success(code: u16) -> bool {
    200 <= code < 300
}

/// The downloader's judgement of a response status: a non-success status is
/// a transport failure of the download, named by the status code; only a
/// success status lets the body count as the image.
pub fn classify_download_status(code: u16) -> (r: Result<(), DownloadError>)
    ensures
        r is Ok <==> status_is_success(code),
        r matches Err(e) ==> e matches DownloadError::TransportError(m) && m@
            == "non-success response status "@ + dec_rep(code as nat),
{
    if 200 <= code && code < 300 {
        Ok(())
    } else {
        let mut m = String::from_str("non-success response status ");
        let digits = u32_to_dec(code as u32);
        m.append(digits.as_str());
        Err(DownloadError::TransportError(m))
    }
}

} // verus!
