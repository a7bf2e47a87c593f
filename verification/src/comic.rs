//! The metadata record for one comic strip.

use vstd::prelude::*;
use vstd::string::StringExecFns;

verus! {

/// Metadata for one comic strip, as the remote site describes it.
///
/// The date parts are kept verbatim as the site returns them (they are not
/// guaranteed to be numerically padded), so they are plain strings.
#[derive(Debug)]
pub struct ComicInfo {
    /// Identifier of the strip; strictly positive.
    pub id: u32,
    /// Display title.
    pub title: String,
    /// Flavor text shown alongside the image.
    pub alt_text: String,
    /// Publication year, verbatim.
    pub published_year: String,
    /// Publication month, verbatim.
    pub published_month: String,
    /// Publication day, verbatim.
    pub published_day: String,
    /// Absolute URL of the binary image resource.
    pub image_url: String,
}

impl ComicInfo {
    /// A comic identifier is strictly positive; `0` never names a comic.
    pub open spec fn wf(self) -> bool {
        self.id >= 1
    }

    /// Builds a record from its parts; the identifier must be positive.
    pub fn new(
        id: u32,
        title: String,
        alt_text: String,
        published_year: String,
        published_month: String,
        published_day: String,
        image_url: String,
    ) -> (c: ComicInfo)
        requires
            id >= 1,
        ensures
            c.wf(),
            c.id == id,
            c.title == title,
            c.alt_text == alt_text,
            c.published_year == published_year,
            c.published_month == published_month,
            c.published_day == published_day,
            c.image_url == image_url,
    {
        ComicInfo { id, title, alt_text, published_year, published_month, published_day, image_url }
    }

    /// The publication date formatted as `year-month-day`, each part verbatim.
    pub fn date_string(&self) -> (s: String)
        ensures
            s@ == self.published_year@ + "-"@ + self.published_month@ + "-"@
                + self.published_day@,
    {
        let mut s = self.published_year.clone();
        s.append("-");
        s.append(self.published_month.as_str());
        s.append("-");
        s.append(self.published_day.as_str());
        s
    }
}

} // verus!
