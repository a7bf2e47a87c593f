//! Decoding the metadata endpoint's JSON body into a `ComicInfo`.
//!
//! The JSON reading itself goes through an outside crate; its results are
//! named (`json_num_field`, `json_str_field`), since for a fixed body text
//! they are fixed values.  Everything decided about those values — which
//! fields are required, what shape they must have, exactly when decoding
//! succeeds — is verified, so the contract ties the decoded record to the
//! body through the names.

use vstd::prelude::*;
use vstd::string::StringExecFns;
use serde_json::Value;
use crate::comic::ComicInfo;
use crate::errors::FetchError;

verus! {

/// The member under `key` of the JSON object that `body` parses to, read as
/// a non-negative integer within `u64`; `None` when `body` is not a JSON
/// document, its top value is not an object, the member is missing, or the
/// member is not such a number.  The JSON grammar makes this a function of
/// the body text alone, the same in every process and on every machine.
pub uninterp spec fn json_num_field(body: Seq<char>, key: Seq<char>) -> Option<u64>;

/// The member under `key` of the JSON object that `body` parses to, read as
/// a string; `None` when `body` is not a JSON document, its top value is
/// not an object, the member is missing, or the member is not a string.  A
/// function of the body text alone, as `json_num_field` is.
pub uninterp spec fn json_str_field(body: Seq<char>, key: Seq<char>) -> Option<Seq<char>>;

/// The seven fields of a metadata document that the comic record is built
/// from, each `None` where the document does not provide it.
pub struct RawComicFields {
    /// The `num` member, as a non-negative integer.
    pub num: Option<u64>,
    /// The `year` member, as a string.
    pub year: Option<String>,
    /// The `month` member, as a string.
    pub month: Option<String>,
    /// The `day` member, as a string.
    pub day: Option<String>,
    /// The `safe_title` member, as a string.
    pub title: Option<String>,
    /// The `alt` member, as a string.
    pub alt: Option<String>,
    /// The `img` member, as a string.
    pub img: Option<String>,
}

/// Relies on `serde_json::from_str::<serde_json::Value>` together with
/// `Value::get`, `Value::as_u64` and `Value::as_str`: parsing is a pure
/// function of the body text that fails exactly on a non-JSON body (its
/// error value describing why), and the accessors read an object's members
/// as the names say.  On a body that is no JSON document, every named field
/// is `None`.
#[verifier::external_body]
fn extract_comic_fields(body: &str) -> (r: Result<RawComicFields, String>)
    ensures
        r matches Ok(f) ==> {
            &&& f.num == json_num_field(body@, "num"@)
            &&& f.year.deep_view() == json_str_field(body@, "year"@)
            &&& f.month.deep_view() == json_str_field(body@, "month"@)
            &&& f.day.deep_view() == json_str_field(body@, "day"@)
            &&& f.title.deep_view() == json_str_field(body@, "safe_title"@)
            &&& f.alt.deep_view() == json_str_field(body@, "alt"@)
            &&& f.img.deep_view() == json_str_field(body@, "img"@)
        },
        r is Err ==> {
            &&& json_num_field(body@, "num"@) is None
            &&& json_str_field(body@, "year"@) is None
            &&& json_str_field(body@, "month"@) is None
            &&& json_str_field(body@, "day"@) is None
            &&& json_str_field(body@, "safe_title"@) is None
            &&& json_str_field(body@, "alt"@) is None
            &&& json_str_field(body@, "img"@) is None
        },
{
    let doc = match serde_json::from_str::<Value>(body) {
        Ok(v) => v,
        Err(e) => return Err(e.to_string()),
    };
    let s = |k| doc.get(k).and_then(Value::as_str).map(str::to_string);
    Ok(RawComicFields {
        num: doc.get("num").and_then(Value::as_u64),
        year: s("year"),
        month: s("month"),
        day: s("day"),
        title: s("safe_title"),
        alt: s("alt"),
        img: s("img"),
    })
}

/// Whether extracted fields form a comic record: every required field is
/// present with its required shape, and the identifier is positive and fits
/// the identifier type.
pub open spec fn fields_form_comic(
    num: Option<u64>,
    year: Option<Seq<char>>,
    month: Option<Seq<char>>,
    day: Option<Seq<char>>,
    title: Option<Seq<char>>,
    alt: Option<Seq<char>>,
    img: Option<Seq<char>>,
) -> bool {
    &&& num matches Some(n) && 1 <= n <= u32::MAX
    &&& year is Some
    &&& month is Some
    &&& day is Some
    &&& title is Some
    &&& alt is Some
    &&& img is Some
}

/// Whether the fields of a metadata body decode to a comic record at all.
pub open spec fn decoded_comic_ok(body: Seq<char>) -> bool {
    fields_form_comic(
        json_num_field(body, "num"@),
        json_str_field(body, "year"@),
        json_str_field(body, "month"@),
        json_str_field(body, "day"@),
        json_str_field(body, "safe_title"@),
        json_str_field(body, "alt"@),
        json_str_field(body, "img"@),
    )
}

/// Whether `c` carries exactly the named fields of `body`: the identifier
/// is the `num` member and every string field is copied verbatim.
pub open spec fn comic_matches_body(c: ComicInfo, body: Seq<char>) -> bool {
    &&& c.id as u64 == json_num_field(body, "num"@)->0
    &&& c.published_year@ == json_str_field(body, "year"@)->0
    &&& c.published_month@ == json_str_field(body, "month"@)->0
    &&& c.published_day@ == json_str_field(body, "day"@)->0
    &&& c.title@ == json_str_field(body, "safe_title"@)->0
    &&& c.alt_text@ == json_str_field(body, "alt"@)->0
    &&& c.image_url@ == json_str_field(body, "img"@)->0
}

/// Builds the comic record from the fields extracted out of a metadata
/// document.  Succeeds exactly when the fields form a comic record; any
/// missing or misshapen field is a decode failure.
pub fn comic_from_fields(fields: RawComicFields) -> (r: Result<ComicInfo, FetchError>)
    ensures
        r is Ok <==> fields_form_comic(
            fields.num,
            fields.year.deep_view(),
            fields.month.deep_view(),
            fields.day.deep_view(),
            fields.title.deep_view(),
            fields.alt.deep_view(),
            fields.img.deep_view(),
        ),
        r matches Ok(c) ==> {
            &&& c.wf()
            &&& c.id as u64 == fields.num->0
            &&& c.published_year == fields.year->0
            &&& c.published_month == fields.month->0
            &&& c.published_day == fields.day->0
            &&& c.title == fields.title->0
            &&& c.alt_text == fields.alt->0
            &&& c.image_url == fields.img->0
        },
        r matches Err(e) ==> e matches FetchError::DecodeError(m) && m@
            == "missing or invalid metadata field"@,
{
    let RawComicFields { num, year, month, day, title, alt, img } = fields;
    if let (Some(n), Some(year), Some(month), Some(day), Some(title), Some(alt), Some(img)) = (
        num,
        year,
        month,
        day,
        title,
        alt,
        img,
    ) {
        if 1 <= n && n <= u32::MAX as u64 {
            return Ok(ComicInfo::new(n as u32, title, alt, year, month, day, img));
        }
    }
    Err(FetchError::DecodeError(String::from_str("missing or invalid metadata field")))
}

/// Decodes a metadata response body: succeeds exactly when the body's named
/// fields form a comic record, and the record then carries those fields
/// verbatim; extra members of the body are ignored, and any other body is a
/// decode failure carrying the reader's description.
pub fn parse_comic_info(body: &str) -> (r: Result<ComicInfo, FetchError>)
    ensures
        r is Ok <==> decoded_comic_ok(body@),
        r matches Ok(c) ==> c.wf() && comic_matches_body(c, body@),
        r matches Err(e) ==> e is DecodeError,
{
    match extract_comic_fields(body) {
        Err(m) => Err(FetchError::DecodeError(m)),
        Ok(fields) => comic_from_fields(fields),
    }
}

} // verus!
