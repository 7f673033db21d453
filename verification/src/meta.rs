//! Extraction of the capture date from a file's bytes: the embedded
//! metadata container is parsed by an outside library, the date text it
//! yields is normalized and parsed here.

use vstd::prelude::*;
use crate::date::CaptureDate;
use crate::date::date_from_text;
use crate::date::date_of_text;

verus! {

/// What the metadata parser makes of a file's bytes: the display text of
/// the original capture date/time field in the primary image's segment,
/// or `None` when the container does not parse or the field is absent.
pub uninterp spec fn exif_datetime_of(bytes: Seq<u8>) -> Option<Seq<char>>;

/// Relies on `exif::Reader::read_from_container` to parse the metadata
/// container, on `Exif::get_field` with `Tag::DateTimeOriginal` and
/// `In::PRIMARY` to find the capture-date field, and on
/// `Field::display_value` to render it; each is a function of the bytes
/// alone.  Every failure collapses to `None`.
#[verifier::external_body]
pub(crate) fn read_exif_datetime(bytes: &[u8]) -> (r: Option<String>)
    ensures
        match r {
            Some(s) => exif_datetime_of(bytes@) == Some(s@),
            None => exif_datetime_of(bytes@) is None,
        },
{
    let mut cur = std::io::Cursor::new(bytes);
    match exif::Reader::new().read_from_container(&mut cur) {
        Err(_) => None,
        Ok(meta) => match meta.get_field(exif::Tag::DateTimeOriginal, exif::In::PRIMARY) {
            None => None,
            Some(field) => Some(field.display_value().to_string()),
        },
    }
}

/// The capture date that a file's bytes yield: the date portion of the
/// metadata field's display text, parsed as `%Y-%m-%d`; `None` when the
/// metadata or the date text fails.
pub open spec fn extracted_date(bytes: Seq<u8>) -> Option<(int, int, int)> {
    match exif_datetime_of(bytes) {
        None => None,
        Some(t) => date_of_text(t),
    }
}

/// Reads the capture date out of a file's bytes.  All failures — no
/// parseable metadata container, no capture-date field, an unparseable
/// date text — collapse to `None`.
pub fn extract_capture_date(bytes: &[u8]) -> (r: Option<CaptureDate>)
    ensures
        match r {
            Some(d) => extracted_date(bytes@) == Some((d.year as int, d.month as int, d.day as int))
                && d.wf(),
            None => extracted_date(bytes@) is None,
        },
{
    match read_exif_datetime(bytes) {
        None => None,
        Some(t) => date_from_text(t.as_str()),
    }
}

} // verus!
