//! Small conversions of database values.
use vstd::prelude::*;
use crate::db::schema::UtcTimestamp;

verus! {

/// What parsing `datetime` with the format `format` gives, in UTC: whole
/// seconds since the epoch and nanoseconds, or `None` when it does not
/// parse.
pub uninterp spec fn parsed_utc(datetime: Seq<char>, format: Seq<char>) -> Option<(i64, u32)>;

/// Parses a date and time with an offset and converts it to UTC.
///
/// Trusted: `chrono::DateTime::parse_from_str` followed by `to_utc`, read as
/// its Unix timestamp and its subsecond nanoseconds. The result is named by
/// `parsed_utc`.
#[verifier::external_body]
fn parse_utc(datetime: &str, format: &str) -> (r: Option<UtcTimestamp>)
    ensures
        match r {
            Some(t) => parsed_utc(datetime@, format@) == Some((t.secs, t.nanos)),
            None => parsed_utc(datetime@, format@) is None,
        },
{
    let utc = chrono::DateTime::parse_from_str(datetime, format).ok()?.to_utc();
    Some(UtcTimestamp { secs: utc.timestamp(), nanos: utc.timestamp_subsec_nanos() })
}

/// The point in time written in `datetime` with the format `format`, in UTC;
/// `None` when there is no text or it does not parse.
pub fn utc_parse_format(datetime: Option<String>, format: &str) -> (r: Option<UtcTimestamp>)
    ensures
        match datetime {
            None => r is None,
            Some(d) => match parsed_utc(d@, format@) {
                Some((secs, nanos)) => r == Some(UtcTimestamp { secs, nanos }),
                None => r is None,
            },
        },
{
    match datetime {
        None => None,
        Some(d) => parse_utc(d.as_str(), format),
    }
}

/// The bytes of the entry `name` of the zip archive `data`, or `None` when
/// `data` is not a readable archive or has no such entry.
pub uninterp spec fn zip_entry(data: Seq<u8>, name: Seq<char>) -> Option<Seq<u8>>;

/// Reads one entry of a zip archive held in memory.
///
/// Trusted: `zip::ZipArchive::new` over the bytes, `ZipArchive::by_name` and
/// reading the entry to its end; any error gives `None`. The result is named
/// by `zip_entry`.
#[verifier::external_body]
pub(crate) fn read_zip_entry(data: &[u8], name: &str) -> (r: Option<Vec<u8>>)
    ensures
        match r {
            Some(v) => zip_entry(data@, name@) == Some(v@),
            None => zip_entry(data@, name@) is None,
        },
{
    let mut zip = zip::ZipArchive::new(std::io::Cursor::new(data)).ok()?;
    let mut file = zip.by_name(name).ok()?;
    let mut out: Vec<u8> = Vec::new();
    std::io::Read::read_to_end(&mut file, &mut out).ok()?;
    Some(out)
}

} // verus!
