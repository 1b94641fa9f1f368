use vstd::prelude::*;

verus! {

/// The text `YYYY-MM-DD HH:MM:SS` of the UTC time `secs` seconds after the epoch,
/// or of the epoch itself where that time cannot be represented.
pub uninterp spec fn utc_timestamp_text(secs: int) -> Seq<char>;

/// Relies on chrono's `DateTime::from_timestamp`, `unwrap_or_default` and
/// `format("%Y-%m-%d %H:%M:%S")`: the text depends on the number of seconds alone.
#[verifier::external_body]
fn utc_text(secs: i64) -> (r: String)
    ensures
        r@ == utc_timestamp_text(secs as int),
{
    chrono::DateTime::from_timestamp(secs, 0).unwrap_or_default().format("%Y-%m-%d %H:%M:%S").to_string()
}

/// Formats seconds since the epoch as `YYYY-MM-DD HH:MM:SS` in UTC.
pub fn format_timestamp(timestamp: i64) -> (r: String)
    ensures
        r@ == utc_timestamp_text(timestamp as int),
{
    utc_text(timestamp)
}

} // verus!
