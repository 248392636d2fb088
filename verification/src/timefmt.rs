use vstd::prelude::*;

verus! {

/// The text that chrono renders for a Unix timestamp under the
/// `%Y-%m-%d %H:%M` format in UTC. The rendering depends on the timestamp
/// alone.
pub uninterp spec fn utc_minute_text(ts: i64) -> Seq<char>;

/// The RFC 3339 rendering of a Unix timestamp in UTC. The rendering depends
/// on the timestamp alone.
pub uninterp spec fn rfc3339_text(ts: i64) -> Seq<char>;

/// Relies on chrono's `DateTime::from_timestamp` and `DateTime::format`:
/// renders an instant as `%Y-%m-%d %H:%M` in UTC, a pure function of the
/// timestamp (empty for the few timestamps outside chrono's range).
#[verifier::external_body]
pub fn format_utc_minute(ts: i64) -> (r: String)
    ensures
        r@ == utc_minute_text(ts),
{
    match chrono::DateTime::from_timestamp(ts, 0) {
        Some(dt) => dt.format("%Y-%m-%d %H:%M").to_string(),
        None => String::new(),
    }
}

/// Relies on chrono's `DateTime::from_timestamp` and `DateTime::to_rfc3339`:
/// renders an instant as RFC 3339 in UTC, a pure function of the timestamp
/// (empty for the few timestamps outside chrono's range).
#[verifier::external_body]
pub fn format_rfc3339(ts: i64) -> (r: String)
    ensures
        r@ == rfc3339_text(ts),
{
    match chrono::DateTime::from_timestamp(ts, 0) {
        Some(dt) => dt.to_rfc3339(),
        None => String::new(),
    }
}

} // verus!
