use vstd::prelude::*;

verus! {

/// Relies on std::time::SystemTime::now and duration_since: whole seconds since
/// the Unix epoch, zero for a clock set before it.
#[verifier::external_body]
fn seconds_since_epoch() -> (r: u64) {
    std::time::SystemTime::now().duration_since(std::time::SystemTime::UNIX_EPOCH).map(|d| d.as_secs()).unwrap_or(0)
}

/// The current Unix time in seconds, saturated at the largest `i64`.
pub fn unix_time_current() -> (r: i64)
    ensures
        r >= 0,
{
    let s = seconds_since_epoch();
    if s > i64::MAX as u64 {
        i64::MAX
    } else {
        s as i64
    }
}

} // verus!
