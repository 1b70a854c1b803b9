use vstd::prelude::*;
use crate::model::Timestamp;

verus! {

/// Relies on chrono's `From<SystemTime> for DateTime<Utc>`, applied to
/// `SystemTime::now()` and read through `DateTime::timestamp` and
/// `DateTime::timestamp_subsec_nanos`: the current UTC time. A clock reading
/// before 1970 becomes a negative second count; in either direction the
/// sub-second part stays below one second.
#[verifier::external_body]
pub(crate) fn current_time() -> (r: Timestamp)
    ensures
        r.wf(),
{
    let now = chrono::DateTime::<chrono::Utc>::from(std::time::SystemTime::now());
    Timestamp { secs: now.timestamp(), nanos: now.timestamp_subsec_nanos() }
}

} // verus!
