//! The clock, fresh identifiers, and a small string helper.

use vstd::prelude::*;
use vstd::string::StrSliceExecFns;

verus! {

#[verifier::external_type_specification]
#[verifier::external_body]
pub struct ExSystemTime(std::time::SystemTime);

/// Relies on `std::time::SystemTime::now`: the system clock's reading.
#[verifier::external_body]
fn system_time_now() -> std::time::SystemTime {
    std::time::SystemTime::now()
}

/// Relies on `SystemTime::duration_since`: the span from the Unix
/// epoch to `t`, here converted to milliseconds, or zero for a reading
/// before the epoch.
#[verifier::external_body]
fn millis_since_epoch(t: &std::time::SystemTime) -> u64 {
    match t.duration_since(std::time::UNIX_EPOCH) {
        Ok(d) => d.as_millis() as u64,
        Err(_) => 0,
    }
}

/// The current time in milliseconds since the Unix epoch. Nothing can
/// be promised of a clock reading; every function whose behaviour
/// depends on the time takes it as an argument.
pub fn now() -> u64 {
    let t = system_time_now();
    millis_since_epoch(&t)
}

/// Relies on `uuid::Uuid::new_v4` and its `Display`: a freshly drawn
/// random identifier in hyphenated form. Randomness admits no
/// contract; the store functions that receive such an id handle a
/// colliding one explicitly.
#[verifier::external_body]
pub(crate) fn fresh_uuid() -> String {
    uuid::Uuid::new_v4().to_string()
}

/// The first `count` characters of `s`.
pub fn take(s: &str, count: usize) -> (r: String)
    requires
        count <= s@.len(),
    ensures
        r@ == s@.subrange(0, count as int),
{
    s.substring_char(0, count).to_owned()
}

} // verus!
