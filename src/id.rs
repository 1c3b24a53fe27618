//! Identifiers and timestamps, which only the outside world can supply.
use svix_ksuid::KsuidLike;
use vstd::prelude::*;

verus! {

/// A new KSUID in its base-62 text form.
/// Relies on `svix_ksuid::Ksuid::new` and its `Display`, which pads the base-62 text of
/// the 20 id bytes to 27 characters; 27 base-62 digits hold any 20 bytes.
#[verifier::external_body]
pub fn generate_id() -> (r: String)
    ensures
        r@.len() == 27,
{
    svix_ksuid::Ksuid::new(None, None).to_string()
}

/// The current time in microseconds since the Unix epoch.
/// Relies on `chrono::Utc::now` and `DateTime::timestamp_micros`; nothing is promised of
/// the value.
#[verifier::external_body]
pub(crate) fn now_micros() -> (r: i64)
{
    chrono::Utc::now().timestamp_micros()
}

} // verus!
