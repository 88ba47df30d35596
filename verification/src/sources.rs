//! Values that come from the machine rather than from the arguments: fresh
//! random UUIDs and the current time.

use vstd::prelude::*;

verus! {

/// The version nibble of a UUID held as a 128-bit value.
pub open spec fn uuid_version(id: u128) -> u128 {
    (id >> 76u128) & 0xfu128
}

/// The two variant bits of a UUID held as a 128-bit value.
pub open spec fn uuid_variant_bits(id: u128) -> u128 {
    (id >> 62u128) & 0x3u128
}

/// Calls `uuid::Uuid::new_v4` and gives the UUID as its 128-bit value
/// (`Uuid::as_u128`). The value is random; the contract states only what
/// `new_v4` fixes: version 4 and the RFC 4122 variant bits `10`. `new_v4`
/// panics only when the operating system gives no random bytes.
#[verifier::external_body]
pub fn new_uuid_v4() -> (id: u128)
    ensures
        uuid_version(id) == 4,
        uuid_variant_bits(id) == 2,
{
    uuid::Uuid::new_v4().as_u128()
}

/// Calls `chrono::Utc::now` and gives the time as microseconds since the
/// Unix epoch (`DateTime::timestamp_micros`). The value depends on the
/// clock, so nothing is stated of it; `Utc::now` panics when the system
/// clock reads a time before the epoch.
#[verifier::external_body]
pub fn utc_now_micros() -> (t: i64) {
    chrono::Utc::now().timestamp_micros()
}

} // verus!
