use vstd::prelude::*;
use crate::util::text::uuid_hyphenated;

verus! {

/// Calls `uuid::Uuid::new_v4` and returns the UUID as a 128-bit integer.
/// The value is random; the contract states only the version nibble, which
/// the crate's source sets to 4 on every call.
#[verifier::external_body]
pub(crate) fn new_uuid() -> (id: u128)
    ensures
        (id >> 76u128) & 0xfu128 == 4,
{
    uuid::Uuid::new_v4().as_u128()
}

/// Calls `Display` of `uuid::Uuid` (through `to_string`) on the UUID with
/// the given 128-bit value: its hyphenated lower-case form, as the crate
/// documents and its `fmt` source writes it.
#[verifier::external_body]
pub(crate) fn uuid_text(id: u128) -> (s: String)
    ensures
        s@ == uuid_hyphenated(id),
{
    uuid::Uuid::from_u128(id).to_string()
}

} // verus!
