use vstd::prelude::*;
use rand::Rng;

verus! {

/// Calls `rand::Rng::gen_range` on the thread-local generator
/// (`rand::thread_rng`) with the half-open range `lo..hi`. The crate
/// documents the result as a value of that range and panics on an empty
/// range, which `requires` rules out; which value comes out is chance.
#[verifier::external_body]
pub(crate) fn random_range(lo: i128, hi: i128) -> (r: i128)
    requires
        lo < hi,
    ensures
        lo <= r < hi,
{
    rand::thread_rng().gen_range(lo..hi)
}

/// A random value of `lo..hi`.
pub fn random_in(lo: i64, hi: i64) -> (r: i64)
    requires
        lo < hi,
    ensures
        lo <= r < hi,
{
    random_range(lo as i128, hi as i128) as i64
}

/// Calls `rand::Rng::gen_ratio` on the thread-local generator: true with a
/// chance of `numerator` in `denominator`. The crate documents that a
/// numerator of zero always gives false and a numerator equal to the
/// denominator always gives true, and that it panics on a zero denominator
/// or a numerator above the denominator, which `requires` rules out.
#[verifier::external_body]
pub(crate) fn random_chance(numerator: u32, denominator: u32) -> (r: bool)
    requires
        0 < denominator,
        numerator <= denominator,
    ensures
        numerator == 0 ==> !r,
        numerator == denominator ==> r,
{
    rand::thread_rng().gen_ratio(numerator, denominator)
}

} // verus!
