//! The random numbers that test traffic is made of, drawn from `rand`'s
//! thread-local generator. Nothing is promised of them beyond their range.
use vstd::prelude::*;

verus! {

/// `rand::random_range` over `lo..hi`: a value with `lo <= v < hi`; the
/// crate panics on an empty range.
#[verifier::external_body]
pub(crate) fn random_range_u8(lo: u8, hi: u8) -> (v: u8)
    requires
        lo < hi,
    ensures
        lo <= v < hi,
{
    rand::random_range(lo..hi)
}

/// `rand::random::<bool>`: a fair coin.
#[verifier::external_body]
pub(crate) fn random_flag() -> bool {
    rand::random::<bool>()
}

/// `rand::random::<u8>`: any byte.
#[verifier::external_body]
pub(crate) fn random_u8() -> u8 {
    rand::random::<u8>()
}

/// `rand::random::<u32>`: any `u32`.
#[verifier::external_body]
pub(crate) fn random_u32() -> u32 {
    rand::random::<u32>()
}

} // verus!
