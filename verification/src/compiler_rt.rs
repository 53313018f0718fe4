//! Unsigned 64-bit division and remainder for the mask-ROM systick code,
//! under bridge names that the ROM's own arithmetic veneers do not reach.
use vstd::prelude::*;

verus! {

/// Unsigned 64-bit division callback of the ROM systick implementation.
pub fn __ws63_udivdi3(dividend: u64, divisor: u64) -> (q: u64)
    requires
        divisor != 0,
    ensures
        q == dividend / divisor,
{
    dividend / divisor
}

/// Unsigned 64-bit remainder callback paired with [`__ws63_udivdi3`].
pub fn __ws63_umoddi3(dividend: u64, divisor: u64) -> (r: u64)
    requires
        divisor != 0,
    ensures
        r == dividend % divisor,
        r < divisor,
{
    dividend % divisor
}

/// The two callbacks split a dividend exactly: quotient times divisor plus
/// remainder gives it back.
pub proof fn lemma_division_round_trip(dividend: u64, divisor: u64)
    requires
        divisor != 0,
    ensures
        divisor * (dividend / divisor) + dividend % divisor == dividend,
{
    vstd::arithmetic::div_mod::lemma_fundamental_div_mod(dividend as int, divisor as int);
}

} // verus!
