//! Fixed-point rate conversion.
//!
//! A pool's rate is expressed in quote-asset atoms per `10^9` base-asset
//! atoms.  The output amount is `floor(amount_in * rate / 10^9)`, computed in
//! a wide intermediate so the product never wraps; a quotient beyond the
//! 64-bit range is rejected.  Truncation toward zero deliberately favors the
//! pool: a remainder is dropped, never credited to the requester.

use vstd::prelude::*;

use crate::error::IntrospectardioError;

verus! {

/// Base-asset atoms per whole base unit: the divisor of the rate scale.
pub const RATE_DIVISOR: u64 = 1_000_000_000;

/// Mathematical output amount: `floor(amount_in * rate / 10^9)`.
pub open spec fn converted(amount_in: u64, rate: u128) -> int {
    (amount_in * rate) / (RATE_DIVISOR as int)
}

/// Converts a validated input amount at the pool's fixed rate.
///
/// Succeeds exactly when the mathematical quotient fits in 64 bits; any
/// larger order is rejected before a transfer could be planned.
pub fn convert(amount_in: u64, rate: u128) -> (r: Result<u64, IntrospectardioError>)
    ensures
        converted(amount_in, rate) <= u64::MAX ==> r == Ok::<u64, IntrospectardioError>(
            converted(amount_in, rate) as u64,
        ),
        converted(amount_in, rate) > u64::MAX ==> r == Err::<u64, IntrospectardioError>(
            IntrospectardioError::LargeOrder,
        ),
{
    match (amount_in as u128).checked_mul(rate) {
        None => {
            proof {
                let p = amount_in * rate;
                let d = RATE_DIVISOR as int;
                let m = (u64::MAX as int + 1) * d;
                assert(m == 18446744073709551616000000000int);
                assert(m < u128::MAX);
                vstd::arithmetic::div_mod::lemma_div_by_multiple(u64::MAX as int + 1, d);
                vstd::arithmetic::div_mod::lemma_div_is_ordered(m, p, d);
            }
            Err(IntrospectardioError::LargeOrder)
        },
        Some(product) => {
            let quotient: u128 = product / 1_000_000_000u128;
            if quotient > u64::MAX as u128 {
                Err(IntrospectardioError::LargeOrder)
            } else {
                Ok(quotient as u64)
            }
        },
    }
}

} // verus!
