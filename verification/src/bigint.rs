//! Contracts for the operations of `num_bigint::BigUint` that the counter
//! calls. Nothing in this module is proved: each function body is a single
//! call into `num_bigint` or `num_traits`, and its contract records what that
//! call is documented to compute.

use num_bigint::BigUint;
use num_bigint::ToBigUint;
use num_traits::CheckedMul;
use num_traits::One;
use num_traits::Zero;
use vstd::arithmetic::power::pow;
use vstd::prelude::*;

verus! {

/// `num_bigint::BigUint`, carried as an opaque value.
#[verifier::external_type_specification]
#[verifier::external_body]
pub struct ExBigUint(num_bigint::BigUint);

/// The base-2^32 digits of a `BigUint`, least significant first, as
/// `BigUint::to_u32_digits` lists them.
pub uninterp spec fn biguint_digits(n: BigUint) -> Seq<u32>;

/// The number that a little-endian sequence of base-2^32 digits denotes.
pub open spec fn digits_value(digits: Seq<u32>) -> nat
    decreases digits.len(),
{
    if digits.len() == 0 {
        0
    } else {
        digits[0] as nat + 4294967296 * digits_value(digits.skip(1))
    }
}

/// The number that a `BigUint` holds.
pub open spec fn big_value(n: BigUint) -> nat {
    digits_value(biguint_digits(n))
}

/// `BigUint::to_u32_digits`: the digits of `n`, least significant first.
#[verifier::external_body]
pub(crate) fn to_u32_digits(n: &BigUint) -> (digits: Vec<u32>)
    ensures
        digits@ == biguint_digits(*n),
{
    n.to_u32_digits()
}

/// `<BigUint as num_traits::One>::one`: the number one.
#[verifier::external_body]
pub(crate) fn one() -> (n: BigUint)
    ensures
        big_value(n) == 1,
{
    One::one()
}

/// `<u32 as num_bigint::ToBigUint>::to_biguint`: the same number as a
/// `BigUint`. For an unsigned argument the conversion always succeeds.
#[verifier::external_body]
pub(crate) fn from_u32(k: u32) -> (n: Option<BigUint>)
    ensures
        n is Some,
        big_value(n->0) == k,
{
    k.to_biguint()
}

/// `<BigUint as num_traits::CheckedMul>::checked_mul`: the product of the two
/// numbers. `BigUint` has no upper bound, so the product is always returned.
#[verifier::external_body]
pub(crate) fn checked_mul(a: &BigUint, b: &BigUint) -> (product: Option<BigUint>)
    ensures
        product is Some,
        big_value(product->0) == big_value(*a) * big_value(*b),
{
    a.checked_mul(b)
}

/// `<&BigUint as Add<u32>>::add`: the sum of the two numbers.
#[verifier::external_body]
pub(crate) fn add_u32(n: &BigUint, k: u32) -> (sum: BigUint)
    ensures
        big_value(sum) == big_value(*n) + k,
{
    n + k
}

/// `BigUint::modpow`: `base` raised to `exponent`, reduced modulo `modulus`.
/// The call panics on a zero modulus, which the precondition excludes.
#[verifier::external_body]
pub(crate) fn modpow(base: &BigUint, exponent: &BigUint, modulus: &BigUint) -> (r: BigUint)
    requires
        big_value(*modulus) != 0,
    ensures
        big_value(r) == pow(big_value(*base) as int, big_value(*exponent)) % (big_value(
            *modulus,
        ) as int),
{
    base.modpow(exponent, modulus)
}

/// `<BigUint as num_traits::Zero>::is_zero`: whether the number is zero.
#[verifier::external_body]
pub(crate) fn is_zero(n: &BigUint) -> (zero: bool)
    ensures
        zero == (big_value(*n) == 0),
{
    n.is_zero()
}

} // verus!
