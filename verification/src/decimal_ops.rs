//! Trusted boundary to the `decimal` crate's 128-bit decimal type `d128`.
//!
//! Every arithmetic operation of the underlying decimal library is a pure
//! function of its operands: the crate runs each operation in a thread-local
//! context that is always the library's fixed default (IEEE 754-2008 decQuad,
//! round-half-even), and exposes no way to change the rounding. The result of
//! each operation is therefore given an uninterpreted name here, and the rest
//! of the library is verified against those names.

use vstd::prelude::*;
use decimal::d128;

verus! {

#[verifier::external_type_specification]
#[verifier::external_body]
pub struct ExD128(d128);

/// The decimal value that a numeric literal string parses to.
pub uninterp spec fn dec_from_str(s: Seq<char>) -> d128;

/// The sum of two decimals, rounded to 34 digits.
pub uninterp spec fn dec_add(a: d128, b: d128) -> d128;

/// The difference of two decimals, rounded to 34 digits.
pub uninterp spec fn dec_sub(a: d128, b: d128) -> d128;

/// The product of two decimals, rounded to 34 digits.
pub uninterp spec fn dec_mul(a: d128, b: d128) -> d128;

/// The quotient of two decimals, rounded to 34 digits.
pub uninterp spec fn dec_div(a: d128, b: d128) -> d128;

/// The remainder of two decimals.
pub uninterp spec fn dec_rem(a: d128, b: d128) -> d128;

/// The first decimal raised to the power of the second.
pub uninterp spec fn dec_pow(a: d128, b: d128) -> d128;

/// Relies on `<d128 as FromStr>::from_str`: the result depends on the
/// characters alone. The crate's parser never fails — its source always
/// returns `Ok`, turning invalid text into a quiet NaN — so the `Err` arm
/// below is dead.
#[verifier::external_body]
pub(crate) fn parse_dec(s: &str) -> (r: d128)
    ensures
        r == dec_from_str(s@),
{
    match <d128 as std::str::FromStr>::from_str(s) {
        Ok(v) => v,
        Err(()) => d128::zero(),
    }
}

/// Relies on `<d128 as Add>::add` (decQuadAdd): the sum depends on the two
/// operands alone.
#[verifier::external_body]
pub(crate) fn dec_add_exec(a: d128, b: d128) -> (r: d128)
    ensures
        r == dec_add(a, b),
{
    a + b
}

/// Relies on `<d128 as Sub>::sub` (decQuadSubtract): the difference depends
/// on the two operands alone.
#[verifier::external_body]
pub(crate) fn dec_sub_exec(a: d128, b: d128) -> (r: d128)
    ensures
        r == dec_sub(a, b),
{
    a - b
}

/// Relies on `<d128 as Mul>::mul` (decQuadMultiply): the product depends on
/// the two operands alone.
#[verifier::external_body]
pub(crate) fn dec_mul_exec(a: d128, b: d128) -> (r: d128)
    ensures
        r == dec_mul(a, b),
{
    a * b
}

/// Relies on `<d128 as Div>::div` (decQuadDivide): the quotient depends on
/// the two operands alone.
#[verifier::external_body]
pub(crate) fn dec_div_exec(a: d128, b: d128) -> (r: d128)
    ensures
        r == dec_div(a, b),
{
    a / b
}

/// Relies on `<d128 as Rem>::rem` (decQuadRemainder): the remainder depends
/// on the two operands alone.
#[verifier::external_body]
pub(crate) fn dec_rem_exec(a: d128, b: d128) -> (r: d128)
    ensures
        r == dec_rem(a, b),
{
    a % b
}

/// Relies on `d128::pow` (decNumberPower): the power depends on the two
/// operands alone.
#[verifier::external_body]
pub(crate) fn dec_pow_exec(a: d128, b: d128) -> (r: d128)
    ensures
        r == dec_pow(a, b),
{
    a.pow(b)
}

} // verus!
