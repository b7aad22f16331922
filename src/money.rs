//! Cent arithmetic: tax at a per-mille rate and rounding to whole cents.
use vstd::prelude::*;

verus! {

/// Tax rate of every order, in thousandths: 102 is 10.2%.
pub const TAX_RATE_PER_MILLE: u32 = 102;

/// `x / d` rounded to the nearest integer, halves away from zero.
pub open spec fn round_half_away(x: int, d: int) -> int
    recommends
        d > 0,
{
    if x >= 0 {
        (x + d / 2) / d
    } else {
        -((-x + d / 2) / d)
    }
}

/// Tax on `subtotal` cents at `rate` per mille, rounded to whole cents.
pub open spec fn tax_of(subtotal: int, rate: int) -> int {
    round_half_away(subtotal * rate, 1000)
}

/// Amount owed, in cents: subtotal plus tax plus tip, rounded to whole cents
/// once, after the three are added up in thousandths of a cent.
pub open spec fn owed_of(subtotal: int, rate: int, tip: int) -> int {
    round_half_away(subtotal * (1000 + rate) + tip * 1000, 1000)
}

/// Rounds `x / 1000` to the nearest integer, halves away from zero.
fn round_thousandths(x: i128) -> (r: i128)
    requires
        -0x10_0000_0000_0000_0000_0000_0000 < x < 0x10_0000_0000_0000_0000_0000_0000,
    ensures
        r == round_half_away(x as int, 1000),
{
    if x >= 0 {
        (x + 500) / 1000
    } else {
        -((-x + 500) / 1000)
    }
}

/// The tax on `subtotal` cents at `rate` per mille, in whole cents.
pub fn tax_cents(subtotal: u64, rate: u32) -> (r: i128)
    ensures
        r == tax_of(subtotal as int, rate as int),
{
    assert(0 <= subtotal as int * rate as int <= 0xffff_ffff_ffff_ffff * 0xffff_ffff) by (nonlinear_arith)
        requires
            subtotal <= 0xffff_ffff_ffff_ffffu64,
            rate <= 0xffff_ffffu32,
    ;
    round_thousandths(subtotal as i128 * rate as i128)
}

/// What is owed on `subtotal` cents with `rate` per mille of tax and a tip of
/// `tip` cents, in whole cents.
pub fn owed_cents(subtotal: u64, rate: u32, tip: i64) -> (r: i128)
    ensures
        r == owed_of(subtotal as int, rate as int, tip as int),
{
    let k: i128 = 1000 + rate as i128;
    assert(0 <= subtotal as int * k <= 0xffff_ffff_ffff_ffff * 0x1_0000_03e8) by (nonlinear_arith)
        requires
            subtotal <= 0xffff_ffff_ffff_ffffu64,
            0 <= k <= 0x1_0000_03e8,
    ;
    round_thousandths(subtotal as i128 * k + tip as i128 * 1000)
}

} // verus!
