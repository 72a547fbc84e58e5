//! Fixed-point plane geometry.
//!
//! Every length, coordinate, speed and impulse of the game is an integer
//! number of sub-units; [`UNIT`] of them make one world unit.
use vstd::prelude::*;

verus! {

/// Number of sub-units in one world unit.
pub const UNIT: i32 = 100;

/// A point or a displacement of the plane, in sub-units.
#[derive(Clone, Copy, Debug, PartialEq, Eq, Structural)]
pub struct Vec2 {
    pub x: i32,
    pub y: i32,
}

impl Vec2 {
    /// The vector with the coordinates `x` and `y`.
    pub fn new(x: i32, y: i32) -> (v: Vec2)
        ensures
            v == (Vec2 { x, y }),
    {
        Vec2 { x, y }
    }
}

/// Whether `value` can be stored in a coordinate.
pub open spec fn fits(value: int) -> bool {
    i32::MIN <= value <= i32::MAX
}

/// `value * numerator / denominator`, rounded towards negative infinity.
pub open spec fn fraction_of(value: int, numerator: int, denominator: int) -> int {
    (value * numerator) / denominator
}

/// A fraction between zero and one of a length keeps the sign of the
/// length and does not exceed it.
pub proof fn lemma_fraction_bounds(value: int, numerator: int, denominator: int)
    requires
        0 <= numerator <= denominator,
        0 < denominator,
    ensures
        value >= 0 ==> 0 <= fraction_of(value, numerator, denominator) <= value,
        value <= 0 ==> value <= fraction_of(value, numerator, denominator) <= 0,
{
    let n = value * numerator;
    let q = n / denominator;
    assert(n == denominator * q + n % denominator && 0 <= n % denominator < denominator) by {
        vstd::arithmetic::div_mod::lemma_fundamental_div_mod(n, denominator);
    }
    if value >= 0 {
        assert(0 <= n <= value * denominator) by (nonlinear_arith)
            requires
                n == value * numerator,
                value >= 0,
                0 <= numerator <= denominator,
        ;
        assert(0 <= q <= value) by (nonlinear_arith)
            requires
                n == denominator * q + n % denominator,
                0 <= n % denominator < denominator,
                0 <= n <= value * denominator,
                denominator > 0,
        ;
    } else {
        assert(value * denominator <= n <= 0) by (nonlinear_arith)
            requires
                n == value * numerator,
                value <= 0,
                0 <= numerator <= denominator,
        ;
        assert(value <= q <= 0) by (nonlinear_arith)
            requires
                n == denominator * q + n % denominator,
                0 <= n % denominator < denominator,
                value * denominator <= n <= 0,
                denominator > 0,
        ;
    }
}

/// Rounding a negative quotient down is rounding its negation up.
proof fn lemma_round_up_negated(n: int, d: int)
    requires
        n < 0,
        d > 0,
    ensures
        -((-n + (d - 1)) / d) == n / d,
{
    let q = n / d;
    let r = n % d;
    vstd::arithmetic::div_mod::lemma_fundamental_div_mod(n, d);
    let m = -n + (d - 1);
    // m == d * (-q) + (d - 1 - r), with 0 <= d - 1 - r < d
    assert(m == d * (-q) + (d - 1 - r)) by (nonlinear_arith)
        requires
            n == d * q + r,
            m == -n + (d - 1),
    ;
    vstd::arithmetic::div_mod::lemma_fundamental_div_mod_converse(m, d, -q, d - 1 - r);
}

/// The part `numerator / denominator` of a length, rounded down.
pub fn fraction(value: i32, numerator: i32, denominator: i32) -> (part: i32)
    requires
        0 <= numerator <= denominator,
        0 < denominator,
    ensures
        part == fraction_of(value as int, numerator as int, denominator as int),
{
    proof {
        lemma_fraction_bounds(value as int, numerator as int, denominator as int);
    }
    assert(-0x4000_0000_0000_0000 <= (value as int) * (numerator as int) <= 0x4000_0000_0000_0000)
        by (nonlinear_arith)
        requires
            -0x8000_0000 <= value <= 0x7fff_ffff,
            0 <= numerator <= 0x7fff_ffff,
    ;
    fraction_wide(value as i64, numerator as i64, denominator as i64) as i32
}

/// `value * numerator / denominator`, rounded down, where the product can
/// be stored.
pub fn fraction_wide(value: i64, numerator: i64, denominator: i64) -> (part: i64)
    requires
        0 < denominator <= 0x7fff_ffff,
        -0x4000_0000_0000_0000 <= value * numerator <= 0x4000_0000_0000_0000,
    ensures
        part == fraction_of(value as int, numerator as int, denominator as int),
{
    let n: i64 = value * numerator;
    let d: i64 = denominator;
    if n >= 0 {
        n / d
    } else {
        let m: i64 = -n;
        let up: i64 = (m + (d - 1)) / d;
        assert(-(up as int) == (n as int) / (d as int)) by {
            lemma_round_up_negated(n as int, d as int);
        }
        -up
    }
}

/// Half of a length, rounded down.
pub fn half(value: i64) -> (part: i64)
    ensures
        part == fraction_of(value as int, 1, 2),
{
    let towards_zero: i64 = value / 2;
    if value >= 0 || towards_zero * 2 == value {
        towards_zero
    } else {
        towards_zero - 1
    }
}

} // verus!
