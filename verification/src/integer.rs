//! The integer scalars: `i32` and `i64`.
//!
//! Powers are exact and defined wherever the exponent is not negative and
//! the power fits the type. The square root of a non-negative integer is
//! rounded down: it is the largest integer whose square does not exceed the
//! argument.
use vstd::prelude::*;
use vstd::arithmetic::power::{
    lemma0_pow, lemma1_pow, lemma_pow0, lemma_pow_strictly_increases, pow,
};
use vstd::math::abs;
use crate::scalar::{One, Pow, Sqrt, Zero};

verus! {

/// `r` is the square root of `n`, rounded down.
pub open spec fn is_floor_sqrt(n: int, r: int) -> bool {
    0 <= r && r * r <= n < (r + 1) * (r + 1)
}

/// The square root of `n`, rounded down. Meaningful for `n >= 0` only.
pub open spec fn floor_sqrt(n: int) -> int {
    choose|r: int| is_floor_sqrt(n, r)
}

/// At most one integer is the rounded-down square root of `n`.
pub proof fn lemma_floor_sqrt_unique(n: int, r: int, s: int)
    requires
        is_floor_sqrt(n, r),
        is_floor_sqrt(n, s),
    ensures
        r == s,
{
    if r < s {
        assert((r + 1) * (r + 1) <= s * s) by (nonlinear_arith)
            requires
                0 <= r + 1 <= s,
        ;
    } else if s < r {
        assert((s + 1) * (s + 1) <= r * r) by (nonlinear_arith)
            requires
                0 <= s + 1 <= r,
        ;
    }
}

/// An integer that meets `is_floor_sqrt` for `n` is `floor_sqrt(n)`.
pub proof fn lemma_floor_sqrt_is(n: int, r: int)
    requires
        is_floor_sqrt(n, r),
    ensures
        floor_sqrt(n) == r,
{
    lemma_floor_sqrt_unique(n, r, floor_sqrt(n));
}

/// The rounded-down square root of a square is the absolute value of what
/// was squared.
pub proof fn lemma_floor_sqrt_of_square(x: int)
    ensures
        floor_sqrt(x * x) == abs(x),
{
    let a: int = abs(x) as int;
    assert(a * a == x * x && a * a < (a + 1) * (a + 1)) by (nonlinear_arith)
        requires
            a >= 0,
            a == x || a == -x,
    ;
    lemma_floor_sqrt_is(x * x, a);
}

/// Every non-negative integer has a rounded-down square root, which lies
/// between zero and the integer itself.
pub proof fn lemma_floor_sqrt_exists(n: int)
    requires
        n >= 0,
    ensures
        is_floor_sqrt(n, floor_sqrt(n)),
        0 <= floor_sqrt(n) <= n,
    decreases n,
{
    if n == 0 {
        lemma_floor_sqrt_is(0, 0);
    } else {
        lemma_floor_sqrt_exists(n - 1);
        let r: int = floor_sqrt(n - 1);
        if (r + 1) * (r + 1) <= n {
            assert((r + 1) * (r + 1) == n);
            assert(n < (r + 2) * (r + 2)) by (nonlinear_arith)
                requires
                    (r + 1) * (r + 1) == n,
                    r >= 0,
            ;
            lemma_floor_sqrt_is(n, r + 1);
        } else {
            lemma_floor_sqrt_is(n, r);
        }
    }
    let s: int = floor_sqrt(n);
    assert(s <= s * s) by (nonlinear_arith)
        requires
            s >= 0,
    ;
}

/// The powers of `-1` alternate between `1` and `-1`.
proof fn lemma_pow_of_minus_one(e: nat)
    ensures
        pow(-1, e) == if e % 2 == 0 {
            1int
        } else {
            -1int
        },
    decreases e,
{
    reveal(pow);
    if e > 0 {
        lemma_pow_of_minus_one((e - 1) as nat);
    }
}

/// The absolute value of a power is the power of the absolute value.
proof fn lemma_pow_abs(b: int, e: nat)
    ensures
        abs(pow(b, e)) == pow(abs(b) as int, e),
    decreases e,
{
    reveal(pow);
    if e > 0 {
        lemma_pow_abs(b, (e - 1) as nat);
        let p: int = pow(b, (e - 1) as nat);
        assert(abs(b * p) == abs(b) * abs(p)) by (nonlinear_arith);
    }
}

/// Where `b` is at least 2 in absolute value and `b` to the power `e` fits
/// an `i64`, so does every lower power of `b`.
proof fn lemma_lower_power_fits(b: int, d: nat, e: nat)
    requires
        abs(b) >= 2,
        d <= e,
        i64::MIN <= pow(b, e) <= i64::MAX,
    ensures
        i64::MIN <= pow(b, d) <= i64::MAX,
{
    if d < e {
        lemma_pow_abs(b, d);
        lemma_pow_abs(b, e);
        lemma_pow_strictly_increases(abs(b), d, e);
    }
}

/// Computes `base` to the power `exp`.
fn power(base: i64, exp: u64) -> (p: i64)
    requires
        i64::MIN <= pow(base as int, exp as nat) <= i64::MAX,
    ensures
        p == pow(base as int, exp as nat),
{
    if exp == 0 {
        proof {
            lemma_pow0(base as int);
        }
        return 1;
    }
    if base == 0 {
        proof {
            lemma0_pow(exp as nat);
        }
        return 0;
    }
    if base == 1 {
        proof {
            lemma1_pow(exp as nat);
        }
        return 1;
    }
    if base == -1 {
        proof {
            lemma_pow_of_minus_one(exp as nat);
        }
        return if exp % 2 == 0 {
            1
        } else {
            -1
        };
    }
    let mut acc: i64 = 1;
    let mut done: u64 = 0;
    proof {
        lemma_pow0(base as int);
    }
    while done < exp
        invariant
            done <= exp,
            acc == pow(base as int, done as nat),
            abs(base as int) >= 2,
            i64::MIN <= pow(base as int, exp as nat) <= i64::MAX,
        decreases exp - done,
    {
        proof {
            lemma_lower_power_fits(base as int, (done + 1) as nat, exp as nat);
            assert(pow(base as int, (done + 1) as nat) == acc * base) by {
                reveal(pow);
                assert(base * acc == acc * base) by (nonlinear_arith);
            }
        }
        acc = acc * base;
        done = done + 1;
    }
    acc
}

/// Computes the square root of `n`, rounded down.
fn isqrt(n: u64) -> (r: u64)
    ensures
        r == floor_sqrt(n as int),
        r <= n,
        r < 0x1_0000_0000,
{
    let mut lo: u64 = 0;
    let mut hi: u64 = 0x1_0000_0000;
    while hi - lo > 1
        invariant
            lo < hi <= 0x1_0000_0000,
            lo * lo <= n < hi * hi,
        decreases hi - lo,
    {
        let mid: u64 = lo + (hi - lo) / 2;
        assert(mid * mid <= 0xFFFF_FFFF * 0xFFFF_FFFF) by (nonlinear_arith)
            requires
                0 <= mid <= 0xFFFF_FFFF,
        ;
        if mid * mid <= n {
            lo = mid;
        } else {
            hi = mid;
        }
    }
    proof {
        lemma_floor_sqrt_is(n as int, lo as int);
        assert(lo <= lo * lo) by (nonlinear_arith);
    }
    lo
}

impl Zero for i32 {
    open spec fn zero_spec() -> Self {
        0
    }

    open spec fn is_zero_spec(&self) -> bool {
        *self == 0
    }

    fn zero() -> (z: Self)
        ensures
            z == 0,
    {
        0
    }

    fn is_zero(&self) -> (b: bool)
        ensures
            b == (*self == 0),
    {
        *self == 0
    }
}

impl One for i32 {
    open spec fn one_spec() -> Self {
        1
    }

    fn one() -> (u: Self)
        ensures
            u == 1,
    {
        1
    }
}

impl Pow<i32> for i32 {
    type Output = i32;

    /// The exponent is not negative and the power fits an `i32`.
    open spec fn pow_req(self, exp: i32) -> bool {
        exp >= 0 && i32::MIN <= pow(self as int, exp as nat) <= i32::MAX
    }

    /// The exact power.
    open spec fn pow_spec(self, exp: i32) -> i32 {
        pow(self as int, exp as nat) as i32
    }

    /// Returns `self` to the power `exp`.
    fn pow(self, exp: i32) -> (p: i32) {
        power(self as i64, exp as u64) as i32
    }
}

impl Sqrt for i32 {
    type Output = i32;

    /// Only a number that is not negative has a square root.
    open spec fn sqrt_req(self) -> bool {
        self >= 0
    }

    /// The square root, rounded down.
    open spec fn sqrt_spec(self) -> i32 {
        floor_sqrt(self as int) as i32
    }

    /// Returns the square root of `self`, rounded down.
    fn sqrt(self) -> (r: i32)
        ensures
            r == floor_sqrt(self as int),
    {
        isqrt(self as u64) as i32
    }
}

impl Zero for i64 {
    open spec fn zero_spec() -> Self {
        0
    }

    open spec fn is_zero_spec(&self) -> bool {
        *self == 0
    }

    fn zero() -> (z: Self)
        ensures
            z == 0,
    {
        0
    }

    fn is_zero(&self) -> (b: bool)
        ensures
            b == (*self == 0),
    {
        *self == 0
    }
}

impl One for i64 {
    open spec fn one_spec() -> Self {
        1
    }

    fn one() -> (u: Self)
        ensures
            u == 1,
    {
        1
    }
}

impl Pow<i64> for i64 {
    type Output = i64;

    /// The exponent is not negative and the power fits an `i64`.
    open spec fn pow_req(self, exp: i64) -> bool {
        exp >= 0 && i64::MIN <= pow(self as int, exp as nat) <= i64::MAX
    }

    /// The exact power.
    open spec fn pow_spec(self, exp: i64) -> i64 {
        pow(self as int, exp as nat) as i64
    }

    /// Returns `self` to the power `exp`.
    fn pow(self, exp: i64) -> (p: i64) {
        power(self, exp as u64)
    }
}

impl Sqrt for i64 {
    type Output = i64;

    /// Only a number that is not negative has a square root.
    open spec fn sqrt_req(self) -> bool {
        self >= 0
    }

    /// The square root, rounded down.
    open spec fn sqrt_spec(self) -> i64 {
        floor_sqrt(self as int) as i64
    }

    /// Returns the square root of `self`, rounded down.
    fn sqrt(self) -> (r: i64)
        ensures
            r == floor_sqrt(self as int),
    {
        isqrt(self as u64) as i64
    }
}

} // verus!
