use vstd::prelude::*;
use vstd::arithmetic::div_mod::{lemma_fundamental_div_mod, lemma_fundamental_div_mod_converse};

use crate::transition::{ControlPoint, Point};

verus! {

/// A cubic Bézier curve in the plane of a workload.
#[derive(Debug, Clone, Copy, PartialEq, Eq, Structural)]
pub struct Curve {
    pub p0: Point,
    pub p1: ControlPoint,
    pub p2: ControlPoint,
    pub p3: Point,
}

/// `d³` times the cubic Bernstein combination of `y0..y3` at parameter `k / d`.
pub open spec fn bezier_num(y0: int, y1: int, y2: int, y3: int, k: int, d: int) -> int {
    let j = d - k;
    j * j * j * y0 + 3 * j * j * k * y1 + 3 * j * k * k * y2 + k * k * k * y3
}

/// `n / d` rounded to the nearest integer, halves rounded up.
pub open spec fn round_ratio(n: int, d: int) -> int {
    (2 * n + d) / (2 * d)
}

impl Curve {
    /// The y coordinate of the curve at parameter `k / d`, rounded to the nearest integer.
    pub open spec fn y_at(self, k: int, d: int) -> int {
        round_ratio(
            bezier_num(
                self.p0.y as int,
                self.p1.y as int,
                self.p2.y as int,
                self.p3.y as int,
                k,
                d,
            ),
            d * d * d,
        )
    }

    /// Evaluates the curve at parameter `k / d` (used as it is, not solved for `x`)
    /// and returns its y coordinate, rounded to the nearest integer.
    pub fn point_y_at(&self, k: u32, d: u32) -> (r: u32)
        requires
            0 < d,
            k <= d,
        ensures
            r == self.y_at(k as int, d as int),
    {
        let j = (d - k) as u128;
        let kk = k as u128;
        let dd = d as u128;
        let y0 = self.p0.y as u128;
        let y1 = self.p1.y as u128;
        let y2 = self.p2.y as u128;
        let y3 = self.p3.y as u128;
        proof {
            lemma_weights(j as int, kk as int, dd as int);
            lemma_combination_bound(j as int, kk as int, dd as int, y0 as int, y1 as int, y2 as int, y3 as int);
        }
        let w0 = j * j * j;
        let w1 = 3 * j * j * kk;
        let w2 = 3 * j * kk * kk;
        let w3 = kk * kk * kk;
        let den = dd * dd * dd;
        let n = w0 * y0 + w1 * y1 + w2 * y2 + w3 * y3;
        let q = n / den;
        let rem = n % den;
        proof {
            lemma_round(n as int, den as int);
            lemma_quotient_bound(n as int, den as int, 0xffff_ffff);
        }
        if rem >= den - rem {
            (q + 1) as u32
        } else {
            q as u32
        }
    }
}

/// The four Bernstein weights at `k / d`, scaled by `d³`, add up to `d³`; each
/// stays within `d³`, and `d³` fits in 96 bits.
proof fn lemma_weights(j: int, k: int, d: int)
    requires
        0 <= j,
        0 <= k,
        j + k == d,
        d <= 0xffff_ffff,
    ensures
        j * j * j + 3 * j * j * k + 3 * j * k * k + k * k * k == d * d * d,
        0 <= j * j * j <= d * d * d,
        0 <= 3 * j * j * k <= d * d * d,
        0 <= 3 * j * k * k <= d * d * d,
        0 <= k * k * k <= d * d * d,
        d * d * d <= 0xffff_ffff * 0xffff_ffff * 0xffff_ffff,
        0 <= j * j <= 0xffff_ffff * 0xffff_ffff,
        0 <= k * k <= 0xffff_ffff * 0xffff_ffff,
        0 <= j * k <= 0xffff_ffff * 0xffff_ffff,
        0 <= 3 * j * j <= 3 * 0xffff_ffff * 0xffff_ffff,
        0 <= 3 * j * k <= 3 * 0xffff_ffff * 0xffff_ffff,
        0 <= d * d <= 0xffff_ffff * 0xffff_ffff,
        0 < d ==> 0 < d * d * d,
{
    assert((0 <= d * d <= 0xffff_ffff * 0xffff_ffff) && (0 < d ==> 0 < d * d * d))
        by (nonlinear_arith)
        requires
            0 <= d <= 0xffff_ffff,
    ;
    assert(j * j * j + 3 * j * j * k + 3 * j * k * k + k * k * k == d * d * d) by (nonlinear_arith)
        requires
            j + k == d,
    ;
    assert(0 <= j * j * j && 0 <= 3 * j * j * k && 0 <= 3 * j * k * k && 0 <= k * k * k)
        by (nonlinear_arith)
        requires
            0 <= j,
            0 <= k,
    ;
    assert(d * d * d <= 0xffff_ffff * 0xffff_ffff * 0xffff_ffff) by (nonlinear_arith)
        requires
            0 <= d <= 0xffff_ffff,
    ;
    assert(0 <= j * j <= 0xffff_ffff * 0xffff_ffff && 0 <= k * k <= 0xffff_ffff * 0xffff_ffff
        && 0 <= j * k <= 0xffff_ffff * 0xffff_ffff && 0 <= 3 * j * j <= 3 * 0xffff_ffff
        * 0xffff_ffff && 0 <= 3 * j * k <= 3 * 0xffff_ffff * 0xffff_ffff) by (nonlinear_arith)
        requires
            0 <= j <= 0xffff_ffff,
            0 <= k <= 0xffff_ffff,
    ;
}

/// The scaled combination of rates within `u32` stays within `d³ · u32::MAX`.
proof fn lemma_combination_bound(j: int, k: int, d: int, y0: int, y1: int, y2: int, y3: int)
    requires
        0 <= j,
        0 <= k,
        j + k == d,
        d <= 0xffff_ffff,
        0 <= y0 <= 0xffff_ffff,
        0 <= y1 <= 0xffff_ffff,
        0 <= y2 <= 0xffff_ffff,
        0 <= y3 <= 0xffff_ffff,
        j * j * j + 3 * j * j * k + 3 * j * k * k + k * k * k == d * d * d,
        0 <= j * j * j,
        0 <= 3 * j * j * k,
        0 <= 3 * j * k * k,
        0 <= k * k * k,
        d * d * d <= 0xffff_ffff * 0xffff_ffff * 0xffff_ffff,
    ensures
        0 <= j * j * j * y0,
        0 <= 3 * j * j * k * y1,
        0 <= 3 * j * k * k * y2,
        0 <= k * k * k * y3,
        j * j * j * y0 + 3 * j * j * k * y1 + 3 * j * k * k * y2 + k * k * k * y3 <= d * d * d
            * 0xffff_ffff,
        d * d * d * 0xffff_ffff <= 0xffff_ffff * 0xffff_ffff * 0xffff_ffff * 0xffff_ffff,
{
    let a = j * j * j;
    let b = 3 * j * j * k;
    let c = 3 * j * k * k;
    let e = k * k * k;
    let m: int = 0xffff_ffff;
    assert(a * y0 <= a * m && b * y1 <= b * m && c * y2 <= c * m && e * y3 <= e * m
        && 0 <= a * y0 && 0 <= b * y1 && 0 <= c * y2 && 0 <= e * y3) by (nonlinear_arith)
        requires
            0 <= a,
            0 <= b,
            0 <= c,
            0 <= e,
            0 <= y0 <= m,
            0 <= y1 <= m,
            0 <= y2 <= m,
            0 <= y3 <= m,
    ;
    assert(a * m + b * m + c * m + e * m == (a + b + c + e) * m) by (nonlinear_arith);
    assert((d * d * d) * m <= (m * m * m) * m) by (nonlinear_arith)
        requires
            d * d * d <= m * m * m,
            0 <= m,
    ;
}

/// Rounding `n / den` to the nearest is the floor, plus one where the remainder is
/// at least half of `den`.
proof fn lemma_round(n: int, den: int)
    requires
        0 <= n,
        0 < den,
    ensures
        round_ratio(n, den) == n / den + (if n % den >= den - n % den { 1int } else { 0 }),
{
    lemma_fundamental_div_mod(n, den);
    let q = n / den;
    let r = n % den;
    assert(2 * n + den == (2 * q) * den + 2 * r + den) by (nonlinear_arith)
        requires
            n == den * q + r,
    ;
    if r >= den - r {
        assert(2 * n + den == (q + 1) * (2 * den) + (2 * r - den)) by (nonlinear_arith)
            requires
                2 * n + den == (2 * q) * den + 2 * r + den,
        ;
        lemma_fundamental_div_mod_converse(2 * n + den, 2 * den, q + 1, 2 * r - den);
    } else {
        assert(2 * n + den == q * (2 * den) + (2 * r + den)) by (nonlinear_arith)
            requires
                2 * n + den == (2 * q) * den + 2 * r + den,
        ;
        lemma_fundamental_div_mod_converse(2 * n + den, 2 * den, q, 2 * r + den);
    }
}

/// A quotient of `n <= den · m` stays within `m`, and reaching `m` leaves no remainder.
proof fn lemma_quotient_bound(n: int, den: int, m: int)
    requires
        0 <= n <= den * m,
        0 < den,
        0 <= m,
    ensures
        0 <= n / den <= m,
        n / den == m ==> n % den == 0,
{
    lemma_fundamental_div_mod(n, den);
    let q = n / den;
    let r = n % den;
    assert(0 <= q <= m) by (nonlinear_arith)
        requires
            n == den * q + r,
            0 <= r < den,
            0 <= n <= den * m,
            0 < den,
    ;
    assert(q == m ==> r == 0) by (nonlinear_arith)
        requires
            n == den * q + r,
            0 <= r < den,
            n <= den * m,
    ;
}

} // verus!
