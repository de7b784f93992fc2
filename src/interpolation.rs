//! Bilinear interpolation of the four corner parameters of a cell.
//!
//! Parameters are counted in units of 1e-5 (arcsecond or metre) and points in
//! units of 1e-9; an interpolated value is the exact bilinear value in point
//! units, rounded to the nearest unit.
use vstd::prelude::*;

verus! {

/// Point units in one parameter unit.
pub const SCALE: i64 = 10_000;

/// Smallest value held in `i32`.
pub open spec fn low() -> int {
    -0x8000_0000
}

/// Largest value held in `i32`.
pub open spec fn high() -> int {
    0x7fff_ffff
}

/// Sum of the corner values weighted by the area of the opposite
/// sub-rectangle; the weights add up to `w * h`, so the exact bilinear value
/// is this sum divided by `w * h`.
pub open spec fn weighted_sum(
    sw: int,
    se: int,
    nw: int,
    ne: int,
    x: int,
    y: int,
    w: int,
    h: int,
) -> int {
    sw * ((w - x) * (h - y)) + se * (x * (h - y)) + nw * ((w - x) * y) + ne * (x * y)
}

/// The bilinear interpolation of four corner values (south-west, south-east,
/// north-west, north-east) at offset `(x, y)` of a `w` by `h` cell, scaled by
/// `SCALE` and rounded to the nearest whole unit (halves round up).
pub open spec fn interpolate(
    sw: int,
    se: int,
    nw: int,
    ne: int,
    x: int,
    y: int,
    w: int,
    h: int,
) -> int {
    (2 * SCALE * weighted_sum(sw, se, nw, ne, x, y, w, h) + w * h) / (2 * (w * h))
}

/// Whether `r` lies within half a unit of `SCALE * n / d`.
pub open spec fn nearest(r: int, n: int, d: int) -> bool {
    -d < 2 * (r * d - SCALE * n) <= d
}

proof fn lemma_weighted_term(c: int, weight: int)
    requires
        low() <= c <= high(),
        0 <= weight,
    ensures
        low() * weight <= c * weight <= high() * weight,
{
    assert(low() * weight <= c * weight <= high() * weight) by (nonlinear_arith)
        requires
            low() <= c <= high(),
            0 <= weight,
    ;
}

/// The interpolated value lies within `SCALE` times the range of the corner
/// values' type, and within half a unit of the exact bilinear value.
pub proof fn lemma_interpolate_bounds(
    sw: int,
    se: int,
    nw: int,
    ne: int,
    x: int,
    y: int,
    w: int,
    h: int,
)
    requires
        low() <= sw <= high(),
        low() <= se <= high(),
        low() <= nw <= high(),
        low() <= ne <= high(),
        0 <= x < w,
        0 <= y < h,
    ensures
        SCALE * low() <= interpolate(sw, se, nw, ne, x, y, w, h) <= SCALE * high(),
        low() * (w * h) <= weighted_sum(sw, se, nw, ne, x, y, w, h) <= high() * (w * h),
        nearest(
            interpolate(sw, se, nw, ne, x, y, w, h),
            weighted_sum(sw, se, nw, ne, x, y, w, h),
            w * h,
        ),
{
    let w1 = (w - x) * (h - y);
    let w2 = x * (h - y);
    let w3 = (w - x) * y;
    let w4 = x * y;
    assert(w1 + w2 + w3 + w4 == w * h) by (nonlinear_arith)
        requires
            w1 == (w - x) * (h - y),
            w2 == x * (h - y),
            w3 == (w - x) * y,
            w4 == x * y,
    ;
    assert(0 <= w1 && 0 <= w2 && 0 <= w3 && 0 <= w4 && 0 < w * h) by (nonlinear_arith)
        requires
            0 <= x < w,
            0 <= y < h,
            w1 == (w - x) * (h - y),
            w2 == x * (h - y),
            w3 == (w - x) * y,
            w4 == x * y,
    ;
    lemma_weighted_term(sw, w1);
    lemma_weighted_term(se, w2);
    lemma_weighted_term(nw, w3);
    lemma_weighted_term(ne, w4);
    let lo = low();
    let hi = high();
    let d = w * h;
    let n = weighted_sum(sw, se, nw, ne, x, y, w, h);
    assert(lo * d <= n <= hi * d) by (nonlinear_arith)
        requires
            n == sw * w1 + se * w2 + nw * w3 + ne * w4,
            lo * w1 <= sw * w1 <= hi * w1,
            lo * w2 <= se * w2 <= hi * w2,
            lo * w3 <= nw * w3 <= hi * w3,
            lo * w4 <= ne * w4 <= hi * w4,
            d == w1 + w2 + w3 + w4,
    ;
    let m = 2 * SCALE * n + d;
    let dd = 2 * d;
    vstd::arithmetic::div_mod::lemma_fundamental_div_mod(m, dd);
    let q = m / dd;
    assert(dd * q <= m < dd * q + dd);
    assert(-d < 2 * (q * d - SCALE * n) <= d) by (nonlinear_arith)
        requires
            dd * q <= m < dd * q + dd,
            m == 2 * SCALE * n + d,
            dd == 2 * d,
    ;
    assert(SCALE * lo * d <= SCALE * n <= SCALE * hi * d) by (nonlinear_arith)
        requires
            lo * d <= n <= hi * d,
    ;
    assert(SCALE * lo <= q <= SCALE * hi) by (nonlinear_arith)
        requires
            -d < 2 * (q * d - SCALE * n) <= d,
            SCALE * lo * d <= SCALE * n <= SCALE * hi * d,
            0 < d,
    ;
}

/// Largest cell width handled, in units of 1e-9 arcsecond.
pub const MAX_WIDTH: i64 = 225_000_000_000;

/// Largest cell height handled, in units of 1e-9 arcsecond.
pub const MAX_HEIGHT: i64 = 150_000_000_000;

/// The quotient of `n` by a positive `d`, rounded down.
fn floor_div(n: i128, d: i128) -> (r: i128)
    requires
        0 < d < 0x1_0000_0000_0000_0000_0000_0000,
        -0x1000_0000_0000_0000_0000_0000_0000_0000 < n < 0x1000_0000_0000_0000_0000_0000_0000_0000,
    ensures
        r == n as int / d as int,
{
    if n >= 0 {
        ((n as u128) / (d as u128)) as i128
    } else {
        let m = (-n) as u128;
        let t = (m + (d as u128) - 1) / (d as u128);
        proof {
            let mm = m as int + d - 1;
            vstd::arithmetic::div_mod::lemma_fundamental_div_mod(mm, d as int);
            let rem = mm % (d as int);
            assert(mm == d * t + rem);
            assert(n == -(t as int) * d + (d - 1 - rem)) by (nonlinear_arith)
                requires
                    mm == d * t + rem,
                    mm == -n + d - 1,
            ;
            vstd::arithmetic::div_mod::lemma_fundamental_div_mod_converse(
                n as int,
                d as int,
                -(t as int),
                d - 1 - rem,
            );
            assert(t as int <= m as int) by (nonlinear_arith)
                requires
                    mm == d * t + rem,
                    mm == m + d - 1,
                    0 <= rem < d,
                    1 <= d,
            ;
        }
        -(t as i128)
    }
}

/// The bilinear interpolation of four corner values at offset `(x, y)` of a
/// `w` by `h` cell, in point units, rounded to the nearest unit.
pub fn interpolate_value(sw: i32, se: i32, nw: i32, ne: i32, x: i64, y: i64, w: i64, h: i64) -> (r:
    i64)
    requires
        0 <= x < w <= MAX_WIDTH,
        0 <= y < h <= MAX_HEIGHT,
    ensures
        r == interpolate(sw as int, se as int, nw as int, ne as int, x as int, y as int, w as int, h as int),
        SCALE * low() <= r <= SCALE * high(),
        nearest(
            r as int,
            weighted_sum(sw as int, se as int, nw as int, ne as int, x as int, y as int, w as int, h as int),
            w * h,
        ),
{
    let wx = (w - x) as i128;
    let hy = (h - y) as i128;
    let xx = x as i128;
    let yy = y as i128;
    assert(wx * hy <= MAX_WIDTH * MAX_HEIGHT && xx * hy <= MAX_WIDTH * MAX_HEIGHT && wx * yy
        <= MAX_WIDTH * MAX_HEIGHT && xx * yy <= MAX_WIDTH * MAX_HEIGHT && 0 <= wx * hy && 0 <= xx
        * hy && 0 <= wx * yy && 0 <= xx * yy) by (nonlinear_arith)
        requires
            0 <= wx <= MAX_WIDTH,
            0 <= xx <= MAX_WIDTH,
            0 <= hy <= MAX_HEIGHT,
            0 <= yy <= MAX_HEIGHT,
    ;
    let w1 = wx * hy;
    let w2 = xx * hy;
    let w3 = wx * yy;
    let w4 = xx * yy;
    proof {
        lemma_weighted_term(sw as int, w1 as int);
        lemma_weighted_term(se as int, w2 as int);
        lemma_weighted_term(nw as int, w3 as int);
        lemma_weighted_term(ne as int, w4 as int);
        lemma_interpolate_bounds(sw as int, se as int, nw as int, ne as int, x as int, y as int, w as int, h as int);
        assert(0 < w * h <= MAX_WIDTH * MAX_HEIGHT) by (nonlinear_arith)
            requires
                0 < w <= MAX_WIDTH,
                0 < h <= MAX_HEIGHT,
        ;
    }
    let n = sw as i128 * w1 + se as i128 * w2 + nw as i128 * w3 + ne as i128 * w4;
    let d = w as i128 * h as i128;
    floor_div(2 * (SCALE as i128) * n + d, 2 * d) as i64
}

} // verus!
