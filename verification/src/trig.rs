use vstd::prelude::*;

use crate::geom::{clamp_coord, clamp_coord_spec, Vec2, POS_LIMIT};

verus! {

/// Largest spread angle a weapon uses, in milli-degrees (ten degrees).
pub const MAX_JITTER_MDEG: i64 = 10_000;

/// Sine of a small angle given in milli-degrees, in milli-units: the
/// first-order series `theta_rad`, with 0.017453 radians per degree.
/// Exact at zero; within one milli-unit of the true sine for angles up to
/// ten degrees.
pub open spec fn sin_milli_spec(theta_mdeg: int) -> int {
    if theta_mdeg >= 0 {
        theta_mdeg * 17453 / 1_000_000
    } else {
        -((-theta_mdeg) * 17453 / 1_000_000)
    }
}

/// Cosine of a small angle given in milli-degrees, in milli-units: the
/// second-order series `1 - theta_rad^2 / 2`. Exact at zero.
pub open spec fn cos_milli_spec(theta_mdeg: int) -> int {
    1000 - (theta_mdeg * theta_mdeg) / 6_565_195
}

pub fn sin_milli(theta_mdeg: i64) -> (s: i64)
    requires
        -MAX_JITTER_MDEG <= theta_mdeg <= MAX_JITTER_MDEG,
    ensures
        s == sin_milli_spec(theta_mdeg as int),
        -175 <= s <= 175,
        theta_mdeg == 0 ==> s == 0,
        theta_mdeg > 0 ==> s >= 0,
        theta_mdeg < 0 ==> s <= 0,
{
    if theta_mdeg >= 0 {
        proof {
            lemma_sin_bound(theta_mdeg as int);
        }
        (theta_mdeg * 17453) / 1_000_000
    } else {
        proof {
            lemma_sin_bound(-theta_mdeg as int);
        }
        -(((-theta_mdeg) * 17453) / 1_000_000)
    }
}

proof fn lemma_sin_bound(t: int)
    requires
        0 <= t <= MAX_JITTER_MDEG,
    ensures
        0 <= t * 17453 / 1_000_000 <= 175,
        t * 17453 <= 174_530_000,
        0 <= t * 17453,
{
    assert(0 <= t * 17453 <= 174_530_000) by (nonlinear_arith)
        requires
            0 <= t <= 10_000,
    ;
}

pub fn cos_milli(theta_mdeg: i64) -> (c: i64)
    requires
        -MAX_JITTER_MDEG <= theta_mdeg <= MAX_JITTER_MDEG,
    ensures
        c == cos_milli_spec(theta_mdeg as int),
        984 <= c <= 1000,
        theta_mdeg == 0 ==> c == 1000,
{
    proof {
        assert(0 <= theta_mdeg * theta_mdeg <= 100_000_000) by (nonlinear_arith)
            requires
                -10_000 <= theta_mdeg <= 10_000,
        ;
    }
    1000 - (theta_mdeg * theta_mdeg) / 6_565_195
}

/// Truncating division by 1000, sign handled explicitly so the executable
/// `/` and this definition agree for negative values.
pub open spec fn div_milli_spec(p: int) -> int {
    if p >= 0 {
        p / 1000
    } else {
        -((-p) / 1000)
    }
}

pub fn div_milli(p: i128) -> (r: i128)
    requires
        -170_000_000_000_000_000_000_000_000_000_000_000_000 <= p
            <= 170_000_000_000_000_000_000_000_000_000_000_000_000,
    ensures
        r == div_milli_spec(p as int),
{
    if p >= 0 {
        p / 1000
    } else {
        -((-p) / 1000)
    }
}

/// Rotate a vector by a small angle, counterclockwise for a positive angle:
/// the usual rotation matrix over the fixed-point sine and cosine, the
/// results clamped to the coordinate bound.
pub open spec fn rotate_spec(v: Vec2, theta_mdeg: int) -> Vec2 {
    let s = sin_milli_spec(theta_mdeg);
    let c = cos_milli_spec(theta_mdeg);
    Vec2 {
        x: clamp_coord_spec(div_milli_spec(v.x * c - v.y * s)) as i64,
        y: clamp_coord_spec(div_milli_spec(v.x * s + v.y * c)) as i64,
    }
}

pub fn rotate(v: &Vec2, theta_mdeg: i64) -> (r: Vec2)
    requires
        v.wf(),
        -MAX_JITTER_MDEG <= theta_mdeg <= MAX_JITTER_MDEG,
    ensures
        r == rotate_spec(*v, theta_mdeg as int),
        r.wf(),
        theta_mdeg == 0 ==> r == *v,
        (-1000 <= v.x <= 1000 && -1000 <= v.y <= 1000) ==> (-1175 <= r.x <= 1175 && -1175 <= r.y
            <= 1175),
{
    let s = sin_milli(theta_mdeg);
    let c = cos_milli(theta_mdeg);
    proof {
        lemma_rot_products(v.x as int, v.y as int, s as int, c as int);
    }
    let rx: i128 = div_milli(v.x as i128 * c as i128 - v.y as i128 * s as i128);
    let ry: i128 = div_milli(v.x as i128 * s as i128 + v.y as i128 * c as i128);
    let out = Vec2 { x: clamp_coord(rx), y: clamp_coord(ry) };
    proof {
        if -1000 <= v.x <= 1000 && -1000 <= v.y <= 1000 {
            lemma_unit_rot_bound(v.x as int, v.y as int, s as int, c as int);
        }
        if theta_mdeg == 0 {
            assert(v.x as int * 1000 == v.x as int * 1000);
            assert(div_milli_spec(v.x as int * 1000 - v.y as int * 0) == v.x as int)
                by (nonlinear_arith);
            assert(div_milli_spec(v.x as int * 0 + v.y as int * 1000) == v.y as int)
                by (nonlinear_arith);
        }
    }
    out
}

proof fn lemma_rot_products(x: int, y: int, s: int, c: int)
    requires
        -POS_LIMIT <= x <= POS_LIMIT,
        -POS_LIMIT <= y <= POS_LIMIT,
        -175 <= s <= 175,
        -1000 <= c <= 1000,
    ensures
        -2_000_000_000_000 <= x * c <= 2_000_000_000_000,
        -2_000_000_000_000 <= y * c <= 2_000_000_000_000,
        -350_000_000_000 <= x * s <= 350_000_000_000,
        -350_000_000_000 <= y * s <= 350_000_000_000,
        -3_000_000_000_000 <= x * c - y * s <= 3_000_000_000_000,
        -3_000_000_000_000 <= x * s + y * c <= 3_000_000_000_000,
{
    assert(-2_000_000_000_000 <= x * c <= 2_000_000_000_000) by (nonlinear_arith)
        requires
            -2_000_000_000 <= x <= 2_000_000_000,
            -1000 <= c <= 1000,
    ;
    assert(-2_000_000_000_000 <= y * c <= 2_000_000_000_000) by (nonlinear_arith)
        requires
            -2_000_000_000 <= y <= 2_000_000_000,
            -1000 <= c <= 1000,
    ;
    assert(-350_000_000_000 <= y * s <= 350_000_000_000) by (nonlinear_arith)
        requires
            -2_000_000_000 <= y <= 2_000_000_000,
            -175 <= s <= 175,
    ;
    assert(-350_000_000_000 <= x * s <= 350_000_000_000) by (nonlinear_arith)
        requires
            -2_000_000_000 <= x <= 2_000_000_000,
            -175 <= s <= 175,
    ;
}

/// Rotating a near-unit vector keeps its coordinates near the unit scale.
proof fn lemma_unit_rot_bound(x: int, y: int, s: int, c: int)
    requires
        -1000 <= x <= 1000,
        -1000 <= y <= 1000,
        -175 <= s <= 175,
        -1000 <= c <= 1000,
    ensures
        -1_175_000 <= x * c - y * s <= 1_175_000,
        -1_175_000 <= x * s + y * c <= 1_175_000,
        -1175 <= div_milli_spec(x * c - y * s) <= 1175,
        -1175 <= div_milli_spec(x * s + y * c) <= 1175,
{
    assert(-1_000_000 <= x * c <= 1_000_000 && -1_000_000 <= y * c <= 1_000_000 && -175_000 <= x
        * s <= 175_000 && -175_000 <= y * s <= 175_000) by (nonlinear_arith)
        requires
            -1000 <= x <= 1000,
            -1000 <= y <= 1000,
            -175 <= s <= 175,
            -1000 <= c <= 1000,
    ;
}

} // verus!
