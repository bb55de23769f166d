use vstd::prelude::*;

verus! {

/// Coordinates are held in thousandths of a world unit and clamped to this
/// bound when updated, so squares and products stay inside the machine words.
pub const POS_LIMIT: i64 = 2_000_000_000;

/// A planar point or direction in milli-unit fixed point.
#[derive(Clone, Copy, Debug, PartialEq, Eq, Structural)]
pub struct Vec2 {
    pub x: i64,
    pub y: i64,
}

/// The floor of the square root, as a mathematical function.
pub open spec fn sqrt_floor(n: nat) -> nat
    decreases n,
{
    if n == 0 {
        0
    } else {
        let s = sqrt_floor((n - 1) as nat);
        if (s + 1) * (s + 1) <= n {
            s + 1
        } else {
            s
        }
    }
}

/// `sqrt_floor(n)` really is the floor of the square root of `n`.
pub proof fn lemma_sqrt_floor(n: nat)
    ensures
        sqrt_floor(n) * sqrt_floor(n) <= n,
        n < (sqrt_floor(n) + 1) * (sqrt_floor(n) + 1),
    decreases n,
{
    if n == 0 {
        assert(sqrt_floor(0) == 0);
        assert(sqrt_floor(n) * sqrt_floor(n) <= n);
        assert((sqrt_floor(n) + 1) * (sqrt_floor(n) + 1) == 1) by (nonlinear_arith)
            requires
                sqrt_floor(n) == 0,
        ;
        assert(n < (sqrt_floor(n) + 1) * (sqrt_floor(n) + 1));
    } else {
        lemma_sqrt_floor((n - 1) as nat);
        let s = sqrt_floor((n - 1) as nat);
        assert(n - 1 < (s + 1) * (s + 1));
        if (s + 1) * (s + 1) <= n {
            assert(sqrt_floor(n) == s + 1);
            assert(sqrt_floor(n) * sqrt_floor(n) <= n);
            assert(n < (s + 2) * (s + 2)) by (nonlinear_arith)
                requires
                    n - 1 < (s + 1) * (s + 1),
                    0 <= s,
            ;
            assert(n < (sqrt_floor(n) + 1) * (sqrt_floor(n) + 1));
        } else {
            assert(sqrt_floor(n) == s);
            assert(sqrt_floor(n) * sqrt_floor(n) <= n);
            assert(n < (sqrt_floor(n) + 1) * (sqrt_floor(n) + 1));
        }
    }
}

/// Any root with the floor property equals `sqrt_floor`.
pub proof fn lemma_sqrt_floor_unique(n: nat, r: nat)
    requires
        r * r <= n,
        n < (r + 1) * (r + 1),
    ensures
        r == sqrt_floor(n),
{
    lemma_sqrt_floor(n);
    let s = sqrt_floor(n);
    if r < s {
        assert((r + 1) * (r + 1) <= s * s) by (nonlinear_arith)
            requires
                r + 1 <= s,
        ;
    }
    if s < r {
        assert((s + 1) * (s + 1) <= r * r) by (nonlinear_arith)
            requires
                s + 1 <= r,
        ;
    }
}

/// Floor of the square root, by binary search.
pub fn isqrt(n: u128) -> (r: u64)
    requires
        n < (1u128 << 70),
    ensures
        r == sqrt_floor(n as nat),
        r * r <= n,
        n < (r + 1) * (r + 1),
{
    let mut lo: u128 = 0;
    let mut hi: u128 = 1u128 << 35;
    proof {
        assert((1u128 << 35) * (1u128 << 35) == (1u128 << 70)) by (bit_vector);
    }
    while lo + 1 < hi
        invariant
            lo < hi,
            hi <= 1u128 << 35,
            lo * lo <= n,
            n < hi * hi,
        decreases hi - lo,
    {
        let mid = lo + (hi - lo) / 2;
        proof {
            assert((1u128 << 35) * (1u128 << 35) == (1u128 << 70)) by (bit_vector);
            assert(mid * mid < (1u128 << 70)) by (nonlinear_arith)
                requires
                    mid < (1u128 << 35),
                    (1u128 << 35) * (1u128 << 35) == (1u128 << 70),
            ;
        }
        if mid * mid <= n {
            lo = mid;
        } else {
            hi = mid;
        }
    }
    proof {
        assert(lo < (1u128 << 35));
        assert((1u128 << 35) < 0xffff_ffff_ffff_ffffu128) by (bit_vector);
        assert(lo * lo <= n && n < (lo + 1) * (lo + 1));
        lemma_sqrt_floor_unique(n as nat, lo as nat);
    }
    lo as u64
}

impl Vec2 {
    /// Well-formedness: both coordinates lie inside the clamping bound.
    pub open spec fn wf(self) -> bool {
        -POS_LIMIT <= self.x <= POS_LIMIT && -POS_LIMIT <= self.y <= POS_LIMIT
    }

    /// Squared distance to `other`, an exact integer.
    pub open spec fn dist_sq_spec(self, other: Vec2) -> int {
        (self.x - other.x) * (self.x - other.x) + (self.y - other.y) * (self.y - other.y)
    }

    pub fn dist_sq(&self, other: &Vec2) -> (d: i128)
        requires
            self.wf(),
            other.wf(),
        ensures
            d == self.dist_sq_spec(*other),
            0 <= d <= (16_000_000_000_000_000_000 + 16_000_000_000_000_000_000),
    {
        let dx: i128 = self.x as i128 - other.x as i128;
        let dy: i128 = self.y as i128 - other.y as i128;
        proof {
            assert(dx * dx <= 16_000_000_000_000_000_000i128 && dx * dx >= 0)
                by (nonlinear_arith)
                requires
                    -4_000_000_000 <= dx <= 4_000_000_000,
            ;
            assert(dy * dy <= 16_000_000_000_000_000_000i128 && dy * dy >= 0)
                by (nonlinear_arith)
                requires
                    -4_000_000_000 <= dy <= 4_000_000_000,
            ;
        }
        dx * dx + dy * dy
    }

    /// Distance to `other` in milli-units, rounded down.
    pub open spec fn dist_milli_spec(self, other: Vec2) -> int {
        sqrt_floor(self.dist_sq_spec(other) as nat) as int
    }

    pub fn dist_milli(&self, other: &Vec2) -> (d: u64)
        requires
            self.wf(),
            other.wf(),
        ensures
            d == self.dist_milli_spec(*other),
            d <= 6_000_000_000,
    {
        let sq = self.dist_sq(other);
        proof {
            assert((32_000_000_000_000_000_000u128) < (1u128 << 70)) by (bit_vector);
            lemma_sqrt_floor(sq as nat);
            assert(sqrt_floor(sq as nat) <= 6_000_000_000) by {
                if sqrt_floor(sq as nat) > 6_000_000_000 {
                    assert(sqrt_floor(sq as nat) * sqrt_floor(sq as nat)
                        > 36_000_000_000_000_000_000) by (nonlinear_arith)
                        requires
                            sqrt_floor(sq as nat) > 6_000_000_000,
                    ;
                }
            }
        }
        isqrt(sq as u128)
    }

    /// Length of this vector, read as a displacement, in milli-units.
    pub open spec fn length_spec(self) -> int {
        self.dist_milli_spec(Vec2 { x: 0, y: 0 })
    }

    pub fn length(&self) -> (l: u64)
        requires
            self.wf(),
        ensures
            l == self.length_spec(),
            l <= 6_000_000_000,
    {
        let origin = Vec2 { x: 0, y: 0 };
        self.dist_milli(&origin)
    }

    /// Truncating division of a signed coordinate, sign handled explicitly so
    /// the executable `/` and this definition agree for negative values.
    pub open spec fn scale_div_spec(a: int, num: int, den: int) -> int
        recommends
            num >= 0,
            den > 0,
    {
        if a >= 0 {
            a * num / den
        } else {
            -((-a) * num / den)
        }
    }

    /// The unit vector along `self` in milli-units (zero-safe: a zero vector
    /// normalizes to zero, not to a fault).
    pub open spec fn normalize_spec(self) -> Vec2 {
        let len = self.length_spec();
        if len == 0 {
            Vec2 { x: 0, y: 0 }
        } else {
            Vec2 {
                x: Self::scale_div_spec(self.x as int, 1000, len) as i64,
                y: Self::scale_div_spec(self.y as int, 1000, len) as i64,
            }
        }
    }

    pub fn normalize(&self) -> (u: Vec2)
        requires
            self.wf(),
        ensures
            u == self.normalize_spec(),
            u.wf(),
            -1000 <= u.x <= 1000,
            -1000 <= u.y <= 1000,
    {
        let len = self.length();
        if len == 0 {
            proof {
                let dx = self.x as int;
                let dy = self.y as int;
                let dsq = self.dist_sq_spec(Vec2 { x: 0, y: 0 });
                assert(dsq == dx * dx + dy * dy) by (nonlinear_arith)
                    requires
                        dsq == (dx - 0) * (dx - 0) + (dy - 0) * (dy - 0),
                ;
                assert(0 <= dx * dx + dy * dy) by (nonlinear_arith);
                lemma_sqrt_floor(dsq as nat);
                assert(sqrt_floor(dsq as nat) == 0);
                assert((sqrt_floor(dsq as nat) + 1) * (sqrt_floor(dsq as nat) + 1) == 1)
                    by (nonlinear_arith)
                    requires
                        sqrt_floor(dsq as nat) == 0,
                ;
                assert(dsq < 1);
                assert(dx == 0 && dy == 0) by (nonlinear_arith)
                    requires
                        dx * dx + dy * dy < 1,
                ;
            }
            Vec2 { x: 0, y: 0 }
        } else {
            proof {
                lemma_sqrt_floor(self.dist_sq_spec(Vec2 { x: 0, y: 0 }) as nat);
                lemma_abs_le_len(self.x as int, self.y as int, len as int);
            }
            let nx = Self::coord_div(self.x, len);
            let ny = Self::coord_div(self.y, len);
            Vec2 { x: nx, y: ny }
        }
    }

    /// One normalized coordinate: `c * 1000 / len`, sign-aware.
    fn coord_div(c: i64, len: u64) -> (r: i64)
        requires
            0 < len,
            -(len as int) <= c <= len as int,
            len <= 6_000_000_000,
        ensures
            r == Self::scale_div_spec(c as int, 1000, len as int),
            -1000 <= r <= 1000,
    {
        if c >= 0 {
            let q = (c as i128 * 1000) / (len as i128);
            proof {
                lemma_div_scale_bound(c as int, len as int);
            }
            q as i64
        } else {
            let q = ((-(c as i128)) * 1000) / (len as i128);
            proof {
                lemma_div_scale_bound(-c as int, len as int);
            }
            -(q as i64)
        }
    }

    /// Componentwise sum, clamped to the coordinate bound.
    pub open spec fn add_spec(self, other: Vec2) -> Vec2 {
        Vec2 {
            x: clamp_coord_spec(self.x + other.x) as i64,
            y: clamp_coord_spec(self.y + other.y) as i64,
        }
    }

    pub fn add(&self, other: &Vec2) -> (v: Vec2)
        requires
            self.wf(),
            other.wf(),
        ensures
            v == self.add_spec(*other),
            v.wf(),
    {
        Vec2 {
            x: clamp_coord(self.x as i128 + other.x as i128),
            y: clamp_coord(self.y as i128 + other.y as i128),
        }
    }

    /// Componentwise difference, clamped to the coordinate bound.
    pub open spec fn sub_spec(self, other: Vec2) -> Vec2 {
        Vec2 {
            x: clamp_coord_spec(self.x - other.x) as i64,
            y: clamp_coord_spec(self.y - other.y) as i64,
        }
    }

    pub fn sub(&self, other: &Vec2) -> (v: Vec2)
        requires
            self.wf(),
            other.wf(),
        ensures
            v == self.sub_spec(*other),
            v.wf(),
    {
        Vec2 {
            x: clamp_coord(self.x as i128 - other.x as i128),
            y: clamp_coord(self.y as i128 - other.y as i128),
        }
    }

    /// Scale by a fixed-point factor in thousandths (truncating, sign-aware),
    /// clamped to the coordinate bound.
    pub open spec fn scale_spec(self, factor_milli: int) -> Vec2 {
        Vec2 {
            x: clamp_coord_spec(mul_milli_spec(self.x as int, factor_milli)) as i64,
            y: clamp_coord_spec(mul_milli_spec(self.y as int, factor_milli)) as i64,
        }
    }

    pub fn scale(&self, factor_milli: i64) -> (v: Vec2)
        requires
            self.wf(),
            -1_000_000_000_000 <= factor_milli <= 1_000_000_000_000,
        ensures
            v == self.scale_spec(factor_milli as int),
            v.wf(),
    {
        Vec2 {
            x: clamp_coord(mul_milli(self.x, factor_milli)),
            y: clamp_coord(mul_milli(self.y, factor_milli)),
        }
    }

    /// Round each coordinate to the nearest whole unit (half away from zero),
    /// the grid snap used when placing objects.
    pub open spec fn round_unit_spec(self) -> Vec2 {
        Vec2 { x: round_coord_spec(self.x as int) as i64, y: round_coord_spec(self.y as int) as i64 }
    }

    pub fn round_unit(&self) -> (v: Vec2)
        requires
            self.wf(),
        ensures
            v == self.round_unit_spec(),
            v.wf(),
    {
        Vec2 { x: round_coord(self.x), y: round_coord(self.y) }
    }

    /// Mirror one or both axes.
    pub open spec fn invert_spec(self, ix: bool, iy: bool) -> Vec2 {
        Vec2 {
            x: if ix { (-self.x) as i64 } else { self.x },
            y: if iy { (-self.y) as i64 } else { self.y },
        }
    }

    pub fn invert(&self, ix: bool, iy: bool) -> (v: Vec2)
        requires
            self.wf(),
        ensures
            v == self.invert_spec(ix, iy),
            v.wf(),
    {
        Vec2 {
            x: if ix { -self.x } else { self.x },
            y: if iy { -self.y } else { self.y },
        }
    }
}

/// |x| and |y| are both at most the length of (x, y).
proof fn lemma_abs_le_len(x: int, y: int, len: int)
    requires
        len == sqrt_floor((x * x + y * y) as nat),
    ensures
        -len <= x <= len,
        -len <= y <= len,
{
    lemma_sqrt_floor((x * x + y * y) as nat);
    assert(0 <= x * x && 0 <= y * y) by (nonlinear_arith);
    assert(-len <= x <= len && -len <= y <= len) by (nonlinear_arith)
        requires
            0 <= len,
            x * x + y * y < (len + 1) * (len + 1),
            0 <= x * x,
            0 <= y * y,
    ;
}

/// `c * 1000 / len` stays within ±1000 when |c| ≤ len.
proof fn lemma_div_scale_bound(c: int, len: int)
    requires
        0 <= c <= len,
        0 < len,
    ensures
        0 <= c * 1000 / len <= 1000,
{
    assert(c * 1000 <= len * 1000) by (nonlinear_arith)
        requires
            c <= len,
    ;
    assert(0 <= c * 1000 / len <= 1000) by (nonlinear_arith)
        requires
            0 < len,
            0 <= c * 1000 <= len * 1000,
    ;
}

/// Clamp a wide intermediate coordinate back into the representable band.
pub open spec fn clamp_coord_spec(v: int) -> int {
    if v > POS_LIMIT {
        POS_LIMIT as int
    } else if v < -POS_LIMIT {
        -POS_LIMIT as int
    } else {
        v
    }
}

pub fn clamp_coord(v: i128) -> (r: i64)
    ensures
        r == clamp_coord_spec(v as int),
        -POS_LIMIT <= r <= POS_LIMIT,
{
    if v > POS_LIMIT as i128 {
        POS_LIMIT
    } else if v < -(POS_LIMIT as i128) {
        -POS_LIMIT
    } else {
        v as i64
    }
}

/// Fixed-point product: `a * f / 1000`, truncating, sign-aware.
pub open spec fn mul_milli_spec(a: int, f: int) -> int {
    let p = a * f;
    if p >= 0 {
        p / 1000
    } else {
        -((-p) / 1000)
    }
}

pub fn mul_milli(a: i64, f: i64) -> (r: i128)
    requires
        -POS_LIMIT <= a <= POS_LIMIT,
        -1_000_000_000_000 <= f <= 1_000_000_000_000,
    ensures
        r == mul_milli_spec(a as int, f as int),
{
    proof {
        assert(a as int * f as int <= 2_000_000_000_000_000_000_000 && a as int * f as int
            >= -2_000_000_000_000_000_000_000) by (nonlinear_arith)
            requires
                -2_000_000_000 <= a as int <= 2_000_000_000,
                -1_000_000_000_000 <= f as int <= 1_000_000_000_000,
        ;
    }
    let p: i128 = a as i128 * f as i128;
    if p >= 0 {
        p / 1000
    } else {
        -((-p) / 1000)
    }
}

/// Round a milli-unit coordinate to the nearest whole unit, half away from
/// zero.
pub open spec fn round_coord_spec(x: int) -> int {
    if x >= 0 {
        ((x + 500) / 1000) * 1000
    } else {
        -(((-x + 500) / 1000) * 1000)
    }
}

pub fn round_coord(x: i64) -> (r: i64)
    requires
        -POS_LIMIT <= x <= POS_LIMIT,
    ensures
        r == round_coord_spec(x as int),
        -POS_LIMIT <= r <= POS_LIMIT,
{
    if x >= 0 {
        let q = (x + 500) / 1000;
        proof {
            assert(q * 1000 <= x + 500 && 0 <= q) by (nonlinear_arith)
                requires
                    q == (x + 500) / 1000,
                    0 <= x,
            ;
        }
        q * 1000
    } else {
        let q = (-x + 500) / 1000;
        proof {
            assert(q * 1000 <= -x + 500 && 0 <= q) by (nonlinear_arith)
                requires
                    q == (-x + 500) / 1000,
                    x < 0,
            ;
        }
        -(q * 1000)
    }
}

} // verus!
