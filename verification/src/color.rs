use vstd::prelude::*;

verus! {

/// A color with channels in thousandths: 0 is none of the channel, 1000 is
/// all of it.
#[derive(Clone, Copy, Debug, PartialEq, Eq, Structural)]
pub struct Color {
    pub r: i64,
    pub g: i64,
    pub b: i64,
    pub a: i64,
}

impl Color {
    pub open spec fn wf(self) -> bool {
        &&& 0 <= self.r <= 1000
        &&& 0 <= self.g <= 1000
        &&& 0 <= self.b <= 1000
        &&& 0 <= self.a <= 1000
    }

    pub fn white() -> (c: Color)
        ensures
            c == (Color { r: 1000, g: 1000, b: 1000, a: 1000 }),
            c.wf(),
    {
        Color { r: 1000, g: 1000, b: 1000, a: 1000 }
    }

    pub fn black() -> (c: Color)
        ensures
            c == (Color { r: 0, g: 0, b: 0, a: 1000 }),
            c.wf(),
    {
        Color { r: 0, g: 0, b: 0, a: 1000 }
    }

    pub fn green() -> (c: Color)
        ensures
            c == (Color { r: 0, g: 1000, b: 0, a: 1000 }),
            c.wf(),
    {
        Color { r: 0, g: 1000, b: 0, a: 1000 }
    }

    pub fn yellow() -> (c: Color)
        ensures
            c == (Color { r: 1000, g: 1000, b: 0, a: 1000 }),
            c.wf(),
    {
        Color { r: 1000, g: 1000, b: 0, a: 1000 }
    }

    /// The tint of the lone starting enemy; a kill of this color pays the
    /// elite bonus.
    pub fn purple() -> (c: Color)
        ensures
            c == (Color { r: 900, g: 800, b: 850, a: 1000 }),
            c.wf(),
    {
        Color { r: 900, g: 800, b: 850, a: 1000 }
    }
}

/// One linearly interpolated channel: `a + (b - a) * t / 1000`, truncating
/// toward zero.
pub open spec fn lerp_channel_spec(a: int, b: int, t: int) -> int {
    let d = (b - a) * t;
    if d >= 0 {
        a + d / 1000
    } else {
        a - ((-d) / 1000)
    }
}

pub fn lerp_channel(a: i64, b: i64, t: i64) -> (r: i64)
    requires
        0 <= a <= 1000,
        0 <= b <= 1000,
        0 <= t <= 1000,
    ensures
        r == lerp_channel_spec(a as int, b as int, t as int),
        0 <= r <= 1000,
{
    proof {
        lemma_lerp_bound(a as int, b as int, t as int);
    }
    let d: i64 = (b - a) * t;
    if d >= 0 {
        a + d / 1000
    } else {
        a - ((-d) / 1000)
    }
}

proof fn lemma_lerp_bound(a: int, b: int, t: int)
    requires
        0 <= a <= 1000,
        0 <= b <= 1000,
        0 <= t <= 1000,
    ensures
        0 <= lerp_channel_spec(a, b, t) <= 1000,
        -1_000_000 <= (b - a) * t <= 1_000_000,
{
    let d = (b - a) * t;
    assert(-1_000_000 <= d <= 1_000_000) by (nonlinear_arith)
        requires
            d == (b - a) * t,
            -1000 <= b - a <= 1000,
            0 <= t <= 1000,
    ;
    if d >= 0 {
        assert(d / 1000 <= 1000 - a) by (nonlinear_arith)
            requires
                d == (b - a) * t,
                0 <= d,
                0 <= t <= 1000,
                0 <= a <= 1000,
                0 <= b <= 1000,
        ;
    } else {
        assert((-d) / 1000 <= a) by (nonlinear_arith)
            requires
                d == (b - a) * t,
                d < 0,
                0 <= t <= 1000,
                0 <= a <= 1000,
                0 <= b <= 1000,
        ;
    }
}

/// Blend two colors: with `t` in thousandths, `t == 1000` gives the first
/// color and `t == 0` the second, matching the inverted-parameter blend the
/// damage tint uses.
pub open spec fn color_lerp_spec(a: Color, b: Color, t: int) -> Color {
    let u = 1000 - t;
    Color {
        r: lerp_channel_spec(a.r as int, b.r as int, u) as i64,
        g: lerp_channel_spec(a.g as int, b.g as int, u) as i64,
        b: lerp_channel_spec(a.b as int, b.b as int, u) as i64,
        a: lerp_channel_spec(a.a as int, b.a as int, u) as i64,
    }
}

pub fn color_lerp(a: Color, b: Color, t_milli: i64) -> (c: Color)
    requires
        a.wf(),
        b.wf(),
        0 <= t_milli <= 1000,
    ensures
        c == color_lerp_spec(a, b, t_milli as int),
        c.wf(),
{
    let u = 1000 - t_milli;
    Color {
        r: lerp_channel(a.r, b.r, u),
        g: lerp_channel(a.g, b.g, u),
        b: lerp_channel(a.b, b.b, u),
        a: lerp_channel(a.a, b.a, u),
    }
}

} // verus!
