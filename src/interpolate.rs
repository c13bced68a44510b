use vstd::prelude::*;

verus! {

/// A position between two values: `num / den`, with `0 <= num <= den` and `den > 0`.
#[derive(Clone, Copy, Debug, PartialEq, Eq, Structural)]
pub struct Fraction {
    pub num: u64,
    pub den: u64,
}

impl Fraction {
    pub open spec fn wf(self) -> bool {
        self.den > 0 && self.num <= self.den
    }

    /// The start of a transition.
    pub fn zero() -> (r: Fraction)
        ensures
            r.wf(),
            r.num == 0,
    {
        Fraction { num: 0, den: 1 }
    }

    /// The end of a transition.
    pub fn one() -> (r: Fraction)
        ensures
            r.wf(),
            r.num == r.den,
    {
        Fraction { num: 1, den: 1 }
    }
}

/// Linear interpolation between two integers at `num / den`, rounded towards `a`.
pub open spec fn lerp(a: int, b: int, num: int, den: int) -> int {
    if b >= a {
        a + (b - a) * num / den
    } else {
        a - (a - b) * num / den
    }
}

/// `d * num / den` stays within `[0, d]` when `num <= den`.
proof fn lemma_scaled_bounds(d: int, num: int, den: int)
    requires
        0 <= d,
        0 <= num <= den,
        0 < den,
    ensures
        0 <= d * num / den <= d,
        num == 0 ==> d * num / den == 0,
        num == den ==> d * num / den == d,
{
    assert(0 <= d * num <= d * den) by (nonlinear_arith)
        requires
            0 <= d,
            0 <= num <= den,
    ;
    vstd::arithmetic::div_mod::lemma_div_is_ordered(d * num, d * den, den);
    vstd::arithmetic::div_mod::lemma_div_is_ordered(0, d * num, den);
    assert(d * den == den * d) by (nonlinear_arith);
    vstd::arithmetic::div_mod::lemma_div_multiples_vanish(d, den);
    if num == 0 {
        assert(d * num == 0);
    }
}

/// Values that can be blended between two instances at a fractional position.
pub trait Interpolate: Sized {
    /// The value at position `t` between `a` and `b`.
    spec fn blend_spec(a: Self, b: Self, t: Fraction) -> Self;

    fn blend(a: &Self, b: &Self, t: Fraction) -> (r: Self)
        requires
            t.wf(),
        ensures
            r == Self::blend_spec(*a, *b, t),
    ;

    /// Blending at position zero gives the first value, at position one the second.
    proof fn lemma_blend_ends(a: Self, b: Self, t: Fraction)
        requires
            t.wf(),
        ensures
            t.num == 0 ==> Self::blend_spec(a, b, t) == a,
            t.num == t.den ==> Self::blend_spec(a, b, t) == b,
    ;
}

/// Interpolates one integer component.
pub fn lerp_i64(a: i64, b: i64, t: Fraction) -> (r: i64)
    requires
        t.wf(),
    ensures
        r == lerp(a as int, b as int, t.num as int, t.den as int),
        t.num == 0 ==> r == a,
        t.num == t.den ==> r == b,
{
    proof {
        let d = if b >= a { b - a } else { a - b };
        lemma_scaled_bounds(d as int, t.num as int, t.den as int);
        assert(d * t.num <= u64::MAX * u64::MAX) by (nonlinear_arith)
            requires
                0 <= d <= u64::MAX,
                0 <= t.num <= u64::MAX,
        ;
    }
    if b >= a {
        let d: u128 = (b as i128 - a as i128) as u128;
        let q: u128 = d * (t.num as u128) / (t.den as u128);
        (a as i128 + q as i128) as i64
    } else {
        let d: u128 = (a as i128 - b as i128) as u128;
        let q: u128 = d * (t.num as u128) / (t.den as u128);
        (a as i128 - q as i128) as i64
    }
}

impl Interpolate for i64 {
    open spec fn blend_spec(a: i64, b: i64, t: Fraction) -> i64 {
        lerp(a as int, b as int, t.num as int, t.den as int) as i64
    }

    fn blend(a: &i64, b: &i64, t: Fraction) -> (r: i64) {
        lerp_i64(*a, *b, t)
    }

    proof fn lemma_blend_ends(a: i64, b: i64, t: Fraction) {
        let d = if b >= a { b - a } else { a - b };
        lemma_scaled_bounds(d as int, t.num as int, t.den as int);
    }
}

/// A vector of three integer components.
#[derive(Clone, Copy, Debug, PartialEq, Eq, Structural)]
pub struct Vec3 {
    pub x: i64,
    pub y: i64,
    pub z: i64,
}

impl Vec3 {
    pub fn new(x: i64, y: i64, z: i64) -> (r: Vec3)
        ensures
            r == (Vec3 { x, y, z }),
    {
        Vec3 { x, y, z }
    }
}

impl Interpolate for Vec3 {
    open spec fn blend_spec(a: Vec3, b: Vec3, t: Fraction) -> Vec3 {
        Vec3 {
            x: i64::blend_spec(a.x, b.x, t),
            y: i64::blend_spec(a.y, b.y, t),
            z: i64::blend_spec(a.z, b.z, t),
        }
    }

    fn blend(a: &Vec3, b: &Vec3, t: Fraction) -> (r: Vec3) {
        Vec3 { x: lerp_i64(a.x, b.x, t), y: lerp_i64(a.y, b.y, t), z: lerp_i64(a.z, b.z, t) }
    }

    proof fn lemma_blend_ends(a: Vec3, b: Vec3, t: Fraction) {
        i64::lemma_blend_ends(a.x, b.x, t);
        i64::lemma_blend_ends(a.y, b.y, t);
        i64::lemma_blend_ends(a.z, b.z, t);
    }
}

/// Blending any interpolatable values at position zero gives the first value,
/// and at position one gives the second.
pub proof fn lemma_blend_boundary<T: Interpolate>(a: T, b: T, t: Fraction)
    requires
        t.wf(),
    ensures
        t.num == 0 ==> T::blend_spec(a, b, t) == a,
        t.num == t.den ==> T::blend_spec(a, b, t) == b,
{
    T::lemma_blend_ends(a, b, t);
}

} // verus!
