use vstd::prelude::*;

verus! {

/// Magnitude of `a`.
pub open spec fn abs(a: int) -> int {
    if a >= 0 {
        a
    } else {
        -a
    }
}

/// Quotient of `a` by a nonzero `d`, rounded toward zero.
pub open spec fn trunc_div(a: int, d: int) -> int {
    let q = abs(a) / abs(d);
    if (a >= 0) == (d > 0) {
        q
    } else {
        -q
    }
}

/// A pair of fixed-point coordinates: a position or a velocity.
#[derive(Debug, Clone, Copy, PartialEq, Eq, Structural)]
pub struct Vec2 {
    pub x: i64,
    pub y: i64,
}

fn magnitude(n: i64) -> (m: u64)
    ensures
        m == abs(n as int),
{
    if n >= 0 {
        n as u64
    } else {
        (-(n as i128)) as u64
    }
}

fn div_axis(n: i64, d: i64) -> (q: i64)
    requires
        d != 0,
        !(d == -1 && n == i64::MIN),
    ensures
        q == trunc_div(n as int, d as int),
{
    let nm = magnitude(n);
    let dm = magnitude(d);
    let qm: u64 = nm / dm;
    proof {
        vstd::arithmetic::div_mod::lemma_div_is_ordered_by_denominator(nm as int, 1, dm as int);
        if dm >= 2 {
            vstd::arithmetic::div_mod::lemma_div_is_ordered_by_denominator(nm as int, 2, dm as int);
        }
    }
    if (n >= 0) == (d > 0) {
        qm as i64
    } else {
        (-(qm as i128)) as i64
    }
}

impl Vec2 {
    pub fn new(x: i64, y: i64) -> (r: Vec2)
        ensures
            r == (Vec2 { x, y }),
    {
        Vec2 { x, y }
    }

    /// Componentwise sum.
    pub fn add(self, rhs: Vec2) -> (r: Vec2)
        requires
            i64::MIN <= self.x + rhs.x <= i64::MAX,
            i64::MIN <= self.y + rhs.y <= i64::MAX,
        ensures
            r.x == self.x + rhs.x,
            r.y == self.y + rhs.y,
    {
        Vec2 { x: self.x + rhs.x, y: self.y + rhs.y }
    }

    /// Divides both coordinates by a nonzero scalar, rounding toward zero.
    pub fn div(self, d: i64) -> (r: Vec2)
        requires
            d != 0,
            !(d == -1 && (self.x == i64::MIN || self.y == i64::MIN)),
        ensures
            r.x == trunc_div(self.x as int, d as int),
            r.y == trunc_div(self.y as int, d as int),
    {
        Vec2 { x: div_axis(self.x, d), y: div_axis(self.y, d) }
    }
}

} // verus!
