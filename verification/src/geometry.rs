//! Fixed-point plane geometry: points, displacement vectors, squared
//! distances, midpoints and integer square roots.

use vstd::prelude::*;

verus! {

/// Number of coordinate steps in one unit of length.
pub const UNIT: i32 = 1000;

/// A position in the plane. Coordinates are fixed-point numbers: one unit of
/// length is [`UNIT`] steps.
#[derive(Clone, Copy, Debug, PartialEq, Eq, Structural)]
pub struct Point {
    pub x: i32,
    pub y: i32,
}

/// A displacement between two positions, in the same steps as [`Point`].
#[derive(Clone, Copy, Debug, PartialEq, Eq, Structural)]
pub struct Vec2 {
    pub x: i64,
    pub y: i64,
}

/// `r` is the square root of `n`, rounded down.
pub open spec fn is_floor_sqrt(n: nat, r: nat) -> bool {
    r * r <= n < (r + 1) * (r + 1)
}

/// The square root of `n`, rounded down.
pub open spec fn floor_sqrt(n: nat) -> nat {
    choose|r: nat| is_floor_sqrt(n, r)
}

/// Every natural number has a rounded-down square root.
pub proof fn lemma_floor_sqrt_exists(n: nat)
    ensures
        is_floor_sqrt(n, floor_sqrt(n)),
    decreases n,
{
    if n == 0 {
        assert(is_floor_sqrt(0, 0)) by (nonlinear_arith);
    } else {
        lemma_floor_sqrt_exists((n - 1) as nat);
        let r = floor_sqrt((n - 1) as nat);
        if (r + 1) * (r + 1) <= n {
            assert(is_floor_sqrt(n, r + 1)) by (nonlinear_arith)
                requires
                    (r + 1) * (r + 1) <= n,
                    n - 1 < (r + 1) * (r + 1),
            ;
        } else {
            assert(is_floor_sqrt(n, r));
        }
    }
}

/// The rounded-down square root is unique.
pub proof fn lemma_floor_sqrt_unique(n: nat, r: nat)
    requires
        is_floor_sqrt(n, r),
    ensures
        floor_sqrt(n) == r,
{
    lemma_floor_sqrt_exists(n);
    let s = floor_sqrt(n);
    if s < r {
        assert((s + 1) * (s + 1) <= r * r) by (nonlinear_arith)
            requires
                s + 1 <= r,
        ;
    } else if r < s {
        assert((r + 1) * (r + 1) <= s * s) by (nonlinear_arith)
            requires
                r + 1 <= s,
        ;
    }
}

/// Computes the square root of `n`, rounded down.
pub fn isqrt(n: u128) -> (r: u64)
    ensures
        r == floor_sqrt(n as nat),
        is_floor_sqrt(n as nat, r as nat),
{
    let mut lo: u128 = 0;
    let mut hi: u128 = 0x1_0000_0000_0000_0000;
    assert(n < hi * hi) by (nonlinear_arith)
        requires
            hi == 0x1_0000_0000_0000_0000,
            n <= u128::MAX,
    ;
    while hi - lo > 1
        invariant
            lo < hi <= 0x1_0000_0000_0000_0000,
            lo * lo <= n < hi * hi,
        decreases hi - lo,
    {
        let mid: u128 = lo + (hi - lo) / 2;
        assert(mid * mid <= u128::MAX) by (nonlinear_arith)
            requires
                mid <= 0xFFFF_FFFF_FFFF_FFFF,
        ;
        if mid * mid <= n {
            lo = mid;
        } else {
            hi = mid;
        }
    }
    proof {
        lemma_floor_sqrt_unique(n as nat, lo as nat);
    }
    lo as u64
}

impl Point {
    /// The square of the Euclidean distance between two points.
    pub open spec fn spec_distance_squared(self, other: Point) -> nat {
        ((self.x - other.x) * (self.x - other.x) + (self.y - other.y) * (self.y - other.y)) as nat
    }

    /// The point halfway between two points, each coordinate rounded down.
    pub open spec fn spec_midpoint(self, other: Point) -> Point {
        Point { x: ((self.x + other.x) / 2) as i32, y: ((self.y + other.y) / 2) as i32 }
    }

    /// The displacement that leads from `other` to `self`.
    pub open spec fn spec_minus(self, other: Point) -> Vec2 {
        Vec2 { x: (self.x - other.x) as i64, y: (self.y - other.y) as i64 }
    }

    /// The point with the coordinates `x` and `y`.
    pub fn new(x: i32, y: i32) -> (p: Point)
        ensures
            p == (Point { x, y }),
    {
        Point { x, y }
    }

    /// The square of the Euclidean distance between two points. It is exact,
    /// and below `2^65` for all points.
    pub fn distance_squared(self, other: Point) -> (d: u128)
        ensures
            d == self.spec_distance_squared(other),
            d <= MAX_DISTANCE_SQUARED,
    {
        let dx: i64 = self.x as i64 - other.x as i64;
        let dy: i64 = self.y as i64 - other.y as i64;
        let ax: u128 = magnitude(dx);
        let ay: u128 = magnitude(dy);
        assert(ax * ax == dx * dx && ax * ax <= 0xFFFF_FFFF * 0xFFFF_FFFF) by (nonlinear_arith)
            requires
                ax == dx || ax == -dx,
                ax <= 0xFFFF_FFFF,
        ;
        assert(ay * ay == dy * dy && ay * ay <= 0xFFFF_FFFF * 0xFFFF_FFFF) by (nonlinear_arith)
            requires
                ay == dy || ay == -dy,
                ay <= 0xFFFF_FFFF,
        ;
        ax * ax + ay * ay
    }

    /// The Euclidean distance between two points, rounded down.
    pub fn distance(self, other: Point) -> (d: u64)
        ensures
            d == floor_sqrt(self.spec_distance_squared(other)),
    {
        isqrt(self.distance_squared(other))
    }

    /// The point halfway between two points, each coordinate rounded down.
    pub fn midpoint(self, other: Point) -> (m: Point)
        ensures
            m == self.spec_midpoint(other),
            2 * m.x <= self.x + other.x <= 2 * m.x + 1,
            2 * m.y <= self.y + other.y <= 2 * m.y + 1,
    {
        Point { x: half_floor(self.x, other.x), y: half_floor(self.y, other.y) }
    }

    /// The displacement that leads from `other` to `self`.
    pub fn minus(self, other: Point) -> (v: Vec2)
        ensures
            v == self.spec_minus(other),
            v.x == self.x - other.x,
            v.y == self.y - other.y,
    {
        Vec2 { x: self.x as i64 - other.x as i64, y: self.y as i64 - other.y as i64 }
    }
}

/// Largest squared distance between two points.
pub const MAX_DISTANCE_SQUARED: u128 = 0x1_FFFF_FFFC_0000_0002;

/// Two points are never farther apart than [`MAX_DISTANCE_SQUARED`], squared.
pub proof fn lemma_distance_squared_bounded(a: Point, b: Point)
    ensures
        a.spec_distance_squared(b) <= MAX_DISTANCE_SQUARED,
{
    let dx = a.x - b.x;
    let dy = a.y - b.y;
    assert(0 <= dx * dx <= 0xFFFF_FFFF * 0xFFFF_FFFF) by (nonlinear_arith)
        requires
            -0xFFFF_FFFF <= dx <= 0xFFFF_FFFF,
    ;
    assert(0 <= dy * dy <= 0xFFFF_FFFF * 0xFFFF_FFFF) by (nonlinear_arith)
        requires
            -0xFFFF_FFFF <= dy <= 0xFFFF_FFFF,
    ;
}

/// The absolute value of a difference of two coordinates.
fn magnitude(d: i64) -> (a: u128)
    requires
        -0xFFFF_FFFF <= d <= 0xFFFF_FFFF,
    ensures
        a == (if d < 0 { -d } else { d as int }),
{
    if d < 0 {
        (-d) as u128
    } else {
        d as u128
    }
}

/// Half the sum of two coordinates, rounded down.
fn half_floor(a: i32, b: i32) -> (h: i32)
    ensures
        h == (a + b) / 2,
        2 * h <= a + b <= 2 * h + 1,
{
    let s: i64 = a as i64 + b as i64;
    if s >= 0 {
        (s / 2) as i32
    } else {
        (-((1 - s) / 2)) as i32
    }
}

} // verus!
