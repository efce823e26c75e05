//! Fixed-point world geometry.
//!
//! World coordinates are integers in thousandths of a world unit, so that
//! distances compare exactly. A real distance `d` is below a radius `r`
//! exactly when `d * d < r * r`, which is how every range test of the
//! library is stated.
use vstd::prelude::*;

verus! {

/// Thousandths per world unit: the scale of coordinates, distances and
/// unit directions.
pub const UNIT: i64 = 1000;

/// Largest absolute coordinate, in thousandths (a billion world units).
pub const WORLD_BOUND: i64 = 1_000_000_000_000;

/// A point of the world, in thousandths of a unit; `y` is height.
#[derive(Clone, Copy, Debug, PartialEq, Eq, Structural)]
pub struct Point {
    pub x: i64,
    pub y: i64,
    pub z: i64,
}

/// A horizontal direction scaled to `UNIT` (a unit vector in thousandths),
/// or zero where no direction exists.
#[derive(Clone, Copy, Debug, PartialEq, Eq, Structural)]
pub struct Heading {
    pub x: i64,
    pub z: i64,
}

pub open spec fn in_world(v: int) -> bool {
    -WORLD_BOUND <= v <= WORLD_BOUND
}

impl Point {
    pub open spec fn wf(&self) -> bool {
        in_world(self.x as int) && in_world(self.y as int) && in_world(self.z as int)
    }

    pub fn new(x: i64, y: i64, z: i64) -> (p: Point)
        ensures
            p == (Point { x, y, z }),
    {
        Point { x, y, z }
    }

    pub fn origin() -> (p: Point)
        ensures
            p == (Point { x: 0, y: 0, z: 0 }),
            p.wf(),
    {
        Point { x: 0, y: 0, z: 0 }
    }
}

impl Heading {
    pub open spec fn wf(&self) -> bool {
        -UNIT <= self.x <= UNIT && -UNIT <= self.z <= UNIT
    }

    pub fn zero() -> (h: Heading)
        ensures
            h == (Heading { x: 0, z: 0 }),
    {
        Heading { x: 0, z: 0 }
    }

    pub open spec fn is_zero(&self) -> bool {
        self.x == 0 && self.z == 0
    }
}

/// Squared distance between two points.
pub open spec fn dist_sq(a: Point, b: Point) -> int {
    (a.x - b.x) * (a.x - b.x) + (a.y - b.y) * (a.y - b.y) + (a.z - b.z) * (a.z - b.z)
}

/// Squared distance between two points, ignoring height.
pub open spec fn flat_dist_sq(a: Point, b: Point) -> int {
    (a.x - b.x) * (a.x - b.x) + (a.z - b.z) * (a.z - b.z)
}

/// The real distance from `a` to `b` is below `r` (`r` in thousandths).
pub open spec fn within(a: Point, b: Point, r: int) -> bool {
    dist_sq(a, b) < r * r
}

/// The real distance from `a` to `b` is above `r`.
pub open spec fn beyond(a: Point, b: Point, r: int) -> bool {
    dist_sq(a, b) > r * r
}

/// `r` is the integer square root of `n`, rounded down.
pub open spec fn is_root(r: int, n: int) -> bool {
    0 <= r && r * r <= n && n < (r + 1) * (r + 1)
}

/// The integer square root of `n`, rounded down (for `n >= 0`).
pub open spec fn floor_sqrt(n: int) -> int {
    choose|r: int| is_root(r, n)
}

/// The distance between two points in whole thousandths, rounded down.
pub open spec fn distance(a: Point, b: Point) -> int {
    floor_sqrt(dist_sq(a, b))
}

/// Largest squared distance between two points of the world.
pub const MAX_DIST_SQ: u128 = 12_000_000_000_000_000_000_000_000;

pub proof fn lemma_root_unique(r1: int, r2: int, n: int)
    requires
        is_root(r1, n),
        is_root(r2, n),
    ensures
        r1 == r2,
{
    if r1 < r2 {
        assert((r1 + 1) * (r1 + 1) <= r2 * r2) by (nonlinear_arith)
            requires
                0 <= r1 < r2,
        ;
    } else if r2 < r1 {
        assert((r2 + 1) * (r2 + 1) <= r1 * r1) by (nonlinear_arith)
            requires
                0 <= r2 < r1,
        ;
    }
}

pub proof fn lemma_floor_sqrt_is(r: int, n: int)
    requires
        is_root(r, n),
    ensures
        floor_sqrt(n) == r,
{
    assert(exists|q: int| is_root(q, n));
    lemma_root_unique(floor_sqrt(n), r, n);
}

pub proof fn lemma_floor_sqrt_nonneg(n: int)
    requires
        n >= 0,
    ensures
        floor_sqrt(n) >= 0,
{
    lemma_root_exists(n);
}

/// Every non-negative integer has an integer square root.
pub proof fn lemma_root_exists(n: int)
    requires
        n >= 0,
    ensures
        is_root(floor_sqrt(n), n),
    decreases n,
{
    if n == 0 {
        assert(is_root(0, 0));
    } else {
        lemma_root_exists(n - 1);
        let r = floor_sqrt(n - 1);
        if (r + 1) * (r + 1) <= n {
            assert(n < (r + 2) * (r + 2)) by (nonlinear_arith)
                requires
                    n - 1 < (r + 1) * (r + 1),
                    r >= 0,
            ;
            assert(is_root(r + 1, n));
        } else {
            assert(is_root(r, n));
        }
    }
}

pub proof fn lemma_dist_sq_bounded(a: Point, b: Point)
    requires
        a.wf(),
        b.wf(),
    ensures
        0 <= flat_dist_sq(a, b) <= dist_sq(a, b) <= MAX_DIST_SQ,
{
    let dx = a.x - b.x;
    let dy = a.y - b.y;
    let dz = a.z - b.z;
    assert(0 <= dx * dx <= 4_000_000_000_000_000_000_000_000) by (nonlinear_arith)
        requires
            -2_000_000_000_000 <= dx <= 2_000_000_000_000,
    ;
    assert(0 <= dy * dy <= 4_000_000_000_000_000_000_000_000) by (nonlinear_arith)
        requires
            -2_000_000_000_000 <= dy <= 2_000_000_000_000,
    ;
    assert(0 <= dz * dz <= 4_000_000_000_000_000_000_000_000) by (nonlinear_arith)
        requires
            -2_000_000_000_000 <= dz <= 2_000_000_000_000,
    ;
}

/// Integer square root, rounded down, by bisection.
pub fn isqrt(n: u128) -> (r: u64)
    requires
        n <= MAX_DIST_SQ,
    ensures
        is_root(r as int, n as int),
        r as int == floor_sqrt(n as int),
        r <= 4_000_000_000_000,
{
    let mut lo: u128 = 0;
    let mut hi: u128 = 4_000_000_000_000;
    while hi - lo > 1
        invariant
            lo < hi <= 4_000_000_000_000,
            lo * lo <= n,
            n < hi * hi,
        decreases hi - lo,
    {
        let mid: u128 = lo + (hi - lo) / 2;
        assert(mid * mid <= 16_000_000_000_000_000_000_000_000) by (nonlinear_arith)
            requires
                mid <= 4_000_000_000_000,
        ;
        if mid * mid <= n {
            lo = mid;
        } else {
            hi = mid;
        }
    }
    proof {
        lemma_floor_sqrt_is(lo as int, n as int);
    }
    lo as u64
}

/// Squared distance between two points of the world.
pub fn distance_sq(a: &Point, b: &Point) -> (r: u128)
    requires
        a.wf(),
        b.wf(),
    ensures
        r as int == dist_sq(*a, *b),
        r <= MAX_DIST_SQ,
{
    proof {
        lemma_dist_sq_bounded(*a, *b);
    }
    let dx: i128 = a.x as i128 - b.x as i128;
    let dy: i128 = a.y as i128 - b.y as i128;
    let dz: i128 = a.z as i128 - b.z as i128;
    assert(dx * dx <= 4_000_000_000_000_000_000_000_000) by (nonlinear_arith)
        requires
            -2_000_000_000_000 <= dx <= 2_000_000_000_000,
    ;
    assert(dy * dy <= 4_000_000_000_000_000_000_000_000) by (nonlinear_arith)
        requires
            -2_000_000_000_000 <= dy <= 2_000_000_000_000,
    ;
    assert(dz * dz <= 4_000_000_000_000_000_000_000_000) by (nonlinear_arith)
        requires
            -2_000_000_000_000 <= dz <= 2_000_000_000_000,
    ;
    (dx * dx + dy * dy + dz * dz) as u128
}

/// Squared distance between two points, ignoring height.
pub fn flat_distance_sq(a: &Point, b: &Point) -> (r: u128)
    requires
        a.wf(),
        b.wf(),
    ensures
        r as int == flat_dist_sq(*a, *b),
        r <= MAX_DIST_SQ,
{
    proof {
        lemma_dist_sq_bounded(*a, *b);
    }
    let dx: i128 = a.x as i128 - b.x as i128;
    let dz: i128 = a.z as i128 - b.z as i128;
    assert(dx * dx <= 4_000_000_000_000_000_000_000_000) by (nonlinear_arith)
        requires
            -2_000_000_000_000 <= dx <= 2_000_000_000_000,
    ;
    assert(dz * dz <= 4_000_000_000_000_000_000_000_000) by (nonlinear_arith)
        requires
            -2_000_000_000_000 <= dz <= 2_000_000_000_000,
    ;
    (dx * dx + dz * dz) as u128
}

/// The distance between two points in whole thousandths, rounded down.
pub fn distance_between(a: &Point, b: &Point) -> (r: u64)
    requires
        a.wf(),
        b.wf(),
    ensures
        r as int == distance(*a, *b),
        r <= 4_000_000_000_000,
{
    isqrt(distance_sq(a, b))
}

/// Whether the real distance from `a` to `b` is below `r` thousandths.
pub fn is_within(a: &Point, b: &Point, r: u64) -> (res: bool)
    requires
        a.wf(),
        b.wf(),
    ensures
        res == within(*a, *b, r as int),
{
    let d = distance_sq(a, b);
    if r >= 4_000_000_000_000 {
        assert(r * r >= 16_000_000_000_000_000_000_000_000) by (nonlinear_arith)
            requires
                r >= 4_000_000_000_000,
        ;
        return true;
    }
    let rr: u128 = r as u128;
    assert(rr * rr < 16_000_000_000_000_000_000_000_000) by (nonlinear_arith)
        requires
            rr < 4_000_000_000_000,
    ;
    d < rr * rr
}

/// Whether the real distance from `a` to `b` is above `r` thousandths.
pub fn is_beyond(a: &Point, b: &Point, r: u64) -> (res: bool)
    requires
        a.wf(),
        b.wf(),
    ensures
        res == beyond(*a, *b, r as int),
{
    let d = distance_sq(a, b);
    if r >= 4_000_000_000_000 {
        assert(r * r >= 16_000_000_000_000_000_000_000_000) by (nonlinear_arith)
            requires
                r >= 4_000_000_000_000,
        ;
        return false;
    }
    let rr: u128 = r as u128;
    assert(rr * rr < 16_000_000_000_000_000_000_000_000) by (nonlinear_arith)
        requires
            rr < 4_000_000_000_000,
    ;
    d > rr * rr
}

/// `num * UNIT / len`, rounded toward zero.
pub open spec fn scaled(num: int, len: int) -> int {
    if num >= 0 {
        num * UNIT / len
    } else {
        -((-num) * UNIT / len)
    }
}

/// The horizontal unit direction of the offset `(dx, dz)`, in thousandths,
/// rounded toward zero; zero for a zero offset.
pub open spec fn unit_of(dx: int, dz: int) -> Heading {
    let len = floor_sqrt(dx * dx + dz * dz);
    if len == 0 {
        Heading { x: 0, z: 0 }
    } else {
        Heading { x: scaled(dx, len) as i64, z: scaled(dz, len) as i64 }
    }
}

/// The horizontal direction from `from` toward `to`.
pub open spec fn heading_toward(from: Point, to: Point) -> Heading {
    unit_of(to.x - from.x, to.z - from.z)
}

proof fn lemma_scaled_bounded(num: int, len: int, sq: int)
    requires
        len > 0,
        num * num <= sq,
        sq < (len + 1) * (len + 1),
    ensures
        -UNIT <= scaled(num, len) <= UNIT,
{
    let a = if num >= 0 { num } else { -num };
    assert(a * a == num * num) by (nonlinear_arith)
        requires
            a == num || a == -num,
    ;
    assert(a <= len) by (nonlinear_arith)
        requires
            a >= 0,
            len > 0,
            a * a < (len + 1) * (len + 1),
    ;
    assert(0 <= a * 1000 / len <= 1000) by (nonlinear_arith)
        requires
            0 <= a <= len,
            len > 0,
    ;
}

/// The horizontal unit direction of the offset `(dx, dz)`.
pub fn unit_direction(dx: i64, dz: i64) -> (h: Heading)
    requires
        -2 * WORLD_BOUND <= dx <= 2 * WORLD_BOUND,
        -2 * WORLD_BOUND <= dz <= 2 * WORLD_BOUND,
    ensures
        h == unit_of(dx as int, dz as int),
        h.wf(),
{
    assert(0 <= dx * dx <= 4_000_000_000_000_000_000_000_000) by (nonlinear_arith)
        requires
            -2_000_000_000_000 <= dx <= 2_000_000_000_000,
    ;
    assert(0 <= dz * dz <= 4_000_000_000_000_000_000_000_000) by (nonlinear_arith)
        requires
            -2_000_000_000_000 <= dz <= 2_000_000_000_000,
    ;
    let xx: i128 = dx as i128 * dx as i128;
    let zz: i128 = dz as i128 * dz as i128;
    let len = isqrt((xx + zz) as u128);
    if len == 0 {
        return Heading { x: 0, z: 0 };
    }
    proof {
        assert(xx <= xx + zz && zz <= xx + zz);
        lemma_scaled_bounded(dx as int, len as int, (xx + zz) as int);
        lemma_scaled_bounded(dz as int, len as int, (xx + zz) as int);
    }
    let x = scale_component(dx, len);
    let z = scale_component(dz, len);
    Heading { x, z }
}

fn scale_component(num: i64, len: u64) -> (r: i64)
    requires
        len > 0,
        -2 * WORLD_BOUND <= num <= 2 * WORLD_BOUND,
        -UNIT <= scaled(num as int, len as int) <= UNIT,
    ensures
        r as int == scaled(num as int, len as int),
{
    if num >= 0 {
        let q: i128 = (num as i128 * 1000) / len as i128;
        q as i64
    } else {
        let q: i128 = (-(num as i128) * 1000) / len as i128;
        -(q as i64)
    }
}

/// The horizontal direction from `from` toward `to`.
pub fn direction_toward(from: &Point, to: &Point) -> (h: Heading)
    requires
        from.wf(),
        to.wf(),
    ensures
        h == heading_toward(*from, *to),
        h.wf(),
{
    unit_direction(to.x - from.x, to.z - from.z)
}

/// A direction in space scaled to `UNIT`, or zero where none exists.
#[derive(Clone, Copy, Debug, PartialEq, Eq, Structural)]
pub struct Direction {
    pub x: i64,
    pub y: i64,
    pub z: i64,
}

impl Direction {
    pub open spec fn wf(&self) -> bool {
        -UNIT <= self.x <= UNIT && -UNIT <= self.y <= UNIT && -UNIT <= self.z <= UNIT
    }
}

/// The unit direction of the offset `(dx, dy, dz)`, in thousandths,
/// rounded toward zero; zero for a zero offset.
pub open spec fn unit3_of(dx: int, dy: int, dz: int) -> Direction {
    let len = floor_sqrt(dx * dx + dy * dy + dz * dz);
    if len == 0 {
        Direction { x: 0, y: 0, z: 0 }
    } else {
        Direction { x: scaled(dx, len) as i64, y: scaled(dy, len) as i64, z: scaled(dz, len) as i64 }
    }
}

/// The direction from `from` toward `to`.
pub open spec fn direction_of(from: Point, to: Point) -> Direction {
    unit3_of(to.x - from.x, to.y - from.y, to.z - from.z)
}

/// The unit direction of the offset `(dx, dy, dz)`.
pub fn unit3(dx: i64, dy: i64, dz: i64) -> (d: Direction)
    requires
        -2 * WORLD_BOUND <= dx <= 2 * WORLD_BOUND,
        -2 * WORLD_BOUND <= dy <= 2 * WORLD_BOUND,
        -2 * WORLD_BOUND <= dz <= 2 * WORLD_BOUND,
    ensures
        d == unit3_of(dx as int, dy as int, dz as int),
        d.wf(),
        dx * dx + dy * dy + dz * dz > 250_000 ==> d.near_unit(),
{
    assert(0 <= dx * dx <= 4_000_000_000_000_000_000_000_000) by (nonlinear_arith)
        requires
            -2_000_000_000_000 <= dx <= 2_000_000_000_000,
    ;
    assert(0 <= dy * dy <= 4_000_000_000_000_000_000_000_000) by (nonlinear_arith)
        requires
            -2_000_000_000_000 <= dy <= 2_000_000_000_000,
    ;
    assert(0 <= dz * dz <= 4_000_000_000_000_000_000_000_000) by (nonlinear_arith)
        requires
            -2_000_000_000_000 <= dz <= 2_000_000_000_000,
    ;
    let xx: i128 = dx as i128 * dx as i128;
    let yy: i128 = dy as i128 * dy as i128;
    let zz: i128 = dz as i128 * dz as i128;
    let n: u128 = (xx + yy + zz) as u128;
    proof {
        if dx * dx + dy * dy + dz * dz > 250_000 {
            lemma_unit3_near_unit(dx as int, dy as int, dz as int);
        }
    }
    let len = isqrt(n);
    if len == 0 {
        return Direction { x: 0, y: 0, z: 0 };
    }
    proof {
        lemma_scaled_bounded(dx as int, len as int, n as int);
        lemma_scaled_bounded(dy as int, len as int, n as int);
        lemma_scaled_bounded(dz as int, len as int, n as int);
    }
    Direction {
        x: scale_component(dx, len),
        y: scale_component(dy, len),
        z: scale_component(dz, len),
    }
}

/// The direction from `from` toward `to`.
pub fn aim_toward(from: &Point, to: &Point) -> (d: Direction)
    requires
        from.wf(),
        to.wf(),
    ensures
        d == direction_of(*from, *to),
        d.wf(),
        dist_sq(*from, *to) > 250_000 ==> d.near_unit(),
{
    let dx = to.x - from.x;
    let dy = to.y - from.y;
    let dz = to.z - from.z;
    assert(dist_sq(*from, *to) == dx * dx + dy * dy + dz * dz) by (nonlinear_arith)
        requires
            dx == to.x - from.x,
            dy == to.y - from.y,
            dz == to.z - from.z,
    ;
    unit3(dx, dy, dz)
}

/// The unit direction from `from` toward `to`, for any two distinct
/// points: an offset shorter than half a unit is first scaled up a
/// thousandfold, which keeps its direction and lets the rounding of the
/// components stay small; zero where the points coincide.
pub open spec fn sight_line(from: Point, to: Point) -> Direction {
    let dx = to.x - from.x;
    let dy = to.y - from.y;
    let dz = to.z - from.z;
    if dx * dx + dy * dy + dz * dz > 250_000 {
        unit3_of(dx, dy, dz)
    } else {
        unit3_of(1000 * dx, 1000 * dy, 1000 * dz)
    }
}

/// The unit direction from `from` toward `to`.
pub fn sight_toward(from: &Point, to: &Point) -> (d: Direction)
    requires
        from.wf(),
        to.wf(),
    ensures
        d == sight_line(*from, *to),
        d.wf(),
        *from != *to ==> d.near_unit(),
        *from == *to ==> d == (Direction { x: 0, y: 0, z: 0 }),
{
    let dx = to.x - from.x;
    let dy = to.y - from.y;
    let dz = to.z - from.z;
    assert(0 <= dx * dx && 0 <= dy * dy && 0 <= dz * dz) by (nonlinear_arith);
    if dist_sq_exceeds(dx, dy, dz) {
        proof {
            if *from == *to {
                assert(dx * dx + dy * dy + dz * dz == 0) by (nonlinear_arith)
                    requires
                        dx == 0,
                        dy == 0,
                        dz == 0,
                ;
            }
        }
        return unit3(dx, dy, dz);
    }
    assert(-500 <= dx <= 500 && -500 <= dy <= 500 && -500 <= dz <= 500) by (nonlinear_arith)
        requires
            dx * dx + dy * dy + dz * dz <= 250_000,
            0 <= dx * dx,
            0 <= dy * dy,
            0 <= dz * dz,
    ;
    proof {
        if *from == *to {
            assert(dx == 0 && dy == 0 && dz == 0);
            assert(is_root(0, 0)) by (nonlinear_arith);
            lemma_floor_sqrt_is(0, 0);
            assert(unit3_of(1000 * dx, 1000 * dy, 1000 * dz) == (Direction { x: 0, y: 0, z: 0 }));
        }
        if *from != *to {
            assert(dx != 0 || dy != 0 || dz != 0);
            assert((1000 * dx) * (1000 * dx) + (1000 * dy) * (1000 * dy) + (1000 * dz) * (1000 * dz) > 250_000)
                by (nonlinear_arith)
                requires
                    dx != 0 || dy != 0 || dz != 0,
            ;
        }
    }
    unit3(1000 * dx, 1000 * dy, 1000 * dz)
}

fn dist_sq_exceeds(dx: i64, dy: i64, dz: i64) -> (r: bool)
    requires
        -2 * WORLD_BOUND <= dx <= 2 * WORLD_BOUND,
        -2 * WORLD_BOUND <= dy <= 2 * WORLD_BOUND,
        -2 * WORLD_BOUND <= dz <= 2 * WORLD_BOUND,
    ensures
        r == (dx * dx + dy * dy + dz * dz > 250_000),
{
    assert(0 <= dx * dx <= 4_000_000_000_000_000_000_000_000) by (nonlinear_arith)
        requires
            -2_000_000_000_000 <= dx <= 2_000_000_000_000,
    ;
    assert(0 <= dy * dy <= 4_000_000_000_000_000_000_000_000) by (nonlinear_arith)
        requires
            -2_000_000_000_000 <= dy <= 2_000_000_000_000,
    ;
    assert(0 <= dz * dz <= 4_000_000_000_000_000_000_000_000) by (nonlinear_arith)
        requires
            -2_000_000_000_000 <= dz <= 2_000_000_000_000,
    ;
    let n: i128 = dx as i128 * dx as i128 + dy as i128 * dy as i128 + dz as i128 * dz as i128;
    n > 250_000
}

/// `v / UNIT`, rounded down.
pub fn floor_div_unit(v: i64) -> (r: i64)
    ensures
        r as int == v as int / UNIT as int,
{
    if v >= 0 {
        v / UNIT
    } else {
        let q = (-(v as i128) + 999) / 1000;
        -(q as i64)
    }
}

/// `h` has unit length up to the rounding of its components:
/// 0.99 <= |h|^2 <= 1.01.
pub open spec fn near_unit(h: Heading) -> bool {
    990_000 <= h.x * h.x + h.z * h.z <= 1_010_000
}

proof fn lemma_div_bracket(p: int, l: int)
    requires
        p >= 0,
        l > 0,
    ensures
        (p / l) * l <= p < (p / l + 1) * l,
        p / l >= 0,
{
    vstd::arithmetic::div_mod::lemma_fundamental_div_mod(p, l);
    vstd::arithmetic::div_mod::lemma_mod_pos_bound(p, l);
    assert((p / l + 1) * l == (p / l) * l + l) by (nonlinear_arith);
    assert(l * (p / l) == (p / l) * l) by (nonlinear_arith);
    assert(p / l >= 0) by (nonlinear_arith)
        requires
            p >= 0,
            l > 0,
    ;
}

proof fn lemma_scaled_square(num: int, len: int)
    requires
        len > 0,
    ensures
        scaled(num, len) * scaled(num, len) == ((if num >= 0 { num } else { -num }) * UNIT / len) * ((if num
            >= 0 {
            num
        } else {
            -num
        }) * UNIT / len),
{
    let q = (if num >= 0 { num } else { -num }) * UNIT / len;
    if num < 0 {
        assert(scaled(num, len) == -q);
        assert((-q) * (-q) == q * q) by (nonlinear_arith);
    }
}

/// Scaling an offset of length between 500 and 1000 (in thousandths) to
/// `UNIT` gives a heading of unit length up to rounding.
pub proof fn lemma_unit_of_near_unit(dx: int, dz: int)
    requires
        250_000 < dx * dx + dz * dz <= 1_000_000,
    ensures
        near_unit(unit_of(dx, dz)),
{
    let n = dx * dx + dz * dz;
    lemma_root_exists(n);
    let l = floor_sqrt(n);
    assert(l >= 500) by (nonlinear_arith)
        requires
            n > 250_000,
            n < (l + 1) * (l + 1),
            l >= 0,
    ;
    let a = if dx >= 0 { dx } else { -dx };
    let b = if dz >= 0 { dz } else { -dz };
    assert(a * a == dx * dx && b * b == dz * dz) by (nonlinear_arith)
        requires
            a == dx || a == -dx,
            b == dz || b == -dz,
    ;
    lemma_scaled_square(dx, l);
    lemma_scaled_square(dz, l);
    let q = a * 1000 / l;
    let w = b * 1000 / l;
    lemma_div_bracket(a * 1000, l);
    lemma_div_bracket(b * 1000, l);
    assert(a <= l && b <= l) by (nonlinear_arith)
        requires
            a >= 0,
            b >= 0,
            l >= 0,
            a * a + b * b < (l + 1) * (l + 1),
    ;
    assert(q <= 1000 && w <= 1000) by (nonlinear_arith)
        requires
            q * l <= a * 1000,
            w * l <= b * 1000,
            a <= l,
            b <= l,
            l > 0,
    ;
    assert(q * q * (l * l) <= (a * 1000) * (a * 1000)) by (nonlinear_arith)
        requires
            0 <= q * l <= a * 1000,
            q >= 0,
            l > 0,
    ;
    assert(w * w * (l * l) <= (b * 1000) * (b * 1000)) by (nonlinear_arith)
        requires
            0 <= w * l <= b * 1000,
            w >= 0,
            l > 0,
    ;
    assert((a * 1000) * (a * 1000) < (q + 1) * (q + 1) * (l * l)) by (nonlinear_arith)
        requires
            0 <= a * 1000 < (q + 1) * l,
            l > 0,
    ;
    assert((b * 1000) * (b * 1000) < (w + 1) * (w + 1) * (l * l)) by (nonlinear_arith)
        requires
            0 <= b * 1000 < (w + 1) * l,
            l > 0,
    ;
    assert(q * q + w * w <= 1_010_000) by (nonlinear_arith)
        requires
            q * q * (l * l) + w * w * (l * l) <= (a * 1000) * (a * 1000) + (b * 1000) * (b * 1000),
            a * a + b * b < (l + 1) * (l + 1),
            l >= 500,
    ;
    let ll = l * l;
    let big = (q + 1) * (q + 1) + (w + 1) * (w + 1);
    assert(1_000_000 * (a * a + b * b) == (a * 1000) * (a * 1000) + (b * 1000) * (b * 1000)) by (nonlinear_arith);
    assert((q + 1) * (q + 1) * ll + (w + 1) * (w + 1) * ll == big * ll) by (nonlinear_arith)
        requires
            big == (q + 1) * (q + 1) + (w + 1) * (w + 1),
    ;
    assert(ll > 0) by (nonlinear_arith)
        requires
            ll == l * l,
            l >= 500,
    ;
    assert(1_000_000 * ll <= 1_000_000 * (a * a + b * b));
    assert(1_000_000 * ll < big * ll);
    assert(1_000_000 < big) by (nonlinear_arith)
        requires
            1_000_000 * ll < big * ll,
            ll > 0,
    ;
    assert(big == q * q + w * w + 2 * q + 2 * w + 2) by (nonlinear_arith)
        requires
            big == (q + 1) * (q + 1) + (w + 1) * (w + 1),
    ;
}

impl Direction {
    /// Unit length up to the rounding of its components:
    /// 0.99 <= |d|^2 <= 1.01.
    pub open spec fn near_unit(&self) -> bool {
        990_000 <= self.x * self.x + self.y * self.y + self.z * self.z <= 1_010_000
    }
}

/// One component `a` (made non-negative) of an offset whose length rounds
/// down to `l`, scaled to `UNIT`: bracketed by `l`, and at most `UNIT`.
proof fn lemma_component(a: int, l: int, n: int)
    requires
        a >= 0,
        l > 0,
        a * a <= n,
        n < (l + 1) * (l + 1),
    ensures
        ({
            let q = a * 1000 / l;
            &&& 0 <= q <= 1000
            &&& q * q * (l * l) <= (a * 1000) * (a * 1000)
            &&& (a * 1000) * (a * 1000) < (q + 1) * (q + 1) * (l * l)
        }),
{
    let q = a * 1000 / l;
    lemma_div_bracket(a * 1000, l);
    assert(a <= l) by (nonlinear_arith)
        requires
            a >= 0,
            l > 0,
            a * a < (l + 1) * (l + 1),
    ;
    assert(q <= 1000) by (nonlinear_arith)
        requires
            q * l <= a * 1000,
            a <= l,
            l > 0,
    ;
    assert(q * q * (l * l) <= (a * 1000) * (a * 1000)) by (nonlinear_arith)
        requires
            0 <= q * l <= a * 1000,
            q >= 0,
            l > 0,
    ;
    assert((a * 1000) * (a * 1000) < (q + 1) * (q + 1) * (l * l)) by (nonlinear_arith)
        requires
            0 <= a * 1000 < (q + 1) * l,
            l > 0,
    ;
}

/// The direction of an offset longer than half a unit has unit length up
/// to rounding.
pub proof fn lemma_unit3_near_unit(dx: int, dy: int, dz: int)
    requires
        dx * dx + dy * dy + dz * dz > 250_000,
    ensures
        unit3_of(dx, dy, dz).near_unit(),
{
    let n = dx * dx + dy * dy + dz * dz;
    lemma_root_exists(n);
    let l = floor_sqrt(n);
    assert(l >= 500) by (nonlinear_arith)
        requires
            n > 250_000,
            n < (l + 1) * (l + 1),
            l >= 0,
    ;
    let a = if dx >= 0 { dx } else { -dx };
    let b = if dy >= 0 { dy } else { -dy };
    let c = if dz >= 0 { dz } else { -dz };
    assert(a * a == dx * dx && b * b == dy * dy && c * c == dz * dz) by (nonlinear_arith)
        requires
            a == dx || a == -dx,
            b == dy || b == -dy,
            c == dz || c == -dz,
    ;
    assert(0 <= a * a && 0 <= b * b && 0 <= c * c) by (nonlinear_arith);
    lemma_scaled_square(dx, l);
    lemma_scaled_square(dy, l);
    lemma_scaled_square(dz, l);
    lemma_component(a, l, n);
    lemma_component(b, l, n);
    lemma_component(c, l, n);
    let q = a * 1000 / l;
    let w = b * 1000 / l;
    let u = c * 1000 / l;
    let ll = l * l;
    assert(1_000_000 * (a * a + b * b + c * c) == (a * 1000) * (a * 1000) + (b * 1000) * (b * 1000) + (c
        * 1000) * (c * 1000)) by (nonlinear_arith);
    assert(ll > 0) by (nonlinear_arith)
        requires
            ll == l * l,
            l >= 500,
    ;
    let sq = q * q + w * w + u * u;
    assert(q * q * ll + w * w * ll + u * u * ll == sq * ll) by (nonlinear_arith)
        requires
            sq == q * q + w * w + u * u,
    ;
    assert(sq * ll < 1_000_000 * ((l + 1) * (l + 1)));
    assert(sq <= 1_010_000) by (nonlinear_arith)
        requires
            sq * ll < 1_000_000 * ((l + 1) * (l + 1)),
            ll == l * l,
            l >= 500,
    ;
    let big = (q + 1) * (q + 1) + (w + 1) * (w + 1) + (u + 1) * (u + 1);
    assert((q + 1) * (q + 1) * ll + (w + 1) * (w + 1) * ll + (u + 1) * (u + 1) * ll == big * ll) by (nonlinear_arith)
        requires
            big == (q + 1) * (q + 1) + (w + 1) * (w + 1) + (u + 1) * (u + 1),
    ;
    assert(1_000_000 * ll < big * ll);
    assert(1_000_000 < big) by (nonlinear_arith)
        requires
            1_000_000 * ll < big * ll,
            ll > 0,
    ;
    assert(big == sq + 2 * q + 2 * w + 2 * u + 3) by (nonlinear_arith)
        requires
            big == (q + 1) * (q + 1) + (w + 1) * (w + 1) + (u + 1) * (u + 1),
            sq == q * q + w * w + u * u,
    ;
}

/// Keeps a coordinate inside the world.
pub open spec fn clamp_world(v: int) -> int {
    if v < -WORLD_BOUND {
        -WORLD_BOUND as int
    } else if v > WORLD_BOUND {
        WORLD_BOUND as int
    } else {
        v
    }
}

pub fn clamp_coord(v: i64) -> (r: i64)
    ensures
        r as int == clamp_world(v as int),
        in_world(r as int),
{
    if v < -WORLD_BOUND {
        -WORLD_BOUND
    } else if v > WORLD_BOUND {
        WORLD_BOUND
    } else {
        v
    }
}

} // verus!
