use vstd::prelude::*;
use vstd::arithmetic::div_mod::lemma_div_is_ordered;
use vstd::arithmetic::div_mod::lemma_div_multiples_vanish;
use vstd::arithmetic::div_mod::lemma_fundamental_div_mod;
use vstd::arithmetic::div_mod::lemma_fundamental_div_mod_converse;
use vstd::string::StringExecFns;
use crate::style::MAX_COORD;

verus! {

/// The stable id of an entity.
pub type Entity = u64;

/// A point or an extent on the fixed-point grid: both components count ticks.
#[derive(Clone, Copy, Debug, PartialEq, Eq, Structural)]
pub struct Vec2 {
    pub x: i64,
    pub y: i64,
}

impl Vec2 {
    /// Both components are within the supported range of coordinates.
    pub open spec fn in_bounds(self) -> bool {
        &&& -MAX_COORD <= self.x <= MAX_COORD
        &&& -MAX_COORD <= self.y <= MAX_COORD
    }

    /// Tests whether the vector is within the supported range.
    pub fn within_bounds(&self) -> (ok: bool)
        ensures
            ok == self.in_bounds(),
    {
        -MAX_COORD <= self.x && self.x <= MAX_COORD && -MAX_COORD <= self.y && self.y
            <= MAX_COORD
    }

    /// Tests whether the vector is within twice the supported range.
    pub fn within_reach(&self) -> (ok: bool)
        ensures
            ok == self.in_reach(),
    {
        -2 * MAX_COORD <= self.x && self.x <= 2 * MAX_COORD && -2 * MAX_COORD <= self.y
            && self.y <= 2 * MAX_COORD
    }

    /// The sum of two vectors, component by component.
    pub open spec fn plus(self, other: Vec2) -> Vec2 {
        Vec2 { x: (self.x + other.x) as i64, y: (self.y + other.y) as i64 }
    }

    /// The square of the distance between two points.
    pub open spec fn distance_squared_spec(self, other: Vec2) -> int {
        (self.x - other.x) * (self.x - other.x) + (self.y - other.y) * (self.y - other.y)
    }

    /// Adds two vectors that are within the supported range.
    pub fn add_vec(self, other: Vec2) -> (r: Vec2)
        requires
            self.in_bounds(),
            other.in_bounds(),
        ensures
            r == self.plus(other),
            r.x == self.x + other.x,
            r.y == self.y + other.y,
    {
        Vec2 { x: self.x + other.x, y: self.y + other.y }
    }

    /// Both components are within twice the supported range of coordinates:
    /// where sums of a position and an offset lie.
    pub open spec fn in_reach(self) -> bool {
        &&& -2 * MAX_COORD <= self.x <= 2 * MAX_COORD
        &&& -2 * MAX_COORD <= self.y <= 2 * MAX_COORD
    }

    /// The square of the distance between two points.
    pub fn distance_squared(self, other: Vec2) -> (d: u128)
        requires
            self.in_reach(),
            other.in_reach(),
        ensures
            d == self.distance_squared_spec(other),
            d <= 32_000_000_000_000_000_000_000_000,
    {
        let dx: i128 = self.x as i128 - other.x as i128;
        let dy: i128 = self.y as i128 - other.y as i128;
        assert(0 <= dx * dx <= 16_000_000_000_000_000_000_000_000) by (nonlinear_arith)
            requires
                -4_000_000_000_000 <= dx <= 4_000_000_000_000,
        ;
        assert(0 <= dy * dy <= 16_000_000_000_000_000_000_000_000) by (nonlinear_arith)
            requires
                -4_000_000_000_000 <= dy <= 4_000_000_000_000,
        ;
        (dx * dx + dy * dy) as u128
    }
}

/// A live entity and where it stands.
#[derive(Clone, Copy, Debug, PartialEq, Eq, Structural)]
pub struct Located {
    pub entity: Entity,
    pub position: Vec2,
}

/// The position of the first entry from index `from` on that belongs to
/// `entity`; `None` where the entity is not among the live ones.
pub open spec fn position_of(live: Seq<Located>, from: int, entity: Entity) -> Option<Vec2>
    decreases live.len() - from,
{
    if from < 0 || from >= live.len() {
        None
    } else if live[from].entity == entity {
        Some(live[from].position)
    } else {
        position_of(live, from + 1, entity)
    }
}

/// Looks an entity up among the live ones.
pub fn find_position(live: &Vec<Located>, entity: Entity) -> (r: Option<Vec2>)
    ensures
        r == position_of(live@, 0, entity),
        r is Some ==> exists|i: int| 0 <= i < live.len() && live[i].entity == entity && live[i].position == r->0,
{
    let mut i: usize = 0;
    while i < live.len()
        invariant
            0 <= i <= live.len(),
            position_of(live@, 0, entity) == position_of(live@, i as int, entity),
        decreases live.len() - i,
    {
        if live[i].entity == entity {
            return Some(live[i].position);
        }
        i += 1;
    }
    None
}

/// Ties an entity to another: each frame it is put at the other's position
/// plus `offset`.
#[derive(Clone, Copy, Debug, PartialEq, Eq, Structural)]
pub struct Follow {
    pub entity: Entity,
    pub offset: Vec2,
}

impl Follow {
    /// Where the follower stands this frame: at the followed entity's position
    /// plus the offset, or where it stood if the followed entity is gone.
    pub open spec fn follow_spec(self, current: Vec2, live: Seq<Located>) -> Vec2 {
        match position_of(live, 0, self.entity) {
            Some(p) => p.plus(self.offset),
            None => current,
        }
    }
}

/// Moves a follower to the entity that it follows.
pub fn follow(link: &Follow, current: Vec2, live: &Vec<Located>) -> (r: Vec2)
    requires
        link.offset.in_bounds(),
        forall|i: int| 0 <= i < live.len() ==> (#[trigger] live[i]).position.in_bounds(),
    ensures
        r == link.follow_spec(current, live@),
{
    match find_position(live, link.entity) {
        Some(p) => p.add_vec(link.offset),
        None => current,
    }
}

/// Ends the life of an entity at a set time.
#[derive(Clone, Copy, Debug, PartialEq, Eq, Structural)]
pub struct DespawnTime {
    /// The time at which the entity is removed, in milliseconds.
    pub elapsed_ms: u64,
}

impl DespawnTime {
    /// Whether the entity's time has come at `now`.
    pub fn try_despawning(&self, now: u64) -> (due: bool)
        ensures
            due == (now >= self.elapsed_ms),
    {
        now >= self.elapsed_ms
    }
}

/// The name of one file of a numbered family: the family's prefix, the
/// number's text and the family's suffix, one after the other.
pub fn variant(path_extension: (&str, &str), index: String) -> (name: String)
    ensures
        name@ == path_extension.0@ + index@ + path_extension.1@,
{
    let mut name = path_extension.0.to_owned();
    name.append(index.as_str());
    name.append(path_extension.1);
    name
}

/// The side that a craft faces.
#[derive(Clone, Copy, Debug, PartialEq, Eq, Structural)]
pub enum Side {
    Left,
    Right,
}

impl Side {
    pub open spec fn sign_spec(self) -> int {
        match self {
            Side::Left => -1,
            Side::Right => 1,
        }
    }

    /// -1 for the left side, +1 for the right side.
    pub fn sign(&self) -> (s: i64)
        ensures
            s == self.sign_spec(),
    {
        match self {
            Side::Left => -1,
            Side::Right => 1,
        }
    }
}

/// Floor quotient and always-positive remainder of `x` by a positive `modulus`.
pub fn floor_div_rem(x: i64, modulus: i64) -> (qr: (i64, i64))
    requires
        modulus > 0,
    ensures
        qr.0 == x as int / modulus as int,
        qr.1 == x as int % modulus as int,
        0 <= qr.1 < modulus,
        x == qr.0 * modulus + qr.1,
{
    if x >= 0 {
        let q: i64 = x / modulus;
        let r: i64 = x % modulus;
        proof {
            lemma_fundamental_div_mod(x as int, modulus as int);
            assert(modulus * q == q * modulus) by (nonlinear_arith);
        }
        (q, r)
    } else {
        let n: i64 = -(x + 1);
        let q: i64 = n / modulus;
        let r: i64 = n % modulus;
        proof {
            lemma_fundamental_div_mod(n as int, modulus as int);
            assert(modulus * q == q * modulus) by (nonlinear_arith);
            assert(x == (-q - 1) * modulus + (modulus - 1 - r)) by (nonlinear_arith)
                requires
                    n == q * modulus + r,
                    n == -(x + 1),
            ;
            assert(q * modulus <= n) by (nonlinear_arith)
                requires
                    n == q * modulus + r,
                    r >= 0,
            ;
            lemma_fundamental_div_mod_converse(
                x as int,
                modulus as int,
                -q - 1,
                modulus - 1 - r,
            );
        }
        (-q - 1, modulus - 1 - r)
    }
}

/// The always-positive fractional part of `x` on a circle of `modulus` ticks:
/// the one value in `[0, modulus)` that differs from `x` by a whole number of
/// turns.
pub fn my_fract(x: i64, modulus: i64) -> (r: i64)
    requires
        modulus > 0,
    ensures
        r == x as int % modulus as int,
        0 <= r < modulus,
{
    floor_div_rem(x, modulus).1
}

/// Whether `r` is the whole part of the square root of `n`.
pub open spec fn is_sqrt(n: int, r: int) -> bool {
    &&& 0 <= r
    &&& r * r <= n
    &&& n < (r + 1) * (r + 1)
}

/// The whole part of the square root of `n`.
pub open spec fn sqrt_floor(n: int) -> int {
    choose|r: int| is_sqrt(n, r)
}

/// A number has one whole square root at most.
pub proof fn lemma_sqrt_unique(n: int, a: int, b: int)
    requires
        is_sqrt(n, a),
        is_sqrt(n, b),
    ensures
        a == b,
{
    if a < b {
        assert((a + 1) * (a + 1) <= b * b) by (nonlinear_arith)
            requires
                0 <= a,
                a + 1 <= b,
        ;
    }
    if b < a {
        assert((b + 1) * (b + 1) <= a * a) by (nonlinear_arith)
            requires
                0 <= b,
                b + 1 <= a,
        ;
    }
}

/// No side of a right triangle is longer than the whole part of its
/// hypotenuse.
pub proof fn lemma_side_below_sqrt(a: int, n: int, r: int)
    requires
        0 <= a,
        a * a <= n,
        is_sqrt(n, r),
    ensures
        a <= r,
{
    if a > r {
        assert((r + 1) * (r + 1) <= a * a) by (nonlinear_arith)
            requires
                0 <= r,
                r + 1 <= a,
        ;
    }
}

/// The largest argument that `isqrt` takes: one less than the 126th power of two.
pub const ISQRT_MAX: u128 = 0x3fff_ffff_ffff_ffff_ffff_ffff_ffff_ffff;

/// The whole part of the square root of `n`, found by bisection.
pub fn isqrt(n: u128) -> (r: u128)
    requires
        n <= ISQRT_MAX,
    ensures
        is_sqrt(n as int, r as int),
        r == sqrt_floor(n as int),
        r < 0x8000_0000_0000_0000,
{
    let mut lo: u128 = 0;
    let mut hi: u128 = 0x8000_0000_0000_0000;
    assert(0x8000_0000_0000_0000u128 * 0x8000_0000_0000_0000u128 > ISQRT_MAX) by (nonlinear_arith);
    while hi - lo > 1
        invariant
            lo < hi <= 0x8000_0000_0000_0000,
            lo * lo <= n,
            n < hi * hi,
        decreases hi - lo,
    {
        let mid: u128 = lo + (hi - lo) / 2;
        assert(mid * mid < 0x4000_0000_0000_0000_0000_0000_0000_0000) by (nonlinear_arith)
            requires
                mid < 0x8000_0000_0000_0000,
        ;
        if mid * mid <= n {
            lo = mid;
        } else {
            hi = mid;
        }
    }
    proof {
        lemma_sqrt_unique(n as int, lo as int, sqrt_floor(n as int));
    }
    lo
}

/// The quotient of `a` by a positive `b`, rounded toward zero.
pub open spec fn div_toward_zero(a: int, b: int) -> int {
    if a >= 0 {
        a / b
    } else {
        -((-a) / b)
    }
}

/// How far a body moves along one axis in a step of length `step`, when it
/// heads along a vector with this `component` on the axis and this whole
/// `length`: its share of the step, rounded toward zero. A vector without
/// length moves nothing.
pub open spec fn displacement(component: int, length: int, step: int) -> int {
    if length <= 0 {
        0
    } else {
        div_toward_zero(component * step, length)
    }
}

/// The share of a step that falls on one axis.
pub fn displace(component: i64, length: u128, step: i64) -> (r: i64)
    requires
        -(length as int) <= component <= length as int,
        0 <= step <= 0x100_0000_0000,
    ensures
        r == displacement(component as int, length as int, step as int),
        -step <= r <= step,
{
    if length == 0 {
        return 0;
    }
    let s: u128 = step as u128;
    let a: u128 = if component < 0 { (-(component as i128)) as u128 } else { component as u128 };
    proof {
        let ai = a as int;
        let si = s as int;
        let li = length as int;
        assert(0 <= ai * si <= li * si && ai * si <= 0x8000_0000_0000_0000 * 0x100_0000_0000)
            by (nonlinear_arith)
            requires
                0 <= ai <= li,
                ai <= 0x8000_0000_0000_0000,
                0 <= si <= 0x100_0000_0000,
        ;
        lemma_div_is_ordered(ai * si, li * si, li);
        lemma_div_multiples_vanish(si, li);
        assert(ai * si / li >= 0) by {
            lemma_div_is_ordered(0, ai * si, li);
        }
        if component < 0 {
            assert(-(component as int * step as int) == ai * si) by (nonlinear_arith)
                requires
                    ai == -(component as int),
                    si == step as int,
            ;
            assert(component as int * step as int <= 0) by (nonlinear_arith)
                requires
                    component < 0,
                    step >= 0,
            ;
        } else {
            assert(component as int * step as int == ai * si);
        }
    }
    let q: u128 = a * s / length;
    if component < 0 {
        -(q as i64)
    } else {
        q as i64
    }
}

/// A stretch from `start` to `end`, walked in steps.
#[derive(Clone, Copy, Debug, PartialEq, Eq, Structural)]
pub struct Range {
    pub start: i64,
    pub end: i64,
}

impl Range {
    /// Where a walk from `start` toward `end` stands after `amount`: at `end`
    /// if that is nearer than `amount`, else `amount` closer to it.
    pub open spec fn step_spec(self, amount: int) -> int {
        let d = self.end - self.start;
        if d < 0 {
            if -d < amount {
                self.end as int
            } else {
                self.start - amount
            }
        } else if d < amount {
            self.end as int
        } else {
            self.start + amount
        }
    }

    /// Moves from `start` toward `end` by `amount`, never past `end`.
    pub fn step(&self, amount: i64) -> (r: i64)
        requires
            0 <= amount,
        ensures
            r == self.step_spec(amount as int),
            self.start <= self.end ==> self.start <= r <= self.end,
            self.end <= self.start ==> self.end <= r <= self.start,
    {
        let d: i128 = self.end as i128 - self.start as i128;
        if d < 0 {
            if -d < amount as i128 {
                self.end
            } else {
                self.start - amount
            }
        } else if d < amount as i128 {
            self.end
        } else {
            self.start + amount
        }
    }
}

} // verus!
