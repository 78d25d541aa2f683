//! Points on the playing field, and travel at a constant speed.
//!
//! Coordinates are whole numbers of a world unit that the host chooses.
//! Lengths are floor square roots, so a step never covers more than the
//! budget along either axis and the arithmetic is exact.

use vstd::prelude::*;
use crate::gauge::clamp;

verus! {

/// Microseconds in a second: speeds are per second, elapsed times in
/// microseconds.
pub const MICROS_PER_SECOND: u64 = 1_000_000;

/// The largest component of an [`Offset`] that travel accepts: the widest gap
/// between two coordinates.
pub const LONGEST_COMPONENT: i64 = 0xffff_ffff;

/// World units in a pixel.
pub const UNITS_PER_PIXEL: i32 = 1_000;

/// A place on the field.
#[derive(Clone, Copy, Debug, PartialEq, Eq, Structural)]
pub struct Point {
    pub x: i32,
    pub y: i32,
}

/// The size of the window the field is shown in, in whole pixels. One pixel
/// is a thousand world units.
#[derive(Clone, Copy, Debug, PartialEq, Eq, Structural)]
pub struct Window {
    pub width: u16,
    pub height: u16,
}

/// A displacement, or a direction of travel when only its bearing counts.
#[derive(Clone, Copy, Debug, PartialEq, Eq, Structural)]
pub struct Offset {
    pub dx: i64,
    pub dy: i64,
}

/// `root` is the largest number whose square does not exceed `n`.
pub open spec fn is_floor_sqrt(n: nat, root: nat) -> bool {
    root * root <= n < (root + 1) * (root + 1)
}

/// The floor of the square root of `n`.
pub open spec fn floor_sqrt(n: nat) -> nat {
    choose|root: nat| is_floor_sqrt(n, root)
}

/// The quotient of `a` by a positive `b`, rounded toward zero.
pub open spec fn toward_zero(a: int, b: int) -> int {
    if a >= 0 {
        a / b
    } else {
        -((-a) / b)
    }
}

/// `value` moved to the nearest coordinate that exists.
pub open spec fn saturated(value: int) -> i32 {
    if value < i32::MIN {
        i32::MIN
    } else if value > i32::MAX {
        i32::MAX
    } else {
        value as i32
    }
}

/// The distance covered in `dt` microseconds at `speed` units per second,
/// rounded down.
pub open spec fn travel_budget(speed: u32, dt: u64) -> nat {
    (speed as nat * dt as nat) / (MICROS_PER_SECOND as nat)
}

/// The part of `budget` that falls to one axis of a heading of the given
/// length: nothing when the heading has no length.
pub open spec fn axis_share(component: int, length: nat, budget: nat) -> int {
    if length == 0 {
        0
    } else {
        toward_zero(component * budget, length as int)
    }
}

/// The square of the distance between two points.
pub open spec fn distance_squared(a: Point, b: Point) -> nat {
    ((a.x - b.x) * (a.x - b.x) + (a.y - b.y) * (a.y - b.y)) as nat
}

/// Two discs of the given radii, centred on `a` and `b`, touch or overlap.
pub open spec fn discs_touch(a: Point, a_radius: u32, b: Point, b_radius: u32) -> bool {
    distance_squared(a, b) <= (a_radius + b_radius) * (a_radius + b_radius)
}

/// How far a ring of `radius` rises above its centre line at `across` from
/// the centre, rounded down.
pub open spec fn ring_rise(radius: nat, across: int) -> nat {
    floor_sqrt((radius * radius - across * across) as nat)
}

/// The point of a ring around `center` that lies `across` to the right of
/// the centre, on the upper or the lower half, held to the coordinates that
/// exist. An `across` beyond the ring counts as its nearest end.
pub open spec fn ring_point(center: Point, radius: u32, across: int, upper: bool) -> Point {
    let across = clamp(across, -radius, radius as int);
    let rise = ring_rise(radius as nat, across) as int;
    Point {
        x: saturated(center.x + across),
        y: saturated(
            center.y + if upper {
                rise
            } else {
                -rise
            },
        ),
    }
}

impl Offset {
    /// Both components are gaps between coordinates.
    pub open spec fn is_short(self) -> bool {
        &&& -LONGEST_COMPONENT <= self.dx <= LONGEST_COMPONENT
        &&& -LONGEST_COMPONENT <= self.dy <= LONGEST_COMPONENT
    }

    /// The length of the offset, rounded down.
    pub open spec fn length(self) -> nat {
        floor_sqrt((self.dx * self.dx + self.dy * self.dy) as nat)
    }

    /// The offset has no length.
    pub open spec fn is_zero(self) -> bool {
        self.dx == 0 && self.dy == 0
    }
}

impl Point {
    /// The offset that leads from here to `target`.
    pub open spec fn offset_to_spec(self, target: Point) -> Offset {
        Offset { dx: (target.x - self.x) as i64, dy: (target.y - self.y) as i64 }
    }

    /// Where `budget` units of travel along `heading` lead, held to the
    /// coordinates that exist.
    pub open spec fn pushed(self, heading: Offset, budget: nat) -> Point {
        Point {
            x: saturated(self.x + axis_share(heading.dx as int, heading.length(), budget)),
            y: saturated(self.y + axis_share(heading.dy as int, heading.length(), budget)),
        }
    }

    /// The offset that leads from here to `target`.
    #[verifier::when_used_as_spec(offset_to_spec)]
    pub fn offset_to(self, target: Point) -> (offset: Offset)
        ensures
            offset == self.offset_to_spec(target),
            offset.is_short(),
            offset.is_zero() <==> self == target,
    {
        Offset { dx: target.x as i64 - self.x as i64, dy: target.y as i64 - self.y as i64 }
    }

    /// The square of the distance to `other`.
    pub fn distance_squared_to(self, other: Point) -> (squared: u128)
        ensures
            squared == distance_squared(self, other),
    {
        let dx: i128 = self.x as i128 - other.x as i128;
        let dy: i128 = self.y as i128 - other.y as i128;
        assert(0 <= dx * dx <= 0x1_0000_0000_0000_0000 && 0 <= dy * dy <= 0x1_0000_0000_0000_0000)
            by (nonlinear_arith)
            requires
                -0x1_0000_0000 <= dx <= 0x1_0000_0000,
                -0x1_0000_0000 <= dy <= 0x1_0000_0000,
        ;
        (dx * dx + dy * dy) as u128
    }

    /// Whether a disc of `radius` around this point touches a disc of
    /// `other_radius` around `other`. Squares are compared; no root is taken.
    pub fn touches(self, radius: u32, other: Point, other_radius: u32) -> (touching: bool)
        ensures
            touching == discs_touch(self, radius, other, other_radius),
    {
        let reach: u128 = radius as u128 + other_radius as u128;
        assert(reach * reach <= 0x4_0000_0000_0000_0000) by (nonlinear_arith)
            requires
                reach <= 0x2_0000_0000,
        ;
        self.distance_squared_to(other) <= reach * reach
    }

    /// Travels along `heading` for `dt` microseconds at `speed` units per
    /// second. A heading without length leaves the point where it is.
    pub fn moved_along(self, heading: Offset, speed: u32, dt: u64) -> (arrived: Point)
        requires
            heading.is_short(),
        ensures
            arrived == self.pushed(heading, travel_budget(speed, dt)),
    {
        assert(speed * dt <= 0xffff_ffff * 0xffff_ffff_ffff_ffff) by (nonlinear_arith)
            requires
                0 <= speed <= 0xffff_ffff,
                0 <= dt <= 0xffff_ffff_ffff_ffff,
        ;
        assert(MICROS_PER_SECOND == 1_000_000);
        let budget: u128 = speed as u128 * dt as u128 / 1_000_000;
        let length = heading_length(heading);
        if length == 0 {
            return self;
        }
        let along_x = share_of(heading.dx, length, budget);
        let along_y = share_of(heading.dy, length, budget);
        Point { x: saturate(self.x as i128 + along_x), y: saturate(self.y as i128 + along_y) }
    }

    /// Travels toward `target` for `dt` microseconds at `speed` units per
    /// second. The step is not cut short at the target: a budget longer than
    /// the distance carries past it.
    pub fn moved_toward(self, target: Point, speed: u32, dt: u64) -> (arrived: Point)
        ensures
            arrived == self.pushed(self.offset_to(target), travel_budget(speed, dt)),
            self == target ==> arrived == self,
    {
        let heading = self.offset_to(target);
        proof {
            if self == target {
                lemma_floor_sqrt_of_zero();
            }
        }
        self.moved_along(heading, speed, dt)
    }
}

/// The point of the ring of `radius` around `center` at `across` from the
/// centre, on the upper or the lower half.
pub fn point_on_ring(center: Point, radius: u32, across: i64, upper: bool) -> (point: Point)
    ensures
        point == ring_point(center, radius, across as int, upper),
{
    let r: i128 = radius as i128;
    let a: i128 = if (across as i128) < -r {
        -r
    } else if (across as i128) > r {
        r
    } else {
        across as i128
    };
    assert(0 <= a * a <= r * r <= 0x1_0000_0000_0000_0000) by (nonlinear_arith)
        requires
            0 <= r <= 0xffff_ffff,
            -r <= a <= r,
    ;
    let rise = isqrt((r * r - a * a) as u128);
    let up: i128 = if upper {
        rise as i128
    } else {
        -(rise as i128)
    };
    Point { x: saturate(center.x as i128 + a), y: saturate(center.y as i128 + up) }
}

/// A point of a ring lies on the ring or just inside it: its offset from the
/// centre is no longer than the radius, and one more unit of rise would make
/// it longer.
pub proof fn lemma_ring_point_is_on_ring(radius: nat, across: int)
    requires
        -radius <= across <= radius,
    ensures
        across * across + ring_rise(radius, across) * ring_rise(radius, across) <= radius * radius,
        radius * radius < across * across + (ring_rise(radius, across) + 1) * (ring_rise(
            radius,
            across,
        ) + 1),
{
    assert(0 <= across * across <= radius * radius) by (nonlinear_arith)
        requires
            -radius <= across <= radius,
    ;
    let n = (radius * radius - across * across) as nat;
    lemma_floor_sqrt_exists(n);
}

/// A step covers no more than the budget along either axis, whatever the
/// heading: no hazard outruns its speed.
pub proof fn lemma_step_within_budget(heading: Offset, budget: nat)
    ensures
        -budget <= axis_share(heading.dx as int, heading.length(), budget) <= budget,
        -budget <= axis_share(heading.dy as int, heading.length(), budget) <= budget,
{
    let dx = heading.dx as int;
    let dy = heading.dy as int;
    assert(dx * dx >= 0 && dy * dy >= 0) by (nonlinear_arith);
    let n = (dx * dx + dy * dy) as nat;
    lemma_floor_sqrt_exists(n);
    let length = heading.length();
    lemma_share_within_budget(dx, dy * dy, length, budget);
    lemma_share_within_budget(dy, dx * dx, length, budget);
}

/// One axis of a step: a component no longer than the length takes no more
/// than the whole budget.
proof fn lemma_share_within_budget(component: int, other_squared: int, length: nat, budget: nat)
    requires
        other_squared >= 0,
        is_floor_sqrt((component * component + other_squared) as nat, length),
    ensures
        -budget <= axis_share(component, length, budget) <= budget,
{
    let magnitude: int = if component < 0 {
        -component
    } else {
        component
    };
    assert(magnitude * magnitude == component * component) by (nonlinear_arith)
        requires
            magnitude == component || magnitude == -component,
    ;
    assert(magnitude <= length) by (nonlinear_arith)
        requires
            magnitude >= 0,
            magnitude * magnitude + other_squared < (length + 1) * (length + 1),
            other_squared >= 0,
    ;
    if length > 0 {
        assert(0 <= (magnitude * budget) / (length as int) <= budget) by (nonlinear_arith)
            requires
                0 <= magnitude <= length,
                length > 0,
                budget >= 0,
        ;
        assert(component * budget == magnitude * budget || component * budget == -(magnitude * budget))
            by (nonlinear_arith)
            requires
                magnitude == component || magnitude == -component,
        ;
        if component >= 0 {
            assert(component * budget >= 0) by (nonlinear_arith)
                requires
                    component >= 0,
                    budget >= 0,
            ;
        } else {
            assert(component * budget <= 0) by (nonlinear_arith)
                requires
                    component < 0,
                    budget >= 0,
            ;
            assert(-(component * budget) == magnitude * budget) by (nonlinear_arith)
                requires
                    magnitude == -component,
            ;
        }
    }
}

/// Every number has a floor square root.
pub proof fn lemma_floor_sqrt_exists(n: nat)
    ensures
        is_floor_sqrt(n, floor_sqrt(n)),
    decreases n,
{
    if n == 0 {
        lemma_floor_sqrt_of_zero();
        let zero: nat = 0;
        assert(zero * zero == 0 && (zero + 1) * (zero + 1) == 1) by (nonlinear_arith)
            requires
                zero == 0,
        ;
    } else {
        lemma_floor_sqrt_exists((n - 1) as nat);
        let below = floor_sqrt((n - 1) as nat);
        if (below + 1) * (below + 1) <= n {
            assert(n < (below + 2) * (below + 2)) by (nonlinear_arith)
                requires
                    n - 1 < (below + 1) * (below + 1),
            ;
            assert(is_floor_sqrt(n, below + 1));
        } else {
            assert(is_floor_sqrt(n, below));
        }
    }
}

/// The floor of the square root of `n`.
pub fn isqrt(n: u128) -> (root: u64)
    ensures
        root == floor_sqrt(n as nat),
        is_floor_sqrt(n as nat, root as nat),
{
    let mut low: u128 = 0;
    let mut high: u128 = 0x1_0000_0000_0000_0000;
    while high - low > 1
        invariant
            low < high <= 0x1_0000_0000_0000_0000,
            low * low <= n,
            n < high * high,
        decreases high - low,
    {
        let middle = low + (high - low) / 2;
        assert(middle * middle <= 0xffff_ffff_ffff_ffff * 0xffff_ffff_ffff_ffff) by (nonlinear_arith)
            requires
                0 <= middle <= 0xffff_ffff_ffff_ffff,
        ;
        if middle * middle <= n {
            low = middle;
        } else {
            high = middle;
        }
    }
    proof {
        lemma_floor_sqrt_is(n as nat, low as nat);
    }
    low as u64
}

/// A number that squares to at most `n`, while its successor squares to more,
/// is the floor square root of `n`: there is only one such number.
pub proof fn lemma_floor_sqrt_is(n: nat, root: nat)
    requires
        is_floor_sqrt(n, root),
    ensures
        floor_sqrt(n) == root,
{
    let chosen = floor_sqrt(n);
    assert(is_floor_sqrt(n, chosen));
    if chosen < root {
        assert((chosen + 1) * (chosen + 1) <= root * root) by (nonlinear_arith)
            requires
                chosen + 1 <= root,
        ;
    }
    if root < chosen {
        assert((root + 1) * (root + 1) <= chosen * chosen) by (nonlinear_arith)
            requires
                root + 1 <= chosen,
        ;
    }
}

/// Zero is its own floor square root.
pub proof fn lemma_floor_sqrt_of_zero()
    ensures
        floor_sqrt(0) == 0,
{
    let zero: nat = 0;
    assert(zero * zero == 0 && (zero + 1) * (zero + 1) == 1) by (nonlinear_arith)
        requires
            zero == 0,
    ;
    lemma_floor_sqrt_is(0, 0);
}

/// The length of a short heading.
fn heading_length(heading: Offset) -> (length: u64)
    requires
        heading.is_short(),
    ensures
        length == heading.length(),
        length == 0 <==> heading.is_zero(),
{
    let dx: i128 = heading.dx as i128;
    let dy: i128 = heading.dy as i128;
    assert(0 <= dx * dx <= 0x1_0000_0000_0000_0000 && (dx != 0 <==> dx * dx >= 1)) by (nonlinear_arith)
        requires
            -0x1_0000_0000 <= dx <= 0x1_0000_0000,
    ;
    assert(0 <= dy * dy <= 0x1_0000_0000_0000_0000 && (dy != 0 <==> dy * dy >= 1)) by (nonlinear_arith)
        requires
            -0x1_0000_0000 <= dy <= 0x1_0000_0000,
    ;
    let squared: u128 = (dx * dx + dy * dy) as u128;
    let length = isqrt(squared);
    proof {
        assert(squared == 0 <==> heading.is_zero());
        if squared == 0 {
            lemma_floor_sqrt_of_zero();
        } else if length == 0 {
            let l = length as nat;
            assert((l + 1) * (l + 1) == 1) by (nonlinear_arith)
                requires
                    l == 0,
            ;
            assert(is_floor_sqrt(squared as nat, l));
            assert(false);
        }
    }
    length
}

/// One axis of a step: `component * budget / length`, rounded toward zero.
fn share_of(component: i64, length: u64, budget: u128) -> (share: i128)
    requires
        -LONGEST_COMPONENT <= component <= LONGEST_COMPONENT,
        length > 0,
        budget <= 0xffff_ffff_ffff_ffff_ffff,
    ensures
        share == axis_share(component as int, length as nat, budget as nat),
        -0x1_0000_0000_0000_0000_0000_0000_0000 <= share <= 0x1_0000_0000_0000_0000_0000_0000_0000,
{
    let magnitude: u128 = if component < 0 {
        (-(component as i128)) as u128
    } else {
        component as u128
    };
    assert(magnitude * budget <= 0xffff_ffff * 0xffff_ffff_ffff_ffff_ffff) by (nonlinear_arith)
        requires
            magnitude <= 0xffff_ffff,
            budget <= 0xffff_ffff_ffff_ffff_ffff,
    ;
    let quotient: u128 = magnitude * budget / (length as u128);
    proof {
        if component < 0 {
            assert(-(component * budget) == magnitude * budget) by (nonlinear_arith)
                requires
                    magnitude == -component,
            ;
            assert(component * budget <= 0) by (nonlinear_arith)
                requires
                    component < 0,
                    budget >= 0,
            ;
            if component * budget == 0 {
                assert(magnitude * budget == 0);
            }
        } else {
            assert(component * budget >= 0) by (nonlinear_arith)
                requires
                    component >= 0,
                    budget >= 0,
            ;
        }
    }
    if component < 0 {
        -(quotient as i128)
    } else {
        quotient as i128
    }
}

/// `value` held to the coordinates that exist.
pub fn saturate(value: i128) -> (coordinate: i32)
    ensures
        coordinate == saturated(value as int),
{
    if value < i32::MIN as i128 {
        i32::MIN
    } else if value > i32::MAX as i128 {
        i32::MAX
    } else {
        value as i32
    }
}

} // verus!
