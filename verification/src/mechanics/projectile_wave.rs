//! Waves of triangles that fly at the button. A click destroys a triangle;
//! one that reaches the button ends the round.

use vstd::prelude::*;
use crate::geometry::{discs_touch, saturate, travel_budget, Offset, Point, Window};
use crate::mechanics::click_target::THE_BUTTON_SIZE;
use crate::outcome::{FailReason, Outcome};
use crate::player::Player;
use crate::random::roll_between;
use crate::timer::{IntervalTimer, TimerMode};

verus! {

/// The time between two triangles, in microseconds.
pub const TRIANGLE_SPAWN_INTERVAL: u64 = 2_500_000;

/// The radius of a triangle.
pub const TRIANGLE_SIZE: u32 = 48_000;

/// The speed of a triangle, in world units per second.
pub const TRIANGLE_SPEED: u32 = 96_000;

/// The pieces a destroyed triangle leaves behind.
pub const FRAGMENTS_PER_TRIANGLE: usize = 8;

/// How far from the wreck a piece may lie, along either axis.
pub const FRAGMENT_SPREAD: i64 = 14_400;

/// The rotations a piece can have: thousandths of a radian in a full turn.
pub const FRAGMENT_ROTATIONS: i64 = 6_283;

/// One projectile.
#[derive(Clone, Copy, Debug, PartialEq, Eq, Structural)]
pub struct Triangle {
    pub position: Point,
    /// The direction of the last step, for whoever draws the triangle.
    pub heading: Offset,
}

/// A triangle has been clicked away.
#[derive(Clone, Copy, Debug, PartialEq, Eq, Structural)]
pub struct OnTriangleDestroyed {
    pub location: Point,
}

/// A piece of wreckage: decoration, nothing collides with it.
#[derive(Clone, Copy, Debug, PartialEq, Eq, Structural)]
pub struct Fragment {
    pub position: Point,
    /// In thousandths of a radian.
    pub rotation: u16,
}

/// The wave: the timer that releases triangles, and the triangles in flight,
/// oldest first.
pub struct TriangleSpawner {
    pub spawn_timer: IntervalTimer,
    pub triangles: Vec<Triangle>,
}

/// The wave as a value.
pub struct TriangleSpawnerView {
    pub spawn_timer: IntervalTimer,
    pub triangles: Seq<Triangle>,
}

impl View for TriangleSpawner {
    type V = TriangleSpawnerView;

    open spec fn view(&self) -> TriangleSpawnerView {
        TriangleSpawnerView { spawn_timer: self.spawn_timer, triangles: self.triangles@ }
    }
}

/// Half the height of the band at the right edge in which triangles appear.
pub open spec fn spawn_band(window: Window) -> int {
    window.height * 400
}

/// Where a triangle appears: beyond the right edge, at the height drawn.
pub open spec fn spawn_point(window: Window, height: int) -> Point {
    Point { x: (window.width * 700) as i32, y: height as i32 }
}

/// No triangle before `upto` reaches the target with this tick's step.
pub open spec fn none_reach(triangles: Seq<Triangle>, upto: int, target: Point, dt: u64) -> bool {
    forall|j: int| 0 <= j < upto && j < triangles.len() ==> !(#[trigger] triangles[j]).reaches(target, dt)
}

/// The triangles after a tick of flight toward `target`: each one up to and
/// including the first that reaches the target has moved, the ones behind
/// it have not.
pub open spec fn wave_after_move(triangles: Seq<Triangle>, target: Point, dt: u64) -> Seq<Triangle> {
    Seq::new(
        triangles.len(),
        |i: int|
            if none_reach(triangles, i, target, dt) {
                triangles[i].moved(target, dt)
            } else {
                triangles[i]
            },
    )
}

/// The verdict of a tick of flight: the round is lost if any triangle
/// reaches the target.
pub open spec fn verdict_of_move(triangles: Seq<Triangle>, target: Point, dt: u64) -> Outcome {
    if none_reach(triangles, triangles.len() as int, target, dt) {
        Outcome::Continue
    } else {
        Outcome::Fail(FailReason::Destroyed)
    }
}

/// A piece lies within the spread of the wreck.
pub open spec fn is_fragment_of(fragment: Fragment, location: Point) -> bool {
    &&& location.x - FRAGMENT_SPREAD <= fragment.position.x <= location.x + FRAGMENT_SPREAD
    &&& location.y - FRAGMENT_SPREAD <= fragment.position.y <= location.y + FRAGMENT_SPREAD
    &&& fragment.rotation < FRAGMENT_ROTATIONS
}

impl Triangle {
    /// A triangle that has just appeared at `position`.
    pub open spec fn fresh(position: Point) -> Triangle {
        Triangle { position, heading: Offset { dx: 0, dy: 0 } }
    }

    /// The triangle after flying toward `target` for `dt` microseconds.
    pub open spec fn moved(self, target: Point, dt: u64) -> Triangle {
        Triangle {
            position: self.position.pushed(
                self.position.offset_to(target),
                travel_budget(TRIANGLE_SPEED, dt),
            ),
            heading: self.position.offset_to(target),
        }
    }

    /// After this tick's step the triangle touches the button at `target`.
    pub open spec fn reaches(self, target: Point, dt: u64) -> bool {
        discs_touch(self.moved(target, dt).position, TRIANGLE_SIZE, target, THE_BUTTON_SIZE)
    }

    /// Flies toward `target` for `dt` microseconds.
    pub fn fly(self, target: Point, dt: u64) -> (after: Triangle)
        ensures
            after == self.moved(target, dt),
    {
        Triangle {
            position: self.position.moved_toward(target, TRIANGLE_SPEED, dt),
            heading: self.position.offset_to(target),
        }
    }
}

impl TriangleSpawner {
    /// A wave that has released nothing yet.
    pub fn spawn_triangle_spawner() -> (spawner: Self)
        ensures
            spawner.spawn_timer == IntervalTimer::fresh(
                TRIANGLE_SPAWN_INTERVAL,
                TimerMode::Repeating,
            ),
            spawner.triangles@ == Seq::<Triangle>::empty(),
    {
        TriangleSpawner {
            spawn_timer: IntervalTimer::new(TRIANGLE_SPAWN_INTERVAL, TimerMode::Repeating),
            triangles: Vec::new(),
        }
    }

    /// Releases a triangle beyond the right edge of the window, at the given
    /// height.
    pub fn spawn_triangle_at(&mut self, window: Window, height: i32)
        ensures
            final(self).spawn_timer == old(self).spawn_timer,
            final(self).triangles@ == old(self).triangles@.push(
                Triangle::fresh(spawn_point(window, height as int)),
            ),
    {
        let x: i32 = window.width as i32 * 700;
        self.triangles.push(
            Triangle { position: Point { x, y: height }, heading: Offset { dx: 0, dy: 0 } },
        );
    }

    /// Advances the spawn timer by `dt` microseconds and, on a tick in which
    /// its interval passes, releases one triangle at a height drawn from the
    /// spawn band. A window without height has no band, and nothing is
    /// released into it.
    pub fn spawn_triangles(&mut self, window: Window, dt: u64) -> (spawned: bool)
        ensures
            final(self).spawn_timer == old(self).spawn_timer.after_tick(dt),
            spawned == (final(self).spawn_timer.finished && window.height > 0),
            !spawned ==> final(self).triangles@ == old(self).triangles@,
            spawned ==> exists|height: int|
                {
                    &&& -spawn_band(window) <= height < spawn_band(window)
                    &&& final(self).triangles@ == old(self).triangles@.push(
                        Triangle::fresh(#[trigger] spawn_point(window, height)),
                    )
                },
    {
        self.spawn_timer.tick(dt);
        if !self.spawn_timer.finished || window.height == 0 {
            return false;
        }
        let band: i64 = window.height as i64 * 400;
        let height = roll_between(-band, band);
        self.spawn_triangle_at(window, height as i32);
        true
    }

    /// Moves the triangles toward the button at `target`, oldest first, and
    /// stops at the first one whose step brings it into touch with the
    /// button: that one ends the round, and the ones behind it stay where
    /// they were.
    pub fn move_triangles(&mut self, target: Point, dt: u64) -> (outcome: Outcome)
        ensures
            final(self).spawn_timer == old(self).spawn_timer,
            final(self).triangles@ == wave_after_move(old(self).triangles@, target, dt),
            outcome == verdict_of_move(old(self).triangles@, target, dt),
    {
        let ghost before = self.triangles@;
        let mut i: usize = 0;
        while i < self.triangles.len()
            invariant
                i <= self.triangles@.len(),
                self.triangles@.len() == before.len(),
                self.spawn_timer == old(self).spawn_timer,
                before == old(self).triangles@,
                none_reach(before, i as int, target, dt),
                forall|k: int| 0 <= k < i ==> #[trigger] self.triangles@[k] == before[k].moved(target, dt),
                forall|k: int| i <= k < before.len() ==> #[trigger] self.triangles@[k] == before[k],
            decreases self.triangles@.len() - i,
        {
            let after = self.triangles[i].fly(target, dt);
            self.triangles.set(i, after);
            if after.position.touches(TRIANGLE_SIZE, target, THE_BUTTON_SIZE) {
                assert(before[i as int].reaches(target, dt));
                assert(self.triangles@ =~= wave_after_move(before, target, dt));
                return Outcome::Fail(FailReason::Destroyed);
            }
            i += 1;
        }
        assert(self.triangles@ =~= wave_after_move(before, target, dt));
        Outcome::Continue
    }

    /// A click has landed on the triangle at `index`: it is taken out of the
    /// wave, and the player has hit a target. A click on a triangle that is
    /// no longer there changes nothing.
    pub fn destroy_clicked_triangle(&mut self, index: usize, player: &mut Player) -> (destroyed: Option<
        OnTriangleDestroyed,
    >)
        ensures
            final(self).spawn_timer == old(self).spawn_timer,
            index < old(self).triangles@.len() ==> {
                &&& final(self).triangles@ == old(self).triangles@.remove(index as int)
                &&& destroyed == Some(
                    OnTriangleDestroyed { location: old(self).triangles@[index as int].position },
                )
                &&& *final(player) == (Player { clicked_on_target: true, ..*old(player) })
            },
            index >= old(self).triangles@.len() ==> {
                &&& final(self).triangles@ == old(self).triangles@
                &&& destroyed is None
                &&& *final(player) == *old(player)
            },
    {
        if index < self.triangles.len() {
            let triangle = self.triangles.remove(index);
            player.clicked_on_target = true;
            Some(OnTriangleDestroyed { location: triangle.position })
        } else {
            None
        }
    }
}

/// The wreckage of a destroyed triangle: a fixed number of pieces, each
/// thrown to a place drawn from the spread around the wreck and turned by an
/// angle drawn from the full turn.
pub fn create_triangle_destroyed_effect(event: OnTriangleDestroyed) -> (fragments: Vec<Fragment>)
    ensures
        fragments@.len() == FRAGMENTS_PER_TRIANGLE,
        forall|i: int| 0 <= i < fragments@.len() ==> is_fragment_of(#[trigger] fragments@[i], event.location),
{
    let mut fragments: Vec<Fragment> = Vec::new();
    while fragments.len() < FRAGMENTS_PER_TRIANGLE
        invariant
            fragments@.len() <= FRAGMENTS_PER_TRIANGLE,
            forall|i: int|
                0 <= i < fragments@.len() ==> is_fragment_of(#[trigger] fragments@[i], event.location),
        decreases FRAGMENTS_PER_TRIANGLE - fragments@.len(),
    {
        let x = roll_between(
            event.location.x as i64 - FRAGMENT_SPREAD,
            event.location.x as i64 + FRAGMENT_SPREAD,
        );
        let y = roll_between(
            event.location.y as i64 - FRAGMENT_SPREAD,
            event.location.y as i64 + FRAGMENT_SPREAD,
        );
        let rotation = roll_between(0, FRAGMENT_ROTATIONS);
        fragments.push(scatter(event.location, x, y, rotation as u16));
    }
    fragments
}

/// The piece thrown to `(x, y)`, held to the coordinates that exist.
fn scatter(location: Point, x: i64, y: i64, rotation: u16) -> (fragment: Fragment)
    requires
        location.x - FRAGMENT_SPREAD <= x <= location.x + FRAGMENT_SPREAD,
        location.y - FRAGMENT_SPREAD <= y <= location.y + FRAGMENT_SPREAD,
        rotation < FRAGMENT_ROTATIONS,
    ensures
        is_fragment_of(fragment, location),
{
    Fragment { position: Point { x: saturate(x as i128), y: saturate(y as i128) }, rotation }
}

} // verus!
