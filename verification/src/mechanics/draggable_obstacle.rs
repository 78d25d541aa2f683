//! The square: it appears on a ring around the button and drifts onto it,
//! where it is in the way until the player drags it off the field.

use vstd::prelude::*;
use crate::geometry::{
    distance_squared,
    point_on_ring,
    ring_point,
    travel_budget,
    Offset,
    Point,
    Window,
};
use crate::random::roll_between;
use crate::timer::{IntervalTimer, TimerMode};

verus! {

/// The time from the start of the mode, or from the loss of a square, to the
/// next square, in microseconds.
pub const SQUARE_SPAWN_INTERVAL: u64 = 3_000_000;

/// The side of the square.
pub const SQUARE_SIZE: u32 = 256_000;

/// The speed of the square, in world units per second.
pub const SQUARE_SPEED: u32 = 1_024_000;

/// A square this close to the button has arrived and rests: the square of
/// the distance.
pub const REST_DISTANCE_SQUARED: u128 = 10_000_000;

/// The obstacle.
#[derive(Clone, Copy, Debug, PartialEq, Eq)]
pub struct Square {
    pub position: Point,
    /// The direction of the last step, for whoever draws the square.
    pub heading: Offset,
    /// Where the player last dragged the square, if they ever did.
    pub drag_direction: Option<Offset>,
}

/// The timer that brings the next square, and the square on the field.
#[derive(Clone, Copy, Debug, PartialEq, Eq)]
pub struct SquareSpawner {
    pub spawn_timer: IntervalTimer,
    pub square: Option<Square>,
}

/// The radius of the ring on which squares appear, and beyond which a
/// dragged square is gone.
pub open spec fn spawn_ring_radius(window: Window) -> u32 {
    (window.width * 600) as u32
}

/// The distance from the button at which a dragged square leaves the field.
pub open spec fn leave_distance(window: Window) -> nat {
    (window.width * 1000) as nat
}

impl Square {
    /// A square that has just appeared at `position`.
    pub open spec fn fresh(position: Point) -> Square {
        Square { position, heading: Offset { dx: 0, dy: 0 }, drag_direction: None }
    }

    /// A drag, if there was one, is a gap between coordinates.
    pub open spec fn wf(self) -> bool {
        self.drag_direction matches Some(direction) ==> direction.is_short()
    }

    /// The square has arrived at the button and nobody drags it.
    pub open spec fn rests(self, button: Point) -> bool {
        distance_squared(self.position, button) <= REST_DISTANCE_SQUARED && self.drag_direction is None
    }

    /// Where the square is headed: where it was dragged, else to the button.
    pub open spec fn course(self, button: Point) -> Offset {
        match self.drag_direction {
            Some(direction) => direction,
            None => self.position.offset_to(button),
        }
    }

    /// The square has been dragged and was, before this tick's step, as far
    /// from the button as the window is wide.
    pub open spec fn leaves(self, button: Point, window: Window) -> bool {
        self.drag_direction is Some && distance_squared(self.position, button) >= leave_distance(window)
            * leave_distance(window)
    }

    /// The square after `dt` microseconds.
    pub open spec fn moved(self, button: Point, dt: u64) -> Square {
        if self.rests(button) {
            self
        } else {
            Square {
                position: self.position.pushed(self.course(button), travel_budget(SQUARE_SPEED, dt)),
                heading: self.course(button),
                ..self
            }
        }
    }

    /// The square as the player drags it by `(dx, dy)` on the screen, where
    /// down is positive: on the field it heads the same way, with up
    /// positive.
    pub open spec fn dragged(self, dx: i32, dy: i32) -> Square {
        Square { drag_direction: Some(Offset { dx: dx as i64, dy: (-dy) as i64 }), ..self }
    }

    /// The player drags the square by `(dx, dy)` on the screen.
    pub fn on_square_drag(&mut self, dx: i32, dy: i32)
        ensures
            *final(self) == old(self).dragged(dx, dy),
            final(self).wf(),
    {
        self.drag_direction = Some(Offset { dx: dx as i64, dy: -(dy as i64) });
    }
}

impl SquareSpawner {
    /// A square, if there is one, is well formed.
    pub open spec fn wf(self) -> bool {
        self.square matches Some(square) ==> square.wf()
    }

    /// The spawner after the square has moved for `dt` microseconds: a
    /// square that leaves the field is gone, and the timer starts over for
    /// the next one.
    pub open spec fn after_move(self, button: Point, window: Window, dt: u64) -> SquareSpawner {
        match self.square {
            None => self,
            Some(square) => if !square.rests(button) && square.leaves(button, window) {
                SquareSpawner { spawn_timer: self.spawn_timer.after_reset(), square: None }
            } else {
                SquareSpawner { square: Some(square.moved(button, dt)), ..self }
            },
        }
    }

    /// A spawner whose first square is one interval away.
    pub fn spawn_square_spawner() -> (spawner: Self)
        ensures
            spawner.spawn_timer == IntervalTimer::fresh(SQUARE_SPAWN_INTERVAL, TimerMode::Once),
            spawner.square is None,
            spawner.wf(),
    {
        SquareSpawner {
            spawn_timer: IntervalTimer::new(SQUARE_SPAWN_INTERVAL, TimerMode::Once),
            square: None,
        }
    }

    /// Puts a square on the ring around `button`, at the place that `across`
    /// and `upper` pick.
    pub fn spawn_square_at(&mut self, button: Point, window: Window, across: i64, upper: bool)
        ensures
            final(self).spawn_timer == old(self).spawn_timer,
            final(self).square == Some(
                Square::fresh(ring_point(button, spawn_ring_radius(window), across as int, upper)),
            ),
            final(self).wf(),
    {
        let radius: u32 = window.width as u32 * 600;
        self.square = Some(
            Square {
                position: point_on_ring(button, radius, across, upper),
                heading: Offset { dx: 0, dy: 0 },
                drag_direction: None,
            },
        );
    }

    /// Advances the spawn timer by `dt` microseconds and, on the tick in
    /// which its interval passes, puts a square at a place drawn from the
    /// ring around `button`.
    pub fn spawn_square(&mut self, button: Point, window: Window, dt: u64) -> (spawned: bool)
        requires
            old(self).wf(),
        ensures
            final(self).wf(),
            final(self).spawn_timer == old(self).spawn_timer.after_tick(dt),
            spawned == final(self).spawn_timer.just_finished,
            !spawned ==> final(self).square == old(self).square,
            spawned ==> exists|across: int, upper: bool|
                {
                    &&& -spawn_ring_radius(window) <= across <= spawn_ring_radius(window)
                    &&& final(self).square == Some(
                        Square::fresh(
                            #[trigger] ring_point(button, spawn_ring_radius(window), across, upper),
                        ),
                    )
                },
    {
        self.spawn_timer.tick(dt);
        if !self.spawn_timer.just_finished {
            return false;
        }
        let radius: i64 = window.width as i64 * 600;
        let across = roll_between(-radius, radius + 1);
        let upper = roll_between(0, 2) == 1;
        self.spawn_square_at(button, window, across, upper);
        true
    }

    /// Moves the square for `dt` microseconds: toward the button until it
    /// rests there, or where the player dragged it. Without a square nothing
    /// happens. Returns whether the square has left the field.
    pub fn move_square(&mut self, button: Point, window: Window, dt: u64) -> (left: bool)
        requires
            old(self).wf(),
        ensures
            *final(self) == old(self).after_move(button, window, dt),
            final(self).wf(),
            left == (old(self).square is Some && final(self).square is None),
    {
        let square = match self.square {
            None => {
                return false;
            },
            Some(square) => square,
        };
        let apart = square.position.distance_squared_to(button);
        if apart <= REST_DISTANCE_SQUARED && square.drag_direction.is_none() {
            return false;
        }
        let course = match square.drag_direction {
            Some(direction) => direction,
            None => square.position.offset_to(button),
        };
        let width: u128 = window.width as u128 * 1000;
        assert(width * width == leave_distance(window) * leave_distance(window)) by (nonlinear_arith)
            requires
                width == leave_distance(window),
        ;
        assert(width * width <= 70_000_000 * 70_000_000) by (nonlinear_arith)
            requires
                width <= 70_000_000,
        ;
        if square.drag_direction.is_some() && apart >= width * width {
            self.square = None;
            self.spawn_timer.reset();
            true
        } else {
            self.square = Some(
                Square {
                    position: square.position.moved_along(course, SQUARE_SPEED, dt),
                    heading: course,
                    drag_direction: square.drag_direction,
                },
            );
            false
        }
    }

    /// The player drags the square by `(dx, dy)` on the screen. Without a
    /// square nothing happens.
    pub fn on_drag(&mut self, dx: i32, dy: i32)
        requires
            old(self).wf(),
        ensures
            final(self).wf(),
            final(self).spawn_timer == old(self).spawn_timer,
            final(self).square == match old(self).square {
                Some(square) => Some(square.dragged(dx, dy)),
                None => None,
            },
    {
        match self.square {
            Some(mut square) => {
                square.on_square_drag(dx, dy);
                self.square = Some(square);
            },
            None => {},
        }
    }
}

} // verus!
