//! The pentagon: it appears at a fixed distance from the player and walks
//! straight at them.

use vstd::prelude::*;
use crate::geometry::{discs_touch, point_on_ring, ring_point, travel_budget, Offset, Point};
use crate::outcome::{FailReason, Outcome};
use crate::player::PLAYER_SIZE;
use crate::random::roll_between;

verus! {

/// The radius of the pentagon.
pub const PENTAGON_SIZE: u32 = 48_000;

/// The speed of the pentagon, in world units per second.
pub const PENTAGON_SPEED: u32 = 128_000;

/// How far from the player the pentagon appears.
pub const SPAWN_DISTANCE: u32 = 1_024_000;

/// The shape that hunts the player.
#[derive(Clone, Copy, Debug, PartialEq, Eq, Structural)]
pub struct Pentagon {
    pub position: Point,
    /// The direction of the last step, for whoever draws the pentagon.
    pub heading: Offset,
}

impl Pentagon {
    /// A pentagon that has just appeared at `position`.
    pub open spec fn fresh(position: Point) -> Pentagon {
        Pentagon { position, heading: Offset { dx: 0, dy: 0 } }
    }

    /// The pentagon after walking toward `player` for `dt` microseconds.
    pub open spec fn moved(self, player: Point, dt: u64) -> Pentagon {
        Pentagon {
            position: self.position.pushed(
                self.position.offset_to(player),
                travel_budget(PENTAGON_SPEED, dt),
            ),
            heading: self.position.offset_to(player),
        }
    }

    /// The pentagon touches the player.
    pub open spec fn catches(self, player: Point) -> bool {
        discs_touch(self.position, PENTAGON_SIZE, player, PLAYER_SIZE)
    }

    /// The verdict of a tick that starts with the player at `player`.
    pub open spec fn verdict(self, player: Point) -> Outcome {
        if self.catches(player) {
            Outcome::Fail(FailReason::Caught)
        } else {
            Outcome::Continue
        }
    }

    /// A pentagon on the ring around `player`, at the place that `across` and
    /// `upper` pick.
    pub fn spawn_pentagon_at(player: Point, across: i64, upper: bool) -> (pentagon: Self)
        ensures
            pentagon == Self::fresh(ring_point(player, SPAWN_DISTANCE, across as int, upper)),
    {
        Pentagon {
            position: point_on_ring(player, SPAWN_DISTANCE, across, upper),
            heading: Offset { dx: 0, dy: 0 },
        }
    }

    /// A pentagon at a place drawn from the ring around `player`.
    pub fn spawn_pentagon(player: Point) -> (pentagon: Self)
        ensures
            exists|across: int, upper: bool|
                -SPAWN_DISTANCE <= across <= SPAWN_DISTANCE && pentagon == Self::fresh(
                    #[trigger] ring_point(player, SPAWN_DISTANCE, across, upper),
                ),
    {
        let across = roll_between(-(SPAWN_DISTANCE as i64), SPAWN_DISTANCE as i64 + 1);
        let upper = roll_between(0, 2) == 1;
        Self::spawn_pentagon_at(player, across, upper)
    }

    /// Walks toward the player for `dt` microseconds. The round is lost on
    /// the tick that starts with the pentagon touching the player, and on no
    /// tick that starts with the two apart.
    pub fn move_to_player(&mut self, player: Point, dt: u64) -> (outcome: Outcome)
        ensures
            *final(self) == old(self).moved(player, dt),
            outcome == old(self).verdict(player),
            outcome == Outcome::Fail(FailReason::Caught) <==> old(self).catches(player),
    {
        let before = self.position;
        self.heading = before.offset_to(player);
        self.position = before.moved_toward(player, PENTAGON_SPEED, dt);
        if before.touches(PENTAGON_SIZE, player, PLAYER_SIZE) {
            Outcome::Fail(FailReason::Caught)
        } else {
            Outcome::Continue
        }
    }
}

} // verus!
