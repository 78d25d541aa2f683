//! The player: a dot that follows the pointer.

use vstd::prelude::*;
use crate::geometry::Point;

verus! {

/// The radius of the player's dot.
pub const PLAYER_SIZE: u32 = 16_000;

/// The player.
#[derive(Clone, Copy, Debug, PartialEq, Eq, Structural)]
pub struct Player {
    pub position: Point,
    /// The last click landed on something a hazard owns, so it draws no
    /// ripple of its own.
    pub clicked_on_target: bool,
}

impl Default for Player {
    fn default() -> (player: Self)
        ensures
            player == (Player { position: Point { x: 0, y: 0 }, clicked_on_target: false }),
    {
        Player { position: Point { x: 0, y: 0 }, clicked_on_target: false }
    }
}

impl Player {
    /// The player after the pointer has been seen at `cursor`, or not at all.
    pub open spec fn after_move(self, cursor: Option<Point>) -> Player {
        match cursor {
            Some(position) => Player { position, ..self },
            None => self,
        }
    }

    /// Follows the pointer. While the pointer is outside the window the
    /// player stays where it is.
    pub fn move_player(&mut self, cursor: Option<Point>)
        ensures
            *final(self) == old(self).after_move(cursor),
    {
        if let Some(position) = cursor {
            self.position = position;
        }
    }
}

} // verus!
