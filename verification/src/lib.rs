//! The rules of a short arcade survival round, stated and proved.
//!
//! A scripted timeline introduces hazards one after another: a button that
//! must be clicked before its time bar runs out, a durability bar that wears
//! down with every click, waves of projectiles, a shape that hunts the
//! player, an obstacle that has to be dragged away. The first hazard that
//! fails ends the round; surviving the script wins it.
//!
//! Every quantity is an integer. Time is counted in microseconds, and
//! positions in thousandths of a pixel.
//! Nothing here draws, plays a sound or reads a file: a host feeds in the
//! elapsed time and the pointer events of each frame and shows what comes
//! back.

pub mod decimal;
pub mod game_sequencer;
pub mod gauge;
pub mod geometry;
pub mod mechanic;
pub mod mechanics;
pub mod outcome;
pub mod player;
mod random;
pub mod round;
pub mod text;
pub mod timer;
