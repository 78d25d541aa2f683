//! The hazards, one controller each.
//!
//! A controller is made when its mode is entered, advanced once per tick,
//! and told of the clicks and drags that land on what it owns. Each tick it
//! returns one verdict.

pub mod click_target;
pub mod durability;
pub mod projectile_wave;
pub mod homing_shape;
pub mod draggable_obstacle;
