//! Status-bar segments for a terminal multiplexer: a git badge whose colour
//! follows the working tree's state, and a clock.

pub mod status;
pub mod text;
pub mod repo;
pub mod segment;
pub mod clock;
