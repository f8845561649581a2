//! Camera rig and character-controller logic for a third-person game.
//!
//! All continuous quantities are fixed-point integers: lengths, times, speeds
//! and factors are counted in thousandths (see [`fixed::ONE`]), orbit angles in
//! billionths of a half turn (see [`fixed::HALF_TURN`]). The engine side turns
//! its own values into these and back.
pub mod camera;
pub mod fixed;
pub mod player;
pub mod window;
