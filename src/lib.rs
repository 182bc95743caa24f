//! Frame-by-frame decisions of a Pong game whose paddles, ball and score
//! board each live in a desktop window of their own.
//!
//! The window system and the floating-point motion are handled by the
//! program around this library; what is decided here works on integers.
pub mod collision;
pub mod eye;
pub mod game;
