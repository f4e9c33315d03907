//! Game logic of a side-scrolling kingdom builder: sprite-sheet frame cycling,
//! the monarch's input, movement and animation state machine, and the layout of
//! the endlessly repeating meadow background.
//!
//! Every function outside [`engine`] is verified. The engine (Bevy) and
//! `std::time` are reached through the small set of trusted items in
//! [`engine`]; the systems that read and write the ECS world live in the
//! application crate and call into this library with plain values.

pub mod engine;
pub mod animation;
pub mod player;
pub mod world;
