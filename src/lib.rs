//! Locomotion and world core of a runner game: terrain chunk streaming, the
//! terrain noise lattice, the ground probe with its gravity, and the control
//! of the slide that keeps the player moving along surfaces.
pub mod chunks;
pub mod debug_texture;
pub mod grounding;
pub mod slide;
pub mod terrain;
