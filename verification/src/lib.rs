//! Sprite-sheet animation core.
//!
//! The library parses an XML atlas manifest into a sequence of named
//! sub-texture records, derives a per-entry visual-compensation table from the
//! logical frame offsets, and drives per-entity animation playback: prefix
//! ranges over the manifest, a per-tick frame-advance state machine with
//! optional looping, and the subtract-old/add-new position compensation that
//! keeps frames of differing packed size visually stable.
//!
//! All geometry is exact integer arithmetic. Offset-table entries are stored
//! doubled (half-pixel units, `(-frameX, frameY)`), so that halving never
//! rounds inside the core; a presentation adapter divides by two (and by any
//! additional world-scale divisor a 3D presentation uses) when converting to
//! world coordinates.

pub mod bytes;
pub mod engine;
pub mod laws;
pub mod manifest;
pub mod offsets;
pub mod parse;
pub mod playback;
