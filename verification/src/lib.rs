//! A 2D particle-steering simulation engine.
//!
//! A stream of moving agents ("electrons") is emitted from a source,
//! steered by attractor fields and a rotatable directional capture cone,
//! and removed when reaching a collector, driving a score and a
//! level-progression state machine.
//!
//! All geometry is carried out in fixed-point integer arithmetic:
//! angles are held in units of `2^-16` radians, positions in fine
//! sub-pixel units. Trigonometric values come from an integer CORDIC
//! implementation behind a small trusted boundary.

pub mod angle;
pub mod trig;
pub mod geom;
pub mod steer;
pub mod progression;
pub mod entities;
pub mod motion;
pub mod emit;
pub mod fields;
pub mod collect;
pub mod sim;
