//! A small real-time rendering runtime: a graphics abstraction over GL backends with
//! integer or opaque object handles, and the time-driven animation engine (clock,
//! interpolation, animated transforms) that updates a scene before it is drawn.

pub mod animation;
pub mod backend;
pub mod canvas;
pub mod clock;
pub mod gpu;
pub mod interpolate;
pub mod program;
pub mod shader;
pub mod transform;
