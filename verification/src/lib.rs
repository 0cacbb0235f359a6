//! Image registry and spritesheet compositor.
//!
//! Images carry a process-unique id, a display name, RGBA pixels and an
//! optional cached texture. A registry keeps them in insertion order, and the
//! compositor lays them out left to right in one strip.

pub mod codec;
pub mod compose;
pub mod entity;
pub mod error;
pub mod ids;
pub mod paths;
pub mod pixels;
pub mod raster;
pub mod registry;
pub mod texture;
