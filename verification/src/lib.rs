//! A sprite-sheet frame-cycling animator: a repeating timer paces the advance
//! of a texture-atlas index through an inclusive frame range, wrapping back to
//! the first frame at the end of the range.
//!
//! The host engine owns the update loop, the entities and the rendering; this
//! crate holds the per-entity data and the per-tick advance rule.

pub mod animation;
pub mod timer;
