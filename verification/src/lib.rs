//! Stacking of same-sized sensor rasters into one composite frame.
//!
//! The crate combines frames pairwise under a brightest-pixel or a saturating
//! additive rule, removes a master dark frame by saturating subtraction, and
//! assigns each frame its intensity weight from its place in the sequence.

pub mod image;
pub mod kernel;
pub mod merger;
pub mod pipeline;
pub mod protocol;
pub mod queue;
pub mod raw;
pub mod reduction;
pub mod stacking;
