//! Text layout metrics and font selection for styled text runs.
//!
//! The crate answers "which font, which size, how to slice a run" for an
//! already-segmented run of characters under a fixed set of style tags:
//! a style-to-font resolution policy over a configuration of font roles and
//! heading sizes, and ownership-preserving slicing of text runs.

pub mod resources;
pub mod style;
pub mod util;
