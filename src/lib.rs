//! Rewrites images so that both of their dimensions are multiples of four.
//!
//! The library holds the decisions: which dimensions an image is given, when
//! it is resampled and re-encoded as PNG, what one line of outcome text says
//! about each file, and the append-only log of those lines. Reading and writing
//! files, and the window that receives dropped files, stay with the caller.

pub mod log;
pub mod outcome;
pub mod picture;
pub mod planner;
pub mod rewriter;

pub use log::ActionLog;
pub use outcome::Outcome;
pub use picture::Picture;
pub use planner::{closest_multiple_4, plan, Plan};
pub use rewriter::{after_decode, after_write, can_rewrite, receive, Action};
