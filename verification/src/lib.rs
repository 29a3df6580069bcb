//! Verified input handling for a free-flight scene viewer.
//!
//! The crate holds the decisions of an interactive viewer: which keys are
//! held, whether the pointer is captured, what a pointer sample turns into,
//! what a frame tick moves and reports, how option values and pose text are
//! read. Floating-point arithmetic, windows and GPU work stay with the caller,
//! which performs the actions this crate returns.

pub mod keys;
pub mod pointer;
pub mod timing;
pub mod viewer;
pub mod laws;
pub mod surface;
pub mod options;
pub mod text;
