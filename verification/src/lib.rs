//! Low-level data-access core of an entity/resource data engine.
//!
//! The crate has three layers:
//!
//! - [`type_erased`]: a contiguous byte arena plus a parallel metadata table
//!   that stores heterogeneous values by bit-copy, in insertion order.
//! - [`tick`] and [`change_detection`]: wrapping 32-bit tick arithmetic and
//!   accessors that answer "was this value added or changed since I last
//!   looked", stamping the change tick on every sanctioned mutable access.
//! - [`commands`]: a deferred command queue built on the erased buffer that
//!   replays staged commands against a shared store in first-in-first-out
//!   order and routes each failure to exactly one handler.

pub mod change_detection;
pub mod commands;
pub mod tick;
pub mod type_erased;
