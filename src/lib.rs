//! A global allocator that hands every request to a host's allocator.
//!
//! `size` rounds a request up to its alignment, since the host takes no
//! alignment of its own; `dispatch` decides, for each of the four allocator
//! operations, which host entry point to call and with what, or that the
//! process must abort because that entry point is missing.

pub mod dispatch;
pub mod size;
