//! Frames over a byte stream: what the two halves of a framed transport
//! decide between their reads, writes and codec calls.

pub mod sinkable;
pub mod streamable;

use vstd::prelude::*;

verus! {

/// The size a frame buffer starts with.
pub const INITIAL_CAPACITY: usize = 8192;

/// The amount of unsent bytes from which on no further frame is accepted
/// before a flush.
pub const BACKPRESSURE_BOUNDARY: usize = INITIAL_CAPACITY;

} // verus!
