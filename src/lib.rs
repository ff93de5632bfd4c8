//! Primitives for handling secret bytes in memory: scrubbing a buffer with
//! writes the optimizer cannot drop, and the decisions around pinning a
//! buffer's pages so that they are not swapped out.
pub mod backend;
pub mod error;
pub mod facade;
pub mod scrub;
pub mod view;
