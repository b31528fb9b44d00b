//! Three small families of memory-safe building blocks, each with a proved
//! contract: borrowed text whose result lives no longer than its inputs,
//! bounds-checked fixed buffers with clamped copying, and borrowed access
//! that leaves ownership where it was.

pub mod lifetimes;
pub mod overflow;
pub mod uaf;
