//! Typed views over raw process memory: descriptors that size and decode byte
//! ranges, and the lifecycle rules of a handle on a foreign process.

pub mod ops;
pub mod typing;
