//! Decoder for the binary STL mesh format: an 80-byte ASCII header, a
//! 4-byte triangle count field, then 50-byte triangle records.
//!
//! Multi-byte fields are assembled big-endian (first byte most
//! significant). Float components are carried as their raw IEEE-754
//! bit patterns (`u32`); reinterpreting the bits as a floating-point
//! number is left to callers.

pub mod codec;
pub mod mesh;
pub mod decode;
