//! Conversion between the hyphenated text form of a 128-bit identifier and
//! the mixed-endian "raw hex" form that some platform APIs keep in memory.
pub mod hex;
pub mod codec;
pub mod laws;
pub mod shape;
pub mod dispatch;
pub mod editor;
