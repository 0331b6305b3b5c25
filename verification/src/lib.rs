//! A reference implementation of the MD5 message digest: a deterministic
//! function from an arbitrary byte sequence to a 128-bit value, built from
//! padding, 64-byte block decomposition, a 64-round compression loop over a
//! four-word running state, and a final byte-reordering assembly.
//!
//! MD5 is provided as historically specified; it offers no collision
//! resistance and must not be used where one is needed.

pub mod bytes;
pub mod compress;
pub mod digest;
pub mod mix;
pub mod padding;
pub mod tables;

pub use digest::md5;
