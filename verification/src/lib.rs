//! Four character codes: 32-bit identifiers written as four bytes, as used to
//! tag chunks and formats in binary containers.
//!
//! A [`FourCC`] is exactly four bytes. It can be read as text (each byte one
//! character) or as a big-endian `u32` (first byte most significant). Equality
//! and ordering go by the four bytes alone, first byte first, whichever form a
//! code was made from or is compared against.

pub mod code;
pub mod convert;
pub mod order;
pub mod render;

pub use code::{FourCC, FourCCError, TypeId};
