//! Posterize a PNG by keeping only the most significant bits of each color
//! channel, then re-encode and optimize it.

pub mod bits;
pub mod layout;
pub mod pipeline;
pub mod placement;
