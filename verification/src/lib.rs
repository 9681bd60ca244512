//! A small competitive-reconstruction network over single-precision weights.
//!
//! Every scalar is carried as the bit pattern of an IEEE-754 binary32 value,
//! so that the arithmetic is reproducible bit for bit and the contracts can
//! speak of it exactly.

pub mod binary32;
pub mod decimal;
pub mod error;
pub mod neurology;
