//! Four-lane 32-bit vector values: boolean masks, signed and unsigned
//! integers, and IEEE-754 single-precision lanes, each held as one 128-bit
//! register value.

pub mod v128;
pub mod bx4;
pub mod i32x4;
pub mod u32x4;
pub mod f32x4;

pub use bx4::Bx4;
pub use i32x4::I32x4;
pub use u32x4::U32x4;
pub use f32x4::F32x4;
pub use v128::V128;
