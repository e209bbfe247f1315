//! Frame scheduling, lookahead bookkeeping and block-level helpers of an AV1
//! encoder, with their contracts proved by Verus.

pub mod math;
pub mod pixel;
pub mod frame;
pub mod api;
pub mod tiling;
pub mod palette;
pub mod transform;
pub mod activity;
pub mod denoise;
pub mod decoder;
