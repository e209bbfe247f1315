//! Views of frame-wide data restricted to one tile.

pub mod tile_motion_stats;
