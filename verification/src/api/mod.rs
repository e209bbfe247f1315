//! The encoder's public interface: configuration, contexts and the frame
//! scheduling behind them.

pub mod config;
pub mod inter_config;
pub mod lookahead;
pub mod frame_info;
pub mod frame_queue;
pub mod status;
pub mod schedule;
pub mod internal;
pub mod context;
pub mod laws;
pub mod importance;
