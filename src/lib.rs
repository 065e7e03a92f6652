//! Referee-control core for a robot-soccer match: the wire formats exchanged
//! with robots and monitors, the single-writer state engine, the ordered event
//! queue that feeds it, the UI sink that holds snapshots back until the UI is
//! ready, and the decisions that the per-socket network services take.

pub mod address;
pub mod channel;
pub mod control;
pub mod dispatch;
pub mod engine;
pub mod receiver;
pub mod wire;
