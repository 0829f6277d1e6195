//! Driver subsystem: the central base, block devices and buses.
pub mod base;
pub mod block;
pub mod bus;
