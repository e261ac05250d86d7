//! Decision logic of a fishing macro: wildcard pattern scanning over memory
//! regions, the poller that turns sampled values into detections, the potion
//! timers with their cancellation epoch, and the coordinator state machine
//! that plans every simulated input.

pub mod bot;
pub mod utils;
