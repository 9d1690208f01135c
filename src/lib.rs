//! Control logic for a servo that flips a switch between two named states:
//! the position-to-pulse mapping, the actuation sequences, the configuration
//! record and its updates, and the decisions of the background scheduler.
pub mod api;
pub mod config;
pub mod schedule;
pub mod servo;
