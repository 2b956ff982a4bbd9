//! Tick-precision time keeping and task notification on top of a real-time kernel.
//!
//! The kernel and the hardware timer are read by the caller; this library takes
//! the values read and decides what they mean and what to do next.

pub mod tick;
pub mod timeout;
pub mod notify;
pub mod hooks;
pub mod config;
pub mod delay;
