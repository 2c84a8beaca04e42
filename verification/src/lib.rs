//! Busy-wait synchronization primitives for targets without a scheduler:
//! a spin lock, a monotonic three-state progress flag, and a value cell
//! that is initialized at most once.

pub mod cell;
pub mod lock;
pub mod ready;
