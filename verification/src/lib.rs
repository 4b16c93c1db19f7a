//! A verified core for a network-attached virtual game controller.
//!
//! A remote client streams button and thumb-stick input; the library
//! translates each wire message into commands for an OS-level virtual
//! input device, coordinates the two per-connection loops (one draining
//! inbound input, one emitting device-originated force-feedback events),
//! and manages the allocation of device slots across connections.

pub mod bus;
pub mod codec;
pub mod device;
pub mod driver;
pub mod session;
