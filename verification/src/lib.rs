//! Verified controller logic for a USB-attached indicator light.
//!
//! The light is driven by two fixed 8-byte interrupt-transfer messages:
//! a wake message followed by a color message. This crate builds those
//! messages and decides, from the command-line arguments, the exact
//! sequence of device actions an invocation performs. Performing the
//! actions (opening the device, the transfers) is left to the binary
//! around this library.

pub mod controller;
pub mod hexfmt;
pub mod message;
